use vstd::prelude::*;

use crate::component_showcase::ComponentShowcase;
use crate::component_showcase::ShowcaseFrame;
use crate::components::Components;
use crate::view_host::DemoView;
use crate::view_host::ViewHost;

verus! {

/// The heading the page shows while nothing is selected.
pub open spec fn welcome_heading() -> Seq<char> {
    "Welcome to GPUI Component Demo"@
}

/// The hint under the welcome heading.
pub open spec fn welcome_hint() -> Seq<char> {
    "Select a component from the sidebar to view its demo"@
}

/// What one rendering of the page puts on screen: the showcase for the
/// selected kind, or the welcome placeholder while nothing is selected.
#[derive(Clone, Copy, Debug)]
pub enum PageFrame {
    Welcome { heading: &'static str, hint: &'static str },
    Showcase { frame: ShowcaseFrame },
}

/// The navigator: either empty (nothing selected, nothing mounted) or showing
/// one kind with exactly one demo view mounted for it. Selecting mounts a
/// fresh view and drops the old one; clearing drops the view and returns to
/// the welcome placeholder.
pub struct MainPage {
    pub showcase: Option<ComponentShowcase>,
}

/// The state `select(component)` leads to: showing `component`, with the one
/// mounted view freshly built by the host, whatever the state was before.
pub open spec fn spec_select(page: MainPage, host: ViewHost, component: Components) -> (MainPage,
    ViewHost) {
    (
        MainPage {
            showcase: Some(
                ComponentShowcase {
                    component,
                    current_view: Some(DemoView { kind: component, handle: host.created }),
                },
            ),
        },
        ViewHost { created: (host.created + 1) as u64 },
    )
}

/// The state `clear()` leads to: empty, with no view mounted, whatever the
/// state was before.
pub open spec fn spec_clear(page: MainPage) -> MainPage {
    MainPage { showcase: None }
}

impl MainPage {
    /// The selected kind: `None` while the page shows the welcome placeholder.
    pub open spec fn selected(self) -> Option<Components> {
        match self.showcase {
            Some(s) => Some(s.component),
            None => None,
        }
    }

    /// The mounted demo view, when one is mounted.
    pub open spec fn current_view(self) -> Option<DemoView> {
        match self.showcase {
            Some(s) => s.current_view,
            None => None,
        }
    }

    /// The page is showing `component` with a view mounted for it.
    pub open spec fn is_showing(self, component: Components) -> bool {
        &&& self.selected() == Some(component)
        &&& self.current_view() matches Some(v) && v.kind == component
    }

    /// A view is mounted exactly while a kind is selected, and it was built by
    /// the selected kind's factory.
    pub open spec fn inv(self) -> bool {
        match self.showcase {
            Some(s) => s.inv() && s.current_view is Some,
            None => true,
        }
    }

    /// The mounted view, when there is one, came from `host`.
    pub open spec fn view_from(self, host: ViewHost) -> bool {
        match self.showcase {
            Some(s) => s.view_from(host),
            None => true,
        }
    }

    /// A page in the empty state.
    pub fn new() -> (p: MainPage)
        ensures
            p.showcase is None,
            p.selected() is None,
            p.current_view() is None,
            p.inv(),
    {
        MainPage { showcase: None }
    }

    /// Select `component`: the registry factory is invoked against the host,
    /// the freshly built view replaces whatever was mounted, and the page
    /// shows the kind's header, description and link above it.
    pub fn show_component(&mut self, component: Components, host: &mut ViewHost)
        requires
            old(host).created < u64::MAX,
        ensures
            (*final(self), *final(host)) == spec_select(*old(self), *old(host), component),
            final(self).is_showing(component),
            final(self).inv(),
            final(self).view_from(*final(host)),
    {
        match &mut self.showcase {
            Some(showcase) => {
                showcase.set_component(component, host);
            },
            None => {
                let mut showcase = ComponentShowcase::new(component);
                showcase.set_component(component, host);
                self.showcase = Some(showcase);
            },
        }
    }

    /// Clear the selection: the mounted view is dropped and the page returns
    /// to the welcome placeholder.
    pub fn show_welcome(&mut self)
        ensures
            *final(self) == spec_clear(*old(self)),
            final(self).selected() is None,
            final(self).current_view() is None,
            final(self).inv(),
    {
        self.showcase = None;
    }

    /// Render the page: the welcome placeholder while nothing is selected,
    /// else the showcase for the selection (mounting its view first if none
    /// is mounted yet).
    pub fn render(&mut self, host: &mut ViewHost) -> (f: PageFrame)
        requires
            old(self).inv(),
            old(host).created < u64::MAX,
        ensures
            final(self).inv(),
            *final(self) == *old(self),
            *final(host) == *old(host),
            match f {
                PageFrame::Welcome { heading, hint } => {
                    &&& old(self).selected() is None
                    &&& heading@ == welcome_heading()
                    &&& hint@ == welcome_hint()
                },
                PageFrame::Showcase { frame } => {
                    &&& old(self).selected() == Some(frame.view.kind)
                    &&& old(self).current_view() == Some(frame.view)
                    &&& frame.title@ == crate::components::spec_name(frame.view.kind)
                    &&& frame.description@ == crate::components::spec_description(frame.view.kind)
                    &&& frame.link@ == crate::components::spec_link(frame.view.kind)
                },
            },
    {
        match &mut self.showcase {
            Some(showcase) => {
                let frame = showcase.render(host);
                PageFrame::Showcase { frame }
            },
            None => PageFrame::Welcome {
                heading: "Welcome to GPUI Component Demo",
                hint: "Select a component from the sidebar to view its demo",
            },
        }
    }
}

/// Selecting a kind and then selecting the same kind again leaves the page
/// showing that kind, and the one mounted view is a fresh instance: the view
/// mounted by the first selection is no longer held anywhere in the state.
pub proof fn lemma_reselect_replaces_view(page: MainPage, host: ViewHost, component: Components)
    requires
        host.created < u64::MAX,
    ensures
        ({
            let (p1, h1) = spec_select(page, host, component);
            let (p2, h2) = spec_select(p1, h1, component);
            &&& p2.is_showing(component)
            &&& p1.current_view() is Some
            &&& p2.current_view() is Some
            &&& p2.current_view() != p1.current_view()
        }),
{
}

/// Selecting `a` and then a different kind `b` leaves the page showing `b`
/// with exactly one mounted view, built by `b`'s factory; the view mounted
/// for `a` is no longer held anywhere in the state.
pub proof fn lemma_select_switches_view(
    page: MainPage,
    host: ViewHost,
    a: Components,
    b: Components,
)
    requires
        a != b,
        host.created < u64::MAX,
    ensures
        ({
            let (p1, h1) = spec_select(page, host, a);
            let (p2, h2) = spec_select(p1, h1, b);
            &&& p2.is_showing(b)
            &&& p2.current_view() matches Some(v) && v.kind == b
            &&& p2.current_view() != p1.current_view()
        }),
{
}

/// No caching survives a clear: selecting a kind, clearing, and selecting the
/// same kind again mounts a second, independent view instance.
pub proof fn lemma_no_caching_across_clear(page: MainPage, host: ViewHost, component: Components)
    requires
        host.created < u64::MAX,
    ensures
        ({
            let (p1, h1) = spec_select(page, host, component);
            let cleared = spec_clear(p1);
            let (p2, h2) = spec_select(cleared, h1, component);
            &&& cleared.current_view() is None
            &&& p2.is_showing(component)
            &&& p2.current_view() != p1.current_view()
        }),
{
}

} // verus!
