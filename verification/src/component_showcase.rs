use vstd::prelude::*;

use crate::components::ComponentMeta;
use crate::components::Components;
use crate::components::spec_description;
use crate::components::spec_link;
use crate::components::spec_name;
use crate::view_host::DemoView;
use crate::view_host::ViewHost;

verus! {

/// What one rendering of the showcase puts on screen: the selected kind's
/// display name as the header, its description, its documentation link as a
/// clickable affordance, and the mounted demo view in the scrollable body.
#[derive(Clone, Copy, Debug)]
pub struct ShowcaseFrame {
    pub title: &'static str,
    pub description: &'static str,
    pub link: &'static str,
    pub view: DemoView,
}

/// The showcase pane: the kind it presents and the demo view mounted for it.
/// The view is created lazily at the first rendering and cached across
/// re-renderings of the same selection; `set_component` always mounts a fresh
/// view and drops the old one.
pub struct ComponentShowcase {
    pub component: Components,
    pub current_view: Option<DemoView>,
}

impl ComponentShowcase {
    /// The mounted view, when there is one, was built by the selected kind's
    /// factory.
    pub open spec fn inv(self) -> bool {
        match self.current_view {
            Some(v) => v.kind == self.component,
            None => true,
        }
    }

    /// The mounted view, when there is one, came from `host`.
    pub open spec fn view_from(self, host: ViewHost) -> bool {
        match self.current_view {
            Some(v) => v.created_by(host),
            None => true,
        }
    }

    /// A showcase for `component` with no view mounted yet; the first
    /// rendering will mount one.
    pub fn new(component: Components) -> (s: ComponentShowcase)
        ensures
            s.component == component,
            s.current_view is None,
            s.inv(),
    {
        ComponentShowcase { component, current_view: None }
    }

    /// Switch the showcase to `component`: the kind's factory is invoked, the
    /// freshly built view replaces whatever was mounted, and the old view is
    /// dropped.
    pub fn set_component(&mut self, component: Components, host: &mut ViewHost)
        requires
            old(host).created < u64::MAX,
        ensures
            final(self).component == component,
            final(self).current_view == Some(
                DemoView { kind: component, handle: old(host).created },
            ),
            final(host).created == old(host).created + 1,
            final(self).inv(),
            final(self).view_from(*final(host)),
    {
        self.component = component;
        self.current_view = Some(component.create_view(host));
    }

    /// Render the showcase: mount a view for the selection if none is mounted
    /// (the cached view is reused otherwise), and lay out header, description,
    /// link and body. The frame is a function of the selection alone, except
    /// that the body holds whichever instance is mounted.
    pub fn render(&mut self, host: &mut ViewHost) -> (f: ShowcaseFrame)
        requires
            old(self).inv(),
            old(host).created < u64::MAX,
        ensures
            final(self).component == old(self).component,
            final(self).inv(),
            final(self).current_view == Some(f.view),
            old(self).current_view is Some ==> *final(self) == *old(self) && *final(host) == *old(
                host,
            ),
            old(self).current_view is None ==> final(self).current_view == Some(
                DemoView { kind: old(self).component, handle: old(host).created },
            ) && final(host).created == old(host).created + 1,
            f.title@ == spec_name(old(self).component),
            f.description@ == spec_description(old(self).component),
            f.link@ == spec_link(old(self).component),
            f.view.kind == old(self).component,
    {
        let component_view = match self.current_view {
            Some(v) => v,
            None => {
                let v = self.component.create_view(host);
                self.current_view = Some(v);
                v
            },
        };
        ShowcaseFrame {
            title: self.component.name(),
            description: self.component.description(),
            link: self.component.link(),
            view: component_view,
        }
    }
}

} // verus!
