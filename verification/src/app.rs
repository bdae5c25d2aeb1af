use vstd::prelude::*;

use crate::components::Components;
use crate::components::all_components;
use crate::components::spec_name;
use crate::main_page::MainPage;
use crate::main_page::PageFrame;
use crate::title_bar::AppTitleBar;
use crate::title_bar::app_title;
use crate::view_host::ViewHost;

verus! {

/// What one rendering of the sidebar puts on screen: whether it is drawn
/// collapsed, whether the home entry is visible (it is hidden while
/// collapsed), the menu entry for every kind the registry knows, in order,
/// and the footer's version text (also hidden while collapsed).
#[derive(Clone, Debug)]
pub struct SidebarFrame {
    pub collapsed: bool,
    pub home_shown: bool,
    pub items: Vec<&'static str>,
    pub footer: Option<&'static str>,
}

/// What one rendering of the whole window puts on screen: the title bar, the
/// sidebar, and the main page beside it.
#[derive(Clone, Debug)]
pub struct AppFrame {
    pub title: &'static str,
    pub sidebar: SidebarFrame,
    pub page: PageFrame,
}

/// The application shell: the toolkit version shown in the sidebar footer,
/// whether the sidebar is collapsed, and the main page the sidebar navigates.
pub struct MyApp {
    pub gpui_component_version: &'static str,
    pub sidebar_collapsed: bool,
    pub main_page: MainPage,
}

impl MyApp {
    /// A fresh shell: sidebar expanded, main page empty.
    pub fn new() -> (a: MyApp)
        ensures
            a.gpui_component_version@ == "0.5.0"@,
            !a.sidebar_collapsed,
            a.main_page.showcase is None,
            a.main_page.inv(),
    {
        MyApp {
            gpui_component_version: "0.5.0",
            sidebar_collapsed: false,
            main_page: MainPage::new(),
        }
    }

    /// Flip the sidebar between collapsed and expanded; nothing else moves.
    pub fn toggle_sidebar(&mut self)
        ensures
            final(self).sidebar_collapsed == !old(self).sidebar_collapsed,
            final(self).gpui_component_version == old(self).gpui_component_version,
            final(self).main_page == old(self).main_page,
    {
        self.sidebar_collapsed = !self.sidebar_collapsed;
    }

    /// Render the sidebar: one menu entry per registry kind, in registry
    /// order, with the home entry and the footer hidden while collapsed.
    pub fn render_sidebar(&self) -> (s: SidebarFrame)
        ensures
            s.collapsed == self.sidebar_collapsed,
            s.home_shown == !self.sidebar_collapsed,
            s.items@.len() == all_components().len(),
            forall|j: int|
                0 <= j < s.items@.len() ==> s.items@[j]@ == spec_name(all_components()[j]),
            s.footer is Some <==> !self.sidebar_collapsed,
            s.footer matches Some(v) ==> v@ == self.gpui_component_version@,
    {
        let kinds = Components::all();
        let mut items: Vec<&'static str> = Vec::new();
        let mut i: usize = 0;
        while i < kinds.len()
            invariant
                i <= kinds.len(),
                kinds@ == all_components(),
                items@.len() == i,
                forall|j: int| 0 <= j < i ==> items@[j]@ == spec_name(all_components()[j]),
            decreases kinds.len() - i,
        {
            items.push(kinds[i].name());
            i = i + 1;
        }
        let footer = if self.sidebar_collapsed {
            None
        } else {
            Some(self.gpui_component_version)
        };
        SidebarFrame {
            collapsed: self.sidebar_collapsed,
            home_shown: !self.sidebar_collapsed,
            items,
            footer,
        }
    }

    /// Render the window: title bar on top, sidebar beside the main page.
    pub fn render(&mut self, host: &mut ViewHost) -> (f: AppFrame)
        requires
            old(self).main_page.inv(),
            old(host).created < u64::MAX,
        ensures
            *final(self) == *old(self),
            *final(host) == *old(host),
            f.title@ == app_title(),
            f.sidebar.collapsed == old(self).sidebar_collapsed,
            f.sidebar.home_shown == !old(self).sidebar_collapsed,
            f.sidebar.items@.len() == all_components().len(),
            forall|j: int|
                0 <= j < f.sidebar.items@.len() ==> f.sidebar.items@[j]@ == spec_name(
                    all_components()[j],
                ),
            f.sidebar.footer is Some <==> !old(self).sidebar_collapsed,
            match f.page {
                PageFrame::Welcome { heading, hint } => old(self).main_page.selected() is None,
                PageFrame::Showcase { frame } => old(self).main_page.current_view() == Some(
                    frame.view,
                ),
            },
    {
        let title_bar = AppTitleBar::new();
        let sidebar = self.render_sidebar();
        let page = self.main_page.render(host);
        AppFrame { title: title_bar.title(), sidebar, page }
    }
}

} // verus!
