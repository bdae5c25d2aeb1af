//! A component showcase library: a registry of UI widget kinds with their
//! display names, descriptions and documentation links, and a navigator that
//! tracks which widget's demo view is currently mounted.
//!
//! The rendering itself belongs to a host GUI toolkit; this crate models the
//! state the host renders from: the registry lookup, the navigator's
//! selection, and the identity of each mounted demo view.

mod app;
mod component_showcase;
mod components;
mod main_page;
mod sidebar;
mod title_bar;
mod view_host;

pub use app::AppFrame;
pub use app::MyApp;
pub use app::SidebarFrame;
pub use component_showcase::ComponentShowcase;
pub use component_showcase::ShowcaseFrame;
pub use components::ComponentMeta;
pub use components::Components;
pub use components::all_components;
pub use components::lemma_registry_metadata_nonempty;
pub use components::spec_description;
pub use components::spec_link;
pub use components::spec_name;
pub use main_page::MainPage;
pub use main_page::PageFrame;
pub use main_page::spec_clear;
pub use main_page::spec_select;
pub use main_page::lemma_no_caching_across_clear;
pub use main_page::lemma_reselect_replaces_view;
pub use main_page::lemma_select_switches_view;
pub use main_page::welcome_heading;
pub use main_page::welcome_hint;
pub use sidebar::CustomSidebarToggleButton;
pub use sidebar::SidebarSide;
pub use sidebar::ToggleIcon;
pub use sidebar::spec_toggle_icon;
pub use title_bar::AppTitleBar;
pub use title_bar::app_title;
pub use view_host::DemoView;
pub use view_host::ViewHost;
