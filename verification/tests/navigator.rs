use showcase::ComponentShowcase;
use showcase::Components;
use showcase::MainPage;
use showcase::PageFrame;
use showcase::ViewHost;

#[test]
fn select_button_shows_button_header() {
    let mut host = ViewHost::new();
    let mut page = MainPage::new();
    page.show_component(Components::Button, &mut host);
    match page.render(&mut host) {
        PageFrame::Showcase { frame } => {
            assert_eq!(frame.title, "Button");
            assert_eq!(
                frame.description,
                "The Button element with multiple variants, sizes, and states. \nSupports icons, loading states, and can be grouped together."
            );
            assert_eq!(
                frame.link,
                "https://longbridge.github.io/gpui-component/docs/components/button"
            );
            assert_eq!(frame.view.kind, Components::Button);
        },
        PageFrame::Welcome { .. } => panic!("expected the showcase, not the welcome placeholder"),
    }
}

#[test]
fn reselect_same_kind_mounts_fresh_view() {
    let mut host = ViewHost::new();
    let mut page = MainPage::new();
    page.show_component(Components::Badge, &mut host);
    let first = match page.render(&mut host) {
        PageFrame::Showcase { frame } => frame.view,
        PageFrame::Welcome { .. } => panic!("expected the showcase"),
    };
    page.show_component(Components::Badge, &mut host);
    let second = match page.render(&mut host) {
        PageFrame::Showcase { frame } => frame.view,
        PageFrame::Welcome { .. } => panic!("expected the showcase"),
    };
    assert_eq!(first.kind, Components::Badge);
    assert_eq!(second.kind, Components::Badge);
    assert_ne!(first.handle, second.handle);
}

#[test]
fn select_switches_to_new_kind() {
    let mut host = ViewHost::new();
    let mut page = MainPage::new();
    page.show_component(Components::Alert, &mut host);
    let first = match page.render(&mut host) {
        PageFrame::Showcase { frame } => frame.view,
        PageFrame::Welcome { .. } => panic!("expected the showcase"),
    };
    page.show_component(Components::Chart, &mut host);
    let second = match page.render(&mut host) {
        PageFrame::Showcase { frame } => frame.view,
        PageFrame::Welcome { .. } => panic!("expected the showcase"),
    };
    assert_eq!(second.kind, Components::Chart);
    assert_ne!(first.handle, second.handle);
}

#[test]
fn clear_returns_to_welcome() {
    let mut host = ViewHost::new();
    let mut page = MainPage::new();
    page.show_component(Components::Popover, &mut host);
    page.show_welcome();
    match page.render(&mut host) {
        PageFrame::Welcome { heading, hint } => {
            assert_eq!(heading, "Welcome to GPUI Component Demo");
            assert_eq!(hint, "Select a component from the sidebar to view its demo");
        },
        PageFrame::Showcase { .. } => panic!("expected the welcome placeholder"),
    }
}

#[test]
fn reopening_after_clear_builds_new_instance() {
    let mut host = ViewHost::new();
    let mut page = MainPage::new();
    page.show_component(Components::Accordion, &mut host);
    let first = match page.render(&mut host) {
        PageFrame::Showcase { frame } => frame.view,
        PageFrame::Welcome { .. } => panic!("expected the showcase"),
    };
    page.show_welcome();
    page.show_component(Components::Accordion, &mut host);
    let second = match page.render(&mut host) {
        PageFrame::Showcase { frame } => frame.view,
        PageFrame::Welcome { .. } => panic!("expected the showcase"),
    };
    assert_eq!(first.kind, Components::Accordion);
    assert_eq!(second.kind, Components::Accordion);
    assert_ne!(first.handle, second.handle);
    assert_eq!(host.created, 2);
}

#[test]
fn showcase_caches_view_across_rerenders() {
    let mut host = ViewHost::new();
    let mut showcase = ComponentShowcase::new(Components::Checkbox);
    let first = showcase.render(&mut host);
    let second = showcase.render(&mut host);
    assert_eq!(first.view.handle, second.view.handle);
    assert_eq!(host.created, 1);
    assert_eq!(first.title, "Checkbox");
}

#[test]
fn showcase_set_component_replaces_view() {
    let mut host = ViewHost::new();
    let mut showcase = ComponentShowcase::new(Components::Avatar);
    let first = showcase.render(&mut host);
    showcase.set_component(Components::Calendar, &mut host);
    let second = showcase.render(&mut host);
    assert_eq!(first.view.kind, Components::Avatar);
    assert_eq!(second.view.kind, Components::Calendar);
    assert_ne!(first.view.handle, second.view.handle);
    assert_eq!(second.title, "Calendar");
}

#[test]
fn factory_hands_out_distinct_handles() {
    let mut host = ViewHost::new();
    let a = Components::Clipboard.create_view(&mut host);
    let b = Components::Clipboard.create_view(&mut host);
    assert_eq!(a.kind, Components::Clipboard);
    assert_ne!(a.handle, b.handle);
    assert_eq!(host.created, 2);
}
