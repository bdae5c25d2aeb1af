use showcase::AppTitleBar;
use showcase::Components;
use showcase::CustomSidebarToggleButton;
use showcase::MyApp;
use showcase::PageFrame;
use showcase::SidebarSide;
use showcase::ToggleIcon;
use showcase::ViewHost;

#[test]
fn sidebar_lists_every_kind() {
    let app = MyApp::new();
    let sidebar = app.render_sidebar();
    assert!(!sidebar.collapsed);
    assert!(sidebar.home_shown);
    assert_eq!(sidebar.items.len(), 13);
    assert_eq!(sidebar.items[0], "Accordion");
    assert_eq!(sidebar.items[4], "Button");
    assert_eq!(sidebar.items[12], "Skeleton");
    assert_eq!(sidebar.footer, Some("0.5.0"));
}

#[test]
fn collapsing_hides_home_and_footer() {
    let mut app = MyApp::new();
    app.toggle_sidebar();
    let sidebar = app.render_sidebar();
    assert!(sidebar.collapsed);
    assert!(!sidebar.home_shown);
    assert_eq!(sidebar.footer, None);
    assert_eq!(sidebar.items.len(), 13);
    app.toggle_sidebar();
    assert!(!app.render_sidebar().collapsed);
}

#[test]
fn toggle_icon_follows_side_and_state() {
    let left = CustomSidebarToggleButton::left();
    assert_eq!(left.icon(), ToggleIcon::PanelLeftClose);
    assert_eq!(left.collapsed(true).icon(), ToggleIcon::PanelLeftOpen);
    let right = CustomSidebarToggleButton::right();
    assert_eq!(right.icon(), ToggleIcon::PanelRightClose);
    assert_eq!(right.collapsed(true).icon(), ToggleIcon::PanelRightOpen);
    assert_eq!(CustomSidebarToggleButton::new(SidebarSide::Left), left);
}

#[test]
fn title_bar_shows_app_title() {
    let bar = AppTitleBar::new();
    assert_eq!(bar.title(), "GPUI Component Demo");
}

#[test]
fn app_renders_welcome_then_showcase() {
    let mut host = ViewHost::new();
    let mut app = MyApp::new();
    let frame = app.render(&mut host);
    assert_eq!(frame.title, "GPUI Component Demo");
    match frame.page {
        PageFrame::Welcome { heading, .. } => {
            assert_eq!(heading, "Welcome to GPUI Component Demo");
        },
        PageFrame::Showcase { .. } => panic!("expected the welcome placeholder"),
    }
    app.main_page.show_component(Components::Skeleton, &mut host);
    let frame = app.render(&mut host);
    match frame.page {
        PageFrame::Showcase { frame } => assert_eq!(frame.title, "Skeleton"),
        PageFrame::Welcome { .. } => panic!("expected the showcase"),
    }
}
