use showcase::ComponentMeta;
use showcase::Components;

#[test]
fn names_of_all_kinds() {
    assert_eq!(Components::Accordion.name(), "Accordion");
    assert_eq!(Components::Alert.name(), "Alert");
    assert_eq!(Components::Avatar.name(), "Avatar");
    assert_eq!(Components::Badge.name(), "Badge");
    assert_eq!(Components::Button.name(), "Button");
    assert_eq!(Components::Calendar.name(), "Calendar");
    assert_eq!(Components::Chart.name(), "Chart");
    assert_eq!(Components::Checkbox.name(), "Checkbox");
    assert_eq!(Components::Clipboard.name(), "Clipboard");
    assert_eq!(Components::Collapsible.name(), "Collapsible");
    assert_eq!(Components::DropdownButton.name(), "DropdownButton");
    assert_eq!(Components::Popover.name(), "Popover");
    assert_eq!(Components::Skeleton.name(), "Skeleton");
}

#[test]
fn fixed_description_strings() {
    assert_eq!(
        Components::Button.description(),
        "The Button element with multiple variants, sizes, and states. \nSupports icons, loading states, and can be grouped together."
    );
    assert_eq!(
        Components::Accordion.description(),
        "An accordion component that allows users to show and hide sections of content. \nIt uses collapse functionality internally to create collapsible panels."
    );
    assert_eq!(
        Components::Collapsible.description(),
        "An interactive element which expands/collapses."
    );
}

#[test]
fn fixed_link_strings() {
    assert_eq!(
        Components::Button.link(),
        "https://longbridge.github.io/gpui-component/docs/components/button"
    );
    assert_eq!(
        Components::DropdownButton.link(),
        "https://longbridge.github.io/gpui-component/docs/components/dropdown_button"
    );
    assert_eq!(
        Components::Skeleton.link(),
        "https://longbridge.github.io/gpui-component/docs/components/skeleton"
    );
}

#[test]
fn metadata_nonempty_for_every_kind() {
    for kind in Components::all() {
        assert!(!kind.name().is_empty());
        assert!(!kind.description().is_empty());
        assert!(!kind.link().is_empty());
    }
}

#[test]
fn all_lists_every_kind_in_sidebar_order() {
    let kinds = Components::all();
    assert_eq!(kinds.len(), 13);
    assert_eq!(kinds[0], Components::Accordion);
    assert_eq!(kinds[4], Components::Button);
    assert_eq!(kinds[12], Components::Skeleton);
    let names: Vec<&str> = kinds.iter().map(|k| k.name()).collect();
    assert_eq!(
        names,
        vec![
            "Accordion",
            "Alert",
            "Avatar",
            "Badge",
            "Button",
            "Calendar",
            "Chart",
            "Checkbox",
            "Clipboard",
            "Collapsible",
            "DropdownButton",
            "Popover",
            "Skeleton",
        ]
    );
}
