use vstd::prelude::*;

use crate::view_host::DemoView;
use crate::view_host::ViewHost;

verus! {

/// The closed set of widget kinds the showcase knows how to demonstrate.
/// A kind carries no data of its own; it is the key under which the registry
/// holds metadata and a demo-view factory.
#[derive(Clone, Copy, Debug, PartialEq, Eq, Structural)]
pub enum Components {
    Accordion,
    Alert,
    Avatar,
    Badge,
    Button,
    Calendar,
    Chart,
    Checkbox,
    Clipboard,
    Collapsible,
    DropdownButton,
    Popover,
    Skeleton,
}

/// The display name of a kind, as the sidebar and the showcase header show it.
pub open spec fn spec_name(c: Components) -> Seq<char> {
    match c {
        Components::Accordion => "Accordion"@,
        Components::Alert => "Alert"@,
        Components::Avatar => "Avatar"@,
        Components::Badge => "Badge"@,
        Components::Button => "Button"@,
        Components::Calendar => "Calendar"@,
        Components::Chart => "Chart"@,
        Components::Checkbox => "Checkbox"@,
        Components::Clipboard => "Clipboard"@,
        Components::Collapsible => "Collapsible"@,
        Components::DropdownButton => "DropdownButton"@,
        Components::Popover => "Popover"@,
        Components::Skeleton => "Skeleton"@,
    }
}

impl Components {
    /// The display name of this kind.
    pub fn name(&self) -> (r: &'static str)
        ensures
            r@ == spec_name(*self),
    {
        match self {
            Components::Accordion => "Accordion",
            Components::Alert => "Alert",
            Components::Avatar => "Avatar",
            Components::Badge => "Badge",
            Components::Button => "Button",
            Components::Calendar => "Calendar",
            Components::Chart => "Chart",
            Components::Checkbox => "Checkbox",
            Components::Clipboard => "Clipboard",
            Components::Collapsible => "Collapsible",
            Components::DropdownButton => "DropdownButton",
            Components::Popover => "Popover",
            Components::Skeleton => "Skeleton",
        }
    }

    /// The registry's factory: build a fresh demo view of this kind against
    /// the given host. The view takes the host's next free handle, so it is
    /// distinct from every view the host created before.
    pub fn create_view(&self, host: &mut ViewHost) -> (v: DemoView)
        requires
            old(host).created < u64::MAX,
        ensures
            v.kind == *self,
            v.handle == old(host).created,
            final(host).created == old(host).created + 1,
    {
        let handle = host.created;
        host.created = host.created + 1;
        DemoView { kind: *self, handle }
    }

    /// Every kind the registry knows, in the order the sidebar lists them.
    pub fn all() -> (v: Vec<Components>)
        ensures
            v@ == all_components(),
    {
        let mut v: Vec<Components> = Vec::new();
        v.push(Components::Accordion);
        v.push(Components::Alert);
        v.push(Components::Avatar);
        v.push(Components::Badge);
        v.push(Components::Button);
        v.push(Components::Calendar);
        v.push(Components::Chart);
        v.push(Components::Checkbox);
        v.push(Components::Clipboard);
        v.push(Components::Collapsible);
        v.push(Components::DropdownButton);
        v.push(Components::Popover);
        v.push(Components::Skeleton);
        proof {
            assert(v@ =~= all_components());
        }
        v
    }
}

/// Every kind the registry knows, in sidebar order.
pub open spec fn all_components() -> Seq<Components> {
    seq![
        Components::Accordion,
        Components::Alert,
        Components::Avatar,
        Components::Badge,
        Components::Button,
        Components::Calendar,
        Components::Chart,
        Components::Checkbox,
        Components::Clipboard,
        Components::Collapsible,
        Components::DropdownButton,
        Components::Popover,
        Components::Skeleton,
    ]
}

/// Metadata every showcased component provides: a description of what the
/// widget does and a link to its documentation page.
pub trait ComponentMeta {
    /// What `description` returns, as a sequence of characters.
    spec fn meta_description(&self) -> Seq<char>;

    /// What `link` returns, as a sequence of characters.
    spec fn meta_link(&self) -> Seq<char>;

    /// The fixed description of the component.
    fn description(&self) -> (r: &'static str)
        ensures
            r@ == self.meta_description(),
    ;

    /// The fixed documentation link of the component.
    fn link(&self) -> (r: &'static str)
        ensures
            r@ == self.meta_link(),
    ;
}

/// The fixed description of a kind, word for word as the registry holds it.
pub open spec fn spec_description(c: Components) -> Seq<char> {
    match c {
        Components::Accordion => "An accordion component that allows users to show and hide sections of content. \nIt uses collapse functionality internally to create collapsible panels."@,
        Components::Alert => "A versatile alert component for displaying important messages to users. \nSupports multiple variants (info, success, warning, error), custom icons, optional titles, closable functionality, \nand banner mode. Perfect for notifications, status messages, and user feedback."@,
        Components::Avatar => "The Avatar component displays user profile images with intelligent fallbacks. \nWhen no image is provided, it shows user initials or a placeholder icon."@,
        Components::Badge => "A versatile badge component that can display counts, dots, or icons on elements. \nPerfect for indicating notifications, status, or other contextual information."@,
        Components::Button => "The Button element with multiple variants, sizes, and states. \nSupports icons, loading states, and can be grouped together."@,
        Components::Calendar => "A standalone calendar component that provides a rich interface for date selection and navigation. \nSupports single date selection, date range selection, and multiple month views."@,
        Components::Chart => "A comprehensive charting library providing Line, Bar, Area, Pie, and Candlestick charts for data visualization. \nThe charts feature smooth animations, customizable styling, tooltips, legends, \nand automatic theming that adapts to your application's theme."@,
        Components::Checkbox => "A checkbox component for binary choices. \nSupports labels, disabled state, and different sizes."@,
        Components::Clipboard => "The Clipboard component provides an easy way to copy text or other data to the user's clipboard. \nIt renders as a button with a copy icon that changes to a checkmark when content is successfully copied. \nThe component supports both static values and dynamic content through callback functions."@,
        Components::Collapsible => "An interactive element which expands/collapses."@,
        Components::DropdownButton => "A DropdownButton is a combination of a button and a trigger button. \nIt allows us to display a dropdown menu when the trigger is clicked, \nbut the left Button can still respond to independent events. \n\nAnd more option methods of Button are also available for the DropdownButton, \nsuch as setting different variants using ButtonCustomVariant, sizes using Sizable, adding icons, loading states."@,
        Components::Popover => "Popover component for displaying floating content that appears when interacting with a trigger element. \nSupports multiple positioning options, custom content, different trigger methods, \nand automatic dismissal behaviors. Perfect for tooltips, menus, forms, and other contextual information."@,
        Components::Skeleton => "The Skeleton component displays animated placeholder content while actual content is loading. \nIt provides visual feedback to users that content is being loaded and helps maintain layout structure during loading states."@,
    }
}

/// The documentation page of a kind, word for word as the registry holds it.
pub open spec fn spec_link(c: Components) -> Seq<char> {
    match c {
        Components::Accordion => "https://longbridge.github.io/gpui-component/docs/components/accordion"@,
        Components::Alert => "https://longbridge.github.io/gpui-component/docs/components/alert"@,
        Components::Avatar => "https://longbridge.github.io/gpui-component/docs/components/avatar"@,
        Components::Badge => "https://longbridge.github.io/gpui-component/docs/components/badge"@,
        Components::Button => "https://longbridge.github.io/gpui-component/docs/components/button"@,
        Components::Calendar => "https://longbridge.github.io/gpui-component/docs/components/calendar"@,
        Components::Chart => "https://longbridge.github.io/gpui-component/docs/components/chart"@,
        Components::Checkbox => "https://longbridge.github.io/gpui-component/docs/components/checkbox"@,
        Components::Clipboard => "https://longbridge.github.io/gpui-component/docs/components/clipboard"@,
        Components::Collapsible => "https://longbridge.github.io/gpui-component/docs/components/collapsible"@,
        Components::DropdownButton => "https://longbridge.github.io/gpui-component/docs/components/dropdown_button"@,
        Components::Popover => "https://longbridge.github.io/gpui-component/docs/components/popover"@,
        Components::Skeleton => "https://longbridge.github.io/gpui-component/docs/components/skeleton"@,
    }
}

impl ComponentMeta for Components {
    open spec fn meta_description(&self) -> Seq<char> {
        spec_description(*self)
    }

    open spec fn meta_link(&self) -> Seq<char> {
        spec_link(*self)
    }

    fn description(&self) -> (r: &'static str) {
        match self {
            Components::Accordion => "An accordion component that allows users to show and hide sections of content. \nIt uses collapse functionality internally to create collapsible panels.",
            Components::Alert => "A versatile alert component for displaying important messages to users. \nSupports multiple variants (info, success, warning, error), custom icons, optional titles, closable functionality, \nand banner mode. Perfect for notifications, status messages, and user feedback.",
            Components::Avatar => "The Avatar component displays user profile images with intelligent fallbacks. \nWhen no image is provided, it shows user initials or a placeholder icon.",
            Components::Badge => "A versatile badge component that can display counts, dots, or icons on elements. \nPerfect for indicating notifications, status, or other contextual information.",
            Components::Button => "The Button element with multiple variants, sizes, and states. \nSupports icons, loading states, and can be grouped together.",
            Components::Calendar => "A standalone calendar component that provides a rich interface for date selection and navigation. \nSupports single date selection, date range selection, and multiple month views.",
            Components::Chart => "A comprehensive charting library providing Line, Bar, Area, Pie, and Candlestick charts for data visualization. \nThe charts feature smooth animations, customizable styling, tooltips, legends, \nand automatic theming that adapts to your application's theme.",
            Components::Checkbox => "A checkbox component for binary choices. \nSupports labels, disabled state, and different sizes.",
            Components::Clipboard => "The Clipboard component provides an easy way to copy text or other data to the user's clipboard. \nIt renders as a button with a copy icon that changes to a checkmark when content is successfully copied. \nThe component supports both static values and dynamic content through callback functions.",
            Components::Collapsible => "An interactive element which expands/collapses.",
            Components::DropdownButton => "A DropdownButton is a combination of a button and a trigger button. \nIt allows us to display a dropdown menu when the trigger is clicked, \nbut the left Button can still respond to independent events. \n\nAnd more option methods of Button are also available for the DropdownButton, \nsuch as setting different variants using ButtonCustomVariant, sizes using Sizable, adding icons, loading states.",
            Components::Popover => "Popover component for displaying floating content that appears when interacting with a trigger element. \nSupports multiple positioning options, custom content, different trigger methods, \nand automatic dismissal behaviors. Perfect for tooltips, menus, forms, and other contextual information.",
            Components::Skeleton => "The Skeleton component displays animated placeholder content while actual content is loading. \nIt provides visual feedback to users that content is being loaded and helps maintain layout structure during loading states.",
        }
    }

    fn link(&self) -> (r: &'static str) {
        match self {
            Components::Accordion => "https://longbridge.github.io/gpui-component/docs/components/accordion",
            Components::Alert => "https://longbridge.github.io/gpui-component/docs/components/alert",
            Components::Avatar => "https://longbridge.github.io/gpui-component/docs/components/avatar",
            Components::Badge => "https://longbridge.github.io/gpui-component/docs/components/badge",
            Components::Button => "https://longbridge.github.io/gpui-component/docs/components/button",
            Components::Calendar => "https://longbridge.github.io/gpui-component/docs/components/calendar",
            Components::Chart => "https://longbridge.github.io/gpui-component/docs/components/chart",
            Components::Checkbox => "https://longbridge.github.io/gpui-component/docs/components/checkbox",
            Components::Clipboard => "https://longbridge.github.io/gpui-component/docs/components/clipboard",
            Components::Collapsible => "https://longbridge.github.io/gpui-component/docs/components/collapsible",
            Components::DropdownButton => "https://longbridge.github.io/gpui-component/docs/components/dropdown_button",
            Components::Popover => "https://longbridge.github.io/gpui-component/docs/components/popover",
            Components::Skeleton => "https://longbridge.github.io/gpui-component/docs/components/skeleton",
        }
    }
}

/// Registry completeness: every kind has a non-empty display name, a non-empty
/// description and a non-empty documentation link.
pub proof fn lemma_registry_metadata_nonempty(c: Components)
    ensures
        spec_name(c).len() > 0,
        spec_description(c).len() > 0,
        spec_link(c).len() > 0,
{
    match c {
        Components::Accordion => {
            reveal_strlit("Accordion");
            reveal_strlit("An accordion component that allows users to show and hide sections of content. \nIt uses collapse functionality internally to create collapsible panels.");
            reveal_strlit("https://longbridge.github.io/gpui-component/docs/components/accordion");
        },
        Components::Alert => {
            reveal_strlit("Alert");
            reveal_strlit("A versatile alert component for displaying important messages to users. \nSupports multiple variants (info, success, warning, error), custom icons, optional titles, closable functionality, \nand banner mode. Perfect for notifications, status messages, and user feedback.");
            reveal_strlit("https://longbridge.github.io/gpui-component/docs/components/alert");
        },
        Components::Avatar => {
            reveal_strlit("Avatar");
            reveal_strlit("The Avatar component displays user profile images with intelligent fallbacks. \nWhen no image is provided, it shows user initials or a placeholder icon.");
            reveal_strlit("https://longbridge.github.io/gpui-component/docs/components/avatar");
        },
        Components::Badge => {
            reveal_strlit("Badge");
            reveal_strlit("A versatile badge component that can display counts, dots, or icons on elements. \nPerfect for indicating notifications, status, or other contextual information.");
            reveal_strlit("https://longbridge.github.io/gpui-component/docs/components/badge");
        },
        Components::Button => {
            reveal_strlit("Button");
            reveal_strlit("The Button element with multiple variants, sizes, and states. \nSupports icons, loading states, and can be grouped together.");
            reveal_strlit("https://longbridge.github.io/gpui-component/docs/components/button");
        },
        Components::Calendar => {
            reveal_strlit("Calendar");
            reveal_strlit("A standalone calendar component that provides a rich interface for date selection and navigation. \nSupports single date selection, date range selection, and multiple month views.");
            reveal_strlit("https://longbridge.github.io/gpui-component/docs/components/calendar");
        },
        Components::Chart => {
            reveal_strlit("Chart");
            reveal_strlit("A comprehensive charting library providing Line, Bar, Area, Pie, and Candlestick charts for data visualization. \nThe charts feature smooth animations, customizable styling, tooltips, legends, \nand automatic theming that adapts to your application's theme.");
            reveal_strlit("https://longbridge.github.io/gpui-component/docs/components/chart");
        },
        Components::Checkbox => {
            reveal_strlit("Checkbox");
            reveal_strlit("A checkbox component for binary choices. \nSupports labels, disabled state, and different sizes.");
            reveal_strlit("https://longbridge.github.io/gpui-component/docs/components/checkbox");
        },
        Components::Clipboard => {
            reveal_strlit("Clipboard");
            reveal_strlit("The Clipboard component provides an easy way to copy text or other data to the user's clipboard. \nIt renders as a button with a copy icon that changes to a checkmark when content is successfully copied. \nThe component supports both static values and dynamic content through callback functions.");
            reveal_strlit("https://longbridge.github.io/gpui-component/docs/components/clipboard");
        },
        Components::Collapsible => {
            reveal_strlit("Collapsible");
            reveal_strlit("An interactive element which expands/collapses.");
            reveal_strlit("https://longbridge.github.io/gpui-component/docs/components/collapsible");
        },
        Components::DropdownButton => {
            reveal_strlit("DropdownButton");
            reveal_strlit("A DropdownButton is a combination of a button and a trigger button. \nIt allows us to display a dropdown menu when the trigger is clicked, \nbut the left Button can still respond to independent events. \n\nAnd more option methods of Button are also available for the DropdownButton, \nsuch as setting different variants using ButtonCustomVariant, sizes using Sizable, adding icons, loading states.");
            reveal_strlit("https://longbridge.github.io/gpui-component/docs/components/dropdown_button");
        },
        Components::Popover => {
            reveal_strlit("Popover");
            reveal_strlit("Popover component for displaying floating content that appears when interacting with a trigger element. \nSupports multiple positioning options, custom content, different trigger methods, \nand automatic dismissal behaviors. Perfect for tooltips, menus, forms, and other contextual information.");
            reveal_strlit("https://longbridge.github.io/gpui-component/docs/components/popover");
        },
        Components::Skeleton => {
            reveal_strlit("Skeleton");
            reveal_strlit("The Skeleton component displays animated placeholder content while actual content is loading. \nIt provides visual feedback to users that content is being loaded and helps maintain layout structure during loading states.");
            reveal_strlit("https://longbridge.github.io/gpui-component/docs/components/skeleton");
        },
    }
}

} // verus!
