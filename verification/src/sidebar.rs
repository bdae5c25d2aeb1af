use vstd::prelude::*;

verus! {

/// Which edge of the window a sidebar sits on.
#[derive(Clone, Copy, Debug, PartialEq, Eq, Structural)]
pub enum SidebarSide {
    Left,
    Right,
}

/// The icon a sidebar toggle button shows: it points the way the panel would
/// move, so a collapsed panel shows an "open" icon and an expanded one a
/// "close" icon, each for its side.
#[derive(Clone, Copy, Debug, PartialEq, Eq, Structural)]
pub enum ToggleIcon {
    PanelLeftOpen,
    PanelLeftClose,
    PanelRightOpen,
    PanelRightClose,
}

/// The icon for a toggle on `side` while the panel is or is not collapsed.
pub open spec fn spec_toggle_icon(side: SidebarSide, collapsed: bool) -> ToggleIcon {
    if collapsed {
        match side {
            SidebarSide::Left => ToggleIcon::PanelLeftOpen,
            SidebarSide::Right => ToggleIcon::PanelRightOpen,
        }
    } else {
        match side {
            SidebarSide::Left => ToggleIcon::PanelLeftClose,
            SidebarSide::Right => ToggleIcon::PanelRightClose,
        }
    }
}

/// The sidebar's collapse toggle: which side it belongs to and whether the
/// panel it controls is currently collapsed. The hosting toolkit draws it as
/// a button; the library decides the icon it shows.
#[derive(Clone, Copy, Debug, PartialEq, Eq, Structural)]
pub struct CustomSidebarToggleButton {
    pub side: SidebarSide,
    pub collapsed: bool,
}

impl CustomSidebarToggleButton {
    /// A toggle for a panel on `side`, not collapsed until told otherwise.
    pub fn new(side: SidebarSide) -> (b: CustomSidebarToggleButton)
        ensures
            b.side == side,
            !b.collapsed,
    {
        CustomSidebarToggleButton { side, collapsed: false }
    }

    /// A toggle for a left-hand panel.
    pub fn left() -> (b: CustomSidebarToggleButton)
        ensures
            b.side == SidebarSide::Left,
            !b.collapsed,
    {
        CustomSidebarToggleButton::new(SidebarSide::Left)
    }

    /// A toggle for a right-hand panel.
    pub fn right() -> (b: CustomSidebarToggleButton)
        ensures
            b.side == SidebarSide::Right,
            !b.collapsed,
    {
        CustomSidebarToggleButton::new(SidebarSide::Right)
    }

    /// Record whether the panel is collapsed.
    pub fn collapsed(self, collapsed: bool) -> (b: CustomSidebarToggleButton)
        ensures
            b.side == self.side,
            b.collapsed == collapsed,
    {
        CustomSidebarToggleButton { side: self.side, collapsed }
    }

    /// The icon the button shows in its current state.
    pub fn icon(&self) -> (i: ToggleIcon)
        ensures
            i == spec_toggle_icon(self.side, self.collapsed),
    {
        if self.collapsed {
            match self.side {
                SidebarSide::Left => ToggleIcon::PanelLeftOpen,
                SidebarSide::Right => ToggleIcon::PanelRightOpen,
            }
        } else {
            match self.side {
                SidebarSide::Left => ToggleIcon::PanelLeftClose,
                SidebarSide::Right => ToggleIcon::PanelRightClose,
            }
        }
    }
}

} // verus!
