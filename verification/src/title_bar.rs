use vstd::prelude::*;

verus! {

/// The fixed text the window's title bar shows.
pub open spec fn app_title() -> Seq<char> {
    "GPUI Component Demo"@
}

/// The application's title bar. The hosting toolkit draws the bar itself; the
/// library's part is the centred title text.
#[derive(Clone, Copy, Debug, PartialEq, Eq, Structural)]
pub struct AppTitleBar;

impl AppTitleBar {
    pub fn new() -> (t: AppTitleBar) {
        AppTitleBar
    }

    /// The title the bar displays.
    pub fn title(&self) -> (r: &'static str)
        ensures
            r@ == app_title(),
    {
        "GPUI Component Demo"
    }
}

} // verus!
