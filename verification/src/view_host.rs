use vstd::prelude::*;

use crate::components::Components;

verus! {

/// Stands for the hosting UI context a demo view is built against. The host's
/// rendering machinery is outside this crate; what the navigator's logic needs
/// from it is only that every instantiation yields a view of its own, so the
/// host is modelled by the count of views it has created: the next view takes
/// the current count as its handle, and no two views it ever creates share one.
pub struct ViewHost {
    pub created: u64,
}

impl ViewHost {
    /// A host that has created no views yet.
    pub fn new() -> (h: ViewHost)
        ensures
            h.created == 0,
    {
        ViewHost { created: 0 }
    }
}

/// A mounted demo view: the kind whose factory built it, and the handle the
/// host gave it. Handles issued by one host never repeat, so two views are the
/// same instance exactly when their handles are equal.
#[derive(Clone, Copy, Debug, PartialEq, Eq, Structural)]
pub struct DemoView {
    pub kind: Components,
    pub handle: u64,
}

impl DemoView {
    /// The view was created by `host` (rather than being an arbitrary value):
    /// its handle lies below the host's creation count.
    pub open spec fn created_by(self, host: ViewHost) -> bool {
        self.handle < host.created
    }
}

} // verus!
