//! The pipe client's handle accounting: a connected client owns one open
//! handle, and the handle is closed exactly once.

use vstd::prelude::*;

verus! {

/// Ownership record of a connected pipe client's handle. `close` demands
/// an open handle and leaves it closed, so no run of the client can close
/// the same handle twice; teardown calls it exactly once.
pub struct PipeClient {
    /// The OS handle value.
    pub handle: usize,
    /// Whether the handle is still owned and open.
    pub open: bool,
}

impl PipeClient {
    /// A freshly connected client: it owns its handle.
    pub fn new(handle: usize) -> (c: Self)
        ensures
            c.open,
            c.handle == handle,
    {
        PipeClient { handle, open: true }
    }

    /// Gives up the handle for closing. Only an open handle can be given
    /// up, and afterwards the client no longer owns one: the handle that
    /// was opened is closed exactly once.
    pub fn close(&mut self) -> (h: usize)
        requires
            old(self).open,
        ensures
            !final(self).open,
            final(self).handle == old(self).handle,
            h == old(self).handle,
    {
        self.open = false;
        self.handle
    }
}

} // verus!
