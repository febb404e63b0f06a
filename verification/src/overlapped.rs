//! Overlapped I/O: the pooled event handles and the decision logic that
//! turns the raw outcome of an asynchronous OS call into a synchronous
//! read or write result.

use vstd::prelude::*;

verus! {

/// The OS code that means an overlapped call is still in flight.
pub const ERROR_IO_PENDING: u32 = 997;

/// A pooled stack of event-handle values, reused across overlapped
/// operations so the hot path does not create and close kernel objects.
/// Creating, resetting and closing the OS objects happens beside the OS
/// calls; the pool accounts for which handles are cached.
pub struct EventPool {
    /// The cached handle values, top of the stack last.
    pub handles: Vec<usize>,
}

impl EventPool {
    /// An empty pool: handles are created lazily on demand.
    pub fn new() -> (p: Self)
        ensures
            p.handles@ == Seq::<usize>::empty(),
    {
        EventPool { handles: Vec::new() }
    }

    /// Takes the most recently returned handle, if one is cached. The
    /// caller must reset the event before reuse, and must create a fresh
    /// one when the pool is empty.
    pub fn get(&mut self) -> (r: Option<usize>)
        ensures
            old(self).handles@.len() == 0 ==> r is None && final(self).handles@ == old(self).handles@,
            old(self).handles@.len() > 0 ==> r == Some(old(self).handles@.last()) && final(self).handles@ == old(self).handles@.drop_last(),
    {
        self.handles.pop()
    }

    /// Returns a handle to the pool.
    pub fn put(&mut self, h: usize)
        ensures
            final(self).handles@ == old(self).handles@.push(h),
    {
        self.handles.push(h);
    }
}

impl Default for EventPool {
    fn default() -> (p: Self)
        ensures
            p.handles@ == Seq::<usize>::empty(),
    {
        EventPool::new()
    }
}

/// A handle value that was opened with the overlapped flag. The type
/// records, at construction, the precondition that the overlapped read
/// and write routines rely on; building one is reserved to the component
/// that opened the handle.
#[derive(Debug, Clone, Copy, PartialEq, Eq, Structural)]
pub struct OverlappedHandle(pub usize);

impl OverlappedHandle {
    /// Wraps a raw handle value. The caller vouches that the handle is
    /// valid, owned by this process, and was opened with the overlapped
    /// flag.
    pub fn from_raw(handle: usize) -> (h: Self)
        ensures
            h.0 == handle,
    {
        OverlappedHandle(handle)
    }

    /// The raw handle value.
    pub fn raw(&self) -> (r: usize)
        ensures
            r == self.0,
    {
        self.0
    }
}

/// How the initial ReadFile/WriteFile call came out, judged by the return
/// value first and the error code second.
#[derive(Debug, PartialEq, Eq, Structural)]
pub enum IoCallStep {
    /// The call completed inline; the byte-count out-parameter is
    /// authoritative.
    CompletedInline { bytes: u32 },
    /// The I/O is in flight: wait on the event, then collect the result.
    Pending,
    /// The call failed with this OS error.
    FailedWith { os_code: u32 },
}

/// The classification rule for the initial call.
pub open spec fn spec_classify_io_call(call_ok: bool, inline_bytes: u32, call_error: u32) -> IoCallStep {
    if call_ok {
        IoCallStep::CompletedInline { bytes: inline_bytes }
    } else if call_error == ERROR_IO_PENDING {
        IoCallStep::Pending
    } else {
        IoCallStep::FailedWith { os_code: call_error }
    }
}

/// Classifies the initial overlapped call: success means the operation
/// completed inline; failure with IO_PENDING means it is in flight; any
/// other failure surfaces its OS error.
pub fn classify_io_call(call_ok: bool, inline_bytes: u32, call_error: u32) -> (s: IoCallStep)
    ensures
        s == spec_classify_io_call(call_ok, inline_bytes, call_error),
{
    if call_ok {
        IoCallStep::CompletedInline { bytes: inline_bytes }
    } else if call_error == ERROR_IO_PENDING {
        IoCallStep::Pending
    } else {
        IoCallStep::FailedWith { os_code: call_error }
    }
}

/// Everything the OS reports during one overlapped operation, in the
/// order the calls are made.
pub struct OverlappedOutcome {
    /// Whether ReadFile/WriteFile returned success.
    pub call_ok: bool,
    /// The byte count reported on inline completion.
    pub inline_bytes: u32,
    /// The error code read after a failed call.
    pub call_error: u32,
    /// Whether the event wait returned "object signaled".
    pub wait_signaled: bool,
    /// Whether GetOverlappedResult succeeded.
    pub result_ok: bool,
    /// The transferred count it reported.
    pub transferred: u32,
    /// The error code read after a failed wait or result collection.
    pub late_error: u32,
}

/// The synchronous result of one overlapped operation: the transferred
/// byte count, or the OS error that stopped it.
pub open spec fn spec_overlapped_result(o: OverlappedOutcome) -> Result<u32, u32> {
    match spec_classify_io_call(o.call_ok, o.inline_bytes, o.call_error) {
        IoCallStep::CompletedInline { bytes } => Ok(bytes),
        IoCallStep::FailedWith { os_code } => Err(os_code),
        IoCallStep::Pending => {
            if !o.wait_signaled {
                Err(o.late_error)
            } else if !o.result_ok {
                Err(o.late_error)
            } else {
                Ok(o.transferred)
            }
        },
    }
}

/// One overlapped operation against the pool, over a finished record of
/// what the OS reported: an event is taken from the pool (or the freshly
/// created `fresh` handle is used when the pool is empty), the outcome is
/// judged exactly as [`spec_overlapped_result`] says, and the one event
/// taken is returned to the pool on every path — the pool never leaks or
/// duplicates a handle.
pub fn overlapped_op_model(pool: &mut EventPool, fresh: usize, outcome: &OverlappedOutcome) -> (r:
    Result<u32, u32>)
    ensures
        r == spec_overlapped_result(*outcome),
        old(pool).handles@.len() > 0 ==> final(pool).handles@ == old(pool).handles@,
        old(pool).handles@.len() == 0 ==> final(pool).handles@ == old(pool).handles@.push(fresh),
{
    let ev: usize = match pool.get() {
        Some(h) => h,
        None => fresh,
    };
    let step = classify_io_call(outcome.call_ok, outcome.inline_bytes, outcome.call_error);
    let r = match step {
        IoCallStep::CompletedInline { bytes } => Ok(bytes),
        IoCallStep::FailedWith { os_code } => Err(os_code),
        IoCallStep::Pending => {
            if !outcome.wait_signaled {
                Err(outcome.late_error)
            } else if !outcome.result_ok {
                Err(outcome.late_error)
            } else {
                Ok(outcome.transferred)
            }
        },
    };
    pool.put(ev);
    proof {
        if old(pool).handles@.len() > 0 {
            assert(pool.handles@ =~= old(pool).handles@);
        }
    }
    r
}

} // verus!
