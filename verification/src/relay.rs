//! The bidirectional relay: shared termination flags and the broken-pipe
//! classification used by both pumps.

use vstd::prelude::*;

verus! {

/// Block size used by both pumps, matching the default pipe buffer.
pub const BUFFER_SIZE: usize = 32768;

/// Termination flags shared by the two pumps. Both flags are monotone:
/// once a flag is set it is never cleared again, which every method that
/// touches a `RelayState` promises in its contract.
pub struct RelayState {
    pub stdin_done: bool,
    pub pipe_done: bool,
}

impl RelayState {
    /// A fresh state: neither side has finished.
    pub fn new() -> (s: Self)
        ensures
            !s.stdin_done,
            !s.pipe_done,
    {
        RelayState { stdin_done: false, pipe_done: false }
    }

    /// Record that stdin has finished. Monotone: never clears either flag.
    pub fn set_stdin_done(&mut self)
        ensures
            final(self).stdin_done,
            final(self).pipe_done == old(self).pipe_done,
    {
        self.stdin_done = true;
    }

    /// Record that the peer has finished. Monotone: never clears either flag.
    pub fn set_pipe_done(&mut self)
        ensures
            final(self).pipe_done,
            final(self).stdin_done == old(self).stdin_done,
    {
        self.pipe_done = true;
    }
}

impl Default for RelayState {
    fn default() -> (s: Self)
        ensures
            !s.stdin_done,
            !s.pipe_done,
    {
        RelayState::new()
    }
}

/// What a relay-path I/O error looks like once the opaque OS error has been
/// reduced to the two facts the relay reads: whether its kind is broken-pipe,
/// and its raw OS error code, if any.
pub open spec fn spec_broken_pipe_class(kind_is_broken_pipe: bool, os_code: Option<i32>) -> bool {
    kind_is_broken_pipe || os_code == Some(109i32) || os_code == Some(233i32)
}

/// An I/O failure counts as "peer closed" exactly when its kind is
/// broken-pipe, or its raw OS code is 109 (broken pipe) or 233 (pipe not
/// connected).
pub fn broken_pipe_class(kind_is_broken_pipe: bool, os_code: Option<i32>) -> (r: bool)
    ensures
        r == spec_broken_pipe_class(kind_is_broken_pipe, os_code),
{
    if kind_is_broken_pipe {
        true
    } else {
        match os_code {
            Some(c) => c == 109 || c == 233,
            None => false,
        }
    }
}

/// Relies on `std::io::Error::kind`: reports whether the error's kind is
/// `BrokenPipe`.
#[verifier::external_body]
fn kind_is_broken_pipe(e: &std::io::Error) -> bool {
    match e.kind() {
        std::io::ErrorKind::BrokenPipe => true,
        _ => false,
    }
}

/// Relies on `std::io::Error::raw_os_error` for the raw OS error code, if
/// the error came from the OS; nothing is assumed about the value.
pub assume_specification[ std::io::Error::raw_os_error ](e: &std::io::Error) -> (r: Option<i32>)
;

/// Whether an I/O error means the peer has closed. The classification rule
/// itself is stated and proved on [`broken_pipe_class`]; this function only
/// reduces the opaque error to the two facts that rule reads.
pub fn is_broken_pipe(e: &std::io::Error) -> bool {
    broken_pipe_class(kind_is_broken_pipe(e), e.raw_os_error())
}

/// What one read attempt produced, as handed to the pump logic: some bytes,
/// end of stream, or a failure reduced to the two facts the relay reads of
/// an error.
pub enum ReadEvent {
    Data(Vec<u8>),
    Eof,
    Failed { kind_is_broken_pipe: bool, os_code: Option<i32> },
}

/// What one write to the peer produced.
pub enum WriteOutcome {
    Done,
    Failed { kind_is_broken_pipe: bool, os_code: Option<i32> },
}

/// How a pump run ended.
#[derive(PartialEq, Eq, Structural)]
pub enum PumpExit {
    /// The supplied events ran out before any stop condition fired.
    Drained,
    /// The peer or stdin finished; the pump leaves cleanly.
    Stopped,
    /// The process must exit with code 0 right now.
    ProcessExit,
    /// A non-terminal error must be returned to the caller.
    Failed,
}

/// What the peer-to-stdout pump does with one read event.
#[derive(PartialEq, Eq, Structural)]
pub enum PumpBAction {
    /// Write the event's bytes to stdout and continue.
    WriteOut,
    /// Terminate the process with exit code 0.
    ExitProcess,
    /// Leave the loop, returning success.
    Stop,
    /// Return the error to the caller.
    FailWith,
}

/// One decision of the peer-to-stdout pump: data is forwarded; end of
/// stream or a broken pipe marks the peer done and either exits the
/// process (under `exit_on_pipe_eof`) or stops the pump; any other failure
/// is returned.
pub fn pipe_read_step(state: &mut RelayState, exit_on_pipe_eof: bool, event: &ReadEvent) -> (a:
    PumpBAction)
    ensures
        final(state).stdin_done == old(state).stdin_done,
        old(state).pipe_done ==> final(state).pipe_done,
        match event {
            ReadEvent::Data(_) => a == PumpBAction::WriteOut && *final(state) == *old(state),
            ReadEvent::Eof => final(state).pipe_done && a == (if exit_on_pipe_eof {
                PumpBAction::ExitProcess
            } else {
                PumpBAction::Stop
            }),
            ReadEvent::Failed { kind_is_broken_pipe: k, os_code: c } => {
                if spec_broken_pipe_class(*k, *c) {
                    final(state).pipe_done && a == (if exit_on_pipe_eof {
                        PumpBAction::ExitProcess
                    } else {
                        PumpBAction::Stop
                    })
                } else {
                    a == PumpBAction::FailWith && *final(state) == *old(state)
                }
            },
        },
{
    match event {
        ReadEvent::Data(_) => PumpBAction::WriteOut,
        ReadEvent::Eof => {
            state.set_pipe_done();
            if exit_on_pipe_eof {
                PumpBAction::ExitProcess
            } else {
                PumpBAction::Stop
            }
        },
        ReadEvent::Failed { kind_is_broken_pipe: k, os_code: c } => {
            if broken_pipe_class(*k, *c) {
                state.set_pipe_done();
                if exit_on_pipe_eof {
                    PumpBAction::ExitProcess
                } else {
                    PumpBAction::Stop
                }
            } else {
                PumpBAction::FailWith
            }
        },
    }
}

/// What the stdin-to-peer pump does with one read event.
#[derive(PartialEq, Eq, Structural)]
pub enum PumpAAction {
    /// Write the event's bytes to the peer and continue.
    WritePeer,
    /// Send one zero-byte write to the peer, then leave the loop.
    SendZeroThenStop,
    /// Send one zero-byte write to the peer, then exit the process.
    SendZeroThenExit,
    /// Terminate the process with exit code 0.
    ExitProcess,
    /// Leave the loop, returning success.
    Stop,
}

/// One decision of the stdin-to-peer pump: data is forwarded; end of
/// stream marks stdin done and, in order, sends the optional zero-byte
/// write and honors `exit_on_stdin_eof`; a read failure marks stdin done
/// and stops the pump.
pub fn stdin_read_step(
    state: &mut RelayState,
    send_zero: bool,
    exit_on_stdin_eof: bool,
    event: &ReadEvent,
) -> (a: PumpAAction)
    ensures
        final(state).pipe_done == old(state).pipe_done,
        old(state).stdin_done ==> final(state).stdin_done,
        match event {
            ReadEvent::Data(_) => a == PumpAAction::WritePeer && *final(state) == *old(state),
            ReadEvent::Eof => final(state).stdin_done && a == (if send_zero && exit_on_stdin_eof {
                PumpAAction::SendZeroThenExit
            } else if send_zero {
                PumpAAction::SendZeroThenStop
            } else if exit_on_stdin_eof {
                PumpAAction::ExitProcess
            } else {
                PumpAAction::Stop
            }),
            ReadEvent::Failed { .. } => final(state).stdin_done && a == PumpAAction::Stop,
        },
{
    match event {
        ReadEvent::Data(_) => PumpAAction::WritePeer,
        ReadEvent::Eof => {
            state.set_stdin_done();
            if send_zero && exit_on_stdin_eof {
                PumpAAction::SendZeroThenExit
            } else if send_zero {
                PumpAAction::SendZeroThenStop
            } else if exit_on_stdin_eof {
                PumpAAction::ExitProcess
            } else {
                PumpAAction::Stop
            }
        },
        ReadEvent::Failed { .. } => {
            state.set_stdin_done();
            PumpAAction::Stop
        },
    }
}

/// What a pump does after its outbound write: Pump A writes to the peer,
/// Pump B to stdout.
#[derive(PartialEq, Eq, Structural)]
pub enum OutboundWriteStep {
    /// The write went through; keep pumping.
    Continue,
    /// The peer is gone; mark it done and stop cleanly.
    StopPeerClosed,
    /// Any other write failure is returned to the caller.
    FailWith,
}

/// One decision after a pump's outbound write: success continues; a
/// broken-pipe-class failure marks the peer done and stops the pump
/// cleanly; any other failure is returned. The same rule serves both
/// pumps.
pub fn outbound_write_step(state: &mut RelayState, outcome: &WriteOutcome) -> (a: OutboundWriteStep)
    ensures
        final(state).stdin_done == old(state).stdin_done,
        old(state).pipe_done ==> final(state).pipe_done,
        match outcome {
            WriteOutcome::Done => a == OutboundWriteStep::Continue && *final(state) == *old(state),
            WriteOutcome::Failed { kind_is_broken_pipe: k, os_code: c } => {
                if spec_broken_pipe_class(*k, *c) {
                    a == OutboundWriteStep::StopPeerClosed && final(state).pipe_done
                } else {
                    a == OutboundWriteStep::FailWith && *final(state) == *old(state)
                }
            },
        },
{
    match outcome {
        WriteOutcome::Done => OutboundWriteStep::Continue,
        WriteOutcome::Failed { kind_is_broken_pipe: k, os_code: c } => {
            if broken_pipe_class(*k, *c) {
                state.set_pipe_done();
                OutboundWriteStep::StopPeerClosed
            } else {
                OutboundWriteStep::FailWith
            }
        },
    }
}

/// The bytes carried by one read event: its data, or nothing.
pub open spec fn event_bytes(e: ReadEvent) -> Seq<u8> {
    match e {
        ReadEvent::Data(v) => v@,
        _ => Seq::empty(),
    }
}

/// Whether a write outcome is a broken-pipe-class failure.
pub open spec fn outcome_broken(w: WriteOutcome) -> bool {
    match w {
        WriteOutcome::Done => false,
        WriteOutcome::Failed { kind_is_broken_pipe: k, os_code: c } => spec_broken_pipe_class(k, c),
    }
}

/// The run of the peer-to-stdout pump as specification values: the bytes
/// that reach stdout, how the run ends, and whether it marks the peer
/// done.
pub struct SpecPumpBRun {
    pub written: Seq<u8>,
    pub exit: PumpExit,
    pub peer_done: bool,
}

/// The peer-to-stdout pump over the steps from `i` on; each step pairs
/// what the peer read produced with the outcome of the stdout write it may
/// trigger. Data whose write succeeds is forwarded; end of stream or a
/// broken-pipe-class read failure marks the peer done and stops (or exits
/// the process under `exit_on_pipe_eof`); a broken-pipe-class write
/// failure marks the peer done and stops cleanly; any other failure ends
/// the run as failed.
pub open spec fn spec_pump_b(
    steps: Seq<(ReadEvent, WriteOutcome)>,
    exit_on_pipe_eof: bool,
    i: nat,
) -> SpecPumpBRun
    decreases steps.len() - i,
{
    if i >= steps.len() {
        SpecPumpBRun { written: Seq::empty(), exit: PumpExit::Drained, peer_done: false }
    } else {
        match steps[i as int].0 {
            ReadEvent::Data(v) => {
                if outcome_broken(steps[i as int].1) {
                    SpecPumpBRun {
                        written: Seq::empty(),
                        exit: PumpExit::Stopped,
                        peer_done: true,
                    }
                } else if steps[i as int].1 is Failed {
                    SpecPumpBRun {
                        written: Seq::empty(),
                        exit: PumpExit::Failed,
                        peer_done: false,
                    }
                } else {
                    let rest = spec_pump_b(steps, exit_on_pipe_eof, i + 1);
                    SpecPumpBRun {
                        written: v@ + rest.written,
                        exit: rest.exit,
                        peer_done: rest.peer_done,
                    }
                }
            },
            ReadEvent::Eof => SpecPumpBRun {
                written: Seq::empty(),
                exit: if exit_on_pipe_eof {
                    PumpExit::ProcessExit
                } else {
                    PumpExit::Stopped
                },
                peer_done: true,
            },
            ReadEvent::Failed { kind_is_broken_pipe: k, os_code: c } => {
                if spec_broken_pipe_class(k, c) {
                    SpecPumpBRun {
                        written: Seq::empty(),
                        exit: if exit_on_pipe_eof {
                            PumpExit::ProcessExit
                        } else {
                            PumpExit::Stopped
                        },
                        peer_done: true,
                    }
                } else {
                    SpecPumpBRun {
                        written: Seq::empty(),
                        exit: PumpExit::Failed,
                        peer_done: false,
                    }
                }
            },
        }
    }
}

/// The peer-to-stdout pump, run over a finished record of steps: the
/// output, the exit and the flags are exactly what [`spec_pump_b`] says of
/// the steps, and what reaches stdout is always a prefix of the byte
/// sequence read from the peer.
pub fn pipe_to_stdout_model(
    steps: &Vec<(ReadEvent, WriteOutcome)>,
    exit_on_pipe_eof: bool,
    state: &mut RelayState,
) -> (out: (Vec<u8>, PumpExit))
    ensures
        ({
            let r = spec_pump_b(steps@, exit_on_pipe_eof, 0);
            &&& out.0@ == r.written
            &&& out.1 == r.exit
            &&& final(state).pipe_done == (old(state).pipe_done || r.peer_done)
        }),
        final(state).stdin_done == old(state).stdin_done,
        out.0@.is_prefix_of(read_bytes_steps(steps@, steps@.len() as int)),
        !exit_on_pipe_eof ==> out.1 != PumpExit::ProcessExit,
        out.1 == PumpExit::ProcessExit ==> exit_on_pipe_eof && final(state).pipe_done,
{
    let mut written: Vec<u8> = Vec::new();
    let mut i: usize = 0;
    proof {
        assert(Seq::<u8>::empty() + spec_pump_b(steps@, exit_on_pipe_eof, 0).written
            =~= spec_pump_b(steps@, exit_on_pipe_eof, 0).written);
    }
    while i < steps.len()
        invariant
            i <= steps@.len(),
            written@ == read_bytes_steps(steps@, i as int),
            state.stdin_done == old(state).stdin_done,
            state.pipe_done == old(state).pipe_done,
            ({
                let full = spec_pump_b(steps@, exit_on_pipe_eof, 0);
                let rest = spec_pump_b(steps@, exit_on_pipe_eof, i as nat);
                &&& full.written == written@ + rest.written
                &&& full.exit == rest.exit
                &&& full.peer_done == rest.peer_done
            }),
        decreases steps@.len() - i,
    {
        let a = pipe_read_step(state, exit_on_pipe_eof, &steps[i].0);
        match a {
            PumpBAction::WriteOut => {
                match &steps[i].0 {
                    ReadEvent::Data(chunk) => {
                        let w = outbound_write_step(state, &steps[i].1);
                        match w {
                            OutboundWriteStep::Continue => {
                                let ghost prev = written@;
                                written.extend_from_slice(chunk.as_slice());
                                proof {
                                    let rest_next = spec_pump_b(
                                        steps@,
                                        exit_on_pipe_eof,
                                        (i + 1) as nat,
                                    );
                                    assert(steps@[i as int].1 is Done);
                                    assert((prev + chunk@) + rest_next.written =~= prev + (chunk@
                                        + rest_next.written));
                                }
                            },
                            OutboundWriteStep::StopPeerClosed => {
                                proof {
                                    lemma_read_bytes_steps_prefix(
                                        steps@,
                                        i as int,
                                        steps@.len() as int,
                                    );
                                    assert(written@ + Seq::<u8>::empty() =~= written@);
                                }
                                return (written, PumpExit::Stopped);
                            },
                            OutboundWriteStep::FailWith => {
                                proof {
                                    lemma_read_bytes_steps_prefix(
                                        steps@,
                                        i as int,
                                        steps@.len() as int,
                                    );
                                    assert(written@ + Seq::<u8>::empty() =~= written@);
                                }
                                return (written, PumpExit::Failed);
                            },
                        }
                    },
                    _ => {},
                }
            },
            PumpBAction::ExitProcess => {
                proof {
                    lemma_read_bytes_steps_prefix(steps@, i as int, steps@.len() as int);
                    if steps@[i as int].0 is Data {
                        assert(false);
                    }
                    assert(written@ + Seq::<u8>::empty() =~= written@);
                }
                return (written, PumpExit::ProcessExit);
            },
            PumpBAction::Stop => {
                proof {
                    lemma_read_bytes_steps_prefix(steps@, i as int, steps@.len() as int);
                    if steps@[i as int].0 is Data {
                        assert(false);
                    }
                    assert(written@ + Seq::<u8>::empty() =~= written@);
                }
                return (written, PumpExit::Stopped);
            },
            PumpBAction::FailWith => {
                proof {
                    lemma_read_bytes_steps_prefix(steps@, i as int, steps@.len() as int);
                    if steps@[i as int].0 is Data {
                        assert(false);
                    }
                    assert(written@ + Seq::<u8>::empty() =~= written@);
                }
                return (written, PumpExit::Failed);
            },
        }
        i = i + 1;
    }
    proof {
        lemma_read_bytes_steps_prefix(steps@, steps@.len() as int, steps@.len() as int);
        assert(written@ + Seq::<u8>::empty() =~= written@);
    }
    (written, PumpExit::Drained)
}

/// The bytes read from stdin over the first `k` steps, in order; each step
/// pairs a read event with the outcome of the write it may trigger.
pub open spec fn read_bytes_steps(steps: Seq<(ReadEvent, WriteOutcome)>, k: int) -> Seq<u8>
    decreases k,
{
    if k <= 0 {
        Seq::empty()
    } else {
        read_bytes_steps(steps, k - 1) + event_bytes(steps[k - 1].0)
    }
}

/// Reading further only extends what was read: the bytes of the first `k`
/// steps open the bytes of the first `m`, for `k <= m`.
pub proof fn lemma_read_bytes_steps_prefix(steps: Seq<(ReadEvent, WriteOutcome)>, k: int, m: int)
    requires
        0 <= k <= m,
    ensures
        read_bytes_steps(steps, k).is_prefix_of(read_bytes_steps(steps, m)),
    decreases m,
{
    if k < m {
        lemma_read_bytes_steps_prefix(steps, k, m - 1);
    }
    assert(read_bytes_steps(steps, k) =~= read_bytes_steps(steps, m).subrange(
        0,
        read_bytes_steps(steps, k).len() as int,
    ));
}

/// The concatenation of a sequence of byte chunks, in order.
pub open spec fn concat_chunks(chunks: Seq<Seq<u8>>) -> Seq<u8>
    decreases chunks.len(),
{
    if chunks.len() == 0 {
        Seq::empty()
    } else {
        concat_chunks(chunks.drop_last()) + chunks.last()
    }
}

/// The record of one stdin-to-peer pump run over a finished list of steps.
pub struct PumpARun {
    /// Each successful write to the peer, in order; a zero-byte entry is
    /// the send-zero message.
    pub writes: Vec<Vec<u8>>,
    /// Whether the zero-byte message was sent.
    pub sent_zero: bool,
    /// How the run ended.
    pub exit: PumpExit,
}

/// The view of the written chunks.
pub open spec fn chunk_views(writes: Seq<Vec<u8>>) -> Seq<Seq<u8>> {
    writes.map_values(|v: Vec<u8>| v@)
}

/// Appending an empty chunk leaves the concatenation unchanged.
proof fn lemma_push_empty_chunk(prev: Seq<Vec<u8>>, cur: Seq<Vec<u8>>)
    requires
        cur.len() == prev.len() + 1,
        cur.last()@ == Seq::<u8>::empty(),
        forall|j: int| 0 <= j < prev.len() ==> cur[j] == prev[j],
    ensures
        concat_chunks(chunk_views(cur)) == concat_chunks(chunk_views(prev)),
{
    assert(chunk_views(cur).drop_last() =~= chunk_views(prev));
    assert(concat_chunks(chunk_views(cur)) == concat_chunks(chunk_views(prev))
        + Seq::<u8>::empty());
    assert(concat_chunks(chunk_views(prev)) + Seq::<u8>::empty() =~= concat_chunks(
        chunk_views(prev),
    ));
}

/// The run of the stdin-to-peer pump as specification values: each
/// successful write to the peer, whether the zero-byte message was sent,
/// how the run ends, and which flags it sets.
pub struct SpecPumpARun {
    pub writes: Seq<Seq<u8>>,
    pub sent_zero: bool,
    pub exit: PumpExit,
    pub stdin_done: bool,
    pub peer_done: bool,
}

/// The stdin-to-peer pump over the steps from `i` on, for a run that
/// begins with the peer not yet done; each step pairs what the stdin read
/// produced with the outcome of the peer write it may trigger. Data whose
/// write succeeds is forwarded; end of stream marks stdin done, appends
/// the zero-byte write under `send_zero`, and stops (or exits the process
/// under `exit_on_stdin_eof`); a read failure marks stdin done and stops;
/// a broken-pipe-class write failure marks the peer done and stops
/// cleanly; any other write failure ends the run as failed.
pub open spec fn spec_pump_a(
    steps: Seq<(ReadEvent, WriteOutcome)>,
    send_zero: bool,
    exit_on_stdin_eof: bool,
    i: nat,
) -> SpecPumpARun
    decreases steps.len() - i,
{
    if i >= steps.len() {
        SpecPumpARun {
            writes: Seq::empty(),
            sent_zero: false,
            exit: PumpExit::Drained,
            stdin_done: false,
            peer_done: false,
        }
    } else {
        match steps[i as int].0 {
            ReadEvent::Data(v) => {
                if outcome_broken(steps[i as int].1) {
                    SpecPumpARun {
                        writes: Seq::empty(),
                        sent_zero: false,
                        exit: PumpExit::Stopped,
                        stdin_done: false,
                        peer_done: true,
                    }
                } else if steps[i as int].1 is Failed {
                    SpecPumpARun {
                        writes: Seq::empty(),
                        sent_zero: false,
                        exit: PumpExit::Failed,
                        stdin_done: false,
                        peer_done: false,
                    }
                } else {
                    let rest = spec_pump_a(steps, send_zero, exit_on_stdin_eof, i + 1);
                    SpecPumpARun {
                        writes: seq![v@] + rest.writes,
                        sent_zero: rest.sent_zero,
                        exit: rest.exit,
                        stdin_done: rest.stdin_done,
                        peer_done: rest.peer_done,
                    }
                }
            },
            ReadEvent::Eof => SpecPumpARun {
                writes: if send_zero {
                    seq![Seq::<u8>::empty()]
                } else {
                    Seq::empty()
                },
                sent_zero: send_zero,
                exit: if exit_on_stdin_eof {
                    PumpExit::ProcessExit
                } else {
                    PumpExit::Stopped
                },
                stdin_done: true,
                peer_done: false,
            },
            ReadEvent::Failed { .. } => SpecPumpARun {
                writes: Seq::empty(),
                sent_zero: false,
                exit: PumpExit::Stopped,
                stdin_done: true,
                peer_done: false,
            },
        }
    }
}

/// The stdin-to-peer pump, run over a finished record of steps. A run
/// that begins with the peer already done writes nothing and stops at
/// once; otherwise the writes, the zero-byte message, the exit and the
/// flags are exactly what [`spec_pump_a`] says of the steps, and what
/// reaches the peer is always a prefix of the byte sequence read from
/// stdin.
pub fn stdin_to_pipe_model(
    steps: &Vec<(ReadEvent, WriteOutcome)>,
    send_zero: bool,
    exit_on_stdin_eof: bool,
    state: &mut RelayState,
) -> (run: PumpARun)
    requires
        forall|k: int|
            0 <= k < steps@.len() ==> ((#[trigger] steps@[k].0) is Data ==> event_bytes(
                steps@[k].0,
            ).len() > 0),
    ensures
        old(state).pipe_done ==> run.writes@.len() == 0 && !run.sent_zero && run.exit
            == PumpExit::Stopped && *final(state) == *old(state),
        !old(state).pipe_done ==> ({
            let r = spec_pump_a(steps@, send_zero, exit_on_stdin_eof, 0);
            &&& chunk_views(run.writes@) == r.writes
            &&& run.sent_zero == r.sent_zero
            &&& run.exit == r.exit
            &&& final(state).stdin_done == (old(state).stdin_done || r.stdin_done)
            &&& final(state).pipe_done == r.peer_done
        }),
        concat_chunks(chunk_views(run.writes@)).is_prefix_of(
            read_bytes_steps(steps@, steps@.len() as int),
        ),
        old(state).stdin_done ==> final(state).stdin_done,
        old(state).pipe_done ==> final(state).pipe_done,
        run.sent_zero ==> send_zero,
        run.sent_zero ==> run.writes@.len() >= 1 && run.writes@.last()@.len() == 0 && (forall|
            j: int,
        |
            0 <= j < run.writes@.len() - 1 ==> (#[trigger] run.writes@[j])@.len() > 0),
        !run.sent_zero ==> (forall|j: int|
            0 <= j < run.writes@.len() ==> (#[trigger] run.writes@[j])@.len() > 0),
        !exit_on_stdin_eof ==> run.exit != PumpExit::ProcessExit,
        run.exit == PumpExit::ProcessExit ==> exit_on_stdin_eof && final(state).stdin_done,
        run.sent_zero ==> final(state).stdin_done,
{
    let mut writes: Vec<Vec<u8>> = Vec::new();

    // The check the real loop repeats each iteration: within this run the
    // flag only moves on paths that return at once, so checking up front
    // covers every loop entry.
    if state.pipe_done {
        proof {
            lemma_read_bytes_steps_prefix(steps@, 0, steps@.len() as int);
            assert(chunk_views(Seq::<Vec<u8>>::empty()) =~= Seq::<Seq<u8>>::empty());
        }
        return PumpARun { writes, sent_zero: false, exit: PumpExit::Stopped };
    }

    let mut i: usize = 0;
    proof {
        assert(chunk_views(Seq::<Vec<u8>>::empty()) =~= Seq::<Seq<u8>>::empty());
        assert(Seq::<Seq<u8>>::empty() + spec_pump_a(steps@, send_zero, exit_on_stdin_eof, 0).writes
            =~= spec_pump_a(steps@, send_zero, exit_on_stdin_eof, 0).writes);
    }
    while i < steps.len()
        invariant
            i <= steps@.len(),
            forall|k: int|
                0 <= k < steps@.len() ==> ((#[trigger] steps@[k].0) is Data ==> event_bytes(
                    steps@[k].0,
                ).len() > 0),
            concat_chunks(chunk_views(writes@)) == read_bytes_steps(steps@, i as int),
            forall|j: int| 0 <= j < writes@.len() ==> (#[trigger] writes@[j])@.len() > 0,
            !old(state).pipe_done,
            !state.pipe_done,
            state.stdin_done == old(state).stdin_done,
            ({
                let full = spec_pump_a(steps@, send_zero, exit_on_stdin_eof, 0);
                let rest = spec_pump_a(steps@, send_zero, exit_on_stdin_eof, i as nat);
                &&& full.writes == chunk_views(writes@) + rest.writes
                &&& full.sent_zero == rest.sent_zero
                &&& full.exit == rest.exit
                &&& full.stdin_done == rest.stdin_done
                &&& full.peer_done == rest.peer_done
            }),
        decreases steps@.len() - i,
    {
        let a = stdin_read_step(state, send_zero, exit_on_stdin_eof, &steps[i].0);
        match a {
            PumpAAction::WritePeer => {
                match &steps[i].0 {
                    ReadEvent::Data(chunk) => {
                        let w = outbound_write_step(state, &steps[i].1);
                        match w {
                            OutboundWriteStep::Continue => {
                                let copied = vstd::slice::slice_to_vec(chunk.as_slice());
                                let ghost prev = writes@;
                                let ghost chunk_bytes = copied@;
                                writes.push(copied);
                                proof {
                                    assert(steps@[i as int].1 is Done);
                                    assert(chunk_views(writes@).drop_last() =~= chunk_views(prev));
                                    assert(chunk_views(writes@).last() == chunk_bytes);
                                    assert(concat_chunks(chunk_views(writes@)) == concat_chunks(
                                        chunk_views(prev),
                                    ) + chunk_bytes);
                                    assert(concat_chunks(chunk_views(prev)) + chunk_bytes
                                        =~= read_bytes_steps(steps@, i + 1 as int));
                                    assert(chunk_views(writes@) =~= chunk_views(prev) + seq![
                                        chunk_bytes,
                                    ]);
                                    let rest_next = spec_pump_a(
                                        steps@,
                                        send_zero,
                                        exit_on_stdin_eof,
                                        (i + 1) as nat,
                                    );
                                    assert((chunk_views(prev) + seq![chunk_bytes])
                                        + rest_next.writes =~= chunk_views(prev) + (seq![
                                        chunk_bytes,
                                    ] + rest_next.writes));
                                }
                            },
                            OutboundWriteStep::StopPeerClosed => {
                                proof {
                                    lemma_read_bytes_steps_prefix(
                                        steps@,
                                        i as int,
                                        steps@.len() as int,
                                    );
                                    assert(chunk_views(writes@) + Seq::<Seq<u8>>::empty()
                                        =~= chunk_views(writes@));
                                }
                                return PumpARun {
                                    writes,
                                    sent_zero: false,
                                    exit: PumpExit::Stopped,
                                };
                            },
                            OutboundWriteStep::FailWith => {
                                proof {
                                    lemma_read_bytes_steps_prefix(
                                        steps@,
                                        i as int,
                                        steps@.len() as int,
                                    );
                                    assert(chunk_views(writes@) + Seq::<Seq<u8>>::empty()
                                        =~= chunk_views(writes@));
                                }
                                return PumpARun {
                                    writes,
                                    sent_zero: false,
                                    exit: PumpExit::Failed,
                                };
                            },
                        }
                    },
                    _ => {},
                }
            },
            PumpAAction::SendZeroThenStop => {
                let ghost prev = writes@;
                writes.push(Vec::new());
                proof {
                    if steps@[i as int].0 is Data {
                        assert(false);
                    }
                    lemma_push_empty_chunk(prev, writes@);
                    lemma_read_bytes_steps_prefix(steps@, i as int, steps@.len() as int);
                    assert(chunk_views(writes@) =~= chunk_views(prev) + seq![Seq::<u8>::empty()]);
                }
                return PumpARun { writes, sent_zero: true, exit: PumpExit::Stopped };
            },
            PumpAAction::SendZeroThenExit => {
                let ghost prev = writes@;
                writes.push(Vec::new());
                proof {
                    if steps@[i as int].0 is Data {
                        assert(false);
                    }
                    lemma_push_empty_chunk(prev, writes@);
                    lemma_read_bytes_steps_prefix(steps@, i as int, steps@.len() as int);
                    assert(chunk_views(writes@) =~= chunk_views(prev) + seq![Seq::<u8>::empty()]);
                }
                return PumpARun { writes, sent_zero: true, exit: PumpExit::ProcessExit };
            },
            PumpAAction::ExitProcess => {
                proof {
                    if steps@[i as int].0 is Data {
                        assert(false);
                    }
                    lemma_read_bytes_steps_prefix(steps@, i as int, steps@.len() as int);
                    assert(chunk_views(writes@) + Seq::<Seq<u8>>::empty() =~= chunk_views(writes@));
                }
                return PumpARun { writes, sent_zero: false, exit: PumpExit::ProcessExit };
            },
            PumpAAction::Stop => {
                proof {
                    if steps@[i as int].0 is Data {
                        assert(false);
                    }
                    lemma_read_bytes_steps_prefix(steps@, i as int, steps@.len() as int);
                    assert(chunk_views(writes@) + Seq::<Seq<u8>>::empty() =~= chunk_views(writes@));
                }
                return PumpARun { writes, sent_zero: false, exit: PumpExit::Stopped };
            },
        }
        i = i + 1;
    }
    proof {
        lemma_read_bytes_steps_prefix(steps@, steps@.len() as int, steps@.len() as int);
        assert(chunk_views(writes@) + Seq::<Seq<u8>>::empty() =~= chunk_views(writes@));
    }
    PumpARun { writes, sent_zero: false, exit: PumpExit::Drained }
}

} // verus!
