use baton::relay::pipe_to_stdout_model;
use baton::relay::stdin_to_pipe_model;
use baton::relay::PumpExit;
use baton::relay::ReadEvent;
use baton::relay::RelayState;
use baton::relay::WriteOutcome;

#[test]
fn test_pump_b_echo_bytes() {
    // The peer sends the five echoed bytes, then closes.
    let steps = vec![
        (ReadEvent::Data(b"Hello".to_vec()), WriteOutcome::Done),
        (ReadEvent::Eof, WriteOutcome::Done),
    ];
    let mut state = RelayState::new();
    let (written, exit) = pipe_to_stdout_model(&steps, false, &mut state);
    assert_eq!(written, b"Hello".to_vec());
    assert!(exit == PumpExit::Stopped);
    assert!(state.pipe_done);
}

#[test]
fn test_pump_b_exit_on_peer_eof() {
    // With exit-on-peer-EOF, the pump asks for process exit right after
    // the last bytes reached stdout, without waiting for the other pump.
    let steps = vec![
        (ReadEvent::Data(b"OK".to_vec()), WriteOutcome::Done),
        (ReadEvent::Eof, WriteOutcome::Done),
    ];
    let mut state = RelayState::new();
    let (written, exit) = pipe_to_stdout_model(&steps, true, &mut state);
    assert_eq!(written, b"OK".to_vec());
    assert!(exit == PumpExit::ProcessExit);
    assert!(state.pipe_done);
}

#[test]
fn test_pump_b_broken_pipe_stops_cleanly() {
    let steps = vec![
        (ReadEvent::Data(b"x".to_vec()), WriteOutcome::Done),
        (
            ReadEvent::Failed { kind_is_broken_pipe: false, os_code: Some(109) },
            WriteOutcome::Done,
        ),
        (ReadEvent::Data(b"y".to_vec()), WriteOutcome::Done),
    ];
    let mut state = RelayState::new();
    let (written, exit) = pipe_to_stdout_model(&steps, false, &mut state);
    assert_eq!(written, b"x".to_vec());
    assert!(exit == PumpExit::Stopped);
    assert!(state.pipe_done);
}

#[test]
fn test_pump_b_other_error_fails() {
    let steps = vec![
        (
            ReadEvent::Failed { kind_is_broken_pipe: false, os_code: Some(2) },
            WriteOutcome::Done,
        ),
    ];
    let mut state = RelayState::new();
    let (written, exit) = pipe_to_stdout_model(&steps, false, &mut state);
    assert!(written.is_empty());
    assert!(exit == PumpExit::Failed);
    assert!(!state.pipe_done);
}

#[test]
fn test_pump_b_broken_stdout_write_stops_cleanly() {
    // A broken-pipe-class failure on the outbound (stdout) write marks the
    // peer done and stops the pump cleanly.
    let steps = vec![
        (
            ReadEvent::Data(b"x".to_vec()),
            WriteOutcome::Failed { kind_is_broken_pipe: true, os_code: None },
        ),
        (ReadEvent::Data(b"y".to_vec()), WriteOutcome::Done),
    ];
    let mut state = RelayState::new();
    let (written, exit) = pipe_to_stdout_model(&steps, false, &mut state);
    assert!(written.is_empty());
    assert!(exit == PumpExit::Stopped);
    assert!(state.pipe_done);
}

#[test]
fn test_pump_b_other_stdout_write_error_fails() {
    let steps = vec![
        (
            ReadEvent::Data(b"x".to_vec()),
            WriteOutcome::Failed { kind_is_broken_pipe: false, os_code: Some(5) },
        ),
    ];
    let mut state = RelayState::new();
    let (written, exit) = pipe_to_stdout_model(&steps, false, &mut state);
    assert!(written.is_empty());
    assert!(exit == PumpExit::Failed);
    assert!(!state.pipe_done);
}

#[test]
fn test_pump_a_forwards_stdin() {
    let steps = vec![
        (ReadEvent::Data(b"He".to_vec()), WriteOutcome::Done),
        (ReadEvent::Data(b"llo".to_vec()), WriteOutcome::Done),
        (ReadEvent::Eof, WriteOutcome::Done),
    ];
    let mut state = RelayState::new();
    let run = stdin_to_pipe_model(&steps, false, false, &mut state);
    assert_eq!(run.writes, vec![b"He".to_vec(), b"llo".to_vec()]);
    assert!(!run.sent_zero);
    assert!(run.exit == PumpExit::Stopped);
    assert!(state.stdin_done);
}

#[test]
fn test_pump_a_send_zero_after_eof() {
    // Empty stdin with send-zero: exactly one zero-byte write, then stop.
    let steps = vec![(ReadEvent::Eof, WriteOutcome::Done)];
    let mut state = RelayState::new();
    let run = stdin_to_pipe_model(&steps, true, false, &mut state);
    assert_eq!(run.writes, vec![Vec::<u8>::new()]);
    assert!(run.sent_zero);
    assert!(run.exit == PumpExit::Stopped);
    assert!(state.stdin_done);
}

#[test]
fn test_pump_a_exit_on_stdin_eof() {
    let steps = vec![(ReadEvent::Eof, WriteOutcome::Done)];
    let mut state = RelayState::new();
    let run = stdin_to_pipe_model(&steps, false, true, &mut state);
    assert!(run.writes.is_empty());
    assert!(run.exit == PumpExit::ProcessExit);
}

#[test]
fn test_pump_a_broken_write_stops() {
    let steps = vec![
        (
            ReadEvent::Data(b"data".to_vec()),
            WriteOutcome::Failed { kind_is_broken_pipe: false, os_code: Some(233) },
        ),
        (ReadEvent::Data(b"more".to_vec()), WriteOutcome::Done),
    ];
    let mut state = RelayState::new();
    let run = stdin_to_pipe_model(&steps, false, false, &mut state);
    assert!(run.writes.is_empty());
    assert!(run.exit == PumpExit::Stopped);
    assert!(state.pipe_done);
}

#[test]
fn test_pump_a_stops_when_peer_done() {
    // A run that begins with the peer already done writes nothing at all.
    let steps = vec![(ReadEvent::Data(b"late".to_vec()), WriteOutcome::Done)];
    let mut state = RelayState::new();
    state.set_pipe_done();
    let run = stdin_to_pipe_model(&steps, false, false, &mut state);
    assert!(run.writes.is_empty());
    assert!(run.exit == PumpExit::Stopped);
}

#[test]
fn test_pump_a_read_error_stops() {
    let steps = vec![
        (
            ReadEvent::Failed { kind_is_broken_pipe: false, os_code: None },
            WriteOutcome::Done,
        ),
    ];
    let mut state = RelayState::new();
    let run = stdin_to_pipe_model(&steps, false, false, &mut state);
    assert!(run.writes.is_empty());
    assert!(run.exit == PumpExit::Stopped);
    assert!(state.stdin_done);
}
