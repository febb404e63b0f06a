use baton::overlapped::classify_io_call;
use baton::overlapped::overlapped_op_model;
use baton::overlapped::EventPool;
use baton::overlapped::IoCallStep;
use baton::overlapped::OverlappedHandle;
use baton::overlapped::OverlappedOutcome;
use baton::overlapped::ERROR_IO_PENDING;
use baton::pipe::PipeClient;

#[test]
fn test_event_pool_lifo() {
    let mut pool = EventPool::new();
    assert_eq!(pool.get(), None);
    pool.put(11);
    pool.put(22);
    assert_eq!(pool.get(), Some(22));
    assert_eq!(pool.get(), Some(11));
    assert_eq!(pool.get(), None);
}

#[test]
fn test_classify_io_call_table() {
    assert_eq!(classify_io_call(true, 5, 0), IoCallStep::CompletedInline { bytes: 5 });
    assert_eq!(classify_io_call(false, 0, ERROR_IO_PENDING), IoCallStep::Pending);
    assert_eq!(classify_io_call(false, 0, 109), IoCallStep::FailedWith { os_code: 109 });
}

#[test]
fn test_overlapped_op_inline_completion() {
    let mut pool = EventPool::new();
    let outcome = OverlappedOutcome {
        call_ok: true,
        inline_bytes: 42,
        call_error: 0,
        wait_signaled: false,
        result_ok: false,
        transferred: 0,
        late_error: 0,
    };
    let r = overlapped_op_model(&mut pool, 7, &outcome);
    assert_eq!(r, Ok(42));
    // The freshly created event joined the pool.
    assert_eq!(pool.handles, vec![7]);
}

#[test]
fn test_overlapped_op_pending_then_result() {
    let mut pool = EventPool::new();
    pool.put(9);
    let outcome = OverlappedOutcome {
        call_ok: false,
        inline_bytes: 0,
        call_error: ERROR_IO_PENDING,
        wait_signaled: true,
        result_ok: true,
        transferred: 128,
        late_error: 0,
    };
    let r = overlapped_op_model(&mut pool, 1, &outcome);
    assert_eq!(r, Ok(128));
    // The cached event was taken and returned: the pool is unchanged.
    assert_eq!(pool.handles, vec![9]);
}

#[test]
fn test_overlapped_op_failure_paths() {
    let mut pool = EventPool::new();
    let failed_call = OverlappedOutcome {
        call_ok: false,
        inline_bytes: 0,
        call_error: 5,
        wait_signaled: false,
        result_ok: false,
        transferred: 0,
        late_error: 0,
    };
    assert_eq!(overlapped_op_model(&mut pool, 1, &failed_call), Err(5));

    let failed_wait = OverlappedOutcome {
        call_ok: false,
        inline_bytes: 0,
        call_error: ERROR_IO_PENDING,
        wait_signaled: false,
        result_ok: false,
        transferred: 0,
        late_error: 6,
    };
    assert_eq!(overlapped_op_model(&mut pool, 2, &failed_wait), Err(6));

    let failed_result = OverlappedOutcome {
        call_ok: false,
        inline_bytes: 0,
        call_error: ERROR_IO_PENDING,
        wait_signaled: true,
        result_ok: false,
        transferred: 0,
        late_error: 7,
    };
    assert_eq!(overlapped_op_model(&mut pool, 3, &failed_result), Err(7));
    // The first operation grew the pool by one; the later ones reused that
    // cached event and returned it, even on their failure paths.
    assert_eq!(pool.handles, vec![1]);
}

#[test]
fn test_overlapped_handle_round_trip() {
    let h = OverlappedHandle::from_raw(4096);
    assert_eq!(h.raw(), 4096);
}

#[test]
fn test_pipe_client_closes_once() {
    let mut client = PipeClient::new(1234);
    assert!(client.open);
    assert_eq!(client.handle, 1234);
    let h = client.close();
    assert_eq!(h, 1234);
    assert!(!client.open);
}
