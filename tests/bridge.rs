use bluetooth_rust::{
    after_read, BridgeCore, BridgeError, ByteQueue, ErrorKind, LinkState, PollStep, ReadOutcome,
    ReadPoll, ReaderAction, WritePlan, POLL_INTERVAL_MS, WORK_BUFFER_SIZE,
};

/// Drives one read the way the socket does, with a fixed connectivity answer
/// and a clock that counts down by the time slept.
fn run_read(
    queue: &mut ByteQueue,
    buf: &mut [u8],
    connected: Option<bool>,
    timeout_ms: u64,
) -> (PollStep, u64) {
    let (mut poll, mut step) = ReadPoll::start(buf.len());
    let mut left = timeout_ms;
    let mut deadline_passed = false;
    let mut slept = 0u64;
    loop {
        step = match step {
            PollStep::Drain => {
                let moved = queue.drain_into(buf, poll.copied());
                poll.after_drain(moved)
            }
            PollStep::CheckConnection => poll.after_check(connected),
            PollStep::CheckClock => {
                if deadline_passed {
                    poll.after_clock(None)
                } else {
                    poll.after_clock(Some(left))
                }
            }
            PollStep::Sleep(ms) => {
                slept += ms;
                if left == 0 {
                    deadline_passed = true;
                }
                left -= ms;
                PollStep::Drain
            }
            other => return (other, slept),
        };
    }
}

fn connected_core() -> BridgeCore {
    let mut core = BridgeCore::new();
    assert!(core.begin_connect(false));
    assert!(core.finish_connect(Ok(true)).is_ok());
    core
}

#[test]
fn new_bridge_is_idle_and_non_blocking() {
    let core = BridgeCore::new();
    assert_eq!(core.state(), LinkState::Idle);
    assert!(!core.reader_running());
    assert_eq!(core.read_timeout_ms(), 0);
    assert_eq!(core.scratch_capacity(), WORK_BUFFER_SIZE);
    assert_eq!(WORK_BUFFER_SIZE, 32 * 1024);
}

#[test]
fn connect_on_connected_socket_is_a_no_op() {
    let mut core = BridgeCore::new();
    assert!(!core.begin_connect(true));
    assert_eq!(core.state(), LinkState::Idle);
    assert!(!core.reader_running());
}

#[test]
fn connect_success_starts_reader() {
    let core = connected_core();
    assert_eq!(core.state(), LinkState::Connected);
    assert!(core.reader_running());
}

#[test]
fn connect_that_leaves_socket_unconnected_fails() {
    let mut core = BridgeCore::new();
    assert!(core.begin_connect(false));
    assert_eq!(core.state(), LinkState::Connecting);
    let r = core.finish_connect(Ok(false));
    assert!(matches!(r, Err(BridgeError::NotConnected)));
    assert_eq!(core.state(), LinkState::Idle);
    assert!(!core.reader_running());
}

#[test]
fn connect_exception_is_returned() {
    let mut core = BridgeCore::new();
    assert!(core.begin_connect(false));
    let r = core.finish_connect(Err(BridgeError::other("java.io.IOException: read failed")));
    match r {
        Err(BridgeError::Other(m)) => assert_eq!(m, "java.io.IOException: read failed"),
        _ => panic!("expected the connect error"),
    }
    assert_eq!(core.state(), LinkState::Idle);
}

#[test]
fn close_twice_joins_reader_once() {
    let mut core = connected_core();
    let first = core.close(Some(true));
    assert!(first.close_socket);
    assert!(first.join_reader);
    assert_eq!(core.state(), LinkState::Closed);
    let second = core.close(Some(false));
    assert!(!second.close_socket);
    assert!(!second.join_reader);
    assert_eq!(core.state(), LinkState::Closed);
    assert!(!core.reader_running());
}

#[test]
fn close_on_disconnected_socket_still_joins_reader() {
    let mut core = connected_core();
    let plan = core.close(Some(false));
    assert!(!plan.close_socket);
    assert!(plan.join_reader);
}

#[test]
fn close_when_query_fails_still_closes() {
    let mut core = connected_core();
    let plan = core.close(None);
    assert!(plan.close_socket);
}

#[test]
fn empty_write_does_nothing() {
    let core = connected_core();
    assert_eq!(core.write_plan(0), WritePlan::Nothing);
}

#[test]
fn large_write_grows_scratch_and_small_write_keeps_it() {
    let mut core = connected_core();
    let big = WORK_BUFFER_SIZE + 1000;
    assert_eq!(core.write_plan(big), WritePlan::Grow);
    core.staged(big);
    assert_eq!(core.scratch_capacity(), big);
    assert_eq!(core.write_plan(10), WritePlan::Reuse);
    core.staged(10);
    assert_eq!(core.scratch_capacity(), big);
    assert_eq!(core.write_plan(big), WritePlan::Reuse);
}

#[test]
fn write_within_capacity_reuses_scratch() {
    let mut core = connected_core();
    assert_eq!(core.write_plan(WORK_BUFFER_SIZE), WritePlan::Reuse);
    core.staged(WORK_BUFFER_SIZE);
    assert_eq!(core.scratch_capacity(), WORK_BUFFER_SIZE);
}

#[test]
fn write_failure_on_disconnected_socket_is_not_connected() {
    let e = bluetooth_rust::write_error(Some(false), BridgeError::other("x"));
    assert_eq!(e.kind(), ErrorKind::NotConnected);
    let e = bluetooth_rust::write_error(None, BridgeError::other("x"));
    assert_eq!(e.kind(), ErrorKind::NotConnected);
}

#[test]
fn write_failure_on_connected_socket_keeps_classification() {
    let e = bluetooth_rust::write_error(
        Some(true),
        BridgeError::PermissionDenied("no BLUETOOTH_CONNECT".to_string()),
    );
    match e {
        BridgeError::PermissionDenied(m) => assert_eq!(m, "no BLUETOOTH_CONNECT"),
        _ => panic!("expected the classified error"),
    }
}

#[test]
fn set_read_timeout_is_kept() {
    let mut core = BridgeCore::new();
    core.set_read_timeout_ms(200);
    assert_eq!(core.read_timeout_ms(), 200);
    assert_eq!(core.state(), LinkState::Idle);
}

#[test]
fn read_into_empty_buffer_returns_zero() {
    let (poll, step) = ReadPoll::start(0);
    assert_eq!(step, PollStep::Return(0));
    assert_eq!(poll.copied(), 0);
    let mut q = ByteQueue::new();
    q.push_bytes(&[1, 2]);
    let mut buf: [u8; 0] = [];
    assert_eq!(run_read(&mut q, &mut buf, Some(true), 500), (PollStep::Return(0), 0));
    assert_eq!(q.len(), 2);
}

#[test]
fn write_then_peer_reads_same_bytes() {
    // local side
    let mut local = connected_core();
    let payload = [0x01u8, 0x02, 0x03];
    assert_eq!(local.write_plan(payload.len()), WritePlan::Reuse);
    local.staged(payload.len());
    // peer side: its reader receives the three bytes
    let mut peer_queue = ByteQueue::new();
    let action = after_read(ReadOutcome::Returned(3));
    assert_eq!(action, ReaderAction::Deliver(3));
    peer_queue.push_bytes(&payload);
    // peer reads
    let mut buf = [0u8; 3];
    let (step, _) = run_read(&mut peer_queue, &mut buf, Some(true), 0);
    assert_eq!(step, PollStep::Return(3));
    assert_eq!(buf, [1, 2, 3]);
    assert!(peer_queue.is_empty());
}

#[test]
fn remote_close_then_read_is_not_connected() {
    let action = after_read(ReadOutcome::Raised {
        reports_closure: bluetooth_rust::reports_closure("bt socket closed, read return: -1"),
    });
    assert_eq!(action, ReaderAction::CloseAndFinish);
    let mut q = ByteQueue::new();
    let mut buf = [0u8; 8];
    let (step, slept) = run_read(&mut q, &mut buf, Some(false), 0);
    assert_eq!(step, PollStep::NotConnected);
    assert_eq!(slept, 0);
}

#[test]
fn read_with_timeout_and_no_data_times_out() {
    let mut q = ByteQueue::new();
    let mut buf = [0u8; 8];
    let (step, slept) = run_read(&mut q, &mut buf, Some(true), 200);
    assert_eq!(step, PollStep::TimedOut);
    assert_eq!(slept, 200);
}

#[test]
fn connected_read_never_reports_not_connected() {
    let (mut poll, _) = ReadPoll::start(4);
    assert_eq!(poll.after_drain(0), PollStep::CheckConnection);
    assert_eq!(poll.after_check(Some(true)), PollStep::CheckClock);
    assert_eq!(poll.after_clock(Some(250)), PollStep::Sleep(POLL_INTERVAL_MS));
    assert_eq!(poll.after_clock(Some(30)), PollStep::Sleep(30));
    assert_eq!(poll.after_clock(None), PollStep::TimedOut);
}

#[test]
fn partial_read_returns_bytes_on_disconnect() {
    let mut q = ByteQueue::new();
    q.push_bytes(&[9, 8]);
    let mut buf = [0u8; 5];
    let (step, _) = run_read(&mut q, &mut buf, Some(false), 1000);
    assert_eq!(step, PollStep::Return(2));
    assert_eq!(buf, [9, 8, 0, 0, 0]);
}

#[test]
fn partial_read_returns_bytes_at_deadline() {
    let mut q = ByteQueue::new();
    q.push_bytes(&[7]);
    let mut buf = [0u8; 4];
    let (step, slept) = run_read(&mut q, &mut buf, Some(true), 150);
    assert_eq!(step, PollStep::Return(1));
    assert_eq!(slept, 150);
    assert_eq!(buf[0], 7);
}

#[test]
fn failed_connectivity_query_without_data_fails() {
    let mut q = ByteQueue::new();
    let mut buf = [0u8; 4];
    let (step, _) = run_read(&mut q, &mut buf, None, 100);
    assert_eq!(step, PollStep::QueryFailed);
}

#[test]
fn full_buffer_returns_without_waiting() {
    let mut q = ByteQueue::new();
    q.push_bytes(&[1, 2, 3, 4, 5, 6]);
    let mut buf = [0u8; 4];
    let (step, slept) = run_read(&mut q, &mut buf, Some(true), 1000);
    assert_eq!(step, PollStep::Return(4));
    assert_eq!(slept, 0);
    assert_eq!(buf, [1, 2, 3, 4]);
    assert_eq!(q.len(), 2);
}
