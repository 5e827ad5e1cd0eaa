use blob_bridge::bridge::Bridge;
use blob_bridge::bridge::ForwardOutcome;
use blob_bridge::bridge::InitOutcome;
use blob_bridge::bridge::ReadOutcome;
use blob_bridge::bridge::TermOutcome;

fn must_init(bridge: &mut Bridge, holder: &String) {
    match bridge.initialize(holder, true) {
        InitOutcome::Done(Ok(())) => {}
        _ => panic!("initialize should succeed"),
    }
}

fn must_read(bridge: &mut Bridge, holder: &String) -> Vec<u8> {
    match bridge.blocking_read(holder) {
        ReadOutcome::Data(d) => d,
        _ => panic!("read should yield data"),
    }
}

#[test]
fn three_chunk_scenario() {
    // a stub server streams three 1 MiB chunks for "blob-123", then
    // closes cleanly
    let mut bridge = Bridge::new();
    let holder = String::from("blob-123");
    must_init(&mut bridge, &holder);
    assert!(bridge.is_initialized(&holder));

    let chunk_a = vec![0xAAu8; 1 << 20];
    let chunk_b = vec![0xBBu8; 1 << 20];
    let chunk_c = vec![0xCCu8; 1 << 20];
    for chunk in [chunk_a.clone(), chunk_b.clone(), chunk_c.clone()] {
        assert!(matches!(
            bridge.chunk_arrived(&holder, chunk),
            ForwardOutcome::Delivered
        ));
    }
    bridge.stream_closed(&holder);

    assert_eq!(must_read(&mut bridge, &holder), chunk_a);
    assert_eq!(must_read(&mut bridge, &holder), chunk_b);
    assert_eq!(must_read(&mut bridge, &holder), chunk_c);
    // fourth read: end of stream, an empty byte result
    assert_eq!(must_read(&mut bridge, &holder), Vec::<u8>::new());

    match bridge.terminate(&holder) {
        TermOutcome::Done(Ok(())) => {}
        _ => panic!("terminate should succeed"),
    }
    // a read after teardown is a state error
    match bridge.blocking_read(&holder) {
        ReadOutcome::Failed(m) => assert_eq!(m, "no session"),
        _ => panic!("read after terminate should fail"),
    }
}

#[test]
fn terminate_never_initialized() {
    let mut bridge = Bridge::new();
    let holder = String::from("never-seen");
    match bridge.terminate(&holder) {
        TermOutcome::Done(Ok(())) => {}
        _ => panic!("terminate of an unknown holder is a success"),
    }
    assert!(!bridge.is_initialized(&holder));
}

#[test]
fn reinitialize_after_terminate() {
    let mut bridge = Bridge::new();
    let holder = String::from("blob-1");
    must_init(&mut bridge, &holder);
    bridge.stream_closed(&holder);
    match bridge.terminate(&holder) {
        TermOutcome::Done(Ok(())) => {}
        _ => panic!("terminate should succeed"),
    }
    assert!(!bridge.is_initialized(&holder));
    // a fresh initialize succeeds without tripping the
    // double-session check
    must_init(&mut bridge, &holder);
    assert!(bridge.is_initialized(&holder));
}

#[test]
fn reinitialize_replaces_live_session() {
    let mut bridge = Bridge::new();
    let holder = String::from("blob-2");
    must_init(&mut bridge, &holder);

    // the second initialize begins the teardown of the first session and
    // waits for its task
    assert!(matches!(
        bridge.initialize(&holder, true),
        InitOutcome::AwaitTask
    ));
    assert!(!bridge.is_initialized(&holder));

    // the old task notices teardown through a failed forward, which is
    // recorded in the shared log
    assert!(matches!(
        bridge.chunk_arrived(&holder, vec![1, 2, 3]),
        ForwardOutcome::Closed
    ));

    // the teardown performed by initialize then surfaces that failure
    match bridge.initialize(&holder, true) {
        InitOutcome::Done(Err(m)) => assert_eq!(m, "channel closed"),
        _ => panic!("the recorded teardown failure must surface"),
    }
    assert!(!bridge.is_initialized(&holder));
}

#[test]
fn connection_failure_creates_no_session() {
    let mut bridge = Bridge::new();
    let holder = String::from("blob-3");
    match bridge.initialize(&holder, false) {
        InitOutcome::Done(Err(m)) => {
            assert_eq!(m, "could not successfully connect to the blob server")
        }
        _ => panic!("a failed connection must be reported"),
    }
    assert!(!bridge.is_initialized(&holder));
}

#[test]
fn stream_abort_surfaces_on_any_holder() {
    let mut bridge = Bridge::new();
    let h1 = String::from("blob-a");
    let h2 = String::from("blob-b");
    must_init(&mut bridge, &h1);
    must_init(&mut bridge, &h2);

    // the remote stream for h1 aborts mid-transfer
    bridge.stream_failed(&h1, String::from("stream corrupt"));

    // the next read observes the failure instead of hanging — for the
    // aborted holder and, through the shared log, for any other holder
    match bridge.blocking_read(&h1) {
        ReadOutcome::Failed(m) => assert_eq!(m, "stream corrupt"),
        _ => panic!("the recorded failure must surface"),
    }
    match bridge.blocking_read(&h2) {
        ReadOutcome::Failed(m) => assert_eq!(m, "stream corrupt"),
        _ => panic!("the shared log fails unrelated holders too"),
    }
    // terminate for the aborted holder also observes it
    bridge.stream_closed(&h2);
    match bridge.terminate(&h1) {
        TermOutcome::Done(Err(m)) => assert_eq!(m, "stream corrupt"),
        TermOutcome::Done(Ok(())) => panic!("terminate must surface the failure"),
        TermOutcome::AwaitTask => panic!("the task already exited"),
    }
}

#[test]
fn open_failure_surfaces() {
    let mut bridge = Bridge::new();
    let holder = String::from("blob-4");
    must_init(&mut bridge, &holder);
    bridge.open_failed(&holder);
    match bridge.blocking_read(&holder) {
        ReadOutcome::Failed(m) => assert_eq!(m, "couldn't perform grpc get operation"),
        _ => panic!("the connection failure must surface"),
    }
}

#[test]
fn distinct_holders_never_cross_deliver() {
    let mut bridge = Bridge::new();
    let h1 = String::from("left");
    let h2 = String::from("right");
    must_init(&mut bridge, &h1);
    must_init(&mut bridge, &h2);

    assert!(matches!(
        bridge.chunk_arrived(&h1, vec![1, 1, 1]),
        ForwardOutcome::Delivered
    ));
    assert!(matches!(
        bridge.chunk_arrived(&h2, vec![2, 2]),
        ForwardOutcome::Delivered
    ));
    assert!(matches!(
        bridge.chunk_arrived(&h1, vec![3]),
        ForwardOutcome::Delivered
    ));

    assert_eq!(must_read(&mut bridge, &h1), vec![1, 1, 1]);
    assert_eq!(must_read(&mut bridge, &h2), vec![2, 2]);
    assert_eq!(must_read(&mut bridge, &h1), vec![3]);
}

#[test]
fn full_queue_holds_the_task_back() {
    let mut bridge = Bridge::new();
    let holder = String::from("blob-5");
    must_init(&mut bridge, &holder);

    for i in 0..10u8 {
        assert!(matches!(
            bridge.chunk_arrived(&holder, vec![i]),
            ForwardOutcome::Delivered
        ));
    }
    // the queue is bounded: the eleventh forward is held back
    assert!(matches!(
        bridge.chunk_arrived(&holder, vec![10]),
        ForwardOutcome::Full
    ));
    // the reader drains one chunk, making room again
    assert_eq!(must_read(&mut bridge, &holder), vec![0]);
    assert!(matches!(
        bridge.chunk_arrived(&holder, vec![10]),
        ForwardOutcome::Delivered
    ));
}

#[test]
fn empty_queue_waits_while_stream_open() {
    let mut bridge = Bridge::new();
    let holder = String::from("blob-6");
    must_init(&mut bridge, &holder);
    assert!(matches!(
        bridge.blocking_read(&holder),
        ReadOutcome::AwaitChunk
    ));
    // an empty chunk sent mid-stream is handed out as-is
    assert!(matches!(
        bridge.chunk_arrived(&holder, Vec::new()),
        ForwardOutcome::Delivered
    ));
    assert_eq!(must_read(&mut bridge, &holder), Vec::<u8>::new());
}

#[test]
fn terminate_waits_for_running_task() {
    let mut bridge = Bridge::new();
    let holder = String::from("blob-7");
    must_init(&mut bridge, &holder);
    // the task has not exited: terminate drops the reading end and waits
    assert!(matches!(bridge.terminate(&holder), TermOutcome::AwaitTask));
    assert!(!bridge.is_initialized(&holder));
    // the task exits cleanly; the next step completes the teardown
    bridge.stream_closed(&holder);
    match bridge.terminate(&holder) {
        TermOutcome::Done(Ok(())) => {}
        _ => panic!("terminate should complete once the task exited"),
    }
    assert!(!bridge.is_initialized(&holder));
}

#[test]
fn terminate_surfaces_pending_error_even_without_session() {
    // the error log is shared across holders: a pending failure makes
    // even the terminate of a never-initialized holder report it
    let mut bridge = Bridge::new();
    bridge.report_error(String::from("background failure"), Some(String::from("get")));
    match bridge.terminate(&String::from("never-seen")) {
        TermOutcome::Done(Err(m)) => assert_eq!(m, "background failure"),
        _ => panic!("the pending failure must surface"),
    }
}

#[test]
fn error_log_surfaces_oldest_message() {
    let mut bridge = Bridge::new();
    let holder = String::from("blob-8");
    must_init(&mut bridge, &holder);
    bridge.report_error(String::from("first failure"), Some(String::from("get")));
    bridge.report_error(String::from("second failure"), None);
    match bridge.blocking_read(&holder) {
        ReadOutcome::Failed(m) => assert_eq!(m, "first failure"),
        _ => panic!("the oldest recorded failure must surface"),
    }
}
