use ucci_bridge::{
    LineOutcome, MoveError, OutputEvent, ParseError, StartError, WriteError, XiangqiEngine,
    DEFAULT_SAFETY_MARGIN_MS,
};

const FEN: &str = "rnbakabnr/9/1c5c1/p1p1p1p1p/9/9/P1P1P1P1P/1C5C1/9/RNBAKABNR w - - 0 1";

fn started() -> XiangqiEngine {
    let mut e = XiangqiEngine::new("/usr/bin/engine");
    assert!(e.start(Ok(())).is_ok());
    e
}

fn texts(events: &[OutputEvent]) -> Vec<String> {
    events
        .iter()
        .map(|ev| match ev {
            OutputEvent::Notification(s) => format!("N:{}", s),
            OutputEvent::Error(s) => format!("E:{}", s),
            OutputEvent::StreamEnded => "END".to_string(),
        })
        .collect()
}

#[test]
fn new_bridge_is_not_running() {
    let e = XiangqiEngine::new("/usr/bin/engine");
    assert!(!e.running());
    assert!(!e.has_pending_request());
    assert_eq!(e.engine_path(), "/usr/bin/engine");
    assert_eq!(DEFAULT_SAFETY_MARGIN_MS, 4000);
}

#[test]
fn start_twice_is_refused() {
    let mut e = started();
    assert!(matches!(e.start(Ok(())), Err(StartError::AlreadyRunning)));
    assert!(e.running());
}

#[test]
fn stop_is_idempotent() {
    let mut e = started();
    assert!(e.stop());
    assert!(!e.running());
    assert!(!e.stop());
    assert!(!e.running());
}

#[test]
fn send_frames_commands_in_order() {
    let e = started();
    let mut stream = String::new();
    for c in ["uci", "isready", "position startpos", "go depth 3"] {
        stream.push_str(&e.send(c).unwrap());
    }
    assert_eq!(stream, "uci\nisready\nposition startpos\ngo depth 3\n");
    let lines: Vec<&str> = stream.split_terminator('\n').collect();
    assert_eq!(lines, vec!["uci", "isready", "position startpos", "go depth 3"]);
}

#[test]
fn send_requires_a_running_engine() {
    let e = XiangqiEngine::new("x");
    assert_eq!(e.send("uci"), Err(WriteError::NotRunning));
}

#[test]
fn send_refuses_embedded_newlines() {
    let e = started();
    assert_eq!(e.send("go\nquit"), Err(WriteError::InvalidCommand));
}

#[test]
fn send_after_stream_end_is_a_broken_pipe() {
    let mut e = started();
    assert!(matches!(e.on_stream_end(), LineOutcome::Published));
    assert_eq!(e.send("uci"), Err(WriteError::BrokenPipe));
}

#[test]
fn request_move_emits_position_and_go() {
    let mut e = started();
    let lines = e.request_move(FEN, 1000, 0).unwrap();
    assert_eq!(lines, vec![format!("position fen {}\n", FEN), "go movetime 1000\n".to_string()]);
    assert!(e.has_pending_request());
}

#[test]
fn request_move_requires_a_running_engine() {
    let mut e = XiangqiEngine::new("x");
    assert_eq!(e.request_move(FEN, 1000, 0), Err(MoveError::NotRunning));
}

#[test]
fn request_move_refuses_a_position_with_a_line_break() {
    let mut e = started();
    assert_eq!(e.request_move("a\nb", 1000, 0), Err(MoveError::InvalidPosition));
    assert!(!e.has_pending_request());
}

#[test]
fn second_request_while_pending_is_refused() {
    let mut e = started();
    assert!(e.request_move(FEN, 1000, 0).is_ok());
    assert_eq!(e.request_move("other", 500, 10), Err(MoveError::AlreadyPending));
    assert!(e.has_pending_request());
    let out = e.on_line("bestmove e2e4\n");
    match out {
        LineOutcome::Resolved(Ok(m)) => assert_eq!(m.fen, FEN),
        _ => panic!("expected a resolved move"),
    }
}

#[test]
fn fake_child_bestmove_resolves_request() {
    let mut e = started();
    let sub = e.subscribe(8);
    let lines = e.request_move(FEN, 1000, 0).unwrap();
    assert_eq!(lines[1], "go movetime 1000\n");
    assert!(matches!(e.on_line("info depth 1 score 10\n"), LineOutcome::Published));
    match e.on_line("bestmove e2e4\r\n") {
        LineOutcome::Resolved(Ok(m)) => {
            assert_eq!(m.from, "e2");
            assert_eq!(m.to, "e4");
            assert_eq!(m.fen, FEN);
        }
        _ => panic!("expected a resolved move"),
    }
    assert!(!e.has_pending_request());
    assert_eq!(texts(&e.take_events(sub)), vec!["N:info depth 1 score 10"]);
}

#[test]
fn bestmove_without_pending_request_is_a_notification() {
    let mut e = started();
    let sub = e.subscribe(4);
    assert!(matches!(e.on_line("bestmove e2e4"), LineOutcome::Published));
    assert_eq!(texts(&e.take_events(sub)), vec!["N:bestmove e2e4"]);
}

#[test]
fn silent_child_times_out_and_frees_the_slot() {
    let mut e = started();
    assert!(e.request_move(FEN, 1000, 100).is_ok());
    assert_eq!(e.on_tick(5099), None);
    assert!(e.has_pending_request());
    assert_eq!(e.on_tick(5100), Some(MoveError::Timeout));
    assert!(!e.has_pending_request());
    assert_eq!(e.on_tick(9000), None);
    assert!(e.request_move(FEN, 1000, 6000).is_ok());
}

#[test]
fn custom_safety_margin_sets_the_deadline() {
    let mut e = XiangqiEngine::with_safety_margin("x", 1);
    assert!(e.start(Ok(())).is_ok());
    assert!(e.request_move(FEN, 10, 0).is_ok());
    assert_eq!(e.on_tick(10), None);
    assert_eq!(e.on_tick(11), Some(MoveError::Timeout));
}

#[test]
fn deadline_saturates_at_the_largest_time() {
    let mut e = started();
    assert!(e.request_move(FEN, 1000, u64::MAX - 10).is_ok());
    assert_eq!(e.on_tick(u64::MAX - 1), None);
    assert_eq!(e.on_tick(u64::MAX), Some(MoveError::Timeout));
}

#[test]
fn late_reply_after_timeout_is_a_notification() {
    let mut e = started();
    let sub = e.subscribe(4);
    assert!(e.request_move(FEN, 1000, 0).is_ok());
    assert_eq!(e.on_tick(5000), Some(MoveError::Timeout));
    assert!(matches!(e.on_line("bestmove e2e4"), LineOutcome::Published));
    assert_eq!(texts(&e.take_events(sub)), vec!["N:bestmove e2e4"]);
}

#[test]
fn closed_stream_terminates_pending_request_once() {
    let mut e = started();
    let s1 = e.subscribe(4);
    let s2 = e.subscribe(4);
    assert!(e.request_move(FEN, 1000, 0).is_ok());
    assert!(matches!(e.on_stream_end(), LineOutcome::Resolved(Err(MoveError::EngineTerminated))));
    assert!(!e.has_pending_request());
    assert!(matches!(e.on_stream_end(), LineOutcome::Ignored));
    assert!(matches!(e.on_line("info late"), LineOutcome::Ignored));
    assert_eq!(texts(&e.take_events(s1)), vec!["END"]);
    assert_eq!(texts(&e.take_events(s2)), vec!["END"]);
    assert_eq!(e.request_move(FEN, 1000, 0), Err(MoveError::EngineTerminated));
}

#[test]
fn read_error_is_published_and_ends_the_stream() {
    let mut e = started();
    let s = e.subscribe(4);
    assert!(matches!(e.on_read_error("broken".to_string()), LineOutcome::Published));
    assert!(matches!(e.on_stream_end(), LineOutcome::Ignored));
    assert_eq!(texts(&e.take_events(s)), vec!["E:broken"]);
}

#[test]
fn echo_lines_are_never_forwarded() {
    let mut e = started();
    let s = e.subscribe(4);
    assert!(e.request_move(FEN, 1000, 0).is_ok());
    assert!(matches!(e.on_line("Received command: go movetime 1000\n"), LineOutcome::Ignored));
    assert!(matches!(e.on_line("Received command: bestmove e2e4"), LineOutcome::Ignored));
    assert!(e.has_pending_request());
    assert!(e.take_events(s).is_empty());
}

#[test]
fn stop_then_start_resets_state() {
    let mut e = started();
    let s = e.subscribe(4);
    assert!(matches!(e.on_line("info old generation"), LineOutcome::Published));
    assert!(e.request_move(FEN, 1000, 0).is_ok());
    assert!(e.stop());
    assert!(matches!(e.on_line("bestmove e2e4"), LineOutcome::Ignored));
    assert!(e.start(Ok(())).is_ok());
    assert!(!e.has_pending_request());
    assert!(e.take_events(s).is_empty());
    let lines = e.request_move(FEN, 1000, 0).unwrap();
    assert_eq!(lines[0], format!("position fen {}\n", FEN));
    match e.on_line("bestmove e2e4") {
        LineOutcome::Resolved(Ok(m)) => {
            assert_eq!(m.from, "e2");
            assert_eq!(m.to, "e4");
        }
        _ => panic!("expected a resolved move"),
    }
}

#[test]
fn malformed_bestmove_fails_the_request() {
    let mut e = started();
    assert!(e.request_move(FEN, 1000, 0).is_ok());
    assert!(matches!(
        e.on_line("bestmove ab"),
        LineOutcome::Resolved(Err(MoveError::Parse(ParseError::MalformedMove)))
    ));
    assert!(!e.has_pending_request());
    assert!(e.request_move(FEN, 1000, 0).is_ok());
}

#[test]
fn full_queue_drops_its_oldest_event() {
    let mut e = started();
    let s = e.subscribe(2);
    for l in ["info a", "info b", "info c"] {
        assert!(matches!(e.on_line(l), LineOutcome::Published));
    }
    assert_eq!(texts(&e.take_events(s)), vec!["N:info b", "N:info c"]);
    assert!(e.take_events(s).is_empty());
}

#[test]
fn zero_capacity_keeps_one_event() {
    let mut e = started();
    let s = e.subscribe(0);
    assert!(matches!(e.on_line("info a"), LineOutcome::Published));
    assert!(matches!(e.on_line("info b"), LineOutcome::Published));
    assert_eq!(texts(&e.take_events(s)), vec!["N:info b"]);
}

#[test]
fn unknown_subscriber_gets_nothing() {
    let mut e = started();
    assert!(matches!(e.on_line("info a"), LineOutcome::Published));
    assert!(e.take_events(3).is_empty());
}

#[test]
fn events_keep_arrival_order_across_subscribers() {
    let mut e = started();
    let a = e.subscribe(8);
    assert!(matches!(e.on_line("one"), LineOutcome::Published));
    let b = e.subscribe(8);
    assert!(matches!(e.on_line("two"), LineOutcome::Published));
    assert!(matches!(e.on_line("three  \n"), LineOutcome::Published));
    assert_eq!(texts(&e.take_events(a)), vec!["N:one", "N:two", "N:three"]);
    assert_eq!(texts(&e.take_events(b)), vec!["N:two", "N:three"]);
}

#[test]
fn output_before_start_is_ignored() {
    let mut e = XiangqiEngine::new("x");
    let s = e.subscribe(4);
    assert!(matches!(e.on_line("info"), LineOutcome::Ignored));
    assert!(matches!(e.on_stream_end(), LineOutcome::Ignored));
    assert!(e.take_events(s).is_empty());
}

#[test]
fn duplicate_copies_an_event() {
    let ev = OutputEvent::Notification("info".to_string());
    assert_eq!(texts(&[ev.duplicate()]), vec!["N:info"]);
}

#[test]
fn stop_announces_the_end_once() {
    let mut e = started();
    let s = e.subscribe(4);
    assert!(matches!(e.on_line("info a"), LineOutcome::Published));
    assert!(e.request_move(FEN, 1000, 0).is_ok());
    assert!(e.stop());
    assert!(!e.has_pending_request());
    assert!(matches!(e.on_stream_end(), LineOutcome::Ignored));
    assert!(!e.stop());
    assert_eq!(texts(&e.take_events(s)), vec!["N:info a", "END"]);
}

#[test]
fn stop_after_stream_end_adds_nothing() {
    let mut e = started();
    let s = e.subscribe(4);
    assert!(matches!(e.on_stream_end(), LineOutcome::Published));
    assert!(e.stop());
    assert_eq!(texts(&e.take_events(s)), vec!["END"]);
}

#[test]
fn send_passes_a_carriage_return_through() {
    let e = started();
    assert_eq!(e.send("go\rx").unwrap(), "go\rx\n");
}

#[test]
fn failed_spawn_leaves_the_bridge_unstarted() {
    let mut e = XiangqiEngine::new("/no/such/engine");
    let s = e.subscribe(4);
    assert!(e.start(Ok(())).is_ok());
    assert!(matches!(e.on_line("info kept"), LineOutcome::Published));
    assert!(e.stop());
    assert!(matches!(e.start(Err(StartError::NotFound)), Err(StartError::NotFound)));
    assert!(!e.running());
    assert!(!e.stop());
    assert!(matches!(
        e.start(Err(StartError::SpawnFailed("no pipes".to_string()))),
        Err(StartError::SpawnFailed(m)) if m == "no pipes"
    ));
    assert!(!e.running());
    assert_eq!(texts(&e.take_events(s)), vec!["N:info kept", "END"]);
    assert_eq!(e.request_move(FEN, 1000, 0), Err(MoveError::NotRunning));
}

#[test]
fn running_bridge_refuses_even_a_failed_spawn_report() {
    let mut e = started();
    assert!(matches!(e.start(Err(StartError::PermissionDenied)), Err(StartError::AlreadyRunning)));
    assert!(e.running());
}

#[test]
fn reports_its_safety_margin() {
    assert_eq!(XiangqiEngine::new("x").safety_margin_ms(), DEFAULT_SAFETY_MARGIN_MS);
    assert_eq!(XiangqiEngine::with_safety_margin("x", 250).safety_margin_ms(), 250);
}
