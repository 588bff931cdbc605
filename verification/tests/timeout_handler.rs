use futures_from_scratch::timeout_handler::{TimeoutEvent, TimeoutHandler, Turn};

#[test]
fn new_handler_has_no_timers() {
    let handler: TimeoutHandler<u32> = TimeoutHandler::new();
    assert_eq!(handler.len(), 0);
    assert_eq!(handler.next_deadline(), None);
}

#[test]
fn earliest_deadline_fires_first() {
    let mut handler: TimeoutHandler<&str> = TimeoutHandler::new();
    handler.register_timeout(300, "c");
    handler.register_timeout(100, "a");
    handler.register_timeout(200, "b");
    assert_eq!(handler.len(), 3);
    assert_eq!(handler.next_deadline(), Some(100));
    assert_eq!(handler.fire_due(1_000), Some("a"));
    assert_eq!(handler.fire_due(1_000), Some("b"));
    assert_eq!(handler.fire_due(1_000), Some("c"));
    assert_eq!(handler.fire_due(1_000), None);
    assert_eq!(handler.len(), 0);
}

#[test]
fn timer_fires_only_after_its_deadline_has_passed() {
    let mut handler: TimeoutHandler<u8> = TimeoutHandler::new();
    handler.register_timeout(500, 7);
    assert_eq!(handler.fire_due(0), None);
    assert_eq!(handler.fire_due(499), None);
    assert_eq!(handler.fire_due(500), None);
    assert_eq!(handler.len(), 1);
    assert_eq!(handler.fire_due(501), Some(7));
    assert_eq!(handler.len(), 0);
}

#[test]
fn one_timer_fires_per_turn() {
    let mut handler: TimeoutHandler<u8> = TimeoutHandler::new();
    handler.register_timeout(10, 1);
    handler.register_timeout(20, 2);
    assert_eq!(handler.fire_due(100), Some(1));
    assert_eq!(handler.len(), 1);
    assert_eq!(handler.next_deadline(), Some(20));
}

#[test]
fn later_timer_does_not_hold_back_earlier_one() {
    let mut handler: TimeoutHandler<u8> = TimeoutHandler::new();
    handler.register_timeout(2_000, 2);
    handler.register_timeout(1_000, 1);
    assert_eq!(handler.fire_due(1_500), Some(1));
    assert_eq!(handler.fire_due(1_500), None);
    assert_eq!(handler.fire_due(2_001), Some(2));
}

#[test]
fn equal_deadlines_fire_latest_registered_first() {
    let mut handler: TimeoutHandler<&str> = TimeoutHandler::new();
    handler.register_timeout(100, "first");
    handler.register_timeout(100, "second");
    handler.register_timeout(100, "third");
    assert_eq!(handler.fire_due(101), Some("third"));
    assert_eq!(handler.fire_due(101), Some("second"));
    assert_eq!(handler.fire_due(101), Some("first"));
}

#[test]
fn deadline_at_the_end_of_the_range_never_fires() {
    let mut handler: TimeoutHandler<u8> = TimeoutHandler::new();
    handler.register_timeout(u64::MAX, 9);
    assert_eq!(handler.fire_due(u64::MAX), None);
    assert_eq!(handler.next_deadline(), Some(u64::MAX));
}

#[test]
fn deadline_zero_fires_at_the_first_later_instant() {
    let mut handler: TimeoutHandler<u8> = TimeoutHandler::new();
    handler.register_timeout(0, 3);
    assert_eq!(handler.fire_due(0), None);
    assert_eq!(handler.fire_due(1), Some(3));
}

#[test]
fn signal_message_registers_a_timer() {
    let mut handler: TimeoutHandler<u8> = TimeoutHandler::new();
    assert!(handler.receive(TimeoutEvent::Signal(50, 5)));
    assert!(handler.receive(TimeoutEvent::Signal(40, 4)));
    assert_eq!(handler.len(), 2);
    assert_eq!(handler.fire_due(60), Some(4));
    assert_eq!(handler.fire_due(60), Some(5));
}

#[test]
fn close_message_stops_the_service_and_keeps_the_timers() {
    let mut handler: TimeoutHandler<u8> = TimeoutHandler::new();
    assert!(handler.receive(TimeoutEvent::Signal(50, 5)));
    assert!(!handler.receive(TimeoutEvent::Close));
    assert_eq!(handler.len(), 1);
}

#[test]
fn many_timers_fire_in_deadline_order() {
    let mut handler: TimeoutHandler<u64> = TimeoutHandler::new();
    let deadlines = [50u64, 10, 40, 20, 30, 60, 5, 55, 15, 45];
    for d in deadlines {
        handler.register_timeout(d, d);
    }
    let mut fired = Vec::new();
    while let Some(w) = handler.fire_due(1_000) {
        fired.push(w);
    }
    assert_eq!(fired, vec![5, 10, 15, 20, 30, 40, 45, 50, 55, 60]);
}

#[test]
fn turn_takes_in_messages_and_then_fires() {
    let mut handler: TimeoutHandler<&str> = TimeoutHandler::new();
    let inbox = vec![TimeoutEvent::Signal(30, "c"), TimeoutEvent::Signal(10, "a")];
    assert_eq!(handler.turn(inbox, 20), Turn::Fired("a"));
    assert_eq!(handler.len(), 1);
    assert_eq!(handler.turn(Vec::new(), 20), Turn::Idle);
    assert_eq!(handler.turn(vec![TimeoutEvent::Signal(5, "b")], 31), Turn::Fired("b"));
    assert_eq!(handler.turn(Vec::new(), 31), Turn::Fired("c"));
    assert_eq!(handler.turn(Vec::new(), 31), Turn::Idle);
}

#[test]
fn turn_without_due_timer_is_idle() {
    let mut handler: TimeoutHandler<&str> = TimeoutHandler::new();
    assert_eq!(handler.turn(Vec::new(), 1_000), Turn::Idle);
    assert_eq!(handler.turn(vec![TimeoutEvent::Signal(1_000, "a")], 1_000), Turn::Idle);
    assert_eq!(handler.len(), 1);
}

#[test]
fn close_ends_the_turn_before_anything_fires() {
    let mut handler: TimeoutHandler<&str> = TimeoutHandler::new();
    let inbox = vec![
        TimeoutEvent::Signal(10, "a"),
        TimeoutEvent::Close,
        TimeoutEvent::Signal(20, "b"),
    ];
    assert_eq!(handler.turn(inbox, 1_000), Turn::Closed);
    assert_eq!(handler.len(), 1);
    assert_eq!(handler.next_deadline(), Some(10));
}
