use futures_from_scratch::executor::{BlockOn, Phase};
use futures_from_scratch::io_handler::{Interest, Registration};
use futures_from_scratch::join::Join;
use futures_from_scratch::reactor::Reactor;
use futures_from_scratch::step::{Step, Wakeup};
use futures_from_scratch::timeout_handler::{TimeoutEvent, Turn};
use futures_from_scratch::timers::{ReactorTimeout, Timer};

const MS: u64 = 1_000_000;

#[test]
fn reactor_registers_reads_and_writes_under_fresh_tokens() {
    let mut reactor: Reactor<&str> = Reactor::new();
    assert_eq!(
        reactor.register_read("r"),
        Registration { token: 0, interest: Interest::Readable }
    );
    assert_eq!(
        reactor.register_write("w"),
        Registration { token: 1, interest: Interest::Writable }
    );
    assert_eq!(reactor.dispatch(&vec![1, 0]), vec!["w", "r"]);
    assert!(reactor.dispatch(&vec![1, 0]).is_empty());
}

#[test]
fn reactor_fires_timeouts_in_deadline_order() {
    let mut reactor: Reactor<&str> = Reactor::new();
    reactor.register_timeout(20, "late");
    reactor.register_timeout(10, "early");
    assert_eq!(reactor.fire_due(10), None);
    assert_eq!(reactor.fire_due(30), Some("early"));
    assert_eq!(reactor.fire_due(30), Some("late"));
    assert_eq!(reactor.fire_due(30), None);
}

#[test]
fn reactor_services_do_not_disturb_each_other() {
    let mut reactor: Reactor<&str> = Reactor::new();
    reactor.register_timeout(10, "timer");
    reactor.register_read("socket");
    assert_eq!(reactor.fire_due(11), Some("timer"));
    assert_eq!(reactor.dispatch(&vec![0]), vec!["socket"]);
}

#[test]
fn reactor_takes_messages_for_the_timeout_service() {
    let mut reactor: Reactor<&str> = Reactor::new();
    assert!(reactor.receive(TimeoutEvent::Signal(5, "a")));
    assert!(!reactor.receive(TimeoutEvent::Close));
    assert_eq!(reactor.fire_due(6), Some("a"));
}

#[test]
fn two_reactor_timers_joined_complete_in_deadline_order() {
    let mut reactor: Reactor<&str> = Reactor::new();
    let mut driver = BlockOn::new();
    let mut a = ReactorTimeout::new(0, 1_000 * MS);
    let mut b = ReactorTimeout::new(0, 2_000 * MS);
    let mut join: Join<()> = Join::new(2);
    let mut completions: Vec<(&str, u64)> = Vec::new();
    let mut now = 0u64;
    let finished_at = loop {
        assert_eq!(driver.phase(), Phase::Polling);
        for child in join.pending_children() {
            let step = if child == 0 { a.poll(now) } else { b.poll(now) };
            match &step {
                Step::Completed(()) => completions.push((if child == 0 { "A" } else { "B" }, now)),
                Step::Pending(Wakeup::AtDeadline(deadline)) => {
                    reactor.register_timeout(*deadline, "task")
                }
                Step::Pending(Wakeup::Armed) => {}
                Step::Pending(other) => panic!("unexpected request {:?}", other),
            }
            join.record(child, step);
        }
        if driver.polled(join.poll()).is_some() {
            break now;
        }
        while !driver.resume() {
            now += MS / 2;
            if let Some(waker) = reactor.fire_due(now) {
                assert_eq!(waker, "task");
                driver.wake();
            }
        }
    };
    assert!(finished_at >= 2_000 * MS);
    assert!(finished_at <= 2_000 * MS + MS);
    assert_eq!(completions.len(), 2);
    assert_eq!(completions[0].0, "A");
    assert_eq!(completions[1].0, "B");
    assert!(completions[0].1 >= 1_000 * MS);
    assert!(completions[0].1 < completions[1].1);
    assert_eq!(driver.phase(), Phase::Finished);
    assert_eq!(reactor.fire_due(u64::MAX), None);
}

#[test]
fn reactor_turn_closes_the_timeout_service() {
    let mut reactor: Reactor<&str> = Reactor::new();
    assert_eq!(reactor.turn(vec![TimeoutEvent::Signal(5, "a")], 6), Turn::Fired("a"));
    assert_eq!(reactor.turn(Vec::new(), 6), Turn::Idle);
    assert_eq!(reactor.turn(vec![TimeoutEvent::Close], 6), Turn::Closed);
}
