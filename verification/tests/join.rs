use futures_from_scratch::join::Join;
use futures_from_scratch::step::{Step, Wakeup};
use futures_from_scratch::timers::{ReactorTimeout, SpinTimeout, Timeout, Timer};

#[test]
fn new_join_has_every_child_pending() {
    let join: Join<u8> = Join::new(3);
    assert_eq!(join.len(), 3);
    assert_eq!(join.pending_children(), vec![0, 1, 2]);
    assert!(!join.is_joined());
    assert!(!join.is_done(0));
}

#[test]
fn join_of_nothing_completes_at_once() {
    let mut join: Join<u8> = Join::new(0);
    assert!(join.is_joined());
    assert!(join.pending_children().is_empty());
    assert_eq!(join.poll(), Step::Completed(Vec::new()));
}

#[test]
fn completed_child_is_not_polled_again() {
    let mut join: Join<&str> = Join::new(3);
    join.record(1, Step::Completed("b"));
    assert_eq!(join.pending_children(), vec![0, 2]);
    assert!(join.is_done(1));
    assert!(!join.is_done(0));
}

#[test]
fn pending_child_stays_in_the_round() {
    let mut join: Join<&str> = Join::new(2);
    join.record(0, Step::Pending(Wakeup::Now));
    assert_eq!(join.pending_children(), vec![0, 1]);
    assert_eq!(join.poll(), Step::Pending(Wakeup::Armed));
}

#[test]
fn join_is_pending_while_any_child_is() {
    let mut join: Join<u8> = Join::new(3);
    join.record(0, Step::Completed(10));
    join.record(2, Step::Completed(30));
    assert_eq!(join.poll(), Step::Pending(Wakeup::Armed));
    assert_eq!(join.pending_children(), vec![1]);
    assert_eq!(join.len(), 3);
}

#[test]
fn join_completes_with_the_values_in_child_order() {
    let mut join: Join<&str> = Join::new(3);
    join.record(2, Step::Completed("c"));
    join.record(0, Step::Completed("a"));
    join.record(1, Step::Completed("b"));
    assert!(join.is_joined());
    assert_eq!(join.poll(), Step::Completed(vec!["a", "b", "c"]));
    assert_eq!(join.len(), 0);
}

#[test]
fn join_of_one_child() {
    let mut join: Join<u8> = Join::new(1);
    assert_eq!(join.poll(), Step::Pending(Wakeup::Armed));
    join.record(0, Step::Completed(5));
    assert_eq!(join.poll(), Step::Completed(vec![5]));
}

fn round<A: Timer, B: Timer>(join: &mut Join<()>, a: &mut A, b: &mut B, now: u64) -> (usize, Step<Vec<()>>) {
    let mut polls = 0;
    for child in join.pending_children() {
        polls += 1;
        let step = if child == 0 { a.poll(now) } else { b.poll(now) };
        join.record(child, step);
    }
    (polls, join.poll())
}

#[test]
fn join_of_two_timers_completes_after_the_later_one() {
    let mut a = Timeout::new(0, 1_000);
    let mut b = SpinTimeout::new(0, 2_000);
    let mut join: Join<()> = Join::new(2);
    assert_eq!(round(&mut join, &mut a, &mut b, 0), (2, Step::Pending(Wakeup::Armed)));
    assert_eq!(round(&mut join, &mut a, &mut b, 999), (2, Step::Pending(Wakeup::Armed)));
    assert_eq!(round(&mut join, &mut a, &mut b, 1_000), (2, Step::Pending(Wakeup::Armed)));
    assert!(join.is_done(0));
    assert!(!join.is_done(1));
    assert_eq!(round(&mut join, &mut a, &mut b, 1_999), (1, Step::Pending(Wakeup::Armed)));
    assert_eq!(round(&mut join, &mut a, &mut b, 2_000), (1, Step::Completed(vec![(), ()])));
}

#[test]
fn join_of_two_timers_in_reverse_order() {
    let mut a = ReactorTimeout::new(0, 2_000);
    let mut b = Timeout::new(0, 1_000);
    let mut join: Join<()> = Join::new(2);
    assert_eq!(round(&mut join, &mut a, &mut b, 1_500), (2, Step::Pending(Wakeup::Armed)));
    assert!(!join.is_done(0));
    assert!(join.is_done(1));
    assert_eq!(round(&mut join, &mut a, &mut b, 2_000), (1, Step::Completed(vec![(), ()])));
}

#[test]
fn join_of_two_timers_polled_late_completes_in_one_round() {
    let mut a = SpinTimeout::new(0, 10);
    let mut b = SpinTimeout::new(0, 20);
    let mut join: Join<()> = Join::new(2);
    assert_eq!(round(&mut join, &mut a, &mut b, 20), (2, Step::Completed(vec![(), ()])));
}
