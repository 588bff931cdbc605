use futures_from_scratch::step::{Step, Wakeup};
use futures_from_scratch::timers::{ReactorTimeout, SpinTimeout, Timeout, Timer};

const MS: u64 = 1_000_000;

#[test]
fn thread_timer_asks_for_a_sleeper_of_the_time_left() {
    let mut timer = Timeout::new(5 * MS, 1_000 * MS);
    assert_eq!(timer.poll(5 * MS), Step::Pending(Wakeup::After(1_000 * MS)));
    assert_eq!(timer.poll(405 * MS), Step::Pending(Wakeup::After(600 * MS)));
    assert_eq!(timer.poll(1_005 * MS - 1), Step::Pending(Wakeup::After(1)));
    assert_eq!(timer.poll(1_005 * MS), Step::Completed(()));
}

#[test]
fn spin_timer_wakes_itself_until_due() {
    let mut timer = SpinTimeout::new(0, 1_500 * MS);
    assert_eq!(timer.poll(0), Step::Pending(Wakeup::Now));
    assert_eq!(timer.poll(1_499 * MS), Step::Pending(Wakeup::Now));
    assert_eq!(timer.poll(1_500 * MS), Step::Completed(()));
}

#[test]
fn reactor_timer_registers_once() {
    let mut timer = ReactorTimeout::new(10 * MS, 2_000 * MS);
    assert_eq!(timer.poll(10 * MS), Step::Pending(Wakeup::AtDeadline(2_010 * MS)));
    assert_eq!(timer.poll(11 * MS), Step::Pending(Wakeup::Armed));
    assert_eq!(timer.poll(2_009 * MS), Step::Pending(Wakeup::Armed));
    assert_eq!(timer.poll(2_010 * MS), Step::Completed(()));
}

#[test]
fn reactor_timer_that_is_due_at_once_never_registers() {
    let mut timer = ReactorTimeout::new(10, 0);
    assert_eq!(timer.poll(10), Step::Completed(()));
}

#[test]
fn zero_duration_completes_at_the_first_poll() {
    assert_eq!(Timeout::new(77, 0).poll(77), Step::Completed(()));
    assert_eq!(SpinTimeout::new(77, 0).poll(77), Step::Completed(()));
    assert_eq!(ReactorTimeout::new(77, 0).poll(77), Step::Completed(()));
}

#[test]
fn timers_complete_when_polled_late() {
    assert_eq!(Timeout::new(0, 10).poll(1_000), Step::Completed(()));
    assert_eq!(SpinTimeout::new(0, 10).poll(1_000), Step::Completed(()));
    assert_eq!(ReactorTimeout::new(0, 10).poll(1_000), Step::Completed(()));
}

#[test]
fn timer_polled_before_its_creation_instant_is_pending() {
    let mut timer = Timeout::new(100, 50);
    assert_eq!(timer.poll(0), Step::Pending(Wakeup::After(150)));
}

#[test]
fn deadline_may_reach_the_end_of_the_range() {
    let mut timer = SpinTimeout::new(u64::MAX - 5, 5);
    assert_eq!(timer.poll(u64::MAX - 1), Step::Pending(Wakeup::Now));
    assert_eq!(timer.poll(u64::MAX), Step::Completed(()));
}

fn first_completion<T: Timer>(mut timer: T, instants: &[u64]) -> Option<u64> {
    for &now in instants {
        if timer.poll(now).is_completed() {
            return Some(now);
        }
    }
    None
}

#[test]
fn no_strategy_completes_early() {
    let instants = [0, 1, 999, 1_000, 1_001, 5_000];
    for d in [0u64, 1, 500, 1_000, 1_001, 4_999, 6_000] {
        let expected = instants.iter().copied().find(|&t| t >= d);
        assert_eq!(first_completion(Timeout::new(0, d), &instants), expected);
        assert_eq!(first_completion(SpinTimeout::new(0, d), &instants), expected);
        assert_eq!(first_completion(ReactorTimeout::new(0, d), &instants), expected);
    }
}

#[test]
fn cloned_timer_keeps_the_deadline() {
    let timer = Timeout::new(0, 100);
    let mut copy = timer.clone();
    assert_eq!(copy.poll(99), Step::Pending(Wakeup::After(1)));
    assert_eq!(copy.poll(100), Step::Completed(()));
}
