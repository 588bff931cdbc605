use futures_from_scratch::executor::{BlockOn, Phase};
use futures_from_scratch::parker::Parker;
use futures_from_scratch::step::{Step, Wakeup};
use futures_from_scratch::waker::MyWaker;

#[test]
fn new_parker_makes_the_thread_wait() {
    let mut parker = Parker::new();
    assert!(!parker.park());
}

#[test]
fn default_parker_makes_the_thread_wait() {
    let mut parker = Parker::default();
    assert!(!parker.park());
}

#[test]
fn unpark_before_park_is_not_lost() {
    let mut parker = Parker::new();
    parker.unpark();
    assert!(parker.park());
}

#[test]
fn one_signal_resumes_once() {
    let mut parker = Parker::new();
    parker.unpark();
    assert!(parker.park());
    assert!(!parker.park());
}

#[test]
fn two_signals_before_park_count_as_one() {
    let mut parker = Parker::new();
    parker.unpark();
    parker.unpark();
    assert!(parker.park());
    assert!(!parker.park());
}

#[test]
fn driver_starts_polling() {
    let driver = BlockOn::new();
    assert_eq!(driver.phase(), Phase::Polling);
}

#[test]
fn completed_poll_ends_the_loop_with_the_value() {
    let mut driver = BlockOn::new();
    assert_eq!(driver.polled(Step::Completed(42)), Some(42));
    assert_eq!(driver.phase(), Phase::Finished);
}

#[test]
fn pending_poll_parks_until_woken() {
    let mut driver = BlockOn::new();
    assert_eq!(driver.polled(Step::<u8>::Pending(Wakeup::Armed)), None);
    assert_eq!(driver.phase(), Phase::Parked);
    assert!(!driver.resume());
    assert!(!driver.resume());
    assert_eq!(driver.phase(), Phase::Parked);
    driver.wake();
    assert!(driver.resume());
    assert_eq!(driver.phase(), Phase::Polling);
}

#[test]
fn wake_during_the_poll_is_kept_for_the_park() {
    let mut driver = BlockOn::new();
    driver.wake();
    assert_eq!(driver.polled(Step::<u8>::Pending(Wakeup::Now)), None);
    assert!(driver.resume());
    assert_eq!(driver.phase(), Phase::Polling);
}

#[test]
fn waker_fired_twice_resumes_once() {
    let mut driver = BlockOn::new();
    assert_eq!(driver.polled(Step::<u8>::Pending(Wakeup::Armed)), None);
    driver.wake();
    driver.wake();
    assert!(driver.resume());
    assert_eq!(driver.polled(Step::<u8>::Pending(Wakeup::Armed)), None);
    assert!(!driver.resume());
}

#[test]
fn driver_runs_until_the_computation_completes() {
    let mut driver = BlockOn::new();
    let mut polls = 0;
    let value = loop {
        assert_eq!(driver.phase(), Phase::Polling);
        polls += 1;
        let step = if polls < 4 { Step::Pending(Wakeup::Armed) } else { Step::Completed("done") };
        match driver.polled(step) {
            Some(v) => break v,
            None => {
                assert!(!driver.resume());
                driver.wake();
                assert!(driver.resume());
            }
        }
    };
    assert_eq!(value, "done");
    assert_eq!(polls, 4);
    assert_eq!(driver.phase(), Phase::Finished);
}

#[test]
fn finished_driver_ignores_wakes() {
    let mut driver = BlockOn::new();
    assert_eq!(driver.polled(Step::Completed(1)), Some(1));
    driver.wake();
    assert!(!driver.resume());
    assert_eq!(driver.phase(), Phase::Finished);
}

#[test]
fn first_handle_counts_one() {
    let waker = MyWaker::mywaker_into_waker(Parker::new());
    assert_eq!(waker.handles(), 1);
    assert!(!waker.is_released());
}

#[test]
fn clone_adds_a_handle_and_drop_removes_one() {
    let mut waker = MyWaker::mywaker_into_waker(Parker::new());
    waker.mywaker_clone();
    waker.mywaker_clone();
    assert_eq!(waker.handles(), 3);
    waker.mywaker_drop();
    assert_eq!(waker.handles(), 2);
    assert!(!waker.park());
}

#[test]
fn wake_by_value_gives_the_handle_up() {
    let mut waker = MyWaker::mywaker_into_waker(Parker::new());
    waker.mywaker_clone();
    waker.mywaker_wake();
    assert_eq!(waker.handles(), 1);
    assert!(waker.park());
}

#[test]
fn wake_by_ref_keeps_the_handle() {
    let mut waker = MyWaker::mywaker_into_waker(Parker::new());
    waker.mywaker_wake_by_ref();
    assert_eq!(waker.handles(), 1);
    assert!(waker.park());
    assert!(!waker.park());
}

#[test]
fn last_handle_gone_releases_the_waker() {
    let mut waker = MyWaker::mywaker_into_waker(Parker::new());
    waker.mywaker_clone();
    waker.mywaker_wake();
    assert!(!waker.is_released());
    waker.mywaker_drop();
    assert!(waker.is_released());
    assert_eq!(waker.handles(), 0);
}
