use porsmo::counter::{Command, Counter, Step};
use porsmo::timer::Timer;

#[test]
fn new_timer_reads_its_duration_and_runs() {
    for d in [0u64, 1, 5, 3600, u64::MAX] {
        let t = Timer::new(d, 1234);
        assert_eq!(t.value(1234), d);
        assert!(t.is_running());
        assert!(!t.is_paused());
        assert!(!t.has_ended());
    }
}

#[test]
fn running_timer_counts_down_to_zero() {
    let t = Timer::new(5, 1000);
    assert_eq!(t.value(1999), 5);
    assert_eq!(t.value(2000), 4);
    assert_eq!(t.value(4500), 2);
    assert_eq!(t.value(6000), 0);
    assert_eq!(t.value(60000), 0);
    // a clock reading before the start counts as no time passed
    assert_eq!(t.value(0), 5);
    let mut last = t.value(1000);
    for now in (1000..20000).step_by(100) {
        let v = t.value(now);
        assert!(v <= last);
        last = v;
    }
}

#[test]
fn pause_then_resume_keeps_the_value() {
    let mut t = Timer::new(10, 0);
    t.pause(3000);
    assert!(t.is_paused());
    assert_eq!(t.value(3000), 7);
    assert_eq!(t.value(100000), 7);
    t.resume(50000);
    assert!(t.is_running());
    assert_eq!(t.value(50000), 7);
    assert_eq!(t.value(52000), 5);
}

#[test]
fn pause_and_resume_are_no_ops_in_the_wrong_state() {
    let mut t = Timer::new(10, 0);
    t.resume(4000);
    assert_eq!(t.value(4000), 6);
    t.pause(1000);
    t.pause(9000);
    assert_eq!(t.value(9000), 9);
}

#[test]
fn toggle_twice_restores_status() {
    let mut t = Timer::new(10, 0);
    t.toggle(2000);
    assert!(t.is_paused());
    assert_eq!(t.value(2000), 8);
    t.toggle(9000);
    assert!(t.is_running());
    assert_eq!(t.value(9000), 8);
    t.pause(10000);
    t.toggle(11000);
    t.toggle(14000);
    assert!(t.is_paused());
    assert_eq!(t.value(20000), 4);
}

#[test]
fn toggle_on_ended_timer_does_nothing() {
    let mut t = Timer::new(10, 0);
    t.end_count(1000);
    t.toggle(2000);
    assert!(t.has_ended());
    assert!(!t.is_running());
    assert!(!t.is_paused());
    assert_eq!(t.value(5000), 9);
}

#[test]
fn end_count_is_idempotent() {
    let mut t = Timer::new(10, 0);
    t.end_count(3000);
    assert!(t.has_ended());
    assert_eq!(t.value(3000), 7);
    t.end_count(6000);
    assert!(t.has_ended());
    assert_eq!(t.value(6000), 7);
    t.resume(7000);
    assert!(t.has_ended());
}

#[test]
fn timer_of_five_ends_once_after_five_seconds() {
    let mut t = Timer::new(5, 0);
    let mut alerts = 0;
    let mut ended_at = None;
    let mut now = 0u64;
    while now <= 10000 {
        match t.update(None, now) {
            Step::Elapsed => {
                alerts += 1;
                ended_at = Some(now);
                break;
            }
            Step::Quit => panic!("no quit was sent"),
            Step::Continue => {}
        }
        now += 100;
    }
    let at = ended_at.unwrap();
    assert!(at >= 4000 && at <= 6000);
    assert_eq!(at, 5000);
    assert!(t.has_ended());
    assert_eq!(t.value(at), 0);
    assert_eq!(alerts, 1);
    // later ticks never fire the alert again
    assert_eq!(t.update(None, 5100), Step::Continue);
    assert_eq!(t.update(Some(Command::Toggle), 5200), Step::Continue);
}

#[test]
fn timer_update_applies_commands() {
    let mut t = Timer::new(10, 0);
    assert_eq!(t.update(Some(Command::Pause), 1000), Step::Continue);
    assert!(t.is_paused());
    assert_eq!(t.update(Some(Command::Other), 2000), Step::Continue);
    assert!(t.is_paused());
    assert_eq!(t.update(Some(Command::Resume), 3000), Step::Continue);
    assert!(t.is_running());
    assert_eq!(t.update(Some(Command::Enter), 4000), Step::Continue);
    assert!(t.is_paused());
    assert_eq!(t.value(4000), 8);
    assert_eq!(t.update(Some(Command::Toggle), 4000), Step::Continue);
    assert!(t.is_running());
    assert_eq!(t.update(Some(Command::Quit), 6000), Step::Quit);
    assert!(t.has_ended());
    assert_eq!(t.value(6000), 6);
}

#[test]
fn paused_timer_at_zero_waits_for_resume() {
    let mut t = Timer::new(0, 0);
    assert_eq!(t.update(Some(Command::Pause), 0), Step::Continue);
    assert!(t.is_paused());
    assert_eq!(t.update(None, 1000), Step::Continue);
    assert_eq!(t.update(Some(Command::Resume), 2000), Step::Elapsed);
    assert!(t.has_ended());
}

#[test]
fn zero_timer_ends_on_first_tick() {
    let mut t = Timer::new(0, 0);
    assert_eq!(t.update(None, 0), Step::Elapsed);
    assert!(t.has_ended());
}
