use porsmo::counter::{Command, Counter, Step};
use porsmo::pomodoro::{Mode, Pomodoro};

#[test]
fn new_pomodoro_starts_working() {
    let p = Pomodoro::new(25, 5, 15, 0);
    assert!(matches!(p.mode(), Mode::Work));
    assert_eq!(p.session(), 1);
    assert!(p.is_running());
    assert_eq!(p.value(0), 25);
    assert!(matches!(p.check_next_mode(), Mode::Break));
}

#[test]
fn eight_phase_changes_follow_the_cycle() {
    let mut p = Pomodoro::new(25, 5, 15, 0);
    let mut modes = Vec::new();
    let mut work_sessions = Vec::new();
    for i in 0..8u64 {
        p.next_mode(i * 1000);
        modes.push(p.mode());
        if p.mode() == Mode::Work {
            work_sessions.push(p.session());
        }
    }
    assert_eq!(
        modes,
        vec![
            Mode::Break,
            Mode::Work,
            Mode::Break,
            Mode::Work,
            Mode::Break,
            Mode::Work,
            Mode::LongBreak,
            Mode::Work
        ]
    );
    assert_eq!(work_sessions, vec![2, 3, 4, 5]);
}

#[test]
fn natural_terminations_drive_the_cycle() {
    let mut p = Pomodoro::new(2, 1, 3, 0);
    let mut now = 0u64;
    let mut seen = Vec::new();
    while seen.len() < 8 {
        if p.update(None, now) == Step::Elapsed {
            seen.push((p.mode(), p.session()));
            assert!(p.is_running());
            assert!(!p.has_ended());
        }
        now += 100;
    }
    assert_eq!(
        seen,
        vec![
            (Mode::Break, 1),
            (Mode::Work, 2),
            (Mode::Break, 2),
            (Mode::Work, 3),
            (Mode::Break, 3),
            (Mode::Work, 4),
            (Mode::LongBreak, 4),
            (Mode::Work, 5)
        ]
    );
}

#[test]
fn phase_timer_is_sized_by_mode() {
    let mut p = Pomodoro::new(25, 5, 15, 0);
    assert_eq!(p.update(None, 25000), Step::Elapsed);
    assert_eq!(p.mode(), Mode::Break);
    assert_eq!(p.value(25000), 5);
    assert_eq!(p.value(27000), 3);
    assert_eq!(p.update(None, 30000), Step::Elapsed);
    assert_eq!(p.mode(), Mode::Work);
    assert_eq!(p.value(30000), 25);
}

#[test]
fn pomodoro_commands_delegate_to_its_timer() {
    let mut p = Pomodoro::new(25, 5, 15, 0);
    assert_eq!(p.update(Some(Command::Toggle), 2000), Step::Continue);
    assert!(p.is_paused());
    assert_eq!(p.value(9000), 23);
    p.toggle(9000);
    assert!(p.is_running());
    p.pause(10000);
    assert_eq!(p.value(10000), 22);
    p.resume(11000);
    assert_eq!(p.value(12000), 21);
}

#[test]
fn pomodoro_end_count_only_pauses() {
    let mut p = Pomodoro::new(25, 5, 15, 0);
    p.end_count(4000);
    assert!(!p.has_ended());
    assert!(p.is_paused());
    assert_eq!(p.value(4000), 21);
    let mut q = Pomodoro::new(25, 5, 15, 0);
    assert_eq!(q.update(Some(Command::Quit), 3000), Step::Quit);
    assert!(q.is_paused());
    assert_eq!(q.mode(), Mode::Work);
}
