//! A pomodoro: one countdown at a time, cycled through work and break
//! phases by a session-counting policy.
use vstd::prelude::*;
use crate::counter::{Command, CountView, Counter, Status, Step};
use crate::timer::Timer;

verus! {

/// The phase a pomodoro is in.
#[derive(Clone, Copy, Debug, PartialEq, Eq, Structural)]
pub enum Mode {
    Work,
    Break,
    LongBreak,
}

/// Sessions in one cycle: the work phase that closes a cycle is followed by
/// a long break.
pub const SESSIONS_PER_CYCLE: u64 = 4;

/// The phase after `mode` in work session `session`.
pub open spec fn next_mode_after(mode: Mode, session: nat) -> Mode {
    match mode {
        Mode::Work => if session % (SESSIONS_PER_CYCLE as nat) == 0 {
            Mode::LongBreak
        } else {
            Mode::Break
        },
        Mode::Break | Mode::LongBreak => Mode::Work,
    }
}

/// Abstract state of a pomodoro; durations are in seconds.
pub struct PomodoroView {
    pub timer: CountView,
    pub mode: Mode,
    pub session: nat,
    pub work_time: nat,
    pub break_time: nat,
    pub long_break_time: nat,
}

impl PomodoroView {
    /// The duration that backs a phase of `mode`.
    pub open spec fn duration_of(self, mode: Mode) -> nat {
        match mode {
            Mode::Work => self.work_time,
            Mode::Break => self.break_time,
            Mode::LongBreak => self.long_break_time,
        }
    }

    /// Sessions count from one, and the inner countdown never holds more
    /// than the duration of the current phase.
    pub open spec fn wf(self) -> bool {
        &&& self.session >= 1
        &&& self.timer.counter <= self.duration_of(self.mode)
    }

    pub open spec fn next_mode(self) -> Mode {
        next_mode_after(self.mode, self.session)
    }

    /// The same pomodoro with its inner countdown replaced by `timer`.
    pub open spec fn with_timer(self, timer: CountView) -> PomodoroView {
        PomodoroView { timer, ..self }
    }

    /// The pomodoro after moving on to its next phase at `now`: a new work
    /// phase opens a new session, and the new phase's countdown starts
    /// running from its full duration.
    pub open spec fn advanced(self, now: nat) -> PomodoroView {
        let m = self.next_mode();
        PomodoroView {
            timer: CountView::start(self.duration_of(m), now),
            mode: m,
            session: if m == Mode::Work { self.session + 1 } else { self.session },
            ..self
        }
    }

    /// Whether the next phase change can count its session in a `u64`.
    pub open spec fn can_advance(self) -> bool {
        self.next_mode() == Mode::Work ==> self.session < u64::MAX
    }
}

/// A work/break cycler that owns exactly one countdown at a time.
pub struct Pomodoro {
    timer: Timer,
    mode: Mode,
    session: u64,
    work_time: u64,
    break_time: u64,
    long_break_time: u64,
}

impl View for Pomodoro {
    type V = PomodoroView;

    closed spec fn view(&self) -> PomodoroView {
        PomodoroView {
            timer: self.timer@,
            mode: self.mode,
            session: self.session as nat,
            work_time: self.work_time as nat,
            break_time: self.break_time as nat,
            long_break_time: self.long_break_time as nat,
        }
    }
}

impl Pomodoro {
    pub open spec fn wf(&self) -> bool {
        self@.wf()
    }

    /// A pomodoro in its first work session, with a work countdown running
    /// from `now`. Durations are in seconds.
    pub fn new(work_time: u64, break_time: u64, long_break_time: u64, now: u64) -> (r: Pomodoro)
        ensures
            r@ == (PomodoroView {
                timer: CountView::start(work_time as nat, now as nat),
                mode: Mode::Work,
                session: 1,
                work_time: work_time as nat,
                break_time: break_time as nat,
                long_break_time: long_break_time as nat,
            }),
            r.wf(),
    {
        Pomodoro {
            timer: Timer::new(work_time, now),
            mode: Mode::Work,
            session: 1,
            work_time,
            break_time,
            long_break_time,
        }
    }

    pub fn mode(&self) -> (r: Mode)
        ensures
            r == self@.mode,
    {
        self.mode
    }

    pub fn session(&self) -> (r: u64)
        ensures
            r == self@.session,
    {
        self.session
    }

    /// The phase that follows the current one.
    pub fn check_next_mode(&self) -> (r: Mode)
        ensures
            r == self@.next_mode(),
    {
        match self.mode {
            Mode::Work => {
                if self.session % SESSIONS_PER_CYCLE == 0 {
                    Mode::LongBreak
                } else {
                    Mode::Break
                }
            },
            Mode::Break | Mode::LongBreak => Mode::Work,
        }
    }

    /// Moves on to the next phase, with a fresh countdown running from `now`.
    pub fn next_mode(&mut self, now: u64)
        requires
            old(self).wf(),
            old(self)@.can_advance(),
        ensures
            final(self)@ == old(self)@.advanced(now as nat),
            final(self).wf(),
    {
        match self.check_next_mode() {
            Mode::Work => self.work_mode(now),
            Mode::Break => self.break_mode(now),
            Mode::LongBreak => self.long_break_mode(now),
        }
    }

    fn work_mode(&mut self, now: u64)
        requires
            old(self)@.session < u64::MAX,
        ensures
            final(self)@ == (PomodoroView {
                timer: CountView::start(old(self)@.work_time, now as nat),
                mode: Mode::Work,
                session: old(self)@.session + 1,
                ..old(self)@
            }),
    {
        self.session = self.session + 1;
        self.mode = Mode::Work;
        self.timer = Timer::new(self.work_time, now);
    }

    fn break_mode(&mut self, now: u64)
        ensures
            final(self)@ == (PomodoroView {
                timer: CountView::start(old(self)@.break_time, now as nat),
                mode: Mode::Break,
                ..old(self)@
            }),
    {
        self.mode = Mode::Break;
        self.timer = Timer::new(self.break_time, now);
    }

    fn long_break_mode(&mut self, now: u64)
        ensures
            final(self)@ == (PomodoroView {
                timer: CountView::start(old(self)@.long_break_time, now as nat),
                mode: Mode::LongBreak,
                ..old(self)@
            }),
    {
        self.mode = Mode::LongBreak;
        self.timer = Timer::new(self.long_break_time, now);
    }

    /// One tick of the pomodoro loop: applies `cmd` (if any); when the
    /// current phase has run down to zero while running, ends it and moves
    /// on to the next phase at once.
    ///
    /// Returns `Step::Quit` after a quit command, `Step::Elapsed` when a
    /// phase has just run out (the caller fires the alert once), and
    /// `Step::Continue` otherwise.
    pub fn update(&mut self, cmd: Option<Command>, now: u64) -> (r: Step)
        requires
            old(self).wf(),
            old(self)@.can_advance(),
        ensures
            final(self).wf(),
            ({
                let c = old(self)@.timer.commanded_down(cmd, now as nat);
                if cmd == Some(Command::Quit) {
                    r == Step::Quit && final(self)@ == old(self)@.with_timer(
                        old(self)@.timer.paused_down(now as nat),
                    )
                } else if c.status == Status::Running && c.down_value(now as nat) == 0 {
                    r == Step::Elapsed && final(self)@ == old(self)@.advanced(now as nat)
                } else {
                    r == Step::Continue && final(self)@ == old(self)@.with_timer(c)
                }
            }),
    {
        match cmd {
            Some(Command::Quit) => {
                self.end_count(now);
                return Step::Quit;
            },
            Some(Command::Pause) => self.pause(now),
            Some(Command::Resume) => self.resume(now),
            Some(Command::Toggle) | Some(Command::Enter) => self.toggle(now),
            _ => {},
        }
        if self.is_running() && self.value(now) == 0 {
            self.timer.end_count(now);
            self.next_mode(now);
            return Step::Elapsed;
        }
        Step::Continue
    }
}

impl Counter for Pomodoro {
    open spec fn inv(&self) -> bool {
        self.wf()
    }

    open spec fn status(&self) -> Status {
        self@.timer.status
    }

    open spec fn live(&self, now: nat) -> nat {
        self@.timer.down_value(now)
    }

    fn has_ended(&self) -> (r: bool)
        ensures
            r == (self@.timer.status == Status::Ended),
    {
        self.timer.has_ended()
    }

    fn is_running(&self) -> (r: bool)
        ensures
            r == (self@.timer.status == Status::Running),
    {
        self.timer.is_running()
    }

    fn is_paused(&self) -> (r: bool)
        ensures
            r == (self@.timer.status == Status::Paused),
    {
        self.timer.is_paused()
    }

    /// Seconds left in the current phase at `now`.
    fn value(&self, now: u64) -> (r: u64)
        ensures
            r as nat == self@.timer.down_value(now as nat),
    {
        self.timer.value(now)
    }

    fn pause(&mut self, now: u64)
        ensures
            final(self)@ == old(self)@.with_timer(old(self)@.timer.paused_down(now as nat)),
            final(self).wf(),
    {
        self.timer.pause(now)
    }

    fn resume(&mut self, now: u64)
        ensures
            final(self)@ == old(self)@.with_timer(old(self)@.timer.resumed(now as nat)),
            final(self).wf(),
    {
        self.timer.resume(now)
    }

    fn toggle(&mut self, now: u64)
        ensures
            final(self)@ == old(self)@.with_timer(old(self)@.timer.toggled_down(now as nat)),
            final(self).wf(),
    {
        if self.is_running() {
            self.timer.pause(now);
        } else {
            self.timer.resume(now);
        }
    }

    /// Pauses the current phase; ending one phase does not end the cycle.
    fn end_count(&mut self, now: u64)
        ensures
            final(self)@ == old(self)@.with_timer(old(self)@.timer.paused_down(now as nat)),
            final(self).wf(),
    {
        self.timer.pause(now);
    }
}

} // verus!

