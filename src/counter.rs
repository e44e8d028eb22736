//! The state model shared by every counter: its status, the commands that
//! drive it, and the abstract state of a single count.
use vstd::prelude::*;

verus! {

/// Milliseconds in one counted second.
pub const MILLIS_PER_SEC: u64 = 1000;

/// Where a counter stands. `Ended` is terminal.
#[derive(Clone, Copy, Debug, PartialEq, Eq, Structural)]
pub enum Status {
    Running,
    Paused,
    Ended,
}

/// A user command, as read from the input source.
#[derive(Clone, Copy, Debug, PartialEq, Eq, Structural)]
pub enum Command {
    Quit,
    Pause,
    Resume,
    Toggle,
    Enter,
    Other,
}

/// What the update loop does after one tick.
#[derive(Clone, Copy, Debug, PartialEq, Eq, Structural)]
pub enum Step {
    /// Keep ticking.
    Continue,
    /// A quit command was handled: leave the loop.
    Quit,
    /// A countdown reached zero while running: fire the alert.
    Elapsed,
}

/// Abstract state of one count.
///
/// While `Running`, `counter` is the value as of `started` (a clock reading
/// in milliseconds); otherwise `counter` is the frozen value and `started`
/// is not consulted.
pub struct CountView {
    pub status: Status,
    pub started: nat,
    pub counter: nat,
}

impl CountView {
    /// Whole seconds from `started` to `now`; no time passes backwards.
    pub open spec fn elapsed(self, now: nat) -> nat {
        if now >= self.started {
            ((now - self.started) / (MILLIS_PER_SEC as int)) as nat
        } else {
            0
        }
    }

    /// Live value of a countdown: the count less the elapsed seconds,
    /// never below zero.
    pub open spec fn down_value(self, now: nat) -> nat {
        if self.status == Status::Running {
            if self.counter > self.elapsed(now) {
                (self.counter - self.elapsed(now)) as nat
            } else {
                0
            }
        } else {
            self.counter
        }
    }

    /// Live value of a count-up: the count plus the elapsed seconds,
    /// held at the largest `u64`.
    pub open spec fn up_value(self, now: nat) -> nat {
        if self.status == Status::Running {
            if self.counter + self.elapsed(now) <= u64::MAX {
                self.counter + self.elapsed(now)
            } else {
                u64::MAX as nat
            }
        } else {
            self.counter
        }
    }

    /// A running count frozen at `value` and paused; any other is unchanged.
    pub open spec fn frozen_at(self, value: nat) -> CountView {
        if self.status == Status::Running {
            CountView { status: Status::Paused, counter: value, ..self }
        } else {
            self
        }
    }

    /// A paused count running again from `now`; any other is unchanged.
    pub open spec fn resumed(self, now: nat) -> CountView {
        if self.status == Status::Paused {
            CountView { status: Status::Running, started: now, ..self }
        } else {
            self
        }
    }

    /// Frozen at `value` (if running), then ended.
    pub open spec fn ended_at(self, value: nat) -> CountView {
        CountView { status: Status::Ended, ..self.frozen_at(value) }
    }

    pub open spec fn paused_down(self, now: nat) -> CountView {
        self.frozen_at(self.down_value(now))
    }

    pub open spec fn paused_up(self, now: nat) -> CountView {
        self.frozen_at(self.up_value(now))
    }

    pub open spec fn ended_down(self, now: nat) -> CountView {
        self.ended_at(self.down_value(now))
    }

    pub open spec fn ended_up(self, now: nat) -> CountView {
        self.ended_at(self.up_value(now))
    }

    /// Pause if running, otherwise resume (a no-op on an ended count).
    pub open spec fn toggled_down(self, now: nat) -> CountView {
        if self.status == Status::Running {
            self.paused_down(now)
        } else {
            self.resumed(now)
        }
    }

    pub open spec fn toggled_up(self, now: nat) -> CountView {
        if self.status == Status::Running {
            self.paused_up(now)
        } else {
            self.resumed(now)
        }
    }

    /// A countdown after one command (`None`: no command this tick).
    pub open spec fn commanded_down(self, cmd: Option<Command>, now: nat) -> CountView {
        match cmd {
            Some(Command::Quit) => self.ended_down(now),
            Some(Command::Pause) => self.paused_down(now),
            Some(Command::Resume) => self.resumed(now),
            Some(Command::Toggle) | Some(Command::Enter) => self.toggled_down(now),
            _ => self,
        }
    }

    /// A count-up after one command (`None`: no command this tick).
    pub open spec fn commanded_up(self, cmd: Option<Command>, now: nat) -> CountView {
        match cmd {
            Some(Command::Quit) => self.ended_up(now),
            Some(Command::Pause) => self.paused_up(now),
            Some(Command::Resume) => self.resumed(now),
            Some(Command::Toggle) | Some(Command::Enter) => self.toggled_up(now),
            _ => self,
        }
    }

    /// A fresh running count of `count` seconds from `now`.
    pub open spec fn start(count: nat, now: nat) -> CountView {
        CountView { status: Status::Running, started: now, counter: count }
    }
}

/// The capability shared by every counter: query its status and value, and
/// pause, resume, toggle or end it. Values are whole seconds; `now` is a
/// clock reading in milliseconds.
pub trait Counter {
    /// What the counter keeps true between operations.
    spec fn inv(&self) -> bool;

    spec fn status(&self) -> Status;

    /// The live value at clock reading `now`.
    spec fn live(&self, now: nat) -> nat;

    fn has_ended(&self) -> (r: bool)
        ensures
            r == (self.status() == Status::Ended),
    ;

    fn is_running(&self) -> (r: bool)
        ensures
            r == (self.status() == Status::Running),
    ;

    fn is_paused(&self) -> (r: bool)
        ensures
            r == (self.status() == Status::Paused),
    ;

    fn value(&self, now: u64) -> (r: u64)
        ensures
            r as nat == self.live(now as nat),
    ;

    /// Freezes a running counter at its live value; otherwise does nothing.
    fn pause(&mut self, now: u64)
        requires
            old(self).inv(),
        ensures
            final(self).inv(),
            old(self).status() == Status::Running ==> final(self).status() == Status::Paused,
            old(self).status() != Status::Running ==> final(self).status() == old(self).status(),
            forall|t: nat|
                #![trigger final(self).live(t)]
                final(self).live(t) == if old(self).status() == Status::Running {
                    old(self).live(now as nat)
                } else {
                    old(self).live(t)
                },
    ;

    /// Runs a paused counter again from `now`, charging nothing for the
    /// pause; otherwise does nothing.
    fn resume(&mut self, now: u64)
        requires
            old(self).inv(),
        ensures
            final(self).inv(),
            old(self).status() == Status::Paused ==> final(self).status() == Status::Running
                && final(self).live(now as nat) == old(self).live(now as nat),
            old(self).status() != Status::Paused ==> final(self).status() == old(self).status()
                && forall|t: nat| #![trigger final(self).live(t)] final(self).live(t) == old(self).live(t),
    ;

    /// Pauses a running counter, resumes any other; an ended one stays as it is.
    fn toggle(&mut self, now: u64)
        requires
            old(self).inv(),
        ensures
            final(self).inv(),
            old(self).status() == Status::Running ==> final(self).status() == Status::Paused
                && forall|t: nat| #![trigger final(self).live(t)] final(self).live(t) == old(self).live(now as nat),
            old(self).status() == Status::Paused ==> final(self).status() == Status::Running
                && final(self).live(now as nat) == old(self).live(now as nat),
            old(self).status() == Status::Ended ==> final(self).status() == Status::Ended
                && forall|t: nat| #![trigger final(self).live(t)] final(self).live(t) == old(self).live(t),
    ;

    /// Stops the count for good at its live value (a pomodoro only pauses
    /// its current phase); an ended counter stays ended.
    fn end_count(&mut self, now: u64)
        requires
            old(self).inv(),
        ensures
            final(self).inv(),
            final(self).status() != Status::Running,
            old(self).status() == Status::Ended ==> final(self).status() == Status::Ended,
            forall|t: nat| #![trigger final(self).live(t)] final(self).live(t) == old(self).live(now as nat),
    ;
}

/// Whole seconds from `started` to `now`, zero if `now` is earlier.
pub fn elapsed_secs(started: u64, now: u64) -> (r: u64)
    ensures
        r as nat == CountView::start(0, started as nat).elapsed(now as nat),
{
    if now >= started {
        (now - started) / MILLIS_PER_SEC
    } else {
        0
    }
}

} // verus!
