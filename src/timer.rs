//! A countdown: starts at a duration and counts down to zero.
use vstd::prelude::*;
use crate::counter::{elapsed_secs, Command, CountView, Counter, Status, Step};

verus! {

/// A countdown of whole seconds.
pub struct Timer {
    started: u64,
    counter: u64,
    status: Status,
}

impl View for Timer {
    type V = CountView;

    closed spec fn view(&self) -> CountView {
        CountView { status: self.status, started: self.started as nat, counter: self.counter as nat }
    }
}

impl Timer {
    /// A running countdown of `count` seconds, started at `now`.
    pub fn new(count: u64, now: u64) -> (r: Timer)
        ensures
            r@ == CountView::start(count as nat, now as nat),
            r@.down_value(now as nat) == count,
            r@.status == Status::Running,
    {
        Timer { started: now, counter: count, status: Status::Running }
    }

    /// One tick of the countdown loop: applies `cmd` (if any), then ends the
    /// countdown when it has run down to zero while running.
    ///
    /// Returns `Step::Quit` after a quit command, `Step::Elapsed` when the
    /// countdown has just run out (the caller fires the alert once), and
    /// `Step::Continue` otherwise.
    pub fn update(&mut self, cmd: Option<Command>, now: u64) -> (r: Step)
        ensures
            ({
                let c = old(self)@.commanded_down(cmd, now as nat);
                if cmd == Some(Command::Quit) {
                    r == Step::Quit && final(self)@ == c
                } else if c.status == Status::Running && c.down_value(now as nat) == 0 {
                    r == Step::Elapsed && final(self)@ == c.ended_down(now as nat)
                } else {
                    r == Step::Continue && final(self)@ == c
                }
            }),
    {
        match cmd {
            Some(Command::Quit) => {
                self.end_count(now);
                return Step::Quit;
            },
            Some(Command::Pause) => self.pause(now),
            Some(Command::Resume) => self.resume(now),
            Some(Command::Toggle) | Some(Command::Enter) => self.toggle(now),
            _ => {},
        }
        if self.is_running() && self.value(now) == 0 {
            self.end_count(now);
            return Step::Elapsed;
        }
        Step::Continue
    }
}

impl Counter for Timer {
    open spec fn inv(&self) -> bool {
        true
    }

    open spec fn status(&self) -> Status {
        self@.status
    }

    open spec fn live(&self, now: nat) -> nat {
        self@.down_value(now)
    }

    fn has_ended(&self) -> (r: bool)
        ensures
            r == (self@.status == Status::Ended),
    {
        self.status == Status::Ended
    }

    fn is_running(&self) -> (r: bool)
        ensures
            r == (self@.status == Status::Running),
    {
        self.status == Status::Running
    }

    fn is_paused(&self) -> (r: bool)
        ensures
            r == (self@.status == Status::Paused),
    {
        self.status == Status::Paused
    }

    /// Seconds left at `now`.
    fn value(&self, now: u64) -> (r: u64)
        ensures
            r as nat == self@.down_value(now as nat),
    {
        if self.is_running() {
            let elapsed = elapsed_secs(self.started, now);
            if self.counter > elapsed {
                self.counter - elapsed
            } else {
                0
            }
        } else {
            self.counter
        }
    }

    /// Freezes a running countdown at its value; otherwise does nothing.
    fn pause(&mut self, now: u64)
        ensures
            final(self)@ == old(self)@.paused_down(now as nat),
    {
        if self.is_running() {
            self.counter = self.value(now);
            self.status = Status::Paused;
        }
    }

    /// Runs a paused countdown again from `now`; otherwise does nothing.
    fn resume(&mut self, now: u64)
        ensures
            final(self)@ == old(self)@.resumed(now as nat),
    {
        if self.is_paused() {
            self.status = Status::Running;
            self.started = now;
        }
    }

    /// Pauses if running, resumes otherwise; an ended countdown stays as it is.
    fn toggle(&mut self, now: u64)
        ensures
            final(self)@ == old(self)@.toggled_down(now as nat),
    {
        if self.is_running() {
            self.pause(now);
        } else {
            self.resume(now);
        }
    }

    /// Freezes the value and ends the countdown for good.
    fn end_count(&mut self, now: u64)
        ensures
            final(self)@ == old(self)@.ended_down(now as nat),
    {
        self.pause(now);
        self.status = Status::Ended;
    }
}

} // verus!
