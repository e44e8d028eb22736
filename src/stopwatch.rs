//! A count-up: starts at an offset and counts upward until ended.
use vstd::prelude::*;
use crate::counter::{elapsed_secs, Command, CountView, Counter, Status, Step};

verus! {

/// A count-up of whole seconds.
pub struct Stopwatch {
    started: u64,
    counter: u64,
    status: Status,
}

impl View for Stopwatch {
    type V = CountView;

    closed spec fn view(&self) -> CountView {
        CountView { status: self.status, started: self.started as nat, counter: self.counter as nat }
    }
}

impl Stopwatch {
    /// A running count-up from `count` seconds, started at `now`.
    pub fn new(count: u64, now: u64) -> (r: Stopwatch)
        ensures
            r@ == CountView::start(count as nat, now as nat),
            r@.up_value(now as nat) == count,
            r@.status == Status::Running,
    {
        Stopwatch { started: now, counter: count, status: Status::Running }
    }

    /// One tick of the stopwatch loop: applies `cmd` (if any).
    ///
    /// Returns `Step::Quit` after a quit command, `Step::Continue` otherwise;
    /// a count-up never runs out by itself.
    pub fn update(&mut self, cmd: Option<Command>, now: u64) -> (r: Step)
        ensures
            final(self)@ == old(self)@.commanded_up(cmd, now as nat),
            r == (if cmd == Some(Command::Quit) { Step::Quit } else { Step::Continue }),
    {
        match cmd {
            Some(Command::Quit) => {
                self.end_count(now);
                return Step::Quit;
            },
            Some(Command::Pause) => self.pause(now),
            Some(Command::Resume) => self.resume(now),
            Some(Command::Toggle) | Some(Command::Enter) => self.toggle(now),
            _ => {},
        }
        Step::Continue
    }
}

impl Counter for Stopwatch {
    open spec fn inv(&self) -> bool {
        true
    }

    open spec fn status(&self) -> Status {
        self@.status
    }

    open spec fn live(&self, now: nat) -> nat {
        self@.up_value(now)
    }

    fn has_ended(&self) -> (r: bool)
        ensures
            r == (self@.status == Status::Ended),
    {
        self.status == Status::Ended
    }

    fn is_running(&self) -> (r: bool)
        ensures
            r == (self@.status == Status::Running),
    {
        self.status == Status::Running
    }

    fn is_paused(&self) -> (r: bool)
        ensures
            r == (self@.status == Status::Paused),
    {
        self.status == Status::Paused
    }

    /// Seconds counted at `now` (held at `u64::MAX`).
    fn value(&self, now: u64) -> (r: u64)
        ensures
            r as nat == self@.up_value(now as nat),
    {
        if self.is_running() {
            let elapsed = elapsed_secs(self.started, now);
            if self.counter <= u64::MAX - elapsed {
                self.counter + elapsed
            } else {
                u64::MAX
            }
        } else {
            self.counter
        }
    }

    /// Freezes a running count-up at its value; otherwise does nothing.
    fn pause(&mut self, now: u64)
        ensures
            final(self)@ == old(self)@.paused_up(now as nat),
    {
        if self.is_running() {
            self.counter = self.value(now);
            self.status = Status::Paused;
        }
    }

    /// Runs a paused count-up again from `now`; otherwise does nothing.
    fn resume(&mut self, now: u64)
        ensures
            final(self)@ == old(self)@.resumed(now as nat),
    {
        if self.is_paused() {
            self.status = Status::Running;
            self.started = now;
        }
    }

    /// Pauses if running, resumes otherwise; an ended count-up stays as it is.
    fn toggle(&mut self, now: u64)
        ensures
            final(self)@ == old(self)@.toggled_up(now as nat),
    {
        if self.is_running() {
            self.pause(now);
        } else {
            self.resume(now);
        }
    }

    /// Freezes the value and ends the count-up for good.
    fn end_count(&mut self, now: u64)
        ensures
            final(self)@ == old(self)@.ended_up(now as nat),
    {
        self.pause(now);
        self.status = Status::Ended;
    }
}

} // verus!
