use vstd::prelude::*;

verus! {

/// A change notification: the counter's value at the moment of the change.
#[derive(Clone, Copy, Debug, PartialEq, Eq, Structural)]
pub struct TickEvent {
    pub seconds: u64,
}

/// The mathematical state of the timer: whole seconds counted so far, and
/// whether ticks may advance the count.
pub ghost struct Clock {
    pub seconds: nat,
    pub running: bool,
}

/// The three operations that change a timer.
#[derive(Clone, Copy, Debug, PartialEq, Eq, Structural)]
pub enum Command {
    /// Flip between running and paused.
    Toggle,
    /// Back to zero, paused.
    Reset,
    /// One second has passed.
    Advance,
}

impl Clock {
    /// The state a timer starts in.
    pub open spec fn initial() -> Clock {
        Clock { seconds: 0, running: false }
    }

    /// The state after one command.
    pub open spec fn after(self, c: Command) -> Clock {
        match c {
            Command::Toggle => Clock { seconds: self.seconds, running: !self.running },
            Command::Reset => Clock::initial(),
            Command::Advance => if self.running {
                Clock { seconds: self.seconds + 1, running: true }
            } else {
                self
            },
        }
    }

    /// Whether a command on this state emits a notification: every one does
    /// but an advance while paused.
    pub open spec fn emits(self, c: Command) -> bool {
        c != Command::Advance || self.running
    }

    /// The state after a run of commands, applied first to last.
    pub open spec fn run(self, cs: Seq<Command>) -> Clock
        decreases cs.len(),
    {
        if cs.len() == 0 {
            self
        } else {
            self.run(cs.drop_last()).after(cs.last())
        }
    }
}

/// How the count may move across one command: it stays, it grows by one on
/// an advance while running, or it returns to zero on a reset.
pub open spec fn count_moves_lawfully(before: Clock, c: Command, after: Clock) -> bool {
    ||| after.seconds == before.seconds && c != Command::Reset
    ||| after.seconds == before.seconds + 1 && c == Command::Advance && before.running
    ||| after.seconds == 0 && c == Command::Reset
}

/// Over every run of commands from any state, each step moves the count
/// lawfully: unchanged, up by one through an advance while running, or to
/// zero through a reset.
pub proof fn lemma_run_moves_count_lawfully(start: Clock, cs: Seq<Command>)
    ensures
        forall|i: int|
            0 <= i < cs.len() ==> #[trigger] count_moves_lawfully(
                start.run(cs.take(i)),
                cs[i],
                start.run(cs.take(i + 1)),
            ),
{
    assert forall|i: int| 0 <= i < cs.len() implies #[trigger] count_moves_lawfully(
        start.run(cs.take(i)),
        cs[i],
        start.run(cs.take(i + 1)),
    ) by {
        let pre = cs.take(i + 1);
        assert(pre.drop_last() =~= cs.take(i));
        assert(pre.last() == cs[i]);
    }
}

/// Toggling twice in a row gives back the state toggled from: the same
/// running flag and the same count.
pub proof fn lemma_toggle_twice(s: Clock)
    ensures
        s.after(Command::Toggle).after(Command::Toggle) == s,
{
}

/// The stopwatch counter and its running flag.
#[derive(Clone, Copy, Debug, PartialEq, Eq, Structural)]
pub struct TimerState {
    seconds: u64,
    running: bool,
}

impl View for TimerState {
    type V = Clock;

    closed spec fn view(&self) -> Clock {
        Clock { seconds: self.seconds as nat, running: self.running }
    }
}

impl TimerState {
    /// A paused timer at zero.
    pub fn new() -> (r: TimerState)
        ensures
            r@ == Clock::initial(),
    {
        TimerState { seconds: 0, running: false }
    }

    /// Whole seconds counted so far.
    pub fn seconds(&self) -> (r: u64)
        ensures
            r == self@.seconds,
    {
        self.seconds
    }

    /// Whether ticks currently advance the count.
    pub fn is_running(&self) -> (r: bool)
        ensures
            r == self@.running,
    {
        self.running
    }

    /// Whether one more advance could be counted without leaving `u64`.
    pub open spec fn can_advance(&self) -> bool {
        self@.seconds < u64::MAX
    }

    /// Flips the running flag. The count is unchanged and is reported, so
    /// that a view can redraw its play/pause control.
    pub fn toggle_running(&mut self) -> (e: TickEvent)
        ensures
            final(self)@ == old(self)@.after(Command::Toggle),
            final(self)@.running == !old(self)@.running,
            final(self)@.seconds == old(self)@.seconds,
            e.seconds == final(self)@.seconds,
    {
        self.running = !self.running;
        TickEvent { seconds: self.seconds }
    }

    /// Back to zero and paused, whatever the state was.
    pub fn reset(&mut self) -> (e: TickEvent)
        ensures
            final(self)@ == old(self)@.after(Command::Reset),
            final(self)@.seconds == 0,
            !final(self)@.running,
            e.seconds == 0,
    {
        self.seconds = 0;
        self.running = false;
        TickEvent { seconds: 0 }
    }

    /// One second has passed: while running the count grows by one and the
    /// new count is reported; while paused nothing changes and nothing is
    /// reported.
    pub fn advance(&mut self) -> (e: Option<TickEvent>)
        requires
            old(self)@.running ==> old(self).can_advance(),
        ensures
            final(self)@ == old(self)@.after(Command::Advance),
            old(self)@.running ==> final(self)@.seconds == old(self)@.seconds + 1
                && final(self)@.running && e == Some(TickEvent { seconds: final(self)@.seconds as u64 }),
            !old(self)@.running ==> *final(self) == *old(self) && e.is_none(),
    {
        if self.running {
            self.seconds = self.seconds + 1;
            Some(TickEvent { seconds: self.seconds })
        } else {
            None
        }
    }

    /// Carries out one command, and returns the notification it raises, if
    /// any.
    pub fn apply(&mut self, c: Command) -> (e: Option<TickEvent>)
        requires
            c == Command::Advance && old(self)@.running ==> old(self).can_advance(),
        ensures
            final(self)@ == old(self)@.after(c),
            e.is_some() == old(self)@.emits(c),
            e matches Some(ev) ==> ev.seconds == final(self)@.seconds,
    {
        match c {
            Command::Toggle => Some(self.toggle_running()),
            Command::Reset => Some(self.reset()),
            Command::Advance => self.advance(),
        }
    }
}

} // verus!
