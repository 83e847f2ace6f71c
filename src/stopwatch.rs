use vstd::prelude::*;
use crate::notify::{Inboxes, Subscribers, delivered, joined};
use crate::timer::{Clock, Command, TickEvent, TimerState};

verus! {

/// The single timer of an application together with the subscribers to its
/// changes. Each command changes the timer and notifies in one step, so
/// subscribers see the events in the order the changes happened. The owner
/// serializes the commands: user actions and the once-a-second tick alike.
pub struct Stopwatch {
    timer: TimerState,
    subscribers: Subscribers,
}

impl Stopwatch {
    /// The timer's state.
    pub closed spec fn clock(&self) -> Clock {
        self.timer@
    }

    /// The pending notifications of each subscriber.
    pub closed spec fn inboxes(&self) -> Inboxes {
        self.subscribers@
    }

    /// Inboxes after a command on a timer in state `before`: the new count is
    /// delivered to every subscriber, unless the command raised nothing.
    pub open spec fn notified(q: Inboxes, before: Clock, c: Command) -> Inboxes {
        if before.emits(c) {
            delivered(q, TickEvent { seconds: before.after(c).seconds as u64 })
        } else {
            q
        }
    }

    /// A paused timer at zero, with no subscribers.
    pub fn new() -> (r: Stopwatch)
        ensures
            r.clock() == Clock::initial(),
            r.inboxes() == Seq::<Seq<TickEvent>>::empty(),
    {
        Stopwatch { timer: TimerState::new(), subscribers: Subscribers::new() }
    }

    /// Whole seconds counted so far.
    pub fn seconds(&self) -> (r: u64)
        ensures
            r == self.clock().seconds,
    {
        self.timer.seconds()
    }

    /// Whether ticks currently advance the count.
    pub fn is_running(&self) -> (r: bool)
        ensures
            r == self.clock().running,
    {
        self.timer.is_running()
    }

    /// Registers a subscriber; it receives every event emitted from now on.
    pub fn subscribe(&mut self) -> (id: usize)
        ensures
            id == old(self).inboxes().len(),
            final(self).inboxes() == joined(old(self).inboxes()),
            final(self).clock() == old(self).clock(),
    {
        self.subscribers.subscribe()
    }

    /// Takes out the events waiting for subscriber `id`, oldest first.
    pub fn take_events(&mut self, id: usize) -> (es: Vec<TickEvent>)
        requires
            id < old(self).inboxes().len(),
        ensures
            es@ == old(self).inboxes()[id as int],
            final(self).inboxes() == old(self).inboxes().update(id as int, Seq::empty()),
            final(self).clock() == old(self).clock(),
    {
        self.subscribers.take(id)
    }

    /// Carries out one command and notifies every subscriber of the change.
    pub fn handle(&mut self, c: Command) -> (e: Option<TickEvent>)
        requires
            c == Command::Advance && old(self).clock().running ==> old(self).clock().seconds
                < u64::MAX,
        ensures
            final(self).clock() == old(self).clock().after(c),
            final(self).inboxes() == Stopwatch::notified(old(self).inboxes(), old(self).clock(), c),
            e == (if old(self).clock().emits(c) {
                Some(TickEvent { seconds: final(self).clock().seconds as u64 })
            } else {
                None
            }),
    {
        let e = self.timer.apply(c);
        if let Some(ev) = e {
            self.subscribers.emit(ev);
        }
        e
    }

    /// Play/pause: flips the running flag and notifies with the unchanged
    /// count.
    pub fn toggle_running(&mut self) -> (e: TickEvent)
        ensures
            final(self).clock() == old(self).clock().after(Command::Toggle),
            final(self).inboxes() == delivered(old(self).inboxes(), e),
            e.seconds == old(self).clock().seconds,
    {
        let e = self.timer.toggle_running();
        self.subscribers.emit(e);
        e
    }

    /// Stops the timer at zero and notifies with a count of zero.
    pub fn reset(&mut self) -> (e: TickEvent)
        ensures
            final(self).clock() == Clock::initial(),
            final(self).inboxes() == delivered(old(self).inboxes(), e),
            e.seconds == 0,
    {
        let e = self.timer.reset();
        self.subscribers.emit(e);
        e
    }

    /// What the ticking loop does once a second: while running, the count
    /// grows by one and the new count goes to every subscriber; while paused,
    /// nothing changes and nobody is notified.
    pub fn tick(&mut self) -> (e: Option<TickEvent>)
        requires
            old(self).clock().running ==> old(self).clock().seconds < u64::MAX,
        ensures
            final(self).clock() == old(self).clock().after(Command::Advance),
            old(self).clock().running ==> e == Some(
                TickEvent { seconds: (old(self).clock().seconds + 1) as u64 },
            ) && final(self).inboxes() == delivered(old(self).inboxes(), e.unwrap()),
            !old(self).clock().running ==> e.is_none() && final(self).inboxes()
                == old(self).inboxes(),
    {
        let e = self.timer.advance();
        if let Some(ev) = e {
            self.subscribers.emit(ev);
        }
        e
    }
}

} // verus!
