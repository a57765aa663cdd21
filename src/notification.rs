//! Notifications the runner publishes, and the log that buffers them.
use crate::gba::Gba;
use crate::sync::{lock, replace_locked, wait_while};
use vstd::prelude::*;

verus! {

/// A run-state change that has already taken effect.
#[derive(Copy, Clone, Debug, PartialEq, Eq, Structural)]
pub enum Notification {
    /// The engine is now advancing.
    Run,
    /// The engine has stopped advancing.
    Pause,
    /// The engine was reset with a new configuration.
    Reset,
}

/// The notifications published and not yet popped, oldest first.
pub struct EventLog {
    items: Vec<Notification>,
}

impl View for EventLog {
    type V = Seq<Notification>;

    closed spec fn view(&self) -> Seq<Notification> {
        self.items@
    }
}

impl EventLog {
    pub fn new() -> (r: Self)
        ensures
            r@ == Seq::<Notification>::empty(),
    {
        EventLog { items: Vec::new() }
    }

    pub fn is_empty(&self) -> (r: bool)
        ensures
            r == (self@.len() == 0),
    {
        self.items.len() == 0
    }

    /// Whether no `kind` notification is buffered.
    pub fn lacks(&self, kind: Notification) -> (r: bool)
        ensures
            r == !self@.contains(kind),
    {
        let mut i: usize = 0;
        while i < self.items.len()
            invariant
                i <= self@.len(),
                forall|k: int| 0 <= k < i ==> self@[k] != kind,
            decreases self@.len() - i,
        {
            if self.items[i] == kind {
                return false;
            }
            i = i + 1;
        }
        true
    }

    /// Adds a notification after all the buffered ones.
    pub fn push(&mut self, notification: Notification)
        ensures
            final(self)@ == old(self)@.push(notification),
    {
        self.items.push(notification);
    }

    /// Hands out every buffered notification, oldest first, and empties the log.
    pub fn drain(&mut self) -> (r: Vec<Notification>)
        ensures
            (r@, final(self)@) == drained(old(self)@),
    {
        let mut taken = Vec::new();
        std::mem::swap(&mut self.items, &mut taken);
        taken
    }
}

/// Popping consumes: two pops with no notification published between them hand
/// out everything that was buffered, then nothing.
pub proof fn lemma_pop_consumes(log: Seq<Notification>)
    ensures
        drained(drained(log).1).0 == Seq::<Notification>::empty(),
        drained(log).0 == log,
{
}

/// What a pop hands out, and what it leaves buffered.
pub open spec fn drained(log: Seq<Notification>) -> (Seq<Notification>, Seq<Notification>) {
    (log, Seq::empty())
}

/// The reader side of the notification log. Every reader sees every notification
/// that is published before it pops; popping empties the log for all of them.
pub struct NotificationChannel<'a> {
    gba: &'a Gba,
}

impl<'a> NotificationChannel<'a> {
    pub(crate) fn from(gba: &'a Gba) -> Self {
        NotificationChannel { gba }
    }

    /// Publishes a notification and wakes every thread waiting for one.
    pub fn send(&mut self, notification: Notification) {
        let mut guard = lock(&self.gba.events);
        let mut log = replace_locked(&mut guard, EventLog::new());
        log.push(notification);
        let _ = replace_locked(&mut guard, log);
        self.gba.event_ready.notify_all();
    }

    /// Takes every buffered notification, oldest first, and empties the log.
    pub fn pop(&self) -> Vec<Notification> {
        let mut guard = lock(&self.gba.events);
        let mut log = replace_locked(&mut guard, EventLog::new());
        log.drain()
    }

    /// Blocks until at least one notification is buffered. The log is checked and
    /// the thread put to sleep under the lock that `send` takes, so no
    /// notification published in between is missed.
    pub fn wait(&self) {
        let guard = lock(&self.gba.events);
        let _guard = wait_while(&self.gba.event_ready, guard, |log: &mut EventLog| log.is_empty());
    }

    /// Blocks until a `kind` notification is buffered.
    pub fn wait_for(&self, kind: Notification) {
        let guard = lock(&self.gba.events);
        let _guard = wait_while(&self.gba.event_ready, guard, |log: &mut EventLog| log.lacks(kind));
    }
}

} // verus!
