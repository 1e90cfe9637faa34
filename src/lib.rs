use vstd::prelude::*;

pub mod event_listener;
mod primitives;
pub mod waiter;

use crate::event_listener::PriorityEvent;
use crate::event_listener::PriorityEventListener;

verus! {

/// A mutex whose waiters are woken lowest priority first once it becomes free.
#[verifier::reject_recursive_types(T)]
pub struct PriorityMutex<T> {
    inner: simple_mutex::Mutex<T>,
    listen: PriorityEventListener,
}

/// What one acquisition attempt ended with.
#[verifier::reject_recursive_types(T)]
pub enum LockStep<'a, T> {
    /// The lock is held.
    Acquired(simple_mutex::MutexGuard<'a, T>),
    /// The lock was busy; the caller is registered and awaits this event before trying again.
    Wait(PriorityEvent),
}

/// What an acquisition attempt does next.
#[derive(PartialEq, Eq, Structural, Debug)]
pub enum Next {
    /// The raw lock was taken: hand out the guard.
    Take,
    /// The raw lock is busy and the caller is not registered yet: register, then try again.
    Register,
    /// The raw lock is still busy after registering: wait to be woken.
    Wait,
}

/// The decision after one try of the raw lock, given whether that try took the lock
/// and whether the caller is already registered in the wait queue.
pub fn next_step(acquired: bool, registered: bool) -> (n: Next)
    ensures
        acquired ==> n == Next::Take,
        !acquired && !registered ==> n == Next::Register,
        !acquired && registered ==> n == Next::Wait,
{
    if acquired {
        Next::Take
    } else if registered {
        Next::Wait
    } else {
        Next::Register
    }
}

impl<T> PriorityMutex<T> {
    /// Creates an unlocked priority mutex holding `t`.
    pub fn new(t: T) -> Self {
        PriorityMutex { inner: simple_mutex::Mutex::new(t), listen: PriorityEventListener::new() }
    }

    /// Takes the lock if it is free, without registering in the wait queue.
    pub fn try_lock(&self) -> Option<simple_mutex::MutexGuard<'_, T>> {
        self.inner.try_lock()
    }

    /// One attempt to acquire at the given priority, as `next_step` decides: a free
    /// lock is taken at once, without touching the wait queue. Otherwise the caller
    /// registers at `priority` and then tries once more, so that a release between
    /// the two tries is not missed; if that fails too, the caller awaits the returned
    /// event and then makes another attempt.
    pub fn lock_step(&self, priority: u32) -> (r: LockStep<'_, T>)
        ensures
            r matches LockStep::Wait(e) ==> e.priority() == priority,
    {
        let mut registered: Option<PriorityEvent> = None;
        loop
            invariant
                registered matches Some(e) ==> e.priority() == priority,
            decreases (if registered is Some { 0int } else { 1int }),
        {
            let attempt = self.try_lock();
            match next_step(attempt.is_some(), registered.is_some()) {
                Next::Take => {
                    if let Some(g) = attempt {
                        return LockStep::Acquired(g);
                    }
                },
                Next::Register => {
                    registered = Some(self.listen.listen(priority));
                },
                Next::Wait => {
                    if let Some(e) = registered {
                        return LockStep::Wait(e);
                    }
                },
            }
        }
    }

    /// To be called each time the lock has been given back, after the raw guard
    /// is dropped: wakes the registered waiter of lowest priority that still
    /// awaits its event, so that it tries again.
    pub fn release(&self) {
        self.listen.notify_one();
    }

    /// The number of waiters registered in the wait queue and not yet woken or discarded.
    pub fn waiting(&self) -> usize {
        self.listen.pending()
    }
}

} // verus!
