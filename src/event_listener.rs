use vstd::prelude::*;

use crate::primitives::guarded;
use crate::primitives::guarded_mut;
use crate::primitives::lock_raw;
use crate::primitives::signal;
use crate::waiter::WaitQueue;

verus! {

/// A wait queue shared between tasks: waiters register with a priority and are
/// woken one at a time, lowest priority first.
pub struct PriorityEventListener {
    events: simple_mutex::Mutex<WaitQueue<oneshot::Sender<()>>>,
}

impl PriorityEventListener {
    /// Creates a listener with no waiters.
    pub fn new() -> Self {
        PriorityEventListener { events: simple_mutex::Mutex::new(WaitQueue::new()) }
    }

    /// Registers a waiter with the given priority; the returned event completes
    /// once this waiter is woken.
    pub fn listen(&self, priority: u32) -> (r: PriorityEvent)
        ensures
            r.priority() == priority,
    {
        let (send, recv) = oneshot::channel();
        let mut g = lock_raw(&self.events);
        guarded_mut(&mut g).push(priority, send);
        PriorityEvent { receiver: recv, priority }
    }

    /// Wakes the registered waiter of lowest priority whose event is still awaited,
    /// discarding abandoned ones on the way. Does nothing when no such waiter is left.
    /// The queue stays locked for the whole scan, so that the scan is bounded by the
    /// waiters present when it starts; sending never suspends.
    pub fn notify_one(&self) {
        let mut g = lock_raw(&self.events);
        guarded_mut(&mut g).release_one(signal);
    }

    /// The number of registered waiters that have been neither woken nor discarded.
    pub fn pending(&self) -> usize {
        let g = lock_raw(&self.events);
        guarded(&g).len()
    }
}

/// The registration of one waiter; it completes when the waiter is woken.
pub struct PriorityEvent {
    receiver: oneshot::Receiver<()>,
    priority: u32,
}

impl PriorityEvent {
    /// The priority this waiter was registered at.
    pub closed spec fn spec_priority(&self) -> u32 {
        self.priority
    }

    /// The priority this waiter was registered at.
    #[verifier::when_used_as_spec(spec_priority)]
    pub fn priority(&self) -> (r: u32)
        ensures
            r == self.spec_priority(),
    {
        self.priority
    }

    /// The receiving end that completes when this waiter is woken.
    pub fn into_receiver(self) -> oneshot::Receiver<()> {
        self.receiver
    }
}

} // verus!
