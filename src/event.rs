use vstd::prelude::*;

verus! {

/// A one-shot broadcast event. Parties register interest before it fires and are all woken
/// by the single firing; firing is permanent, and a registration after it is satisfied at once.
#[derive(Debug)]
pub struct Event {
    pub description: String,
    pub fired: bool,
    /// The registered parties that still wait for the firing.
    pub waiting: u64,
}

/// A registration on an [`Event`]; `ready` tells whether it was satisfied when it was made.
#[derive(Debug, Clone, Copy, PartialEq, Eq, Structural)]
pub struct EventListener {
    pub ready: bool,
}

#[derive(Debug, Clone, Copy, PartialEq, Eq, Structural)]
pub enum EventError {
    /// The event had fired already: it fires once only.
    AlreadyFired,
}

impl Event {
    /// A state that never holds waiters once the event has fired.
    pub open spec fn wf(&self) -> bool {
        self.fired ==> self.waiting == 0
    }

    pub fn new(description: String) -> (r: Event)
        ensures
            r.wf(),
            !r.fired,
            r.waiting == 0,
            r.description@ == description@,
    {
        Event { description, fired: false, waiting: 0 }
    }

    /// Registers one party. Before the firing it is counted among the waiters; after it the
    /// returned listener is already satisfied and nothing is counted.
    pub fn listen(&mut self) -> (r: EventListener)
        requires
            old(self).wf(),
            old(self).waiting < u64::MAX,
        ensures
            final(self).wf(),
            final(self).fired == old(self).fired,
            final(self).description == old(self).description,
            r.ready == old(self).fired,
            final(self).waiting == if old(self).fired {
                old(self).waiting as int
            } else {
                old(self).waiting + 1
            },
    {
        if self.fired {
            EventListener { ready: true }
        } else {
            self.waiting = self.waiting + 1;
            EventListener { ready: false }
        }
    }

    /// Fires the event, waking every registered party, and returns how many were woken.
    /// A second firing is refused and changes nothing.
    pub fn notify(&mut self) -> (r: Result<u64, EventError>)
        requires
            old(self).wf(),
        ensures
            final(self).wf(),
            final(self).fired,
            final(self).description == old(self).description,
            old(self).fired ==> r == Err::<u64, EventError>(EventError::AlreadyFired) && *final(self) == *old(self),
            !old(self).fired ==> r == Ok::<u64, EventError>(old(self).waiting) && final(self).waiting == 0,
    {
        if self.fired {
            Err(EventError::AlreadyFired)
        } else {
            let woken = self.waiting;
            self.fired = true;
            self.waiting = 0;
            Ok(woken)
        }
    }
}

} // verus!
