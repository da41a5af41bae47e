//! The shared readiness result and the supervised-process state.
//!
//! The readiness result is a write-once slot: the supervisor publishes
//! exactly one outcome (`Ok(())` for ready, `Err(message)` for timeout), and
//! every reader — however many, and however late — observes that same value.
use vstd::prelude::*;

verus! {

/// A single-assignment cell holding the readiness outcome once the
/// supervisor has computed it.
pub struct ReadinessSlot {
    value: Option<Result<(), String>>,
}

impl ReadinessSlot {
    /// The stored outcome, `None` while the supervisor is still working.
    pub closed spec fn outcome(&self) -> Option<Result<(), String>> {
        self.value
    }

    /// An empty slot.
    pub fn new() -> (r: ReadinessSlot)
        ensures
            r.outcome() is None,
    {
        ReadinessSlot { value: None }
    }

    /// Publish an outcome. The first publication sticks; any later one
    /// leaves the slot unchanged (write-once).
    pub fn publish(&mut self, outcome: Result<(), String>)
        ensures
            final(self).outcome() == published(old(self).outcome(), outcome),
    {
        if self.value.is_none() {
            self.value = Some(outcome);
        }
    }

    /// Read the outcome: `None` until published, afterwards always the
    /// published value.
    pub fn read(&self) -> (r: Option<Result<(), String>>)
        ensures
            r == self.outcome(),
    {
        match &self.value {
            None => None,
            Some(Ok(u)) => {
                assert(self.outcome() == Some(Result::<(), String>::Ok(*u)));
                Some(Ok(*u))
            },
            Some(Err(m)) => {
                let c = m.clone();
                assert(c == *m);
                Some(Err(c))
            },
        }
    }
}

/// What a slot holds after one publication: the first write sticks, later
/// ones change nothing.
pub open spec fn published(prev: Option<Result<(), String>>, outcome: Result<(), String>) -> Option<
    Result<(), String>,
> {
    if prev is Some {
        prev
    } else {
        Some(outcome)
    }
}

/// Readiness is idempotent: whatever outcome is published first is what the
/// slot holds, however many publications follow; so every waiter — whether
/// it subscribed before or after completion — reads that same first outcome.
pub proof fn lemma_slot_idempotent(first: Result<(), String>, later: Result<(), String>)
    ensures
        published(None, first) == Some(first),
        published(published(None, first), later) == Some(first),
{
}

/// State owned by the supervisor: the optional handle of a process it
/// spawned itself, and the shared readiness slot. The handle type is the
/// caller's; the supervisor only stores and surrenders it.
pub struct ServerState<T> {
    child: Option<T>,
    status: ReadinessSlot,
}

impl<T> ServerState<T> {
    /// Whether a spawned-process handle is currently recorded.
    pub closed spec fn has_child(&self) -> bool {
        self.child is Some
    }

    /// The recorded handle.
    pub closed spec fn child_handle(&self) -> Option<T> {
        self.child
    }

    /// The readiness slot.
    pub closed spec fn status_slot(&self) -> ReadinessSlot {
        self.status
    }

    pub fn new(child: Option<T>, status: ReadinessSlot) -> (r: ServerState<T>)
        ensures
            r.child_handle() == child,
            r.status_slot() == status,
    {
        ServerState { child, status }
    }

    /// Record (or clear) the spawned-process handle.
    pub fn set_child(&mut self, child: Option<T>)
        ensures
            final(self).child_handle() == child,
            final(self).status_slot() == old(self).status_slot(),
    {
        self.child = child;
    }

    /// Surrender the handle for termination; afterwards none is recorded.
    /// On a supervisor that never spawned (or that already surrendered its
    /// handle) this returns `None` and the kill path is a no-op.
    pub fn take_child(&mut self) -> (r: Option<T>)
        ensures
            r == old(self).child_handle(),
            final(self).child_handle() is None,
            final(self).status_slot() == old(self).status_slot(),
    {
        self.child.take()
    }

    /// Publish the readiness outcome (write-once, see
    /// [`ReadinessSlot::publish`]).
    pub fn publish_status(&mut self, outcome: Result<(), String>)
        ensures
            final(self).child_handle() == old(self).child_handle(),
            final(self).status_slot().outcome() == published(
                old(self).status_slot().outcome(),
                outcome,
            ),
    {
        self.status.publish(outcome);
    }

    /// Read the readiness outcome, as any waiter does once woken.
    pub fn read_status(&self) -> (r: Option<Result<(), String>>)
        ensures
            r == self.status_slot().outcome(),
    {
        self.status.read()
    }
}

} // verus!
