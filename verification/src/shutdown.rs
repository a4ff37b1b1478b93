//! The trigger that stops the service: a slot that holds one completion
//! handle, which the first trigger takes out and every later trigger finds
//! empty.
//!
//! The slot is generic in the handle, which it only keeps and hands out.
//! Whoever shares a coordinator between requests puts it behind a lock;
//! `trigger` takes the coordinator by exclusive reference, so the take and
//! the clearing are one step for everybody else.

use vstd::prelude::*;

verus! {

/// The status of a trigger that was accepted.
pub const ACCEPTED: u16 = 202;

/// The status of a trigger while the capability is switched off: that of a
/// path that does not exist.
pub const NOT_FOUND: u16 = 404;

/// The slot with the completion handle.
#[derive(Debug)]
pub struct ShutdownCoordinator<T> {
    slot: Option<T>,
}

/// What a trigger answers: the status for the caller, and the handle to fire
/// where this trigger is the one that took it.
#[derive(Debug)]
pub struct Triggered<T> {
    pub status: u16,
    pub fire: Option<T>,
}

/// What a trigger does to a slot: the answer, and the slot afterwards.
pub open spec fn trigger_step<T>(slot: Option<T>, enabled: bool) -> (Triggered<T>, Option<T>) {
    if enabled {
        (Triggered { status: ACCEPTED, fire: slot }, None)
    } else {
        (Triggered { status: NOT_FOUND, fire: None }, slot)
    }
}

impl<T> ShutdownCoordinator<T> {
    /// The handle in the slot, if it has not been taken.
    pub closed spec fn handle(&self) -> Option<T> {
        self.slot
    }

    /// A coordinator that holds `handle`.
    pub fn new(handle: T) -> (coordinator: Self)
        ensures
            coordinator.handle() == Some(handle),
    {
        ShutdownCoordinator { slot: Some(handle) }
    }

    /// Whether the handle is still in the slot.
    pub fn is_armed(&self) -> (armed: bool)
        ensures
            armed == self.handle().is_some(),
    {
        self.slot.is_some()
    }

    /// One request to shut down. While the capability is switched off the
    /// answer is that of a missing path and the slot is left alone. Otherwise
    /// the request is accepted, whether it is the first or a repeat, and what
    /// the slot held is handed out and the slot left empty.
    pub fn trigger(&mut self, enabled: bool) -> (answer: Triggered<T>)
        ensures
            (answer, final(self).handle()) == trigger_step(old(self).handle(), enabled),
    {
        if enabled {
            Triggered { status: ACCEPTED, fire: self.slot.take() }
        } else {
            Triggered { status: NOT_FOUND, fire: None }
        }
    }
}

/// Two triggers in sequence, with the capability switched on, are both
/// accepted, and the handle that the slot held is handed out exactly once:
/// by the first.
pub proof fn lemma_trigger_twice<T>(handle: T)
    ensures
        ({
            let (first, slot) = trigger_step(Some(handle), true);
            let (second, _) = trigger_step(slot, true);
            &&& first.status == ACCEPTED
            &&& second.status == ACCEPTED
            &&& first.fire == Some(handle)
            &&& second.fire.is_none()
        }),
{
}

/// An empty slot stays empty and hands nothing out, whatever is triggered.
pub proof fn lemma_consumed_stays_consumed<T>(enabled: bool)
    ensures
        trigger_step(None::<T>, enabled).0.fire.is_none(),
        trigger_step(None::<T>, enabled).1.is_none(),
{
}

/// Switched off, a trigger answers as a missing path does, hands nothing
/// out and leaves the slot as it was.
pub proof fn lemma_disabled_is_not_found<T>(slot: Option<T>)
    ensures
        trigger_step(slot, false).0.status == NOT_FOUND,
        trigger_step(slot, false).0.fire.is_none(),
        trigger_step(slot, false).1 == slot,
{
}

} // verus!
