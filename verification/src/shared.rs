//! The snapshot as the server shares it: one writer, any number of readers,
//! behind std's reader-writer lock. The lock never leaves this module: every
//! function here takes it, does its work and lets it go, so no caller can hold
//! it while calling another.

use std::sync::{Arc, RwLock, RwLockReadGuard, RwLockWriteGuard};
use vstd::prelude::*;
use crate::bus::EventBus;
use crate::event::Event;
use crate::payload::{GSeatFocusedOutput, GSeatFocusedView, GSeatMode};
use crate::query::{GOutputState, QueryRoot};
use crate::snapshot::RiverSnapshot;

verus! {

#[verifier::external_type_specification]
#[verifier::external_body]
#[verifier::reject_recursive_types(T)]
pub struct ExRwLock<T: ?Sized>(RwLock<T>);

#[verifier::external_type_specification]
#[verifier::external_body]
#[verifier::reject_recursive_types(T)]
pub struct ExRwLockWriteGuard<'a, T: ?Sized + 'a>(RwLockWriteGuard<'a, T>);

#[verifier::external_type_specification]
#[verifier::external_body]
#[verifier::reject_recursive_types(T)]
pub struct ExRwLockReadGuard<'a, T: ?Sized>(RwLockReadGuard<'a, T>);

/// The shared snapshot. Copies of the handle share one snapshot.
#[derive(Clone)]
pub struct RiverStateHandle {
    lock: Arc<RwLock<RiverSnapshot>>,
}

/// `RwLock::new` of std: a lock around the value. Nothing is claimed of it.
#[verifier::external_body]
fn lock_new(snapshot: RiverSnapshot) -> (lock: RwLock<RiverSnapshot>) {
    RwLock::new(snapshot)
}

/// `RwLock::write` of std, which waits until no one else holds the lock. A
/// poisoned lock gives `None`. Nothing is claimed of the guard. std lets the
/// call give up or wait for ever where the calling thread holds the lock
/// already; the lock is private to this module, whose functions hold it for
/// the length of one call and hand out no guard, so no thread can.
#[verifier::external_body]
fn lock_write<'a>(lock: &'a RwLock<RiverSnapshot>) -> (guard: Option<
    RwLockWriteGuard<'a, RiverSnapshot>,
>) {
    lock.write().ok()
}

/// `RwLock::read` of std, which waits until no writer holds the lock. A
/// poisoned lock gives `None`. Nothing is claimed of the guard. What is said
/// of `lock_write` and the calling thread holds here too.
#[verifier::external_body]
fn lock_read<'a>(lock: &'a RwLock<RiverSnapshot>) -> (guard: Option<
    RwLockReadGuard<'a, RiverSnapshot>,
>) {
    lock.read().ok()
}

/// `DerefMut::deref_mut` of std's write guard: the snapshot behind the lock,
/// for as long as the guard is borrowed. Nothing is claimed of what it holds:
/// other holders of the lock may have changed it.
#[verifier::external_body]
fn guarded_mut<'a, 'b>(guard: &'a mut RwLockWriteGuard<'b, RiverSnapshot>) -> (snapshot:
    &'a mut RiverSnapshot) {
    &mut *guard
}

/// `Deref::deref` of std's read guard: the snapshot behind the lock, for as
/// long as the guard is borrowed. Nothing is claimed of what it holds.
#[verifier::external_body]
fn guarded<'a, 'b>(guard: &'a RwLockReadGuard<'b, RiverSnapshot>) -> (snapshot: &'a RiverSnapshot) {
    &*guard
}

/// A shared snapshot that starts out empty.
pub fn new_river_state() -> (handle: RiverStateHandle) {
    RiverStateHandle { lock: Arc::new(lock_new(RiverSnapshot::default())) }
}

/// Brings the shared snapshot up to date with one event, while no reader
/// looks at it. Nothing happens where the lock is poisoned.
pub fn update_river_state(handle: &RiverStateHandle, event: &Event) {
    match lock_write(&*handle.lock) {
        Some(mut guard) => {
            let snapshot = guarded_mut(&mut guard);
            snapshot.apply_event(event);
        },
        None => {},
    }
}

/// Takes one event in: the shared snapshot is brought up to date first, then
/// the event is published. The result is what `EventBus::publish` returned.
pub fn ingest_shared(handle: &RiverStateHandle, bus: &EventBus, event: Event) -> (r: Result<
    usize,
    Event,
>)
    ensures
        bus.is_closed() ==> r == Err::<usize, Event>(event),
        r matches Err(back) ==> back == event,
        r matches Ok(n) ==> n > 0 && !bus.is_closed(),
{
    update_river_state(handle, &event);
    bus.publish(event)
}

impl RiverStateHandle {
    /// Every output's state, as `QueryRoot::outputs` lists it of the snapshot
    /// at the time of the call; none where the lock is poisoned. Whatever the
    /// snapshot holds, no output is listed twice.
    pub fn outputs(&self) -> (r: Vec<GOutputState>)
        ensures
            forall|i: int, j: int|
                0 <= i < j < r.len() ==> #[trigger] r[i]@.output_id != #[trigger] r[j]@.output_id,
    {
        match lock_read(&*self.lock) {
            Some(guard) => QueryRoot.outputs(guarded(&guard)),
            None => Vec::new(),
        }
    }

    /// The state of the output that carries the label, as `QueryRoot::output`
    /// finds it in the snapshot at the time of the call; none where the lock
    /// is poisoned.
    pub fn output(&self, name: String) -> (r: Option<GOutputState>)
        ensures
            r matches Some(state) ==> state@.name == Some(name@),
    {
        match lock_read(&*self.lock) {
            Some(guard) => QueryRoot.output(guarded(&guard), name),
            None => None,
        }
    }

    /// The output that the seat focused last, at the time of the call; none
    /// where the lock is poisoned.
    pub fn seat_focused_output(&self) -> (r: Option<GSeatFocusedOutput>) {
        match lock_read(&*self.lock) {
            Some(guard) => QueryRoot.seat_focused_output(guarded(&guard)),
            None => None,
        }
    }

    /// The view that the seat focuses, at the time of the call; none where
    /// the lock is poisoned.
    pub fn seat_focused_view(&self) -> (r: Option<GSeatFocusedView>) {
        match lock_read(&*self.lock) {
            Some(guard) => QueryRoot.seat_focused_view(guarded(&guard)),
            None => None,
        }
    }

    /// The seat's mode, at the time of the call; none where the lock is
    /// poisoned.
    pub fn seat_mode(&self) -> (r: Option<GSeatMode>) {
        match lock_read(&*self.lock) {
            Some(guard) => QueryRoot.seat_mode(guarded(&guard)),
            None => None,
        }
    }
}

} // verus!
