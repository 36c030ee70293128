//! The lock-protected cell that the two endpoints of a channel share.
//!
//! The cell is a `std::sync::Mutex` around a [`State`], held through
//! `std::sync::Arc` so that it lives until the second endpoint lets go of it.
//! What the lock hands out depends on what the other endpoint has done, so
//! nothing here says which state a locked cell holds: the items below only
//! give access, and every decision is made by the transitions of [`State`].

use crate::state::State;
use std::sync::Arc;
use std::sync::Mutex;
use std::sync::MutexGuard;
use std::sync::PoisonError;
use vstd::prelude::*;

verus! {

/// `std::sync::Mutex`, opaque: to the verifier its value is the lock's
/// identity, never what it protects.
#[verifier::external_type_specification]
#[verifier::external_body]
#[verifier::reject_recursive_types(T)]
pub struct ExMutex<T: ?Sized>(Mutex<T>);

/// `std::sync::MutexGuard`, opaque: the right to read and write the protected
/// value until the guard is dropped.
#[verifier::external_type_specification]
#[verifier::external_body]
#[verifier::reject_recursive_types(T)]
pub struct ExMutexGuard<'a, T: ?Sized + 'a>(MutexGuard<'a, T>);

/// `std::sync::PoisonError`, opaque: what a lock returns in place of its guard
/// after a thread has unwound while holding it.
#[verifier::external_type_specification]
#[verifier::external_body]
#[verifier::reject_recursive_types(T)]
pub struct ExPoisonError<T>(PoisonError<T>);

/// `Mutex::new`: a new lock around `state`. Nothing is claimed of the result.
#[verifier::external_body]
pub(crate) fn new_lock<T>(state: State<T>) -> (cell: Mutex<State<T>>) {
    Mutex::new(state)
}

/// `Arc::clone`: a second handle to the same lock, so the result equals the
/// handle it was made from.
#[verifier::external_body]
pub(crate) fn share<T>(cell: &Arc<Mutex<State<T>>>) -> (other: Arc<Mutex<State<T>>>)
    ensures
        other == *cell,
{
    Arc::clone(cell)
}

/// `Arc::ptr_eq`: whether two handles lead to one lock. To the verifier a
/// lock's value is its identity, so this is equality of the handles.
#[verifier::external_body]
pub(crate) fn same_cell<T>(a: &Arc<Mutex<State<T>>>, b: &Arc<Mutex<State<T>>>) -> (same: bool)
    ensures
        same == (*a == *b),
{
    Arc::ptr_eq(a, b)
}

/// `Mutex::lock`: waits for the lock and returns its guard, or the poison
/// error that holds the guard. Nothing is claimed of the state behind it.
///
/// The call is taken not to unwind. std lets it panic where the calling thread
/// holds the lock already; in this crate a guard is dropped in the function
/// that obtained it, and no code from outside the crate runs while it lives.
#[verifier::external_body]
pub(crate) fn lock<T>(cell: &Mutex<State<T>>) -> (guard: Result<
    MutexGuard<'_, State<T>>,
    PoisonError<MutexGuard<'_, State<T>>>,
>)
    opens_invariants none
    no_unwind
{
    cell.lock()
}

/// `PoisonError::into_inner`: the guard that a poison error holds.
#[verifier::external_body]
pub(crate) fn recover<'a, T>(poisoned: PoisonError<MutexGuard<'a, State<T>>>) -> (guard: MutexGuard<
    'a,
    State<T>,
>)
    opens_invariants none
    no_unwind
{
    poisoned.into_inner()
}

/// `DerefMut::deref_mut` of the guard: the state behind the lock, for as long
/// as the guard is borrowed. Nothing is claimed of the state.
#[verifier::external_body]
pub(crate) fn state_of<'a, 'b, T>(guard: &'a mut MutexGuard<'b, State<T>>) -> (state: &'a mut State<
    T,
>)
    opens_invariants none
    no_unwind
{
    &mut **guard
}

/// Locks the cell. A poisoned lock is entered all the same: the transitions of
/// [`State`] do not unwind, so the state behind the lock is always whole.
pub(crate) fn enter<T>(cell: &Mutex<State<T>>) -> (guard: MutexGuard<'_, State<T>>)
    opens_invariants none
    no_unwind
{
    match lock(cell) {
        Ok(guard) => guard,
        Err(poisoned) => recover(poisoned),
    }
}

} // verus!
