//! The std locking primitives that the channels and the frame buffer are built on.
use std::sync::{Condvar, Mutex, MutexGuard};
use vstd::prelude::*;

verus! {

/// `std::sync::Mutex`, held opaque: what it guards is not visible to proofs.
#[verifier::external_type_specification]
#[verifier::external_body]
#[verifier::reject_recursive_types(T)]
pub struct ExMutex<T: ?Sized>(Mutex<T>);

/// `std::sync::MutexGuard`: the lock is held while it lives and released when
/// it is dropped.
#[verifier::external_type_specification]
#[verifier::external_body]
#[verifier::reject_recursive_types(T)]
pub struct ExMutexGuard<'a, T: ?Sized + 'a>(MutexGuard<'a, T>);

/// `std::sync::Condvar`, used to sleep until a guarded value changes.
#[verifier::external_type_specification]
#[verifier::external_body]
pub struct ExCondvar(Condvar);

/// Relies on `Mutex::new`: an unlocked mutex around the value; nothing is stated.
pub assume_specification<T>[ Mutex::<T>::new ](t: T) -> Mutex<T>;

/// Relies on `Condvar::new`: a condition variable with no waiters; nothing is stated.
pub assume_specification[ Condvar::new ]() -> Condvar;

/// Relies on `Condvar::notify_all`: wakes every thread waiting on it; nothing is stated.
pub assume_specification[ Condvar::notify_all ](cv: &Condvar);

/// Relies on `Mutex::lock`: blocks until the calling thread holds the lock. A lock
/// poisoned by a panic elsewhere is taken over as it stands. Locking a mutex the
/// calling thread already holds would never return; that cannot happen here, as
/// no guard leaves the function of this library that took it, and none of those
/// functions calls another that locks while it holds a guard.
#[verifier::external_body]
pub(crate) fn lock<T>(m: &Mutex<T>) -> MutexGuard<'_, T> {
    match m.lock() {
        Ok(guard) => guard,
        Err(poisoned) => poisoned.into_inner(),
    }
}

/// Relies on `std::mem::replace`: puts `value` under the held lock and hands back
/// what was there. Other threads may have changed it before the lock was taken,
/// so nothing is promised of what comes back.
#[verifier::external_body]
pub(crate) fn replace_locked<T>(guard: &mut MutexGuard<'_, T>, value: T) -> T {
    std::mem::replace(&mut **guard, value)
}

/// Relies on `Condvar::wait_while`: releases the lock and sleeps, atomically,
/// while `blocked` holds of the guarded value, and returns with the lock held.
#[verifier::external_body]
pub(crate) fn wait_while<'a, T, F: FnMut(&mut T) -> bool>(
    cv: &Condvar,
    guard: MutexGuard<'a, T>,
    blocked: F,
) -> MutexGuard<'a, T> {
    match cv.wait_while(guard, blocked) {
        Ok(guard) => guard,
        Err(poisoned) => poisoned.into_inner(),
    }
}

} // verus!
