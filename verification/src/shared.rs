use vstd::prelude::*;
use std::sync::RwLock;
use std::sync::RwLockReadGuard;

verus! {

/// `std::sync::RwLock`, the lock behind which the requests and the cookie jar
/// are shared with the threads that run requests. Nothing is known of its
/// contents until it is read.
#[verifier::external_type_specification]
#[verifier::external_body]
#[verifier::reject_recursive_types(T)]
pub struct ExRwLock<T: ?Sized>(RwLock<T>);

/// `std::sync::RwLockReadGuard`, which keeps a read lock held until it is dropped.
#[verifier::external_type_specification]
#[verifier::external_body]
#[verifier::reject_recursive_types(T)]
pub struct ExRwLockReadGuard<'a, T: ?Sized>(RwLockReadGuard<'a, T>);

/// `RwLock::read`: waits for shared access and returns its guard, or `None`
/// where the lock is poisoned because a writer panicked while holding it.
/// Nothing is claimed about which of the two happens. The standard library
/// lets this call panic or wait forever where the calling thread already holds
/// the lock; nothing in this crate takes a lock while it holds a guard, and a
/// caller must not hold a write guard of a lock that it hands to this crate.
#[verifier::external_body]
pub(crate) fn acquire_read<'a, T>(lock: &'a RwLock<T>) -> (guard: Option<RwLockReadGuard<'a, T>>)
{
    match lock.read() {
        Ok(guard) => Some(guard),
        Err(_) => None,
    }
}

/// `Deref::deref` of a read guard: the value behind the lock, for as long as
/// the guard lives. Nothing is claimed about the value: another thread may
/// have written it at any time before the guard was taken.
#[verifier::external_body]
pub(crate) fn guarded<'a, 'b, T>(guard: &'b RwLockReadGuard<'a, T>) -> (value: &'b T)
{
    &**guard
}

/// A copy of the value behind `lock`, taken under its read lock, which is
/// released before this returns; `None` where the lock is poisoned.
pub(crate) fn snapshot<T: Clone>(lock: &RwLock<T>) -> (copy: Option<T>)
{
    match acquire_read(lock) {
        Some(guard) => Some(guarded(&guard).clone()),
        None => None,
    }
}

} // verus!
