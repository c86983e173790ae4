//! The readiness barrier: a barrier that starts down and is lifted once.
//!
//! A waiter checks the flag and begins to wait under one acquisition of the
//! lock, so a lifting cannot fall between the two.

use vstd::prelude::*;
use std::sync::Arc;
use parking_lot::Condvar;
use parking_lot::Mutex;
use parking_lot::MutexGuard;

verus! {

/// `parking_lot`'s raw mutex, the first parameter of its `Mutex`.
#[verifier::external_type_specification]
#[verifier::external_body]
pub struct ExRawMutex(parking_lot::RawMutex);

/// `lock_api::Mutex`, which `parking_lot::Mutex` is an alias of. Opaque:
/// what it protects can change under any shared reference.
#[verifier::external_type_specification]
#[verifier::external_body]
#[verifier::reject_recursive_types(R)]
#[verifier::reject_recursive_types(V)]
pub struct ExMutex<R, V: ?Sized>(parking_lot::lock_api::Mutex<R, V>);

/// `parking_lot::Condvar`. Opaque.
#[verifier::external_type_specification]
#[verifier::external_body]
pub struct ExCondvar(Condvar);

/// Exclusive access to the flag of a latch, released on drop, together with
/// the condition of the same latch. Holds `parking_lot::MutexGuard`, whose
/// own declaration is bounded by a trait of `lock_api`.
#[verifier::external_body]
struct FlagGuard<'a> {
    inner: MutexGuard<'a, bool>,
    wake: &'a Condvar,
}

/// The flag of a barrier and the condition that its waiters sleep on.
struct Latch {
    flag: Mutex<bool>,
    wake: Condvar,
}

/// A handle to a barrier. Clones share one barrier.
pub struct StartBarrier {
    shared: Arc<Latch>,
}

/// `parking_lot::Mutex::new`: an unlocked mutex around the flag.
#[verifier::external_body]
fn flag_new(value: bool) -> (flag: Mutex<bool>)
{
    Mutex::new(value)
}

/// `parking_lot::Condvar::new`: a condition without waiters.
#[verifier::external_body]
fn wake_new() -> (wake: Condvar)
{
    Condvar::new()
}

/// `parking_lot::Mutex::lock`: waits for exclusive access to the flag of the
/// latch. The guard keeps the latch's own condition beside it, so that a
/// wait can only ever pair the two.
#[verifier::external_body]
fn flag_lock<'a>(latch: &'a Latch) -> (guard: FlagGuard<'a>)
{
    FlagGuard { inner: latch.flag.lock(), wake: &latch.wake }
}

/// `Deref::deref` of `parking_lot::MutexGuard`: the flag as it stands.
#[verifier::external_body]
fn flag_read(guard: &FlagGuard<'_>) -> (value: bool)
{
    *guard.inner
}

/// `DerefMut::deref_mut` of `parking_lot::MutexGuard`, assigned through:
/// sets the flag.
#[verifier::external_body]
fn flag_write(guard: &mut FlagGuard<'_>, value: bool)
{
    *guard.inner = value;
}

/// `parking_lot::Condvar::wait`, on the condition and the mutex of one
/// latch: gives the lock up, sleeps until the condition is notified, and
/// takes the lock again. It wakes only on a notification. The outside
/// function panics when a condition is waited on with two mutexes at a time;
/// a guard holds the condition of the latch whose mutex it locks, and there
/// is no other way to wait.
#[verifier::external_body]
fn wake_wait(guard: &mut FlagGuard<'_>)
{
    guard.wake.wait(&mut guard.inner)
}

/// `parking_lot::Condvar::notify_all`: wakes every waiter of the moment and
/// says how many there were.
#[verifier::external_body]
fn wake_all(wake: &Condvar) -> (woken: usize)
{
    wake.notify_all()
}

impl StartBarrier {
    /// A barrier that is down.
    pub fn new() -> (barrier: Self) {
        StartBarrier { shared: Arc::new(Latch { flag: flag_new(false), wake: wake_new() }) }
    }

    /// Lifts the barrier and wakes every thread that waits at it. Lifting a
    /// lifted barrier changes nothing.
    pub fn lift(&self) {
        {
            let mut guard = flag_lock(&self.shared);
            flag_write(&mut guard, true);
        }
        let _ = wake_all(&self.shared.wake);
    }

    /// Returns at once if the barrier is lifted, and else sleeps until it
    /// is.
    pub fn wait(&self) {
        let mut guard = flag_lock(&self.shared);
        if !flag_read(&guard) {
            wake_wait(&mut guard);
        }
    }

    /// Whether the barrier is lifted at the moment of the call.
    pub fn is_lifted(&self) -> (lifted: bool) {
        let guard = flag_lock(&self.shared);
        flag_read(&guard)
    }
}

impl Clone for StartBarrier {
    /// Another handle to the same barrier.
    fn clone(&self) -> (other: Self)
        ensures
            other == *self,
    {
        StartBarrier { shared: self.shared.clone() }
    }
}

} // verus!
