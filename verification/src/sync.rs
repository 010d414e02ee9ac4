//! The synchronisation primitives of `std::sync` that the handles are built
//! from. Nothing in this module is proved: each item says what is taken on
//! trust of the standard library. None of them promises anything of what a
//! lock guards, since another thread may have changed it in the meantime.
use std::sync::{Arc, Condvar, Mutex, MutexGuard, Weak};
use vstd::prelude::*;

verus! {

/// `std::sync::Mutex`, as an opaque value.
#[verifier::external_type_specification]
#[verifier::external_body]
#[verifier::reject_recursive_types(T)]
pub struct ExMutex<T: ?Sized>(Mutex<T>);

/// `std::sync::MutexGuard`, as an opaque value.
#[verifier::external_type_specification]
#[verifier::external_body]
#[verifier::reject_recursive_types(T)]
pub struct ExMutexGuard<'a, T: ?Sized + 'a>(MutexGuard<'a, T>);

/// `std::sync::Condvar`, as an opaque value.
#[verifier::external_type_specification]
#[verifier::external_body]
pub struct ExCondvar(Condvar);

/// `Mutex::new`: a mutex around `value`. Nothing is claimed of it.
pub assume_specification<T>[ Mutex::<T>::new ](value: T) -> (mutex: Mutex<T>)
;

/// `Condvar::new`: a condition variable. Nothing is claimed of it.
pub assume_specification[ Condvar::new ]() -> (signal: Condvar)
;

/// `Mutex::lock`: blocks until the lock is free and takes it. A poisoned lock
/// is entered like any other, through `PoisonError::into_inner`. Taken on
/// trust: that the call returns without unwinding, which holds as long as the
/// calling thread does not hold this lock already.
#[verifier::external_body]
pub(crate) fn lock<T>(mutex: &Mutex<T>) -> (guard: MutexGuard<'_, T>)
    opens_invariants none
    no_unwind
{
    match mutex.lock() {
        Ok(guard) => guard,
        Err(poisoned) => poisoned.into_inner(),
    }
}

/// `DerefMut::deref_mut` of a `MutexGuard`: what the lock guards, for as long
/// as the guard is borrowed. Nothing is claimed of the value found there.
#[verifier::external_body]
pub(crate) fn guarded<'a, 'b, T>(guard: &'a mut MutexGuard<'b, T>) -> (state: &'a mut T)
    opens_invariants none
    no_unwind
{
    &mut **guard
}

/// `Condvar::wait_while`: gives up the lock and sleeps until signalled, again
/// and again for as long as `condition` holds of what the lock guards, then
/// returns with the lock held again. The standard library tests the condition
/// first and after every wake, so a wake that brings nothing new puts the
/// caller back to sleep. If the lock is found poisoned the wait ends early,
/// and the guard is handed back all the same. The contract claims nothing of
/// the result; the call does not return while the condition keeps holding.
#[verifier::external_body]
pub(crate) fn wait_while<'a, T, F: FnMut(&mut T) -> bool>(
    signal: &Condvar,
    guard: MutexGuard<'a, T>,
    condition: F,
) -> (woken: MutexGuard<'a, T>)
    requires
        forall|state: &mut T| condition.requires((state,)),
{
    match signal.wait_while(guard, condition) {
        Ok(guard) => guard,
        Err(poisoned) => poisoned.into_inner(),
    }
}

/// `Condvar::notify_one`: wakes one thread that waits on `signal`, if there is
/// one. Taken on trust: that it does not unwind.
#[verifier::external_body]
pub(crate) fn notify_one(signal: &Condvar)
    opens_invariants none
    no_unwind
{
    signal.notify_one();
}

/// `Arc::weak_count`: how many `Weak` links point at the allocation of
/// `owner` at the time of the call. Nothing is claimed of the number.
#[verifier::external_body]
pub(crate) fn weak_links<S>(owner: &Arc<S>) -> (links: usize) {
    Arc::weak_count(owner)
}

/// A `std::sync::Weak`, as an opaque value.
#[verifier::external_body]
#[verifier::reject_recursive_types(S)]
struct RawWeak<S> {
    link: Weak<S>,
}

/// A link to a shared value that does not keep it alive: a `std::sync::Weak`,
/// together with the value that it points at. Only the four functions below
/// make or read one.
#[verifier::reject_recursive_types(S)]
pub struct WeakLink<S> {
    raw: RawWeak<S>,
    target: Ghost<Arc<S>>,
}

/// `Arc::downgrade`: a weak link to the allocation of `owner`, so one whose
/// target is what `owner` owns.
#[verifier::external_body]
pub(crate) fn downgrade<S>(owner: &Arc<S>) -> (link: WeakLink<S>)
    ensures
        link.target() == *owner,
{
    WeakLink { raw: RawWeak { link: Arc::downgrade(owner) }, target: Ghost(*owner) }
}

impl<S> WeakLink<S> {
    /// What the link points at, whether or not it is still alive.
    pub closed spec fn target(&self) -> Arc<S> {
        self.target@
    }

    /// `Weak::upgrade`: an owner of the value, or `None` once the last owner
    /// has gone. Which of the two depends on what other threads have done; an
    /// owner that is found owns the link's target. Taken on trust as well:
    /// that the call does not unwind.
    #[verifier::external_body]
    pub(crate) fn upgrade(&self) -> (owner: Option<Arc<S>>)
        ensures
            owner matches Some(found) ==> found == self.target(),
        opens_invariants none
        no_unwind
    {
        self.raw.link.upgrade()
    }

    /// `Weak::clone`: one more weak link to the same allocation, so the same
    /// link as a value.
    #[verifier::external_body]
    pub(crate) fn duplicate(&self) -> (link: Self)
        ensures
            link == *self,
    {
        WeakLink { raw: RawWeak { link: Weak::clone(&self.raw.link) }, target: Ghost(self.target@) }
    }

    /// `Weak::weak_count`: how many weak links point at the allocation, this
    /// one included, or 0 once no owner is left. Nothing is claimed of the
    /// number. Taken on trust: that it does not unwind.
    #[verifier::external_body]
    pub(crate) fn count(&self) -> (links: usize)
        opens_invariants none
        no_unwind
    {
        Weak::weak_count(&self.raw.link)
    }
}

} // verus!
