//! The spin lock that guards the controller state.
//!
//! Nothing is assumed about the state that the lock hands out: another
//! holder of the controller may have changed it in any way since the last
//! acquisition. What is known of it is what holds of every
//! [`VPlicInner`].

use vstd::prelude::*;
use crate::vplic::VPlicInner;

verus! {

/// `spin::relax::Spin`, the way a waiting `spin::Mutex` passes its time.
/// Opaque.
#[verifier::external_type_specification]
#[verifier::external_body]
pub struct ExSpin(spin::relax::Spin);

/// `spin::mutex::Mutex`. Opaque: what it guards is not part of its value.
#[verifier::external_type_specification]
#[verifier::external_body]
#[verifier::reject_recursive_types(T)]
#[verifier::reject_recursive_types(R)]
pub struct ExMutex<T: ?Sized, R>(spin::mutex::Mutex<T, R>);

/// `spin::mutex::MutexGuard`, the proof that a lock is held. Opaque.
#[verifier::external_type_specification]
#[verifier::external_body]
#[verifier::reject_recursive_types(T)]
pub struct ExMutexGuard<'a, T: 'a + ?Sized>(spin::mutex::MutexGuard<'a, T>);

/// `spin::Mutex::new`: a lock that owns `state`. Nothing is claimed of it.
#[verifier::external_body]
pub(crate) fn lock_new(state: VPlicInner) -> (lock: spin::Mutex<VPlicInner>) {
    spin::Mutex::new(state)
}

/// `spin::Mutex::lock`: spins until the lock is free, then holds it until
/// the guard is dropped. Nothing is claimed of the guard.
///
/// The call does not return while the lock is held. No function of this
/// library calls it while it holds a guard: each guard lives inside one
/// method of [`crate::vplic::VPlic`], and no such method calls another
/// while it holds one.
#[verifier::external_body]
pub(crate) fn lock_acquire<'a>(lock: &'a spin::Mutex<VPlicInner>) -> (guard: spin::MutexGuard<
    'a,
    VPlicInner,
>) {
    lock.lock()
}

/// `DerefMut::deref_mut` of `spin::MutexGuard`: the state that the held
/// lock guards. Nothing is claimed of it.
#[verifier::external_body]
pub(crate) fn guard_state<'a, 'b>(guard: &'b mut spin::MutexGuard<'a, VPlicInner>) -> (state:
    &'b mut VPlicInner) {
    core::ops::DerefMut::deref_mut(guard)
}

} // verus!
