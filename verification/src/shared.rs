//! The lock around the control of a stream, which the stream and the task that
//! drives its socket share.
use crate::control::{ControlView, SocketControl};
use spin::mutex::Mutex;
use spin::MutexGuard;
use std::sync::Arc;
use vstd::prelude::*;

verus! {

#[verifier::external_type_specification]
#[verifier::external_body]
pub struct ExSpin(spin::relax::Spin);

#[verifier::external_type_specification]
#[verifier::external_body]
#[verifier::reject_recursive_types(T)]
#[verifier::reject_recursive_types(R)]
pub struct ExMutex<T: ?Sized, R>(Mutex<T, R>);

#[verifier::external_type_specification]
#[verifier::external_body]
#[verifier::reject_recursive_types(T)]
pub struct ExMutexGuard<'a, T: 'a + ?Sized>(MutexGuard<'a, T>);

/// The control of a stream, shared between the stream and the task that drives its
/// socket.
pub type SharedControl = Arc<Mutex<SocketControl, spin::relax::Spin>>;

/// What a lock held when it was made.
pub uninterp spec fn made_around(lock: Mutex<SocketControl, spin::relax::Spin>) -> SocketControl;

/// What a guard gives access to.
pub uninterp spec fn guarded(guard: MutexGuard<'_, SocketControl>) -> SocketControl;

/// The lock that a guard holds.
pub uninterp spec fn lock_of(guard: MutexGuard<'_, SocketControl>) -> Mutex<
    SocketControl,
    spin::relax::Spin,
>;

/// What the holder of a guard found behind the lock when it took it.
pub uninterp spec fn found_by(guard: MutexGuard<'_, SocketControl>) -> SocketControl;

/// Whether the holder of a guard has had its one access to what is behind the lock.
pub uninterp spec fn spent(guard: MutexGuard<'_, SocketControl>) -> bool;

/// Whether somebody took the lock, found the control behind it in the state `before`,
/// had access to it once, and had it in the state `after` when that was over. There
/// is no second access, so that is how the lock is given back. Who takes the lock
/// before and after is not said.
pub open spec fn turn(
    lock: Mutex<SocketControl, spin::relax::Spin>,
    before: ControlView,
    after: ControlView,
) -> bool {
    exists|guard: MutexGuard<'_, SocketControl>| #[trigger]
        lock_of(guard) == lock && spent(guard) && found_by(guard)@ == before && guarded(guard)@
            == after
}

/// `Mutex::new`.
#[verifier::external_body]
fn new_lock(control: SocketControl) -> (lock: Mutex<SocketControl, spin::relax::Spin>)
    ensures
        made_around(lock) == control,
{
    Mutex::new(control)
}

/// `Mutex::lock`: waits until nobody holds the lock, and takes it. Nothing more is
/// said of what is found behind it, which is what the last holder left there.
#[verifier::external_body]
pub(crate) fn lock<'a>(control: &'a SharedControl) -> (guard: MutexGuard<'a, SocketControl>)
    ensures
        lock_of(guard) == **control,
        found_by(guard) == guarded(guard),
        !spent(guard),
{
    control.lock()
}

/// `MutexGuard::deref_mut`: access to what the guard guards, which is asked for once.
/// The lock is the same, and so is what was found when it was taken.
#[verifier::external_body]
pub(crate) fn guard_mut<'a, 'b>(guard: &'a mut MutexGuard<'b, SocketControl>) -> (control: &'a mut
    SocketControl)
    requires
        !spent(*old(guard)),
    ensures
        *control == guarded(*old(guard)),
        guarded(*final(guard)) == *final(control),
        lock_of(*final(guard)) == lock_of(*old(guard)),
        found_by(*final(guard)) == found_by(*old(guard)),
        spent(*final(guard)),
{
    &mut **guard
}

/// `Arc::clone`: the same lock once more.
#[verifier::external_body]
pub(crate) fn share(control: &SharedControl) -> (copy: SharedControl)
    ensures
        copy == *control,
{
    Arc::clone(control)
}

/// Shares a control.
pub fn share_control(control: SocketControl) -> (shared: SharedControl)
    ensures
        made_around(*shared) == control,
{
    Arc::new(new_lock(control))
}

} // verus!
