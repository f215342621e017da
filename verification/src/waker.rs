//! Task wakers, and the slots that hold one until it is needed.
use std::task::Waker;
use vstd::prelude::*;

verus! {

#[verifier::external_type_specification]
#[verifier::external_body]
pub struct ExWaker(Waker);

/// The task that a waker wakes.
pub uninterp spec fn wake_target(waker: Waker) -> int;

/// Whether it can be told from two wakers that they wake one task.
pub uninterp spec fn known_alike(waker: Waker, other: Waker) -> bool;

/// `Waker::will_wake`: where the answer is yes, both wakers wake one task. The
/// answer may be no although they do.
#[verifier::external_body]
fn will_wake(waker: &Waker, other: &Waker) -> (same: bool)
    ensures
        same == known_alike(*waker, *other),
        same ==> wake_target(*waker) == wake_target(*other),
{
    waker.will_wake(other)
}

/// `Waker::clone`: a waker of the same task.
#[verifier::external_body]
fn clone_waker(waker: &Waker) -> (copy: Waker)
    ensures
        wake_target(copy) == wake_target(*waker),
{
    waker.clone()
}

/// Whether waking what the slot holds wakes the task of `waker`.
pub open spec fn registered(slot: Option<Waker>, waker: Waker) -> bool {
    slot matches Some(held) && wake_target(held) == wake_target(waker)
}

/// Whether a slot that held `before` and then holds `after` had `waker` registered:
/// it holds a waker of that task, and the one that was there, where that is known to
/// be one.
pub open spec fn registration(before: Option<Waker>, waker: Waker, after: Option<Waker>) -> bool {
    &&& registered(after, waker)
    &&& (before matches Some(held) && known_alike(held, waker)) ==> after == before
}

/// Makes the slot hold a waker of the task that `waker` wakes. A waker that is
/// known to wake that task already is left in place; any other is replaced.
pub fn register_waker(slot: &mut Option<Waker>, waker: &Waker)
    ensures
        registration(*old(slot), *waker, *final(slot)),
{
    let keep = match slot {
        Some(held) => will_wake(held, waker),
        None => false,
    };
    if !keep {
        *slot = Some(clone_waker(waker));
    }
}

/// The wakers that a transition took out of their slots. Each is to be woken.
#[must_use]
pub struct Wakeups {
    pub sender: Option<Waker>,
    pub receiver: Option<Waker>,
    pub shutdown: Option<Waker>,
}

impl Wakeups {
    /// No task to wake.
    pub open spec fn nobody() -> Wakeups {
        Wakeups { sender: None, receiver: None, shutdown: None }
    }
}

} // verus!
