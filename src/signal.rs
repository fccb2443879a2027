//! The per-waiter signal: an atomic tri-state flag and the handle that
//! resumes its owner. It is both what the owner waits on and the waker
//! that a future is given.
use vstd::prelude::*;
use std::sync::atomic::{AtomicU8, Ordering};
use std::sync::Arc;
use std::task::Wake;
use parking::{Parker, Unparker};
use crate::spin::{cond_spin, likely};
use crate::state::{next_wait_phase, resume_needed, WaitPhase, WAITING, PARKED, NOTIFIED};

verus! {

#[verifier::external_type_specification]
#[verifier::external_body]
pub struct ExParker(Parker);

#[verifier::external_type_specification]
#[verifier::external_body]
pub struct ExUnparker(Unparker);

/// Relies on parking::Parker::new: a parker with no wake token.
#[verifier::external_body]
pub(crate) fn new_parker() -> Parker {
    Parker::new()
}

/// Relies on parking::Parker::unparker: a handle that wakes this parker.
#[verifier::external_body]
pub(crate) fn unparker_of(p: &Parker) -> Unparker {
    p.unparker()
}

/// Relies on parking::Parker::park: blocks until a wake token is available
/// and consumes it.
#[verifier::external_body]
fn park(p: &Parker) {
    p.park()
}

/// Relies on parking::Unparker::unpark: gives the parker a wake token and
/// wakes it if it sleeps.
#[verifier::external_body]
fn unpark(u: &Unparker) {
    u.unpark();
}

/// The flag is shared by the owner and any number of notifiers, so its
/// value at any moment is not known to the verifier. What is verified of
/// each method is that it decides through the steps of `crate::state`
/// (`next_wait_phase`, `resume_needed`), which are proved to move as the
/// rendezvous model does.
pub struct Signal {
    state: AtomicU8,
    owner: Unparker,
}

impl Signal {
    /// The handle through which notifications wake the owner.
    pub closed spec fn owner(&self) -> Unparker {
        self.owner
    }

    /// A signal in the `Waiting` state whose notifications wake the parker
    /// that `owner` belongs to.
    pub fn new(owner: Unparker) -> (r: Self)
        ensures
            r.owner() == owner,
    {
        Signal { state: AtomicU8::new(WAITING), owner }
    }

    /// Drops a notification left over from earlier work, so that the next
    /// `wait` waits for a new one. Called by the owner only, before it hands
    /// out the waker for new work.
    pub fn reset(&self) {
        self.state.store(WAITING, Ordering::Release);
    }

    /// Consumes a recorded notification: `Notified` to `Waiting`.
    fn try_consume(&self) -> bool {
        self.state.compare_exchange(NOTIFIED, WAITING, Ordering::AcqRel, Ordering::Acquire).is_ok()
    }

    /// Blocks the owner until a notification is consumed, leaving the flag
    /// `Waiting`. Called by the owner only, with the parker that `owner`
    /// wakes. It returns at its first check when a notification is already
    /// recorded, and parks only after its own `Waiting` to `Parked` swap
    /// succeeded; a notifier that wins that race makes it return instead.
    /// After `u64::MAX` wakes without a notification it puts the flag back
    /// to `Waiting` and returns anyway.
    pub fn wait(&self, parker: &Parker, multithreaded: bool) {
        let consume = || self.try_consume();
        let consumed = cond_spin(&consume, multithreaded);
        let phase = next_wait_phase(WaitPhase::Spinning, consumed, true);
        if phase == WaitPhase::Returned {
            return;
        }
        let committed = self.state.compare_exchange(
            WAITING,
            PARKED,
            Ordering::AcqRel,
            Ordering::Acquire,
        ).is_ok();
        let phase = next_wait_phase(phase, committed, true);
        if likely(phase == WaitPhase::Returned) {
            // a notifier got in first: take its notification
            self.state.store(WAITING, Ordering::Release);
            return;
        }
        let mut sleeps: u64 = 0;
        loop
            decreases u64::MAX - sleeps,
        {
            let consumed = self.try_consume();
            if likely(next_wait_phase(phase, consumed, true) == WaitPhase::Returned) {
                return;
            }
            if sleeps == u64::MAX {
                let _ = self.state.compare_exchange(
                    PARKED,
                    WAITING,
                    Ordering::AcqRel,
                    Ordering::Acquire,
                );
                return;
            }
            park(parker);
            sleeps = sleeps + 1;
        }
    }

    /// Records a notification; resumes the owner if it had committed to
    /// sleeping. Safe from any thread, any number of times.
    pub fn notify(&self) {
        let prev = self.state.swap(NOTIFIED, Ordering::AcqRel);
        if likely(resume_needed(prev)) {
            unpark(&self.owner);
        }
    }
}

impl Wake for Signal {
    fn wake(self: Arc<Self>) {
        self.notify();
    }

    fn wake_by_ref(self: &Arc<Self>) {
        self.notify();
    }
}

} // verus!
