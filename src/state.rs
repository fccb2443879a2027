//! The signal's tri-state flag and a model of one wait racing with notifiers.
use vstd::prelude::*;

verus! {

/// The three values of a signal's atomic flag.
#[derive(Clone, Copy, Debug, PartialEq, Eq, Structural)]
pub enum SignalState {
    /// Nothing recorded; the owner has not committed to sleeping.
    Waiting,
    /// The owner has committed to sleeping and must be resumed.
    Parked,
    /// A wake was recorded and not yet consumed.
    Notified,
}

pub const WAITING: u8 = 0;

pub const PARKED: u8 = 1;

pub const NOTIFIED: u8 = 255;

/// The byte that stands for `s` in the atomic flag.
pub open spec fn code_of(s: SignalState) -> u8 {
    match s {
        SignalState::Waiting => WAITING,
        SignalState::Parked => PARKED,
        SignalState::Notified => NOTIFIED,
    }
}

/// The state a byte of the flag stands for; only the three codes are ever stored.
pub open spec fn state_of(b: u8) -> SignalState {
    if b == WAITING {
        SignalState::Waiting
    } else if b == PARKED {
        SignalState::Parked
    } else {
        SignalState::Notified
    }
}

pub fn encode(s: SignalState) -> (r: u8)
    ensures
        r == code_of(s),
        state_of(r) == s,
{
    match s {
        SignalState::Waiting => WAITING,
        SignalState::Parked => PARKED,
        SignalState::Notified => NOTIFIED,
    }
}

pub fn decode(b: u8) -> (r: SignalState)
    ensures
        r == state_of(b),
        b == WAITING || b == PARKED || b == NOTIFIED ==> code_of(r) == b,
{
    if b == WAITING {
        SignalState::Waiting
    } else if b == PARKED {
        SignalState::Parked
    } else {
        SignalState::Notified
    }
}

/// Whether a notifier that swapped `prev` out of the flag must resume the owner.
pub fn resume_needed(prev: u8) -> (r: bool)
    ensures
        r == (state_of(prev) == SignalState::Parked),
{
    decode(prev) == SignalState::Parked
}

/// Where the owner stands inside one call of `wait`.
#[derive(Clone, Copy, Debug, PartialEq, Eq, Structural)]
pub enum WaitPhase {
    /// Spinning and yielding, trying to consume a notification.
    Spinning,
    /// The spin budget is spent; about to commit to sleeping.
    Committing,
    /// Committed to sleeping; parks until a notification can be consumed.
    Asleep,
    /// `wait` has returned.
    Returned,
}

/// One `wait` call together with the shared flag, as any number of
/// notifiers see it.
pub struct Rendezvous {
    pub flag: SignalState,
    pub phase: WaitPhase,
    /// The parker's wake token: an unpark that the next park consumes.
    pub token: bool,
    /// Some notification was recorded since the call began, or before it.
    pub signalled: bool,
}

/// A `wait` call begins with the flag as the previous call left it.
pub open spec fn wait_begins(flag: SignalState, token: bool) -> Rendezvous {
    Rendezvous { flag, phase: WaitPhase::Spinning, token, signalled: flag == SignalState::Notified }
}

/// `notify`: swap in `Notified`; resume the owner when it had parked.
pub open spec fn after_notify(r: Rendezvous) -> Rendezvous {
    Rendezvous {
        flag: SignalState::Notified,
        phase: r.phase,
        token: r.token || r.flag == SignalState::Parked,
        signalled: true,
    }
}

/// One step of the owner; `give_up` is the spin policy saying that
/// spinning is no longer worth it.
pub open spec fn after_wait_step(r: Rendezvous, give_up: bool) -> Rendezvous {
    match r.phase {
        WaitPhase::Spinning => if r.flag == SignalState::Notified {
            Rendezvous { flag: SignalState::Waiting, phase: WaitPhase::Returned, ..r }
        } else if give_up {
            Rendezvous { phase: WaitPhase::Committing, ..r }
        } else {
            r
        },
        WaitPhase::Committing => if r.flag == SignalState::Waiting {
            Rendezvous { flag: SignalState::Parked, phase: WaitPhase::Asleep, ..r }
        } else {
            Rendezvous { flag: SignalState::Waiting, phase: WaitPhase::Returned, ..r }
        },
        WaitPhase::Asleep => if r.flag == SignalState::Notified {
            Rendezvous { flag: SignalState::Waiting, phase: WaitPhase::Returned, ..r }
        } else if r.token {
            Rendezvous { token: false, ..r }
        } else {
            r
        },
        WaitPhase::Returned => r,
    }
}

/// Whether the compare-and-swap that the owner makes in phase `r.phase`
/// succeeds on the flag `r.flag`: `Notified` to `Waiting` while spinning
/// or asleep, `Waiting` to `Parked` when committing.
pub open spec fn cas_succeeds(r: Rendezvous) -> bool {
    match r.phase {
        WaitPhase::Spinning => r.flag == SignalState::Notified,
        WaitPhase::Committing => r.flag == SignalState::Waiting,
        WaitPhase::Asleep => r.flag == SignalState::Notified,
        WaitPhase::Returned => false,
    }
}

/// The step `wait` takes after each compare-and-swap on the flag: the
/// phase the model moves to from any consistent rendezvous in which that
/// compare-and-swap has this outcome.
pub fn next_wait_phase(phase: WaitPhase, cas_ok: bool, give_up: bool) -> (r: WaitPhase)
    ensures
        forall|m: Rendezvous|
            consistent(m) && m.phase == phase && cas_succeeds(m) == cas_ok ==> r
                == #[trigger] after_wait_step(m, give_up).phase,
        phase == WaitPhase::Returned ==> r == WaitPhase::Returned,
{
    match phase {
        WaitPhase::Spinning => if cas_ok {
            WaitPhase::Returned
        } else if give_up {
            WaitPhase::Committing
        } else {
            WaitPhase::Spinning
        },
        WaitPhase::Committing => if cas_ok {
            WaitPhase::Asleep
        } else {
            WaitPhase::Returned
        },
        WaitPhase::Asleep => if cas_ok {
            WaitPhase::Returned
        } else {
            WaitPhase::Asleep
        },
        WaitPhase::Returned => WaitPhase::Returned,
    }
}

/// The owner sleeps in the OS and nothing pending can wake it.
pub open spec fn sleeps_for_good(r: Rendezvous) -> bool {
    r.phase == WaitPhase::Asleep && r.flag != SignalState::Notified && !r.token
}

/// What holds of every reachable rendezvous.
pub open spec fn consistent(r: Rendezvous) -> bool {
    &&& r.phase == WaitPhase::Asleep ==> r.flag == SignalState::Parked || r.flag
        == SignalState::Notified
    &&& r.phase != WaitPhase::Asleep ==> r.flag != SignalState::Parked
    &&& r.flag == SignalState::Notified ==> r.signalled
    &&& r.phase == WaitPhase::Returned ==> r.signalled
}

/// A `wait` call may begin from any flag but `Parked`, which only a call
/// in progress sets.
pub proof fn lemma_begin_consistent(flag: SignalState, token: bool)
    requires
        flag != SignalState::Parked,
    ensures
        consistent(wait_begins(flag, token)),
{
}

/// Every step of the owner and every notify keeps the rendezvous consistent.
pub proof fn lemma_steps_keep_consistent(r: Rendezvous, give_up: bool)
    requires
        consistent(r),
    ensures
        consistent(after_wait_step(r, give_up)),
        consistent(after_notify(r)),
{
}

/// No lost wakeup: whenever the owner is still inside `wait`, a notify
/// lets its very next step return, wherever that notify lands: while
/// spinning, in the race to commit, or while parked.
pub proof fn lemma_notify_is_never_lost(r: Rendezvous, give_up: bool)
    requires
        consistent(r),
        r.phase != WaitPhase::Returned,
    ensures
        after_wait_step(after_notify(r), give_up).phase == WaitPhase::Returned,
{
}

/// The owner sleeps for good only while the flag says `Parked`, and then
/// any notify hands it a wake token.
pub proof fn lemma_sleep_ends_with_notify(r: Rendezvous)
    requires
        consistent(r),
        sleeps_for_good(r),
    ensures
        r.flag == SignalState::Parked,
        !sleeps_for_good(after_notify(r)),
        after_notify(r).token,
{
}

/// No spurious return: `wait` returns only once a notification was recorded.
pub proof fn lemma_returns_only_when_signalled(r: Rendezvous, give_up: bool)
    requires
        consistent(r),
    ensures
        after_wait_step(r, give_up).phase == WaitPhase::Returned ==> after_wait_step(
            r,
            give_up,
        ).signalled,
{
}

/// `wait` returns exactly once: a returned call takes no further step,
/// and a notify after it changes nothing of the owner's.
pub proof fn lemma_return_is_final(r: Rendezvous, give_up: bool)
    requires
        r.phase == WaitPhase::Returned,
    ensures
        after_wait_step(r, give_up) == r,
        after_notify(r).phase == WaitPhase::Returned,
{
}

/// The step that makes `wait` return leaves the flag `Waiting`, ready for
/// the next suspension or the next blocking call.
pub proof fn lemma_return_resets_flag(r: Rendezvous, give_up: bool)
    requires
        consistent(r),
        r.phase != WaitPhase::Returned,
        after_wait_step(r, give_up).phase == WaitPhase::Returned,
    ensures
        after_wait_step(r, give_up).flag == SignalState::Waiting,
{
}

/// A notify made on the owner's own thread before it waits (during the
/// poll that said "not yet") makes the next `wait` return from its first
/// check, without parking.
pub proof fn lemma_reentrant_notify(flag: SignalState, token: bool, give_up: bool)
    requires
        flag != SignalState::Parked,
    ensures
        after_wait_step(after_notify(wait_begins(flag, token)), give_up).phase
            == WaitPhase::Returned,
        after_wait_step(after_notify(wait_begins(flag, token)), give_up).flag
            == SignalState::Waiting,
{
}

} // verus!
