//! The spin policy: escalating busy-spin bursts, then cooperative yields,
//! then advice to park.
use vstd::prelude::*;

verus! {

/// Relies on nix::sched::sched_yield: gives the processor to another
/// thread; a failure only means that no yield took place.
#[verifier::external_body]
fn yield_processor() {
    let _ = nix::sched::sched_yield();
}

/// Relies on core::hint::spin_loop: a processor hint inside a busy-wait.
#[verifier::external_body]
fn relax() {
    core::hint::spin_loop()
}

/// Relies on branches::likely: a layout hint that returns its argument.
#[verifier::external_body]
pub(crate) fn likely(b: bool) -> (r: bool)
    ensures
        r == b,
{
    branches::likely(b)
}

/// Busy-spin bursts on a machine with more than one execution context.
pub const SPIN_ROUNDS: usize = 5;

/// Cooperative yields that follow the bursts.
pub const YIELD_ROUNDS: usize = 5;

/// What the waiter does before it checks its predicate again.
#[derive(Clone, Copy, Debug, PartialEq, Eq, Structural)]
pub enum SpinAction {
    /// Busy-spin this many times with the processor's spin-wait hint.
    Spin(usize),
    /// Give the processor to another thread once.
    Yield,
    /// The budget is spent: parking is the better choice.
    GiveUp,
}

pub open spec fn pow2(n: nat) -> nat
    decreases n,
{
    if n == 0 {
        1
    } else {
        2 * pow2((n - 1) as nat)
    }
}

/// The `i`-th action of the policy. With other execution contexts about,
/// spin bursts double from 2 to 32 iterations, then yields follow; alone,
/// spinning cannot help, so all ten rounds yield.
pub open spec fn planned_action(multithreaded: bool, i: nat) -> SpinAction {
    if i >= SPIN_ROUNDS + YIELD_ROUNDS {
        SpinAction::GiveUp
    } else if multithreaded && i < SPIN_ROUNDS {
        SpinAction::Spin(pow2(i + 1) as usize)
    } else {
        SpinAction::Yield
    }
}

/// Whether spinning can pay off, given the number of hardware execution
/// contexts.
pub fn is_multithreaded(parallelism: usize) -> (r: bool)
    ensures
        r == (parallelism > 1),
{
    parallelism > 1
}

/// The position of one waiter in the policy.
pub struct SpinPolicy {
    multithreaded: bool,
    round: usize,
}

impl SpinPolicy {
    pub closed spec fn is_multithreaded(&self) -> bool {
        self.multithreaded
    }

    /// How many actions the policy has handed out.
    pub closed spec fn round(&self) -> nat {
        self.round as nat
    }

    pub closed spec fn wf(&self) -> bool {
        self.round <= SPIN_ROUNDS + YIELD_ROUNDS
    }

    pub fn new(multithreaded: bool) -> (r: Self)
        ensures
            r.wf(),
            r.is_multithreaded() == multithreaded,
            r.round() == 0,
    {
        SpinPolicy { multithreaded, round: 0 }
    }

    /// Hands out the next action; once the budget is spent, `GiveUp` for good.
    pub fn next_action(&mut self) -> (r: SpinAction)
        requires
            old(self).wf(),
        ensures
            final(self).wf(),
            final(self).is_multithreaded() == old(self).is_multithreaded(),
            r == planned_action(old(self).is_multithreaded(), old(self).round()),
            final(self).round() == if r == SpinAction::GiveUp {
                old(self).round()
            } else {
                old(self).round() + 1
            },
    {
        if self.round >= SPIN_ROUNDS + YIELD_ROUNDS {
            return SpinAction::GiveUp;
        }
        let i = self.round;
        self.round = self.round + 1;
        if self.multithreaded && i < SPIN_ROUNDS {
            let mut count: usize = 2;
            let mut k: usize = 0;
            proof {
                reveal_with_fuel(pow2, 2);
            }
            while k < i
                invariant
                    k <= i,
                    i < SPIN_ROUNDS,
                    count as nat == pow2((k + 1) as nat),
                decreases i - k,
            {
                proof {
                    lemma_pow2_bound((k + 1) as nat);
                }
                count = count * 2;
                k = k + 1;
            }
            SpinAction::Spin(count)
        } else {
            SpinAction::Yield
        }
    }
}

/// What the spin loop does once it has checked its predicate (`holds`)
/// and drawn the policy's next action: `Some(true)` as soon as the
/// predicate held, `Some(false)` once the policy gives up, `None` to act
/// and check again.
pub fn spin_step(holds: bool, next: SpinAction) -> (r: Option<bool>)
    ensures
        holds ==> r == Some(true),
        !holds && next == SpinAction::GiveUp ==> r == Some(false),
        !holds && next != SpinAction::GiveUp ==> r is None,
{
    if holds {
        Some(true)
    } else if next == SpinAction::GiveUp {
        Some(false)
    } else {
        None
    }
}

/// Busy-waits for `predicate` as the policy says: one check at once, then
/// one after each action that `SpinPolicy::next_action` hands out, so a
/// lone execution context only ever yields. The result is what the last
/// call of the predicate returned: it stops at the first true, and
/// otherwise once the policy gives up, after at most eleven checks.
pub fn cond_spin<P: Fn() -> bool>(predicate: &P, multithreaded: bool) -> (r: bool)
    requires
        predicate.requires(()),
    ensures
        r ==> predicate.ensures((), true),
        !r ==> predicate.ensures((), false),
{
    let mut holds = predicate();
    let mut policy = SpinPolicy::new(multithreaded);
    loop
        invariant
            policy.wf(),
            predicate.requires(()),
            predicate.ensures((), holds),
        decreases SPIN_ROUNDS + YIELD_ROUNDS - policy.round(),
    {
        let next = policy.next_action();
        match spin_step(likely(holds), next) {
            Some(r) => return r,
            None => {},
        }
        match next {
            SpinAction::Spin(n) => {
                let mut k: usize = 0;
                while k < n
                    decreases n - k,
                {
                    relax();
                    k = k + 1;
                }
            },
            _ => yield_processor(),
        }
        holds = predicate();
    }
}

proof fn lemma_pow2_bound(n: nat)
    requires
        n <= SPIN_ROUNDS,
    ensures
        pow2(n) <= 32,
{
    reveal_with_fuel(pow2, 6);
    assert(n == 0 || n == 1 || n == 2 || n == 3 || n == 4 || n == 5);
}

/// The policy gives up after at most ten actions, whatever the hint.
pub proof fn lemma_policy_is_bounded(multithreaded: bool, i: nat)
    requires
        i >= SPIN_ROUNDS + YIELD_ROUNDS,
    ensures
        planned_action(multithreaded, i) == SpinAction::GiveUp,
{
}

/// On a machine with one execution context the policy never busy-spins.
pub proof fn lemma_alone_never_spins(i: nat)
    ensures
        planned_action(false, i) == SpinAction::Yield || planned_action(false, i)
            == SpinAction::GiveUp,
{
}

} // verus!
