//! The driver loop: poll the future, wait on the signal while it is not
//! ready, and hand back its output.
use vstd::prelude::*;
use std::future::Future;
use std::pin::Pin;
use std::sync::Arc;
use std::task::Waker;
use parking::Parker;
use crate::signal::{new_parker, unparker_of, Signal};
use crate::spin::is_multithreaded;

verus! {

#[verifier::external_type_specification]
#[verifier::external_body]
pub struct ExWaker(Waker);

#[verifier::external_type_specification]
#[verifier::external_body]
#[verifier::reject_recursive_types(P)]
pub struct ExPin<P>(Pin<P>);

/// Relies on num_cpus::get: the number of execution contexts available to
/// this process, as the machine reports it; always at least one.
#[verifier::external_body]
fn available_parallelism() -> (r: usize)
    ensures
        r >= 1,
{
    num_cpus::get()
}

/// Relies on std's `From<Arc<W>> for Waker`: a waker whose wakes call
/// `Signal::wake` on the shared signal.
#[verifier::external_body]
fn waker_for(signal: Arc<Signal>) -> Waker {
    Waker::from(signal)
}

/// Relies on Box::pin: the future, pinned on the heap.
#[verifier::external_body]
fn pin_boxed<F: Future>(fut: F) -> Pin<Box<F>> {
    Box::pin(fut)
}

/// Relies on Future::poll, with a context built from `waker`: `Some` with
/// the output when the future is ready, `None` when it is not yet.
#[verifier::external_body]
fn poll_once<F: Future>(fut: &mut Pin<Box<F>>, waker: &Waker) -> Option<F::Output> {
    let mut cx = std::task::Context::from_waker(waker);
    match fut.as_mut().poll(&mut cx) {
        std::task::Poll::Ready(v) => Some(v),
        std::task::Poll::Pending => None,
    }
}

/// Relies on parking::Parker::park: blocks the thread for good, since the
/// loop parks again after every wake.
#[verifier::external_body]
fn sleep_forever<T>(p: &Parker) -> T {
    loop {
        p.park();
    }
}

/// What the driver does with the outcome of one poll.
pub enum PollStep<T> {
    /// The future is ready: hand back its output.
    Done(T),
    /// Not yet: wait on the signal, then poll again.
    Wait,
}

/// The driver's decision on a poll: the output of a ready future is handed
/// back as it is, and only a future that is not ready leads to a wait.
pub fn after_poll<T>(polled: Option<T>) -> (s: PollStep<T>)
    ensures
        s == (match polled {
            Some(v) => PollStep::Done(v),
            None => PollStep::Wait,
        }),
{
    match polled {
        Some(v) => PollStep::Done(v),
        None => PollStep::Wait,
    }
}

/// One thread's blocking context: its signal, the parker that the signal
/// wakes, and the waker handed to each future. Blocking on many futures
/// through one context reuses the same signal.
pub struct Blocker {
    signal: Arc<Signal>,
    parker: Parker,
    waker: Waker,
    multithreaded: bool,
}

impl Blocker {
    /// A fresh context for the calling thread, with the parallelism probed once.
    pub fn new() -> Self {
        let parker = new_parker();
        let signal = Arc::new(Signal::new(unparker_of(&parker)));
        let waker = waker_for(signal.clone());
        let multithreaded = is_multithreaded(available_parallelism());
        Blocker { signal, parker, waker, multithreaded }
    }

    /// Blocks the calling thread until `fut` is ready and returns its
    /// output. It first drops any notification left over from earlier
    /// futures. A future that is ready at its first poll never waits; a fault
    /// raised by polling reaches the caller unchanged. Only beyond
    /// `u64::MAX` suspensions, which no run reaches, does the thread sleep
    /// for good instead.
    pub fn block_on<F: Future>(&self, fut: F) -> F::Output {
        self.signal.reset();
        let mut fut = pin_boxed(fut);
        let mut suspensions: u64 = 0;
        loop
            decreases u64::MAX - suspensions,
        {
            match after_poll(poll_once(&mut fut, &self.waker)) {
                PollStep::Done(v) => return v,
                PollStep::Wait => {},
            }
            if suspensions == u64::MAX {
                return sleep_forever(&self.parker);
            }
            self.signal.wait(&self.parker, self.multithreaded);
            suspensions = suspensions + 1;
        }
    }
}

/// Blocks the current thread until the given future is ready, and returns
/// its output. Each call builds a fresh `Blocker`, probing the parallelism
/// and allocating a signal; to reuse one signal across calls, keep a
/// `Blocker` and call `Blocker::block_on`.
pub fn swait<F: Future>(fut: F) -> F::Output {
    let blocker = Blocker::new();
    blocker.block_on(fut)
}

/// Gives every future a method that blocks on it.
pub trait FutureExt: Future {
    /// Blocks the current thread until the future is ready.
    fn swait(self) -> Self::Output where Self: Sized;
}

impl<F: Future> FutureExt for F {
    fn swait(self) -> F::Output {
        swait(self)
    }
}

} // verus!
