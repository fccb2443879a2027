//! Blocks the calling thread on a single future, with a lock-free
//! spin-then-park wait in place of a task scheduler.
pub mod driver;
mod signal;
pub mod spin;
pub mod state;

pub use driver::{swait, Blocker, FutureExt};
