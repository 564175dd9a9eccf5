//! An adaptive concurrency limiter: a semaphore whose permit limit follows an
//! additive-increase / multiplicative-decrease control law.

pub mod actor;
pub mod aimd;
pub mod gate;
pub mod semaphore;

pub use crate::semaphore::{AimdSemaphore, Permit};
