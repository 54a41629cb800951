//! A token-bucket rate limiter.
//!
//! A [`RateLimiter`] grants or denies discrete access requests so that the
//! long-run admitted rate never exceeds a configured ceiling, while tolerating
//! bursts up to that same ceiling. The rate is measured in nanotokens per
//! second (billionths of a token per second), so fractional rates such as
//! two-and-a-half tokens per second are expressed exactly as integers.

mod clock;
pub mod limiter;

pub use crate::limiter::RateLimiter;
pub use crate::limiter::NANOS_PER_SECOND;
