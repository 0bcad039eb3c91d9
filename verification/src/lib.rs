//! A raffle engine: participants deposit a bounded stake, a one-shot
//! countdown is armed the moment a quorum of participants is reached, and
//! once the countdown has elapsed a fixed number of winners are drawn
//! pseudo-randomly without replacement.
//!
//! The engine itself is pure state-machine logic over plain values. The
//! host that embeds it supplies, once per call, the caller's identity, the
//! transferred stake, the current time and the random value, and delivers
//! the returned notifications to its observers.

pub mod account;
pub mod engine;
pub mod errors;
pub mod events;
pub mod laws;

pub use account::User;
pub use engine::Charity;
pub use engine::COUNTDOWN_MINIMUM;
pub use engine::MAXIMUM_TOKEN;
pub use engine::MINIMUM_TOKEN;
pub use engine::PLAYER_REQUIRED_TO_START;
pub use engine::WINNERS_COUNT;
pub use errors::Error;
pub use events::CountDownStarted;
pub use events::Entry;
pub use events::WinnerChoosen;
