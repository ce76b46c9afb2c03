//! The core of a terminal session: the bytes a shell writes to its
//! pseudo-terminal are accumulated tick by tick, and the cadence of those
//! ticks and the footprint of the process are measured alongside.

pub mod clock;
pub mod drain;
pub mod errno;
pub mod flags;
pub mod fraction;
pub mod history;
pub mod metrics;
pub mod replay;
pub mod session;
pub mod sink;
pub mod text;
