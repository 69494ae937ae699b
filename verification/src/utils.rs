//! What every part of the bridge uses: the errors and the clock.

pub mod clock;
pub mod error;

pub use self::error::BridgeError;
