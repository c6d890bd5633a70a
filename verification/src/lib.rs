//! Verified core of a single-channel USB relay controller.
//!
//! The relay is driven over a serial link with fixed four-byte command
//! frames. This crate holds the logic worth specifying: the frame codec,
//! device selection over enumerated serial ports, the controller policy
//! that interprets exchange outcomes, and the worker-step logic that
//! publishes status updates in intent order.

pub mod policy;
pub mod protocol;
pub mod select;
pub mod state;
pub mod transport;

pub use state::Intent;
pub use state::IoStep;
pub use state::Note;
pub use state::RelayError;
pub use state::RelayState;
pub use state::SharedStatus;
pub use state::StatusUpdate;
