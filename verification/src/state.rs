//! Relay state, intents, errors, and the shared status store.

use vstd::prelude::*;

verus! {

/// The four-valued relay status shown by the presentation layer.
///
/// `Unknown` is the initial value before any successful query; `Error`
/// means the most recent operation failed; `On` and `Off` are hardware
/// states once confirmed or assumed. Every completed operation overwrites
/// the current state, so any state may follow any other.
#[derive(Debug, Clone, Copy, PartialEq, Eq, Structural)]
pub enum RelayState {
    Unknown,
    On,
    Off,
    Error,
}

/// The red/green/blue triple that stands for a relay state.
pub open spec fn color_spec(s: RelayState) -> (u8, u8, u8) {
    match s {
        RelayState::On => (0u8, 200u8, 0u8),
        RelayState::Off => (200u8, 0u8, 0u8),
        RelayState::Unknown => (150u8, 150u8, 150u8),
        RelayState::Error => (255u8, 100u8, 0u8),
    }
}

/// The label that stands for a relay state.
pub open spec fn text_spec(s: RelayState) -> Seq<char> {
    match s {
        RelayState::On => "ON"@,
        RelayState::Off => "OFF"@,
        RelayState::Unknown => "UNKNOWN"@,
        RelayState::Error => "ERROR"@,
    }
}

impl RelayState {
    /// Status indicator color as a plain red/green/blue triple.
    /// Total over all four states and a pure function of the state.
    pub fn color(&self) -> (c: (u8, u8, u8))
        ensures
            c == color_spec(*self),
    {
        match self {
            RelayState::On => (0u8, 200u8, 0u8),
            RelayState::Off => (200u8, 0u8, 0u8),
            RelayState::Unknown => (150u8, 150u8, 150u8),
            RelayState::Error => (255u8, 100u8, 0u8),
        }
    }

    /// Status indicator label.
    /// Total over all four states and a pure function of the state.
    pub fn text(&self) -> (t: &'static str)
        ensures
            t@ == text_spec(*self),
    {
        match self {
            RelayState::On => "ON",
            RelayState::Off => "OFF",
            RelayState::Unknown => "UNKNOWN",
            RelayState::Error => "ERROR",
        }
    }
}

/// A command intent posted by the presentation layer, consumed exactly
/// once by the worker, in submission order.
#[derive(Debug, Clone, Copy, PartialEq, Eq, Structural)]
pub enum Intent {
    TurnOn,
    TurnOff,
    QueryStatus,
}

/// The step of an exchange at which an I/O failure occurred.
#[derive(Debug, Clone, Copy, PartialEq, Eq, Structural)]
pub enum IoStep {
    /// Discarding the bytes buffered for the port.
    Clearing,
    /// Writing the command frame.
    Writing,
    /// Flushing the written bytes to the driver.
    Flushing,
    /// Reading the response.
    Reading,
}

/// The error taxonomy of the relay library.
///
/// A read timeout is not an error: it surfaces as a "no definitive
/// response" outcome instead. The `String` payloads carry the underlying
/// operating-system detail for display.
#[derive(Debug)]
pub enum RelayError {
    /// The operating-system port listing failed.
    Enumeration(String),
    /// No matching or fallback USB port was found.
    NoDeviceFound,
    /// A device was found but its port could not be opened.
    PortOpen(String),
    /// A clear, write, flush, or non-timeout read failure, tagged with the
    /// step that failed.
    Io(IoStep, String),
}

/// The diagnostic note published beside a relay state.
#[derive(Debug)]
pub enum Note {
    /// Nothing has been attempted yet.
    Initializing,
    /// The device was detected and its port opened.
    Connected,
    /// The most recent operation completed.
    Ready,
    /// The most recent operation failed.
    Failure(RelayError),
}

/// One publication into the shared status store: a relay state together
/// with a diagnostic note.
#[derive(Debug)]
pub struct StatusUpdate {
    pub state: RelayState,
    pub note: Note,
}

/// The store shared between the worker (its single writer) and the
/// presentation layer (its reader). The mutual-exclusion wrapper lives
/// outside this crate; here the store is plain data with verified updates.
#[derive(Debug)]
pub struct SharedStatus {
    pub state: RelayState,
    pub note: Note,
}

impl SharedStatus {
    /// The store before any operation: state unknown, note initializing.
    pub fn new() -> (s: SharedStatus)
        ensures
            s.state == RelayState::Unknown,
            s.note is Initializing,
    {
        SharedStatus { state: RelayState::Unknown, note: Note::Initializing }
    }

    /// Overwrite the store with one completed operation's outcome.
    pub fn publish(&mut self, u: StatusUpdate)
        ensures
            final (self).state == u.state,
            final (self).note == u.note,
    {
        self.state = u.state;
        self.note = u.note;
    }

    /// Record that the device connected, leaving the state untouched.
    pub fn note_connected(&mut self)
        ensures
            final (self).state == old(self).state,
            final (self).note is Connected,
    {
        self.note = Note::Connected;
    }
}

} // verus!
