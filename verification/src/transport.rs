//! The relay transport and controller over a real serial port.
//!
//! The transport owns the open, exclusive serial handle at the fixed baud
//! rate and read timeout, and performs the clear/write/flush/read framing
//! of one command at a time. The controller maps intents to frames and
//! interprets responses. All serial I/O stands behind small trusted
//! wrappers; everything around them is verified.
//!
//! Port enumeration is the caller's: the operating-system listing is
//! handed in as plain candidates, and selection over them is verified in
//! full. The protocol's fixed settle delay between writing a command and
//! reading its response is the caller's too: this library does not sleep,
//! so the worker loop sends an intent, waits, and then concludes it.

use vstd::prelude::*;
use crate::policy::conclude;
use crate::protocol::decode_response;
use crate::protocol::decode_spec;
use crate::protocol::frame_for;
use crate::select::select;
use crate::select::select_spec;
use crate::select::PortCandidate;
use crate::state::Intent;
use crate::state::IoStep;
use crate::state::RelayError;
use crate::state::RelayState;

verus! {

/// Serial communication baud rate.
pub const BAUD_RATE: u32 = 9600;

/// Per-operation read timeout, in milliseconds.
pub const TIMEOUT_MS: u64 = 500;

/// Settle delay between writing a command and reading its response, in
/// milliseconds. The device has no ready signal, so the worker waits this
/// long blindly before every read.
pub const RESPONSE_DELAY_MS: u64 = 100;

/// How many bytes one response read asks for at most.
pub const READ_CHUNK: usize = 32;

#[verifier::external_type_specification]
#[verifier::external_body]
pub struct ExTTYPort(serialport::TTYPort);

/// How one raw read of the serial port ended.
#[derive(Debug)]
pub enum ReadOutcome {
    /// The bytes that arrived, exactly as many as were read.
    Data(Vec<u8>),
    /// The read timed out with no data; not an error.
    TimedOut,
    /// A read failure other than a timeout.
    Failed(String),
}

/// Relies on serialport::new, serialport::SerialPortBuilder::timeout and
/// serialport::SerialPortBuilder::open_native: opens the named port for
/// exclusive use at the given baud rate with the given read timeout.
#[verifier::external_body]
fn open_port_raw(name: &str, baud: u32, timeout_ms: u64) -> (r: Result<
    serialport::TTYPort,
    String,
>) {
    let timeout = std::time::Duration::from_millis(timeout_ms);
    match serialport::new(name, baud).timeout(timeout).open_native() {
        Ok(p) => Ok(p),
        Err(e) => Err(format!("{}", e)),
    }
}

/// Relies on serialport::SerialPort::clear with ClearBuffer::All: discards
/// the bytes buffered in the host's receive and transmit queues for this
/// port.
#[verifier::external_body]
fn clear_all_raw(port: &mut serialport::TTYPort) -> (r: Result<(), String>) {
    match serialport::SerialPort::clear(port, serialport::ClearBuffer::All) {
        Ok(()) => Ok(()),
        Err(e) => Err(format!("{}", e)),
    }
}

/// Relies on std::io::Write::write_all: writes every byte of the frame,
/// retrying partial writes, and fails if the port accepts no more bytes or
/// an operating-system error occurs.
#[verifier::external_body]
fn write_all_raw(port: &mut serialport::TTYPort, frame: &[u8; 4]) -> (r: Result<(), String>) {
    match std::io::Write::write_all(port, frame) {
        Ok(()) => Ok(()),
        Err(e) => Err(format!("{}", e)),
    }
}

/// Relies on std::io::Write::flush: hands written bytes to the driver
/// before returning.
#[verifier::external_body]
fn flush_raw(port: &mut serialport::TTYPort) -> (r: Result<(), String>) {
    match std::io::Write::flush(port) {
        Ok(()) => Ok(()),
        Err(e) => Err(format!("{}", e)),
    }
}

/// Relies on std::io::Read::read: reads at most `cap` bytes within the
/// port's timeout and returns exactly the bytes read; a timeout is its own
/// outcome, one variant arm per error class.
#[verifier::external_body]
fn read_chunk_raw(port: &mut serialport::TTYPort, cap: usize) -> (r: ReadOutcome)
    ensures
        r matches ReadOutcome::Data(bytes) ==> bytes@.len() <= cap,
{
    let mut buf = vec![0u8; cap];
    match std::io::Read::read(port, &mut buf) {
        Ok(n) => {
            buf.truncate(n);
            ReadOutcome::Data(buf)
        },
        Err(e) if e.kind() == std::io::ErrorKind::TimedOut => ReadOutcome::TimedOut,
        Err(e) => ReadOutcome::Failed(format!("{}", e)),
    }
}

/// What a raw read outcome means for the exchange: arrived bytes are
/// decoded, a timeout is the non-error "no definitive response", and any
/// other read failure is an I/O error at the reading step.
pub open spec fn interpret_spec(o: ReadOutcome) -> Result<Option<RelayState>, RelayError> {
    match o {
        ReadOutcome::Data(bytes) => Ok(decode_spec(bytes@)),
        ReadOutcome::TimedOut => Ok(None),
        ReadOutcome::Failed(m) => Err(RelayError::Io(IoStep::Reading, m)),
    }
}

/// Interpret one raw read outcome.
pub fn interpret(o: ReadOutcome) -> (r: Result<Option<RelayState>, RelayError>)
    ensures
        r == interpret_spec(o),
{
    match o {
        ReadOutcome::Data(bytes) => Ok(decode_response(&bytes)),
        ReadOutcome::TimedOut => Ok(None),
        ReadOutcome::Failed(m) => Err(RelayError::Io(IoStep::Reading, m)),
    }
}

/// The open, exclusive serial handle.
pub struct Transport {
    port: serialport::TTYPort,
}

impl Transport {
    /// Open the named port at the fixed baud rate with the fixed read
    /// timeout.
    pub fn open(name: &str) -> (r: Result<Transport, RelayError>)
        ensures
            r matches Err(e) ==> e is PortOpen,
    {
        match open_port_raw(name, BAUD_RATE, TIMEOUT_MS) {
            Ok(p) => Ok(Transport { port: p }),
            Err(m) => Err(RelayError::PortOpen(m)),
        }
    }

    /// Send one command frame: discard whatever is buffered in both
    /// directions for this port, write all four bytes, and flush them to
    /// the driver. Any failure along the way is an I/O error tagged with
    /// the step that failed — which is never the reading step.
    pub fn send_frame(&mut self, frame: &[u8; 4]) -> (r: Result<(), RelayError>)
        ensures
            r matches Err(e) ==> (e matches RelayError::Io(step, _) && step
                != IoStep::Reading),
    {
        if let Err(m) = clear_all_raw(&mut self.port) {
            return Err(RelayError::Io(IoStep::Clearing, m));
        }
        if let Err(m) = write_all_raw(&mut self.port, frame) {
            return Err(RelayError::Io(IoStep::Writing, m));
        }
        if let Err(m) = flush_raw(&mut self.port) {
            return Err(RelayError::Io(IoStep::Flushing, m));
        }
        Ok(())
    }

    /// Read one response chunk and interpret it: the raw read plus one
    /// call of `interpret`, whose contract fixes the mapping. A timeout, a
    /// short chunk, or a mismatched header is the no-definitive-response
    /// outcome `Ok(None)`; a definitive response is only ever on or off;
    /// an error is an I/O failure at the reading step.
    pub fn receive(&mut self) -> (r: Result<Option<RelayState>, RelayError>)
        ensures
            r matches Ok(o) ==> (o matches Some(s) ==> (s == RelayState::On || s
                == RelayState::Off)),
            r matches Err(e) ==> (e matches RelayError::Io(step, _) && step == IoStep::Reading),
    {
        let o = read_chunk_raw(&mut self.port, READ_CHUNK);
        proof {
            if let ReadOutcome::Data(bytes) = &o {
                crate::protocol::lemma_decode_definitive(bytes@);
            }
        }
        interpret(o)
    }
}

/// The relay controller: the transport plus the per-intent policy, one
/// exchange per logical operation.
pub struct RelayController {
    transport: Transport,
}

impl RelayController {
    /// Pick the relay's port among the given candidates and return its
    /// name: the first keyword match, else the first USB-kind port, else
    /// the no-device-found error.
    pub fn detect_device(cands: &Vec<PortCandidate>) -> (r: Result<String, RelayError>)
        ensures
            match select_spec(cands@) {
                Ok(i) => r matches Ok(name) && name@ == cands@[i].name@,
                Err(e) => r matches Err(f) && f == e,
            },
            r matches Err(f) ==> f is NoDeviceFound,
    {
        match select(cands) {
            Ok(i) => Ok(cands[i].name.clone()),
            Err(e) => Err(e),
        }
    }

    /// Pick the relay's port among the given candidates and open it. Fails
    /// with no-device-found exactly when selection does, and with a
    /// port-open error when the selected port cannot be opened.
    pub fn new(cands: &Vec<PortCandidate>) -> (r: Result<RelayController, RelayError>)
        ensures
            r matches Err(e) ==> (e is NoDeviceFound || e is PortOpen),
            select_spec(cands@) matches Err(e) ==> (r matches Err(f) && f == e),
            r is Ok ==> select_spec(cands@) is Ok,
    {
        let name = match Self::detect_device(cands) {
            Ok(n) => n,
            Err(e) => {
                return Err(e);
            },
        };
        match Transport::open(name.as_str()) {
            Ok(t) => Ok(RelayController { transport: t }),
            Err(e) => Err(e),
        }
    }

    /// Send the command frame for an intent. The caller must let the
    /// device settle for the fixed delay before concluding the intent.
    pub fn send_intent(&mut self, i: Intent) -> (r: Result<(), RelayError>)
        ensures
            r matches Err(e) ==> (e matches RelayError::Io(step, _) && step
                != IoStep::Reading),
    {
        let f = frame_for(i);
        self.transport.send_frame(&f)
    }

    /// Read the response to a sent intent and resolve the intent against
    /// it. On success the result is never the error state, and a mutating
    /// intent resolves to a definitive on or off — on no definitive
    /// response it optimistically assumes it succeeded, while a status
    /// query resolves to unknown. An error is an I/O failure at the
    /// reading step.
    pub fn conclude_intent(&mut self, i: Intent) -> (r: Result<RelayState, RelayError>)
        ensures
            r matches Ok(s) ==> s != RelayState::Error,
            r matches Ok(s) ==> (i != Intent::QueryStatus ==> (s == RelayState::On || s
                == RelayState::Off)),
            r matches Err(e) ==> (e matches RelayError::Io(step, _) && step == IoStep::Reading),
    {
        match self.transport.receive() {
            Ok(o) => Ok(conclude(i, o)),
            Err(e) => Err(e),
        }
    }
}

} // verus!
