//! The fixed-frame wire protocol of the relay module.
//!
//! A command is a four-byte frame `[0xA0, 0x01, payload, checksum]`; the
//! three predefined frames must be sent with these exact byte values. A
//! response is read as a chunk of raw bytes; only its first three bytes are
//! interpreted, and only when at least four bytes arrived and the first two
//! equal the fixed response header `[0xA0, 0x01]`.

use vstd::prelude::*;
use crate::state::Intent;
use crate::state::RelayState;

verus! {

/// The exact four bytes sent for an intent.
pub open spec fn frame_spec(i: Intent) -> Seq<u8> {
    match i {
        Intent::TurnOn => seq![0xA0u8, 0x01u8, 0x03u8, 0xA4u8],
        Intent::TurnOff => seq![0xA0u8, 0x01u8, 0x00u8, 0xA1u8],
        Intent::QueryStatus => seq![0xA0u8, 0x01u8, 0x05u8, 0xA6u8],
    }
}

/// Encode an intent as its command frame.
pub fn frame_for(i: Intent) -> (f: [u8; 4])
    ensures
        f@ == frame_spec(i),
{
    let f: [u8; 4] = match i {
        Intent::TurnOn => [0xA0u8, 0x01u8, 0x03u8, 0xA4u8],
        Intent::TurnOff => [0xA0u8, 0x01u8, 0x00u8, 0xA1u8],
        Intent::QueryStatus => [0xA0u8, 0x01u8, 0x05u8, 0xA6u8],
    };
    proof {
        assert(f@ =~= frame_spec(i));
    }
    f
}

/// Every predefined frame starts with the command header `[0xA0, 0x01]`
/// and carries the checksum `0xA1 + payload`, reduced modulo `0x100`.
pub proof fn lemma_frame_checksum(i: Intent)
    ensures
        frame_spec(i).len() == 4,
        frame_spec(i)[0] == 0xA0u8,
        frame_spec(i)[1] == 0x01u8,
        frame_spec(i)[3] as int == (0xA1 + frame_spec(i)[2] as int) % 0x100,
{
}

/// What a raw response chunk means: a definitive state only when at least
/// four bytes arrived and the first two equal the response header; then the
/// third byte classifies the state, `0x01` as on and anything else as off.
pub open spec fn decode_spec(bytes: Seq<u8>) -> Option<RelayState> {
    if bytes.len() >= 4 && bytes[0] == 0xA0u8 && bytes[1] == 0x01u8 {
        if bytes[2] == 0x01u8 {
            Some(RelayState::On)
        } else {
            Some(RelayState::Off)
        }
    } else {
        None
    }
}

/// Interpret a raw response chunk; `None` is the "no definitive response"
/// outcome, which is not an error.
pub fn decode_response(bytes: &Vec<u8>) -> (r: Option<RelayState>)
    ensures
        r == decode_spec(bytes@),
{
    if bytes.len() >= 4 && bytes[0] == 0xA0u8 && bytes[1] == 0x01u8 {
        if bytes[2] == 0x01u8 {
            Some(RelayState::On)
        } else {
            Some(RelayState::Off)
        }
    } else {
        None
    }
}

/// A decoded response is never the error or unknown state: the wire protocol
/// only ever reports on or off.
pub proof fn lemma_decode_definitive(bytes: Seq<u8>)
    ensures
        decode_spec(bytes) matches Some(s) ==> (s == RelayState::On || s == RelayState::Off),
{
}

} // verus!
