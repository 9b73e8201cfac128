//! The two-valued state of switches and binary sensors.

use vstd::prelude::*;
use vstd::string::StringSliceAdditionalSpecFns;

use crate::bytes::bytes_eq;
use crate::constants;

verus! {

#[derive(Debug, Clone, Copy, PartialEq, Eq, Structural)]
pub enum BinaryState {
    On,
    Off,
}

/// A payload that is neither of the two states' names.
#[derive(Debug, Clone, Copy, PartialEq, Eq, Structural)]
pub struct InvalidBinaryState;

/// The state that a payload names: its bytes are those of "ON" or of "OFF".
pub open spec fn spec_parse_binary_state(payload: Seq<u8>) -> Option<BinaryState> {
    if payload == constants::HA_SWITCH_STATE_ON.spec_bytes() {
        Some(BinaryState::On)
    } else if payload == constants::HA_SWITCH_STATE_OFF.spec_bytes() {
        Some(BinaryState::Off)
    } else {
        None
    }
}

impl BinaryState {
    pub open spec fn spec_as_str(self) -> &'static str {
        match self {
            BinaryState::On => constants::HA_SWITCH_STATE_ON,
            BinaryState::Off => constants::HA_SWITCH_STATE_OFF,
        }
    }

    pub open spec fn spec_flip(self) -> BinaryState {
        match self {
            BinaryState::On => BinaryState::Off,
            BinaryState::Off => BinaryState::On,
        }
    }

    /// The payload that carries this state: "ON" or "OFF".
    pub fn as_str(&self) -> (s: &'static str)
        ensures
            s == self.spec_as_str(),
    {
        match self {
            BinaryState::On => constants::HA_SWITCH_STATE_ON,
            BinaryState::Off => constants::HA_SWITCH_STATE_OFF,
        }
    }

    /// The other state.
    pub fn flip(self) -> (r: BinaryState)
        ensures
            r == self.spec_flip(),
    {
        match self {
            BinaryState::On => BinaryState::Off,
            BinaryState::Off => BinaryState::On,
        }
    }

    /// Reads a state from a payload; only the exact bytes of "ON" and "OFF" are states.
    pub fn parse_bytes(payload: &[u8]) -> (r: Result<BinaryState, InvalidBinaryState>)
        ensures
            r matches Ok(s) ==> spec_parse_binary_state(payload@) == Some(s),
            r is Err <==> spec_parse_binary_state(payload@) is None,
    {
        if bytes_eq(payload, constants::HA_SWITCH_STATE_ON.as_bytes()) {
            Ok(BinaryState::On)
        } else if bytes_eq(payload, constants::HA_SWITCH_STATE_OFF.as_bytes()) {
            Ok(BinaryState::Off)
        } else {
            Err(InvalidBinaryState)
        }
    }

    /// Reads a state from text; only "ON" and "OFF" are states.
    pub fn parse(s: &str) -> (r: Result<BinaryState, InvalidBinaryState>)
        ensures
            r matches Ok(st) ==> spec_parse_binary_state(s.spec_bytes()) == Some(st),
            r is Err <==> spec_parse_binary_state(s.spec_bytes()) is None,
    {
        Self::parse_bytes(s.as_bytes())
    }
}

/// Reading back the payload of a state gives that state.
pub proof fn lemma_parse_as_str(s: BinaryState)
    ensures
        spec_parse_binary_state(s.spec_as_str().spec_bytes()) == Some(s),
{
    lemma_state_payloads_differ();
}

/// The payloads of the two states are different byte strings.
pub proof fn lemma_state_payloads_differ()
    ensures
        constants::HA_SWITCH_STATE_ON.spec_bytes() != constants::HA_SWITCH_STATE_OFF.spec_bytes(),
{
    reveal_strlit("ON");
    reveal_strlit("OFF");
    vstd::utf8::is_ascii_chars_encode_utf8(constants::HA_SWITCH_STATE_ON@);
    vstd::utf8::is_ascii_chars_encode_utf8(constants::HA_SWITCH_STATE_OFF@);
    assert(vstd::utf8::is_ascii_chars(constants::HA_SWITCH_STATE_ON@));
    assert(vstd::utf8::is_ascii_chars(constants::HA_SWITCH_STATE_OFF@));
}

/// The payload of a state is at most three bytes long.
pub proof fn lemma_state_payload_short(s: BinaryState)
    ensures
        s.spec_as_str().spec_bytes().len() <= 3,
{
    reveal_strlit("ON");
    reveal_strlit("OFF");
    vstd::utf8::is_ascii_chars_encode_utf8(constants::HA_SWITCH_STATE_ON@);
    vstd::utf8::is_ascii_chars_encode_utf8(constants::HA_SWITCH_STATE_OFF@);
    assert(vstd::utf8::is_ascii_chars(constants::HA_SWITCH_STATE_ON@));
    assert(vstd::utf8::is_ascii_chars(constants::HA_SWITCH_STATE_OFF@));
}

/// Flipping twice gives the state back, and flipping always changes the state.
pub proof fn lemma_flip_involution(s: BinaryState)
    ensures
        s.spec_flip().spec_flip() == s,
        s.spec_flip() != s,
{
}

} // verus!
