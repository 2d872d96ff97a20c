//! The two-valued transfer direction and its stable 32-bit wire encoding.
//!
//! The mapping `Dump <-> 1`, `Load <-> 2` is part of the host/target ABI and
//! must not change between versions. Encoding is total; decoding fails on
//! every other value.

use vstd::prelude::*;

verus! {

/// Which way bytes flow: `Dump` moves target flash to a host file,
/// `Load` moves a host file into target flash.
#[derive(Debug, Clone, Copy, PartialEq, Eq, Structural)]
pub enum Direction {
    Dump,
    Load,
}

/// The wire value a direction encodes to.
pub open spec fn spec_direction_code(d: Direction) -> u32 {
    match d {
        Direction::Dump => 1,
        Direction::Load => 2,
    }
}

/// The direction a wire value decodes to, if any.
pub open spec fn spec_direction_decode(value: u32) -> Option<Direction> {
    if value == 1 {
        Some(Direction::Dump)
    } else if value == 2 {
        Some(Direction::Load)
    } else {
        None
    }
}

impl Direction {
    /// Encode this direction as its wire value.
    pub fn as_u32(&self) -> (v: u32)
        ensures
            v == spec_direction_code(*self),
    {
        match self {
            Self::Dump => 1,
            Self::Load => 2,
        }
    }

    /// Decode a wire value; `None` on anything but 1 or 2.
    pub fn from_u32(value: u32) -> (r: Option<Self>)
        ensures
            r == spec_direction_decode(value),
    {
        match value {
            1 => Some(Self::Dump),
            2 => Some(Self::Load),
            _ => None,
        }
    }
}

/// Law: decoding an encoded direction gives that direction back.
pub proof fn lemma_direction_round_trip(d: Direction)
    ensures
        spec_direction_decode(spec_direction_code(d)) == Some(d),
{
}

/// Law: a wire value that decodes successfully re-encodes to itself.
pub proof fn lemma_direction_decode_encode(value: u32)
    requires
        spec_direction_decode(value) is Some,
    ensures
        spec_direction_code(spec_direction_decode(value)->Some_0) == value,
{
}

} // verus!
