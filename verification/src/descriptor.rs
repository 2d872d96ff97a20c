//! The 12-byte descriptor a target image publishes to declare its transfer
//! parameters.
//!
//! The descriptor section holds exactly three little-endian 32-bit words, in
//! order: flash size, staging buffer size, direction. The section's bytes are
//! the sole source of these values; the two symbol addresses are resolved
//! separately and carried alongside them.

use vstd::bytes::*;
use vstd::prelude::*;

use crate::direction::{spec_direction_code, spec_direction_decode, Direction};
use crate::errors::ImageError;

verus! {

/// The transfer parameters read from a target image: the descriptor's three
/// words plus the two resolved RAM addresses.
#[derive(Debug, Clone, Copy, PartialEq, Eq, Structural)]
pub struct FlashTable {
    /// Which way bytes flow.
    pub direction: Direction,
    /// Size of the flash region, in bytes.
    pub flash_size: u32,
    /// Size of the RAM staging buffer, in bytes.
    pub buffer_size: u32,
    /// Address of the staging buffer in target RAM.
    pub buffer_addr: u64,
    /// Address of the control word in target RAM.
    pub control_addr: u64,
}

/// What parsing a descriptor section yields: the table, or the error the
/// host rejects the image with.
pub open spec fn spec_parse_flash_table(data: Seq<u8>, buffer_addr: u64, control_addr: u64) -> Result<
    FlashTable,
    ImageError,
> {
    if data.len() != 12 {
        Err(ImageError::FlashTableWrongSize)
    } else {
        let direction_word = spec_u32_from_le_bytes(data.subrange(8, 12));
        match spec_direction_decode(direction_word) {
            Option::None => Err(ImageError::InvalidDirection(direction_word)),
            Option::Some(direction) => Ok(
                FlashTable {
                    direction,
                    flash_size: spec_u32_from_le_bytes(data.subrange(0, 4)),
                    buffer_size: spec_u32_from_le_bytes(data.subrange(4, 8)),
                    buffer_addr,
                    control_addr,
                },
            ),
        }
    }
}

/// Parse the descriptor section's bytes. Rejects a section that is not
/// exactly twelve bytes, and a direction word that is neither 1 nor 2,
/// reporting the offending word.
pub fn parse_flash_table(data: &[u8], buffer_addr: u64, control_addr: u64) -> (r: Result<
    FlashTable,
    ImageError,
>)
    ensures
        r == spec_parse_flash_table(data@, buffer_addr, control_addr),
{
    if data.len() != 12 {
        return Err(ImageError::FlashTableWrongSize);
    }
    let flash_size = u32_from_le_bytes(vstd::slice::slice_subrange(data, 0, 4));
    let buffer_size = u32_from_le_bytes(vstd::slice::slice_subrange(data, 4, 8));
    let direction_word = u32_from_le_bytes(vstd::slice::slice_subrange(data, 8, 12));
    match Direction::from_u32(direction_word) {
        Option::None => Err(ImageError::InvalidDirection(direction_word)),
        Option::Some(direction) => Ok(
            FlashTable { direction, flash_size, buffer_size, buffer_addr, control_addr },
        ),
    }
}

/// The descriptor section a table is published as: three little-endian words.
pub open spec fn spec_flash_table_bytes(t: FlashTable) -> Seq<u8> {
    spec_u32_to_le_bytes(t.flash_size) + spec_u32_to_le_bytes(t.buffer_size) + spec_u32_to_le_bytes(
        spec_direction_code(t.direction),
    )
}

/// Encode a table as the 12 descriptor bytes a target image embeds.
pub fn flash_table_bytes(t: &FlashTable) -> (r: Vec<u8>)
    ensures
        r@ == spec_flash_table_bytes(*t),
{
    let mut out = u32_to_le_bytes(t.flash_size);
    let mut tail = u32_to_le_bytes(t.buffer_size);
    out.append(&mut tail);
    let mut tail = u32_to_le_bytes(t.direction.as_u32());
    out.append(&mut tail);
    out
}

/// Law: parsing an encoded descriptor gives the table back, so host and
/// target agree on the meaning of the section's bytes.
pub proof fn lemma_flash_table_round_trip(t: FlashTable)
    ensures
        spec_parse_flash_table(spec_flash_table_bytes(t), t.buffer_addr, t.control_addr) == Ok::<
            FlashTable,
            ImageError,
        >(t),
{
    lemma_auto_spec_u32_to_from_le_bytes();
    let bytes = spec_flash_table_bytes(t);
    assert(bytes.subrange(0, 4) =~= spec_u32_to_le_bytes(t.flash_size));
    assert(bytes.subrange(4, 8) =~= spec_u32_to_le_bytes(t.buffer_size));
    assert(bytes.subrange(8, 12) =~= spec_u32_to_le_bytes(spec_direction_code(t.direction)));
}

} // verus!
