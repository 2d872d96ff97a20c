//! The host-side view of a transfer: the descriptor's parameters together
//! with the derived chunk count, validated once before any chunk moves.
//!
//! A plan exists only for well-formed images: the staging buffer is at least
//! one byte, the flash region is an exact positive multiple of it, and the
//! control word does not alias the staging buffer.

use vstd::arithmetic::div_mod::lemma_fundamental_div_mod;
use vstd::prelude::*;

use crate::descriptor::FlashTable;
use crate::direction::Direction;
use crate::errors::ImageError;

verus! {

/// A validated transfer plan.
#[derive(Debug, Clone, Copy, PartialEq, Eq, Structural)]
pub struct TransferPlan {
    /// Which way bytes flow.
    pub direction: Direction,
    /// Size of the flash region, in bytes.
    pub flash_size: u32,
    /// Size of the RAM staging buffer, in bytes.
    pub buffer_size: u32,
    /// How many chunks a full transfer takes: flash size over buffer size.
    pub chunk_count: u32,
    /// Address of the staging buffer in target RAM.
    pub buffer_addr: u64,
    /// Address of the control word in target RAM.
    pub control_addr: u64,
}

/// Whether a parsed table describes a transfer the host accepts.
pub open spec fn spec_table_well_formed(t: FlashTable) -> bool {
    &&& t.buffer_size >= 1
    &&& t.flash_size >= 1
    &&& t.flash_size % t.buffer_size == 0
    &&& t.control_addr != t.buffer_addr
}

/// The plan a table validates to, or the error it is rejected with.
pub open spec fn spec_plan_of(t: FlashTable) -> Result<TransferPlan, ImageError> {
    if t.buffer_size == 0 || t.flash_size == 0 || t.flash_size % t.buffer_size != 0 {
        Err(ImageError::BadGeometry)
    } else if t.control_addr == t.buffer_addr {
        Err(ImageError::BadLayout)
    } else {
        Ok(
            TransferPlan {
                direction: t.direction,
                flash_size: t.flash_size,
                buffer_size: t.buffer_size,
                chunk_count: (t.flash_size / t.buffer_size) as u32,
                buffer_addr: t.buffer_addr,
                control_addr: t.control_addr,
            },
        )
    }
}

impl TransferPlan {
    /// The plan's internal invariant, established by `new`.
    pub open spec fn wf(self) -> bool {
        &&& self.buffer_size >= 1
        &&& self.flash_size >= 1
        &&& self.flash_size % self.buffer_size == 0
        &&& self.chunk_count == self.flash_size / self.buffer_size
        &&& self.control_addr != self.buffer_addr
    }

    /// Validate a parsed table into a plan. Rejects a buffer size of zero,
    /// a flash size that is zero or not a multiple of the buffer size, and
    /// a control word that aliases the staging buffer.
    pub fn new(table: &FlashTable) -> (r: Result<TransferPlan, ImageError>)
        ensures
            r == spec_plan_of(*table),
            r matches Ok(p) ==> p.wf() && spec_table_well_formed(*table),
            spec_table_well_formed(*table) ==> r is Ok,
    {
        if table.buffer_size == 0 || table.flash_size == 0 || table.flash_size % table.buffer_size
            != 0 {
            return Err(ImageError::BadGeometry);
        }
        if table.control_addr == table.buffer_addr {
            return Err(ImageError::BadLayout);
        }
        Ok(
            TransferPlan {
                direction: table.direction,
                flash_size: table.flash_size,
                buffer_size: table.buffer_size,
                chunk_count: table.flash_size / table.buffer_size,
                buffer_addr: table.buffer_addr,
                control_addr: table.control_addr,
            },
        )
    }
}

/// Law: for every well-formed image the flash size divides evenly into at
/// least one chunk, and the chunks cover the flash region exactly.
pub proof fn lemma_plan_geometry(p: TransferPlan)
    requires
        p.wf(),
    ensures
        p.flash_size % p.buffer_size == 0,
        p.chunk_count == p.flash_size / p.buffer_size,
        p.chunk_count >= 1,
        p.chunk_count * p.buffer_size == p.flash_size,
{
    let f = p.flash_size as int;
    let b = p.buffer_size as int;
    lemma_fundamental_div_mod(f, b);
    assert(f == b * (f / b));
    assert(f / b >= 1) by (nonlinear_arith)
        requires
            f >= 1,
            b >= 1,
            f == b * (f / b),
    ;
    assert((f / b) * b == b * (f / b)) by (nonlinear_arith);
}

} // verus!
