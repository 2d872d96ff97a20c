//! The target agent's side of the rendezvous protocol, as a state machine.
//!
//! The agent runs from microcontroller RAM and owns the external flash bus.
//! A Dump agent fills the staging buffer from flash one chunk at a time and
//! publishes each chunk by writing 1 to the control word; a Load agent
//! erases the chip once, then waits for each published chunk and programs
//! it, acknowledging with 0. After the final chunk the agent halts visibly
//! so the host can detect completion. The flash and SPI operations
//! themselves happen on the device; this machine decides every offset,
//! control write and phase change.

use vstd::arithmetic::div_mod::lemma_fundamental_div_mod;
use vstd::prelude::*;

use crate::direction::Direction;
use crate::plan::TransferPlan;

verus! {

/// Where the target agent stands in a run.
#[derive(Debug, Clone, Copy, PartialEq, Eq, Structural)]
pub enum TargetPhase {
    /// Load: erasing the whole chip before the first chunk.
    Erasing,
    /// Load: waiting for the host to publish a chunk (control word 1).
    AwaitingHost,
    /// Load: a chunk is in the staging buffer; program it.
    ProgramReady,
    /// Dump: fill the staging buffer with the next chunk.
    FillBuffer,
    /// Dump: waiting for the host to drain the buffer (control word 0).
    AwaitingHostDone,
    /// Every chunk has moved; the agent has hit its breakpoint.
    Halted,
}

/// A contiguous window of the flash region, as an offset and a length.
#[derive(Debug, Clone, Copy, PartialEq, Eq, Structural)]
pub struct FlashRange {
    /// Byte offset from the start of the flash region.
    pub offset: u32,
    /// How many bytes.
    pub len: u32,
}

/// A whole chunk fits at its offset inside the flash region.
proof fn lemma_chunk_in_range(chunk: int, bsz: int, flash: int)
    requires
        1 <= bsz,
        flash % bsz == 0,
        0 <= chunk < flash / bsz,
    ensures
        chunk * bsz + bsz <= flash,
        chunk * bsz >= 0,
{
    lemma_fundamental_div_mod(flash, bsz);
    let q = flash / bsz;
    assert(chunk * bsz + bsz <= flash) by (nonlinear_arith)
        requires
            flash == bsz * q,
            chunk + 1 <= q,
            bsz >= 1,
    ;
    assert(chunk * bsz >= 0) by (nonlinear_arith)
        requires
            chunk >= 0,
            bsz >= 1,
    ;
}

/// The target agent's state between two touches of the control word.
pub struct TargetAgent {
    /// The transfer parameters, as published in the agent's descriptor.
    pub plan: TransferPlan,
    /// Chunks fully transferred so far.
    pub chunk: u32,
    /// Where the agent stands.
    pub phase: TargetPhase,
    /// How many times the agent has written the control word.
    pub toggles: Ghost<nat>,
}

impl TargetAgent {
    /// The agent's invariant: progress stays within the plan, the phase
    /// matches the direction, and the agent halts only after the last
    /// chunk.
    pub open spec fn wf(self) -> bool {
        &&& self.plan.wf()
        &&& self.chunk <= self.plan.chunk_count
        &&& self.plan.direction is Dump ==> (self.phase is FillBuffer || self.phase
            is AwaitingHostDone || self.phase is Halted)
        &&& self.plan.direction is Load ==> (self.phase is Erasing || self.phase is AwaitingHost
            || self.phase is ProgramReady || self.phase is Halted)
        &&& self.phase is Halted <==> self.chunk == self.plan.chunk_count
        &&& self.phase is Erasing ==> self.chunk == 0
        &&& self.plan.direction is Dump ==> self.toggles@ == self.chunk + (
        if self.phase is AwaitingHostDone {
            1int
        } else {
            0int
        })
        &&& self.plan.direction is Load ==> self.toggles@ == self.chunk
    }

    /// Power-on state: no chunk moved, the control word still 0. A Dump
    /// agent goes straight to filling the buffer; a Load agent erases
    /// first.
    pub fn new(plan: &TransferPlan) -> (r: TargetAgent)
        requires
            plan.wf(),
        ensures
            r.wf(),
            r.plan == *plan,
            r.chunk == 0,
            r.toggles@ == 0,
            r.phase == (if plan.direction is Dump {
                TargetPhase::FillBuffer
            } else {
                TargetPhase::Erasing
            }),
    {
        proof {
            crate::plan::lemma_plan_geometry(*plan);
        }
        let phase = match plan.direction {
            Direction::Dump => TargetPhase::FillBuffer,
            Direction::Load => TargetPhase::Erasing,
        };
        TargetAgent { plan: *plan, chunk: 0, phase, toggles: Ghost(0) }
    }

    /// Load: the one-shot bulk erase is done; start waiting for chunks.
    pub fn erase_done(&mut self)
        requires
            old(self).wf(),
            old(self).phase is Erasing,
        ensures
            final(self).wf(),
            final(self).phase is AwaitingHost,
            final(self).plan == old(self).plan,
            final(self).chunk == old(self).chunk,
            final(self).toggles == old(self).toggles,
    {
        proof {
            crate::plan::lemma_plan_geometry(self.plan);
        }
        self.phase = TargetPhase::AwaitingHost;
    }

    /// Dump: publish the next chunk. The flash window to copy into the
    /// staging buffer is exactly one buffer at offset `chunk * buffer_size`,
    /// and the returned value 1 must then be stored to the control word.
    pub fn publish_chunk(&mut self) -> (r: (FlashRange, u32))
        requires
            old(self).wf(),
            old(self).phase is FillBuffer,
        ensures
            final(self).wf(),
            r.0.offset == old(self).chunk * old(self).plan.buffer_size,
            r.0.len == old(self).plan.buffer_size,
            r.1 == 1,
            final(self).phase is AwaitingHostDone,
            final(self).plan == old(self).plan,
            final(self).chunk == old(self).chunk,
            final(self).toggles@ == old(self).toggles@ + 1,
    {
        proof {
            lemma_chunk_in_range(
                self.chunk as int,
                self.plan.buffer_size as int,
                self.plan.flash_size as int,
            );
        }
        let range = FlashRange {
            offset: self.chunk * self.plan.buffer_size,
            len: self.plan.buffer_size,
        };
        self.toggles = Ghost((self.toggles@ + 1) as nat);
        self.phase = TargetPhase::AwaitingHostDone;
        (range, 1)
    }

    /// Dump: interpret one sample of the control word while waiting for the
    /// host to drain the buffer. 0 means the buffer is free again: the
    /// chunk is complete, and after the last one the agent halts.
    pub fn on_host_ack(&mut self, control: u32) -> (ready: bool)
        requires
            old(self).wf(),
            old(self).phase is AwaitingHostDone,
        ensures
            final(self).wf(),
            ready == (control == 0),
            !ready ==> *final(self) == *old(self),
            ready ==> final(self).chunk == old(self).chunk + 1,
            ready ==> final(self).phase == (if old(self).chunk + 1 == old(self).plan.chunk_count {
                TargetPhase::Halted
            } else {
                TargetPhase::FillBuffer
            }),
            final(self).plan == old(self).plan,
            final(self).toggles == old(self).toggles,
    {
        if control != 0 {
            return false;
        }
        self.chunk = self.chunk + 1;
        self.phase = if self.chunk == self.plan.chunk_count {
            TargetPhase::Halted
        } else {
            TargetPhase::FillBuffer
        };
        true
    }

    /// Load: interpret one sample of the control word while waiting for the
    /// host to publish a chunk. 1 means the staging buffer is full and may
    /// be programmed.
    pub fn on_host_chunk(&mut self, control: u32) -> (ready: bool)
        requires
            old(self).wf(),
            old(self).phase is AwaitingHost,
        ensures
            final(self).wf(),
            ready == (control == 1),
            !ready ==> *final(self) == *old(self),
            ready ==> final(self).phase is ProgramReady && final(self).chunk == old(self).chunk,
            final(self).plan == old(self).plan,
            final(self).toggles == old(self).toggles,
    {
        if control != 1 {
            return false;
        }
        self.phase = TargetPhase::ProgramReady;
        true
    }

    /// Load: commit the published chunk. The staging buffer is programmed
    /// into the flash window at offset `chunk * buffer_size`, and the
    /// returned value 0 must then be stored to the control word; after the
    /// last chunk the agent halts.
    pub fn commit_chunk(&mut self) -> (r: (FlashRange, u32))
        requires
            old(self).wf(),
            old(self).phase is ProgramReady,
        ensures
            final(self).wf(),
            r.0.offset == old(self).chunk * old(self).plan.buffer_size,
            r.0.len == old(self).plan.buffer_size,
            r.1 == 0,
            final(self).chunk == old(self).chunk + 1,
            final(self).phase == (if old(self).chunk + 1 == old(self).plan.chunk_count {
                TargetPhase::Halted
            } else {
                TargetPhase::AwaitingHost
            }),
            final(self).plan == old(self).plan,
            final(self).toggles@ == old(self).toggles@ + 1,
    {
        proof {
            lemma_chunk_in_range(
                self.chunk as int,
                self.plan.buffer_size as int,
                self.plan.flash_size as int,
            );
        }
        let range = FlashRange {
            offset: self.chunk * self.plan.buffer_size,
            len: self.plan.buffer_size,
        };
        self.toggles = Ghost((self.toggles@ + 1) as nat);
        self.chunk = self.chunk + 1;
        self.phase = if self.chunk == self.plan.chunk_count {
            TargetPhase::Halted
        } else {
            TargetPhase::AwaitingHost
        };
        (range, 0)
    }
}

/// Law: a halted single-chunk run (flash size equal to buffer size) wrote
/// the control word exactly once on the target side.
pub proof fn lemma_single_chunk_single_target_toggle(t: TargetAgent)
    requires
        t.wf(),
        t.phase is Halted,
        t.plan.flash_size == t.plan.buffer_size,
    ensures
        t.toggles@ == 1,
{
    assert(t.plan.flash_size as int / t.plan.buffer_size as int == 1) by (nonlinear_arith)
        requires
            t.plan.flash_size == t.plan.buffer_size,
            t.plan.buffer_size >= 1,
    ;
}

} // verus!
