//! The host side of the rendezvous protocol, as a state machine.
//!
//! The machine makes every decision of the transfer loop: when to arm a
//! deadline, what a sampled control word means, which bytes move where, and
//! when the run is over. The binary around it only performs the probe and
//! file operations the machine asks for and feeds the observations back.
//!
//! Per chunk the host either waits for the target to publish the staging
//! buffer (`Dump`: control word 1, then read, then write 0) or stages bytes
//! itself and waits for the target to commit them (`Load`: write, control
//! word 1, then wait for 0). While waiting it drains the target's log
//! channel and watches a deadline. After the final chunk it keeps draining
//! until the core is seen halted on two consecutive polls.

use vstd::arithmetic::div_mod::{
    lemma_div_by_multiple, lemma_div_is_ordered, lemma_fundamental_div_mod,
    lemma_mod_multiples_basic,
};
use vstd::prelude::*;

use crate::direction::Direction;
use crate::errors::TransferError;
use crate::plan::TransferPlan;

verus! {

/// Where the host stands in a run.
#[derive(Debug, Clone, Copy, PartialEq, Eq, Structural)]
pub enum HostPhase {
    /// Ready to begin the next chunk, or to enter draining when all chunks
    /// have moved.
    Idle,
    /// Dump: waiting for the target to publish the staging buffer.
    AwaitingFull,
    /// Dump: the buffer is published; the host may read it.
    BufferReady,
    /// Load: the chunk is staged; a deadline must be armed before polling.
    Staged,
    /// Load: waiting for the target to commit the staged chunk.
    AwaitingEmpty,
    /// All chunks moved; draining logs until the core halts.
    Draining,
    /// The core was seen halted twice in a row; the run is over.
    Finished,
}

/// A read or write of the staging buffer in target RAM.
#[derive(Debug, Clone, Copy, PartialEq, Eq, Structural)]
pub struct BufferAccess {
    /// Where in target RAM.
    pub addr: u64,
    /// How many bytes.
    pub len: u32,
}

/// A write of the control word in target RAM.
#[derive(Debug, Clone, Copy, PartialEq, Eq, Structural)]
pub struct ControlWrite {
    /// Where in target RAM.
    pub addr: u64,
    /// The value to store.
    pub value: u32,
}

/// The control value a waiting host is looking for: 1 when the target must
/// publish a full buffer, 0 when it must report the buffer empty again.
pub open spec fn spec_wait_target(phase: HostPhase) -> u32 {
    if phase is AwaitingFull {
        1
    } else {
        0
    }
}

/// The configuration fields no step of the machine ever changes.
pub open spec fn spec_same_config(a: HostRunner, b: HostRunner) -> bool {
    &&& a.plan == b.plan
    &&& a.timeout_ms == b.timeout_ms
    &&& a.erase_timeout_ms == b.erase_timeout_ms
}

/// One more whole chunk fits below the flash size, and advances the chunk
/// index by exactly one.
proof fn lemma_next_chunk_fits(count: int, bsz: int, flash: int)
    requires
        1 <= bsz,
        0 <= count < flash,
        count % bsz == 0,
        flash % bsz == 0,
    ensures
        count + bsz <= flash,
        (count + bsz) % bsz == 0,
        (count + bsz) / bsz == count / bsz + 1,
{
    lemma_fundamental_div_mod(count, bsz);
    lemma_fundamental_div_mod(flash, bsz);
    let q1 = count / bsz;
    let q2 = flash / bsz;
    assert(q1 + 1 <= q2) by (nonlinear_arith)
        requires
            bsz >= 1,
            count == bsz * q1,
            flash == bsz * q2,
            count < flash,
    ;
    assert(count + bsz <= flash) by (nonlinear_arith)
        requires
            count == bsz * q1,
            flash == bsz * q2,
            q1 + 1 <= q2,
            bsz >= 1,
    ;
    assert(count + bsz == (q1 + 1) * bsz) by (nonlinear_arith)
        requires
            count == bsz * q1,
    ;
    lemma_mod_multiples_basic(q1 + 1, bsz);
    lemma_div_by_multiple(q1 + 1, bsz);
}

/// The host driver's state between two interactions with the target.
pub struct HostRunner {
    /// The validated transfer plan.
    pub plan: TransferPlan,
    /// Bytes transferred so far; always a multiple of the buffer size.
    pub count: u32,
    /// Deadline for an ordinary per-chunk wait, in milliseconds of budget.
    pub timeout_ms: u64,
    /// Deadline budget for the first Load wait, which absorbs the bulk erase.
    pub erase_timeout_ms: u64,
    /// Whether the one-shot erase budget is still unconsumed.
    pub erase_pending: bool,
    /// The instant the current wait expires at, in milliseconds.
    pub deadline_ms: u64,
    /// Whether the previous halt poll saw the core halted.
    pub was_halted: bool,
    /// Where the host stands.
    pub phase: HostPhase,
    /// Dump: every byte appended to the output file, in order.
    pub dumped: Ghost<Seq<u8>>,
    /// Load: every byte staged into target RAM, in file order.
    pub staged: Ghost<Seq<u8>>,
    /// Every log byte forwarded to the log decoder, in order.
    pub logged: Ghost<Seq<u8>>,
    /// How many times the host has written the control word.
    pub toggles: Ghost<nat>,
}

impl HostRunner {
    /// The machine's invariant: the plan is well formed, progress is chunk
    /// aligned, the phase matches the direction, and the byte streams agree
    /// with the progress counter.
    pub open spec fn wf(self) -> bool {
        &&& self.plan.wf()
        &&& self.count <= self.plan.flash_size
        &&& self.count % self.plan.buffer_size == 0
        &&& (self.phase is AwaitingFull || self.phase is BufferReady) ==> (self.plan.direction
            is Dump && self.count < self.plan.flash_size)
        &&& (self.phase is Staged || self.phase is AwaitingEmpty) ==> (self.plan.direction is Load
            && self.count >= self.plan.buffer_size)
        &&& (self.phase is Draining || self.phase is Finished) ==> self.count
            == self.plan.flash_size
        &&& self.plan.direction is Dump ==> self.dumped@.len() == self.count
            && self.staged@.len() == 0
        &&& self.plan.direction is Load ==> self.staged@.len() == self.count
            && self.dumped@.len() == 0
        &&& self.toggles@ == self.count as int / self.plan.buffer_size as int
    }

    /// Begin a run: no bytes moved, no control writes yet, the erase budget
    /// still available for a Load.
    pub fn new(plan: &TransferPlan, timeout_ms: u64, erase_timeout_ms: u64) -> (r: HostRunner)
        requires
            plan.wf(),
        ensures
            r.wf(),
            r.plan == *plan,
            r.count == 0,
            r.timeout_ms == timeout_ms,
            r.erase_timeout_ms == erase_timeout_ms,
            r.erase_pending == (plan.direction is Load),
            r.was_halted == false,
            r.phase is Idle,
            r.dumped@ == Seq::<u8>::empty(),
            r.staged@ == Seq::<u8>::empty(),
            r.logged@ == Seq::<u8>::empty(),
            r.toggles@ == 0,
    {
        let erase_pending = match plan.direction {
            Direction::Load => true,
            Direction::Dump => false,
        };
        HostRunner {
            plan: *plan,
            count: 0,
            timeout_ms,
            erase_timeout_ms,
            erase_pending,
            deadline_ms: 0,
            was_halted: false,
            phase: HostPhase::Idle,
            dumped: Ghost(Seq::empty()),
            staged: Ghost(Seq::empty()),
            logged: Ghost(Seq::empty()),
            toggles: Ghost(0),
        }
    }

    /// Whether every chunk has been transferred.
    pub fn transfer_done(&self) -> (b: bool)
        ensures
            b == (self.count == self.plan.flash_size),
    {
        self.count == self.plan.flash_size
    }

    /// The progress a chunk is logged with: the 1-based chunk number, the
    /// chunk count, and the byte offset the chunk starts at.
    pub fn progress(&self) -> (p: (u64, u32, u32))
        requires
            self.wf(),
            self.count < self.plan.flash_size,
        ensures
            p.0 == self.count as int / self.plan.buffer_size as int + 1,
            p.1 == self.plan.chunk_count,
            p.2 == self.count,
    {
        ((self.count as u64) / (self.plan.buffer_size as u64) + 1, self.plan.chunk_count, self.count)
    }

    /// Dump: arm the per-chunk deadline and start waiting for the target to
    /// publish the staging buffer (control word 1).
    pub fn begin_dump_wait(&mut self, now_ms: u64)
        requires
            old(self).wf(),
            old(self).phase is Idle,
            old(self).plan.direction is Dump,
            old(self).count < old(self).plan.flash_size,
            now_ms + old(self).timeout_ms <= u64::MAX,
        ensures
            final(self).wf(),
            spec_same_config(*old(self), *final(self)),
            final(self).phase is AwaitingFull,
            final(self).deadline_ms == now_ms + old(self).timeout_ms,
            final(self).count == old(self).count,
            final(self).erase_pending == old(self).erase_pending,
            final(self).was_halted == old(self).was_halted,
            final(self).dumped == old(self).dumped,
            final(self).staged == old(self).staged,
            final(self).logged == old(self).logged,
            final(self).toggles == old(self).toggles,
    {
        self.deadline_ms = now_ms + self.timeout_ms;
        self.phase = HostPhase::AwaitingFull;
    }

    /// Interpret one sample of the control word while waiting. A value
    /// outside {0, 1} is a protocol violation that aborts the run; the
    /// value the wait is for ends it (`Ok(true)`); the other legal value
    /// keeps waiting (`Ok(false)`).
    pub fn on_control_sample(&mut self, value: u32) -> (r: Result<bool, TransferError>)
        requires
            old(self).wf(),
            old(self).phase is AwaitingFull || old(self).phase is AwaitingEmpty,
        ensures
            final(self).wf(),
            spec_same_config(*old(self), *final(self)),
            value > 1 ==> r == Err::<bool, TransferError>(TransferError::BadControl(value))
                && *final(self) == *old(self),
            value <= 1 ==> r == Ok::<bool, TransferError>(value == spec_wait_target(
                old(self).phase,
            )),
            value <= 1 && value == spec_wait_target(old(self).phase) ==> final(self).phase == (
            if old(self).phase is AwaitingFull {
                HostPhase::BufferReady
            } else {
                HostPhase::Idle
            }),
            value <= 1 && value != spec_wait_target(old(self).phase) ==> *final(self) == *old(
                self,
            ),
            final(self).count == old(self).count,
            final(self).deadline_ms == old(self).deadline_ms,
            final(self).erase_pending == old(self).erase_pending,
            final(self).was_halted == old(self).was_halted,
            final(self).dumped == old(self).dumped,
            final(self).staged == old(self).staged,
            final(self).logged == old(self).logged,
            final(self).toggles == old(self).toggles,
    {
        if value > 1 {
            return Err(TransferError::BadControl(value));
        }
        let target: u32 = match self.phase {
            HostPhase::AwaitingFull => 1,
            _ => 0,
        };
        if value == target {
            self.phase = match self.phase {
                HostPhase::AwaitingFull => HostPhase::BufferReady,
                _ => HostPhase::Idle,
            };
            Ok(true)
        } else {
            Ok(false)
        }
    }

    /// Check the armed deadline against the clock; a wait past its deadline
    /// fails the run.
    pub fn check_deadline(&self, now_ms: u64) -> (r: Result<(), TransferError>)
        requires
            self.phase is AwaitingFull || self.phase is AwaitingEmpty,
        ensures
            now_ms > self.deadline_ms ==> r == Err::<(), TransferError>(TransferError::TimedOut),
            now_ms <= self.deadline_ms ==> r == Ok::<(), TransferError>(()),
    {
        if now_ms > self.deadline_ms {
            Err(TransferError::TimedOut)
        } else {
            Ok(())
        }
    }

    /// Dump: the read the host performs once the buffer is published: the
    /// whole staging buffer, at its fixed address, nothing else.
    pub fn dump_read(&self) -> (r: BufferAccess)
        requires
            self.wf(),
            self.phase is BufferReady,
        ensures
            r.addr == self.plan.buffer_addr,
            r.len == self.plan.buffer_size,
    {
        BufferAccess { addr: self.plan.buffer_addr, len: self.plan.buffer_size }
    }

    /// Dump: account one chunk read out of the staging buffer. The bytes
    /// are appended to the output stream, which so far holds exactly
    /// `count` bytes, so the chunk lands at file offset `count`; the
    /// returned write hands the buffer back to the target (control word 0).
    pub fn commit_dump_chunk(&mut self, data: &Vec<u8>) -> (w: ControlWrite)
        requires
            old(self).wf(),
            old(self).phase is BufferReady,
            data@.len() == old(self).plan.buffer_size,
        ensures
            final(self).wf(),
            spec_same_config(*old(self), *final(self)),
            w.addr == old(self).plan.control_addr,
            w.value == 0,
            old(self).dumped@.len() == old(self).count,
            final(self).dumped@ == old(self).dumped@ + data@,
            final(self).count == old(self).count + old(self).plan.buffer_size,
            final(self).phase is Idle,
            final(self).toggles@ == old(self).toggles@ + 1,
            final(self).deadline_ms == old(self).deadline_ms,
            final(self).erase_pending == old(self).erase_pending,
            final(self).was_halted == old(self).was_halted,
            final(self).staged == old(self).staged,
            final(self).logged == old(self).logged,
    {
        proof {
            lemma_next_chunk_fits(
                self.count as int,
                self.plan.buffer_size as int,
                self.plan.flash_size as int,
            );
        }
        self.dumped = Ghost(self.dumped@ + data@);
        self.toggles = Ghost((self.toggles@ + 1) as nat);
        self.count = self.count + self.plan.buffer_size;
        self.phase = HostPhase::Idle;
        ControlWrite { addr: self.plan.control_addr, value: 0 }
    }

    /// Load: stage one chunk of the input. A chunk that is not exactly one
    /// staging buffer is rejected: the input file ended before the flash
    /// was full. On success the bytes belong at the staging buffer address,
    /// the input stream so far holds exactly `count` bytes (so this chunk
    /// came from file offset `count`), and the returned control write
    /// (value 1) hands the buffer to the target; the wait must then be
    /// armed with `begin_load_wait`.
    pub fn stage_load_chunk(&mut self, data: &Vec<u8>) -> (r: Result<
        (BufferAccess, ControlWrite),
        TransferError,
    >)
        requires
            old(self).wf(),
            old(self).phase is Idle,
            old(self).plan.direction is Load,
            old(self).count < old(self).plan.flash_size,
        ensures
            final(self).wf(),
            spec_same_config(*old(self), *final(self)),
            data@.len() != old(self).plan.buffer_size ==> r == Err::<
                (BufferAccess, ControlWrite),
                TransferError,
            >(TransferError::ShortRead) && *final(self) == *old(self),
            data@.len() == old(self).plan.buffer_size ==> {
                &&& r matches Ok(pair)
                &&& pair.0.addr == old(self).plan.buffer_addr
                &&& pair.0.len == old(self).plan.buffer_size
                &&& pair.1.addr == old(self).plan.control_addr
                &&& pair.1.value == 1
                &&& old(self).staged@.len() == old(self).count
                &&& final(self).staged@ == old(self).staged@ + data@
                &&& final(self).count == old(self).count + old(self).plan.buffer_size
                &&& final(self).phase is Staged
                &&& final(self).toggles@ == old(self).toggles@ + 1
                &&& final(self).deadline_ms == old(self).deadline_ms
                &&& final(self).erase_pending == old(self).erase_pending
                &&& final(self).was_halted == old(self).was_halted
                &&& final(self).dumped == old(self).dumped
                &&& final(self).logged == old(self).logged
            },
    {
        if data.len() != self.plan.buffer_size as usize {
            return Err(TransferError::ShortRead);
        }
        proof {
            lemma_next_chunk_fits(
                self.count as int,
                self.plan.buffer_size as int,
                self.plan.flash_size as int,
            );
        }
        self.staged = Ghost(self.staged@ + data@);
        self.toggles = Ghost((self.toggles@ + 1) as nat);
        self.count = self.count + self.plan.buffer_size;
        self.phase = HostPhase::Staged;
        Ok(
            (
                BufferAccess { addr: self.plan.buffer_addr, len: self.plan.buffer_size },
                ControlWrite { addr: self.plan.control_addr, value: 1 },
            ),
        )
    }

    /// Load: arm the wait for the target to commit the staged chunk
    /// (control word back to 0). The first wait of a Load run draws the
    /// extended erase budget, exactly once; every later wait uses the
    /// ordinary timeout.
    pub fn begin_load_wait(&mut self, now_ms: u64)
        requires
            old(self).wf(),
            old(self).phase is Staged,
            now_ms + old(self).timeout_ms <= u64::MAX,
            now_ms + old(self).erase_timeout_ms <= u64::MAX,
        ensures
            final(self).wf(),
            spec_same_config(*old(self), *final(self)),
            final(self).phase is AwaitingEmpty,
            final(self).deadline_ms == now_ms + (if old(self).erase_pending {
                old(self).erase_timeout_ms
            } else {
                old(self).timeout_ms
            }),
            final(self).erase_pending == false,
            final(self).count == old(self).count,
            final(self).was_halted == old(self).was_halted,
            final(self).dumped == old(self).dumped,
            final(self).staged == old(self).staged,
            final(self).logged == old(self).logged,
            final(self).toggles == old(self).toggles,
    {
        let budget = if self.erase_pending {
            self.erase_timeout_ms
        } else {
            self.timeout_ms
        };
        self.erase_pending = false;
        self.deadline_ms = now_ms + budget;
        self.phase = HostPhase::AwaitingEmpty;
    }

    /// After the last chunk: stop initiating chunks and keep draining the
    /// log channel until the core is seen halted.
    pub fn enter_drain(&mut self)
        requires
            old(self).wf(),
            old(self).phase is Idle,
            old(self).count == old(self).plan.flash_size,
        ensures
            final(self).wf(),
            spec_same_config(*old(self), *final(self)),
            final(self).phase is Draining,
            final(self).count == old(self).count,
            final(self).deadline_ms == old(self).deadline_ms,
            final(self).erase_pending == old(self).erase_pending,
            final(self).was_halted == old(self).was_halted,
            final(self).dumped == old(self).dumped,
            final(self).staged == old(self).staged,
            final(self).logged == old(self).logged,
            final(self).toggles == old(self).toggles,
    {
        self.phase = HostPhase::Draining;
    }

    /// Forward a slice drained from the target's log channel. Drained
    /// bytes are appended to the forwarded stream as they arrive, so the
    /// target's log output reaches the host log in order.
    pub fn on_log_bytes(&mut self, data: &Vec<u8>)
        requires
            old(self).wf(),
        ensures
            final(self).wf(),
            spec_same_config(*old(self), *final(self)),
            final(self).logged@ == old(self).logged@ + data@,
            final(self).count == old(self).count,
            final(self).phase == old(self).phase,
            final(self).deadline_ms == old(self).deadline_ms,
            final(self).erase_pending == old(self).erase_pending,
            final(self).was_halted == old(self).was_halted,
            final(self).dumped == old(self).dumped,
            final(self).staged == old(self).staged,
            final(self).toggles == old(self).toggles,
    {
        self.logged = Ghost(self.logged@ + data@);
    }

    /// Record one halt observation. The run is complete only when the core
    /// is seen halted on two consecutive polls: a single reading may race
    /// the retirement of the final breakpoint.
    pub fn note_halt_poll(&mut self, halted: bool) -> (done: bool)
        requires
            old(self).wf(),
        ensures
            final(self).wf(),
            spec_same_config(*old(self), *final(self)),
            done == (halted && old(self).was_halted),
            final(self).was_halted == halted,
            final(self).phase == (if done && old(self).phase is Draining {
                HostPhase::Finished
            } else {
                old(self).phase
            }),
            final(self).count == old(self).count,
            final(self).deadline_ms == old(self).deadline_ms,
            final(self).erase_pending == old(self).erase_pending,
            final(self).dumped == old(self).dumped,
            final(self).staged == old(self).staged,
            final(self).logged == old(self).logged,
            final(self).toggles == old(self).toggles,
    {
        let done = halted && self.was_halted;
        self.was_halted = halted;
        if done {
            match self.phase {
                HostPhase::Draining => {
                    self.phase = HostPhase::Finished;
                },
                _ => {},
            }
        }
        done
    }
}

/// Law: the host's progress is always a whole number of chunks, so every
/// byte it has moved belongs to a chunk at file offset `k * buffer_size`,
/// for a chunk index `k` below the chunk count.
pub proof fn lemma_progress_chunk_aligned(h: HostRunner)
    requires
        h.wf(),
    ensures
        h.count == h.count as int / h.plan.buffer_size as int * h.plan.buffer_size,
        h.count as int / h.plan.buffer_size as int <= h.plan.chunk_count,
{
    let count = h.count as int;
    let bsz = h.plan.buffer_size as int;
    lemma_fundamental_div_mod(count, bsz);
    assert(count == count / bsz * bsz) by (nonlinear_arith)
        requires
            count == bsz * (count / bsz),
    ;
    lemma_div_is_ordered(count, h.plan.flash_size as int, bsz);
}

/// Law: a completed single-chunk run (flash size equal to buffer size)
/// wrote the control word exactly once on the host side.
pub proof fn lemma_single_chunk_single_toggle(h: HostRunner)
    requires
        h.wf(),
        h.count == h.plan.flash_size,
        h.plan.flash_size == h.plan.buffer_size,
    ensures
        h.toggles@ == 1,
{
    assert(h.count as int / h.plan.buffer_size as int == 1) by (nonlinear_arith)
        requires
            h.count == h.plan.buffer_size,
            h.plan.buffer_size >= 1,
    ;
}

} // verus!
