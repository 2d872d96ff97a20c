//! End-to-end runs of the rendezvous protocol: the verified host machine
//! and target machine driven against a simulated RAM buffer, control word
//! and flash chip.

use rs_flash::descriptor::FlashTable;
use rs_flash::direction::Direction;
use rs_flash::errors::TransferError;
use rs_flash::host::{HostPhase, HostRunner};
use rs_flash::plan::TransferPlan;
use rs_flash::target::{TargetAgent, TargetPhase};

fn plan(direction: Direction, flash_size: u32, buffer_size: u32) -> TransferPlan {
    let table = FlashTable {
        direction,
        flash_size,
        buffer_size,
        buffer_addr: 0x2000_0100,
        control_addr: 0x2000_0000,
    };
    TransferPlan::new(&table).unwrap()
}

/// The shared state both machines act on: one control cell, one RAM
/// staging buffer, and the flash chip behind the target.
struct Sim {
    control: u32,
    ram: Vec<u8>,
    flash: Vec<u8>,
    /// Every value the control word ever held, in order.
    trace: Vec<u32>,
}

impl Sim {
    fn new(flash: Vec<u8>) -> Sim {
        Sim { control: 0, ram: Vec::new(), flash, trace: vec![0] }
    }

    fn set_control(&mut self, value: u32) {
        self.control = value;
        self.trace.push(value);
    }
}

/// Run a full Dump: the target publishes each chunk, the host drains it to
/// the output. Returns the output bytes and the control trace.
fn run_dump(p: TransferPlan, flash: Vec<u8>, timeout_ms: u64) -> (Vec<u8>, Vec<u32>) {
    let mut host = HostRunner::new(&p, timeout_ms, 300_000);
    let mut agent = TargetAgent::new(&p);
    let mut sim = Sim::new(flash);
    let mut out: Vec<u8> = Vec::new();
    let mut now: u64 = 0;

    while !host.transfer_done() {
        let (chunk, total, at) = host.progress();
        assert_eq!(chunk, u64::from(at / p.buffer_size) + 1);
        assert_eq!(total, p.chunk_count);

        // The target runs freely: fill the buffer and publish it.
        assert!(matches!(agent.phase, TargetPhase::FillBuffer));
        let (range, flag) = agent.publish_chunk();
        assert_eq!(range.offset, at);
        assert_eq!(range.len, p.buffer_size);
        let lo = range.offset as usize;
        let hi = lo + range.len as usize;
        sim.ram = sim.flash[lo..hi].to_vec();
        sim.set_control(flag);

        // The host polls until the buffer is full.
        host.begin_dump_wait(now);
        loop {
            if host.on_control_sample(sim.control).unwrap() {
                break;
            }
            host.check_deadline(now).unwrap();
            now += 1;
        }

        // Read the chunk out and hand the buffer back.
        let access = host.dump_read();
        assert_eq!(access.addr, p.buffer_addr);
        assert_eq!(access.len, p.buffer_size);
        let data = sim.ram.clone();
        assert_eq!(out.len(), at as usize);
        out.extend_from_slice(&data);
        let w = host.commit_dump_chunk(&data);
        assert_eq!(w.addr, p.control_addr);
        sim.set_control(w.value);

        // The target sees the acknowledgement.
        assert!(agent.on_host_ack(sim.control));
    }

    // After the last chunk the target halts; the host drains until it has
    // seen the core halted twice in a row.
    assert!(matches!(agent.phase, TargetPhase::Halted));
    host.enter_drain();
    assert!(!host.note_halt_poll(true));
    assert!(host.note_halt_poll(true));
    assert!(matches!(host.phase, HostPhase::Finished));
    (out, sim.trace)
}

/// Run a full Load: the host stages each chunk of `input`, the target
/// programs it. Returns the final flash contents and the control trace.
fn run_load(
    p: TransferPlan,
    flash: Vec<u8>,
    input: &[u8],
    timeout_ms: u64,
    erase_timeout_ms: u64,
) -> (Vec<u8>, Vec<u32>) {
    let mut host = HostRunner::new(&p, timeout_ms, erase_timeout_ms);
    let mut agent = TargetAgent::new(&p);
    let mut sim = Sim::new(flash);
    let mut offset: usize = 0;
    let mut now: u64 = 0;

    // The target erases the chip before the first chunk.
    assert!(matches!(agent.phase, TargetPhase::Erasing));
    for b in sim.flash.iter_mut() {
        *b = 0xff;
    }
    agent.erase_done();

    while !host.transfer_done() {
        // The host stages one chunk from the input.
        let end = offset + p.buffer_size as usize;
        let data = input[offset..end].to_vec();
        let (access, w) = host.stage_load_chunk(&data).unwrap();
        assert_eq!(access.addr, p.buffer_addr);
        assert_eq!(access.len, p.buffer_size);
        sim.ram = data;
        assert_eq!(w.addr, p.control_addr);
        assert_eq!(w.value, 1);
        sim.set_control(w.value);
        host.begin_load_wait(now);

        // The target programs the chunk and acknowledges.
        assert!(agent.on_host_chunk(sim.control));
        let (range, flag) = agent.commit_chunk();
        assert_eq!(range.offset as usize, offset);
        assert_eq!(range.len, p.buffer_size);
        let lo = range.offset as usize;
        sim.flash[lo..lo + range.len as usize].copy_from_slice(&sim.ram);
        sim.set_control(flag);

        // The host sees the acknowledgement.
        loop {
            if host.on_control_sample(sim.control).unwrap() {
                break;
            }
            host.check_deadline(now).unwrap();
            now += 1;
        }
        offset = end;
    }

    assert!(matches!(agent.phase, TargetPhase::Halted));
    host.enter_drain();
    assert!(!host.note_halt_poll(true));
    assert!(host.note_halt_poll(true));
    (sim.flash, sim.trace)
}

#[test]
fn load_two_chunks_sees_each_half() {
    // flash 32, buffer 16, input 0x00..0x1f: the target sees the low half
    // on chunk 1 and the high half on chunk 2.
    let p = plan(Direction::Load, 32, 16);
    let input: Vec<u8> = (0u8..0x20).collect();
    let (flash, trace) = run_load(p, vec![0u8; 32], &input, 10_000, 300_000);
    assert_eq!(&flash[..16], &input[..16]);
    assert_eq!(&flash[16..], &input[16..]);
    assert_eq!(trace, vec![0, 1, 0, 1, 0]);
}

#[test]
fn dump_two_chunks_reproduces_flash() {
    // flash 32 of 0xAA, buffer 16: the output is 32 bytes of 0xAA and the
    // control word steps 0 -> 1 -> 0 -> 1 -> 0.
    let p = plan(Direction::Dump, 32, 16);
    let (out, trace) = run_dump(p, vec![0xAA; 32], 10_000);
    assert_eq!(out, vec![0xAA; 32]);
    assert_eq!(trace, vec![0, 1, 0, 1, 0]);
}

#[test]
fn load_then_dump_round_trips() {
    let p_load = plan(Direction::Load, 64, 16);
    let p_dump = plan(Direction::Dump, 64, 16);
    let input: Vec<u8> = (0u8..64).map(|i| i.wrapping_mul(37).wrapping_add(11)).collect();
    let (flash, _) = run_load(p_load, vec![0u8; 64], &input, 10_000, 300_000);
    let (out, _) = run_dump(p_dump, flash, 10_000);
    assert_eq!(out, input);
}

#[test]
fn dump_twice_is_identical() {
    let p = plan(Direction::Dump, 48, 16);
    let flash: Vec<u8> = (0u8..48).collect();
    let (first, _) = run_dump(p, flash.clone(), 10_000);
    let (second, _) = run_dump(p, flash, 10_000);
    assert_eq!(first, second);
}

#[test]
fn single_chunk_run_toggles_once_per_side() {
    // flash == buffer: one chunk, one control write per side: 0 -> 1 -> 0.
    let p = plan(Direction::Dump, 16, 16);
    let (out, trace) = run_dump(p, vec![0x5A; 16], 10_000);
    assert_eq!(out, vec![0x5A; 16]);
    assert_eq!(trace, vec![0, 1, 0]);

    let p = plan(Direction::Load, 16, 16);
    let (flash, trace) = run_load(p, vec![0u8; 16], &[0x33; 16], 10_000, 300_000);
    assert_eq!(flash, vec![0x33; 16]);
    assert_eq!(trace, vec![0, 1, 0]);
}

#[test]
fn control_word_outside_binary_aborts() {
    let p = plan(Direction::Dump, 16, 16);
    let mut host = HostRunner::new(&p, 10_000, 300_000);
    host.begin_dump_wait(0);
    assert_eq!(host.on_control_sample(2).unwrap_err(), TransferError::BadControl(2));
    assert_eq!(
        host.on_control_sample(7).unwrap_err(),
        TransferError::BadControl(7)
    );
    // The legal values are still interpreted normally afterwards.
    assert!(!host.on_control_sample(0).unwrap());
    assert!(host.on_control_sample(1).unwrap());
}

#[test]
fn short_input_chunk_is_rejected() {
    // The input file ends before the flash is full: the first under-full
    // chunk fails the run.
    let p = plan(Direction::Load, 32, 16);
    let mut host = HostRunner::new(&p, 10_000, 300_000);
    let short = vec![0u8; 10];
    assert_eq!(host.stage_load_chunk(&short).unwrap_err(), TransferError::ShortRead);
    // A full chunk is accepted.
    let full = vec![0u8; 16];
    assert!(host.stage_load_chunk(&full).is_ok());
}

#[test]
fn stalled_target_times_out_on_second_chunk() {
    // The target publishes chunk 1 but never chunk 2: the host times out
    // once the per-chunk deadline has passed.
    let p = plan(Direction::Dump, 32, 16);
    let mut host = HostRunner::new(&p, 10_000, 300_000);

    // Chunk 1 proceeds normally.
    host.begin_dump_wait(0);
    assert!(host.on_control_sample(1).unwrap());
    host.dump_read();
    host.commit_dump_chunk(&vec![0u8; 16]);

    // Chunk 2: the control word stays 0.
    host.begin_dump_wait(1_000);
    assert!(!host.on_control_sample(0).unwrap());
    assert!(host.check_deadline(11_000).is_ok());
    assert_eq!(host.check_deadline(11_001).unwrap_err(), TransferError::TimedOut);
}

#[test]
fn erase_budget_absorbs_slow_first_ack() {
    // Single 1024-byte chunk; the target acknowledges only after 30 s.
    // With --erase-timeout 60 and --timeout 5 the run succeeds.
    let p = plan(Direction::Load, 1024, 1024);
    let mut host = HostRunner::new(&p, 5_000, 60_000);
    let (_, w) = host.stage_load_chunk(&vec![0u8; 1024]).unwrap();
    assert_eq!(w.value, 1);
    host.begin_load_wait(0);
    // 30 s of silence, then the acknowledgement.
    assert!(host.check_deadline(30_000).is_ok());
    assert!(host.on_control_sample(0).unwrap());
    assert!(host.transfer_done());
}

#[test]
fn erase_budget_too_small_times_out_on_first_chunk() {
    // As above but --erase-timeout 10: the first wait expires at 10 s.
    let p = plan(Direction::Load, 1024, 1024);
    let mut host = HostRunner::new(&p, 5_000, 10_000);
    host.stage_load_chunk(&vec![0u8; 1024]).unwrap();
    host.begin_load_wait(0);
    assert!(!host.on_control_sample(1).unwrap());
    assert_eq!(host.check_deadline(30_000).unwrap_err(), TransferError::TimedOut);
}

#[test]
fn later_load_waits_use_ordinary_timeout() {
    // The erase budget is drawn exactly once: the second wait expires
    // after the ordinary timeout.
    let p = plan(Direction::Load, 32, 16);
    let mut host = HostRunner::new(&p, 5_000, 60_000);

    host.stage_load_chunk(&vec![0u8; 16]).unwrap();
    host.begin_load_wait(0);
    // First wait: still within the erase budget at 30 s.
    assert!(host.check_deadline(30_000).is_ok());
    assert!(host.on_control_sample(0).unwrap());

    host.stage_load_chunk(&vec![0u8; 16]).unwrap();
    host.begin_load_wait(30_000);
    // Second wait: the ordinary 5 s timeout applies.
    assert!(host.check_deadline(35_000).is_ok());
    assert_eq!(host.check_deadline(35_001).unwrap_err(), TransferError::TimedOut);
}

#[test]
fn log_drains_leave_the_transfer_undisturbed() {
    // Log pumping between control polls neither advances nor corrupts the
    // transfer; the harness forwards each drained slice in order.
    let p = plan(Direction::Dump, 32, 16);
    let mut host = HostRunner::new(&p, 10_000, 300_000);
    let mut forwarded: Vec<u8> = Vec::new();

    host.begin_dump_wait(0);
    for slice in [b"era".to_vec(), b"sing".to_vec(), b" done".to_vec()] {
        assert!(!host.on_control_sample(0).unwrap());
        host.on_log_bytes(&slice);
        forwarded.extend_from_slice(&slice);
    }
    assert_eq!(forwarded, b"erasing done".to_vec());
    assert_eq!(host.count, 0);
    assert!(matches!(host.phase, HostPhase::AwaitingFull));
}
