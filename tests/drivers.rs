use std::collections::{HashMap, HashSet};
use test_os::device::PciConfigSpace;
use test_os::device::ahci::{
    find_and_initialize_ahci_controller, find_sata_devices, identify_sata_devices, initialize_ahci_controller, interpret_port_signature,
    is_device_present, port_register_address, register_address, AhciError, AhciHbaMem, AhciPort,
    MAX_RESET_ATTEMPTS,
};
use test_os::device::mmio::{containing_page, Access, MapError, MmioMapping, Outcome, Step};
use test_os::device::scsi::{
    decode_read_capacity, get_block_info, initialize_virtio_scsi, read10_command, read_capacity_command,
    write10_command, VirtioError,
};
use test_os::device::virtq::{calculate_virtqueue_size, initialize_virtqueue, queue_layout};

/// Runs a reset against a register file; returns the result and the number of GHC reads.
fn run_reset(base: u64, ghc_reads: &mut dyn FnMut(u32) -> u32) -> (Result<(), AhciError>, u32, Vec<(u64, u32)>) {
    let (mut reset, mut step) = initialize_ahci_controller(base, 0, 31, 2);
    let mut ghc_polls = 0u32;
    let mut writes = Vec::new();
    loop {
        let outcome = match step {
            Step::Finished(r) => return (r, ghc_polls, writes),
            Step::Perform(Access::Read32 { addr }) if addr == base + 4 => {
                ghc_polls += 1;
                Outcome::Value(ghc_reads(ghc_polls) as u64)
            }
            Step::Perform(Access::Read32 { .. }) => Outcome::Value(0x4000_0000),
            Step::Perform(Access::Write32 { addr, value }) => {
                writes.push((addr, value));
                Outcome::Done
            }
            Step::Perform(Access::ReadConfig { bus, slot, function, offset }) => {
                // The PCS quirk reads its register in the controller's configuration space.
                assert_eq!((bus, slot, function, offset), (0, 31, 2, 0x90));
                writes.push((0xC0F1_6000, offset as u32));
                Outcome::Value(0x0003_0000)
            }
            Step::Perform(Access::Delay { .. }) => Outcome::Done,
            Step::Perform(other) => panic!("unexpected access {:?}", other),
        };
        step = reset.resume(outcome);
    }
}

#[test]
fn ahci_reset_gives_up_when_reset_bit_sticks() {
    let (r, polls, writes) = run_reset(0xFEBF_1000, &mut |_| 0x8001);
    assert_eq!(r, Err(AhciError::RegisterReadError));
    // One read before the write, then exactly the allowed number of polls.
    assert_eq!(polls, 1 + MAX_RESET_ATTEMPTS);
    assert_eq!(writes, vec![(0xFEBF_1004, 0x8001)]);
}

#[test]
fn ahci_reset_completes_when_reset_bit_clears() {
    let (r, polls, writes) = run_reset(0xFEBF_1000, &mut |n| if n < 5 { 0x8000_8000 } else { 0x8000_0001 });
    assert_eq!(r, Ok(()));
    // Initial read, polls 2..=5, then one more read after the reset.
    assert_eq!(polls, 6);
    assert_eq!(writes, vec![(0xFEBF_1004, 0x8000_8001), (0xC0F1_6000, 0x90)]);
}

#[test]
fn ahci_reset_refuses_null_base() {
    let (r, polls, _) = run_reset(0, &mut |_| 0);
    assert_eq!(r, Err(AhciError::InvalidMemoryAddress));
    assert_eq!(polls, 0);
}

#[test]
fn register_addresses_are_validated() {
    assert_eq!(register_address(0, 0), Err(AhciError::InvalidMemoryAddress));
    assert_eq!(register_address(u64::MAX, 4), Err(AhciError::InvalidMemoryAddress));
    assert_eq!(register_address(0x1000, 4), Ok(0x1004));
    assert_eq!(port_register_address(0xFEBF_1000, 2, 0xA0), Ok(0xFEBF_30A0));
    assert_eq!(port_register_address(0xFFFF_F000, 1, 0xA0), Err(AhciError::InvalidMemoryAddress));
}

#[test]
fn port_signatures_are_named() {
    assert_eq!(interpret_port_signature(0x0000_0101), "SATA Device");
    assert_eq!(interpret_port_signature(0xEB14_0101), "ATAPI Device");
    assert_eq!(interpret_port_signature(0x0000_8000), "SCSI Device");
    assert_eq!(interpret_port_signature(0x1234), "Unknown or Non-SATA Device");
    assert!(is_device_present(0x17));
    assert!(!is_device_present(0x16));
}

#[test]
fn port_scan_reads_signatures_and_presence() {
    let base = 0xFEBE_0000u64;
    let mut regs: HashMap<u64, u32> = HashMap::new();
    regs.insert(base + 0xA0, 0x0000_0101);
    regs.insert(base + 0x18, 0x0000_0017);
    regs.insert(base + 0x10A0, 0xEB14_0101);
    regs.insert(base + 0x20A0, 0x0000_0101);
    regs.insert(base + 0x2018, 0x0000_0010);
    // Port 4 is not implemented; bits above the sixth are ignored.
    regs.insert(base + 0x0C, 0xFFFF_FFEF);
    let (mut scan, mut step) = find_sata_devices(base);
    let mut read = Vec::new();
    let reports = loop {
        match step {
            Step::Finished(r) => break r,
            Step::Perform(Access::Read32 { addr }) => {
                read.push(addr);
                let v = *regs.get(&addr).unwrap_or(&0xFFFF_FFFF);
                step = scan.resume(Outcome::Value(v as u64));
            }
            Step::Perform(other) => panic!("unexpected access {:?}", other),
        }
    };
    assert_eq!(read[0], base + 0x0C);
    assert!(read.iter().all(|a| !(base + 0x4000..base + 0x5000).contains(a)));
    assert_eq!(reports.len(), 6);
    assert_eq!(reports[0].signature, Some(Ok(0x101)));
    assert_eq!(reports[0].device_present, Some(Ok(true)));
    assert_eq!(reports[1].signature, Some(Ok(0xEB14_0101)));
    assert_eq!(reports[1].device_present, None);
    assert_eq!(reports[2].device_present, Some(Ok(false)));
    assert_eq!((reports[4].signature, reports[4].device_present), (None, None));
    assert_eq!(reports[5].signature, Some(Ok(0xFFFF_FFFF)));
}

#[test]
fn port_scan_reports_unaddressable_ports() {
    let base = 0xFFFF_D000u64;
    let (mut scan, mut step) = find_sata_devices(base);
    let mut reads = 0;
    let reports = loop {
        match step {
            Step::Finished(r) => break r,
            Step::Perform(Access::Read32 { addr }) => {
                reads += 1;
                let v = if addr == base + 0x0C { 0x3F } else { 0 };
                step = scan.resume(Outcome::Value(v));
            }
            Step::Perform(other) => panic!("unexpected access {:?}", other),
        }
    };
    assert_eq!(reads, 4);
    assert_eq!(reports.len(), 6);
    assert_eq!(reports[3].signature, Some(Err(AhciError::InvalidMemoryAddress)));
    assert_eq!(reports[5].signature, Some(Err(AhciError::InvalidMemoryAddress)));
}

fn port(ssts: u32) -> AhciPort {
    AhciPort {
        clb: 0, clbu: 0, fb: 0, fbu: 0, intr_status: 0, intr_enable: 0, cmd: 0, tfd: 0, sig: 0,
        ssts, sctl: 0, serr: 0, sact: 0, ci: 0, sntf: 0, fbs: 0,
    }
}

#[test]
fn active_sata_ports_are_identified() {
    let mut ports = [port(0); 32];
    ports[0] = port(0x113);
    ports[1] = port(0x223);
    ports[2] = port(0x113);
    ports[4] = port(0x113);
    let hba = AhciHbaMem {
        cap: 0, ghc: 0, intr_status: 0, pi: 0b10011, vs: 0, ccc_ctl: 0, ccc_pts: 0, em_loc: 0,
        em_ctl: 0, cap2: 0, bohc: 0, ports,
    };
    assert_eq!(identify_sata_devices(&hba), vec![0, 4]);
}

#[test]
fn virtqueue_size_is_page_multiple_and_monotonic() {
    assert_eq!(calculate_virtqueue_size(0), 4096);
    assert_eq!(calculate_virtqueue_size(1), 4096);
    assert_eq!(calculate_virtqueue_size(128), 8192);
    assert_eq!(calculate_virtqueue_size(256), 12288);
    let mut prev = 0;
    for n in 0..2000usize {
        let s = calculate_virtqueue_size(n);
        assert_eq!(s % 4096, 0);
        assert!(s >= prev);
        prev = s;
    }
}

#[test]
fn queue_layout_offsets() {
    let l = queue_layout(128);
    assert_eq!((l.desc_table_offset, l.avail_ring_offset, l.used_ring_offset, l.total_size), (0, 2048, 2820, 8192));
}

#[test]
fn read10_block_matches_wire_format() {
    assert_eq!(read10_command(0x0102_0304, 512), [0x28, 0x00, 0x01, 0x02, 0x03, 0x04, 0x00, 0x00, 0x01, 0x00]);
    assert_eq!(write10_command(0xAABB_CCDD, 4096), [0x2A, 0x00, 0xAA, 0xBB, 0xCC, 0xDD, 0x00, 0x00, 0x08, 0x00]);
    assert_eq!(read_capacity_command(), [0x25, 0, 0, 0, 0, 0, 0, 0, 0, 0]);
}

#[test]
fn read_capacity_response_decodes() {
    let info = decode_read_capacity(&[0, 0, 0, 100, 0, 0, 2, 0]);
    assert_eq!((info.num_blocks, info.block_size), (100, 512));
    assert_eq!(info.total_size(), 51200);
    let info = decode_read_capacity(&[0x01, 0x02, 0x03, 0x04, 0x00, 0x00, 0x10, 0x00, 0xFF]);
    assert_eq!((info.num_blocks, info.block_size), (0x0102_0304, 4096));
}

#[test]
fn block_info_query_polls_then_decodes() {
    let base = 0xFEB0_0000u64;
    let (mut q, mut step) = get_block_info(base, 10);
    let mut polls = 0;
    let mut seen_command = Vec::new();
    let r = loop {
        let outcome = match step {
            Step::Finished(r) => break r,
            Step::Perform(Access::WriteBytes { addr, bytes }) => {
                assert_eq!(addr, base);
                seen_command = bytes;
                Outcome::Done
            }
            Step::Perform(Access::Write8 { addr, value }) => {
                assert_eq!((addr, value), (base + 0x50, 1));
                Outcome::Done
            }
            Step::Perform(Access::Read8 { .. }) => {
                polls += 1;
                Outcome::Value(if polls == 3 { 0x81 } else { 0x80 })
            }
            Step::Perform(Access::ReadBytes { addr, len }) => {
                assert_eq!((addr, len), (base + 0x10, 8));
                Outcome::Bytes(vec![0, 0, 0, 100, 0, 0, 2, 0])
            }
            Step::Perform(other) => panic!("unexpected access {:?}", other),
        };
        step = q.resume(outcome);
    };
    assert_eq!(seen_command, vec![0x25, 0, 0, 0, 0, 0, 0, 0, 0, 0]);
    let info = r.unwrap();
    assert_eq!((info.num_blocks, info.block_size), (100, 512));
}

#[test]
fn block_info_query_times_out() {
    let (mut q, mut step) = get_block_info(0x1000, 4);
    let mut polls = 0;
    let r = loop {
        let outcome = match step {
            Step::Finished(r) => break r,
            Step::Perform(Access::Read8 { .. }) => {
                polls += 1;
                Outcome::Value(0)
            }
            Step::Perform(_) => Outcome::Done,
        };
        step = q.resume(outcome);
    };
    assert_eq!(r, Err(VirtioError::Timeout));
    assert_eq!(polls, 4);
    assert_eq!(get_block_info(0, 4).0.phase, test_os::device::scsi::QueryPhase::Failed(VirtioError::InvalidBaseAddress));
}

/// A page table and frame allocator for driving mapping sessions.
struct Memory {
    mapped: HashSet<u64>,
    next_frame: u64,
    frames_given: Vec<u64>,
    frames_left: usize,
}

impl Memory {
    fn answer(&mut self, access: Access) -> Outcome {
        match access {
            Access::TranslatePage { page } => Outcome::Translated(self.mapped.contains(&page)),
            Access::AllocateFrame => {
                if self.frames_left == 0 {
                    return Outcome::Frame(None);
                }
                self.frames_left -= 1;
                let f = self.next_frame;
                self.next_frame += 4096;
                self.frames_given.push(f);
                Outcome::Frame(Some(f))
            }
            Access::MapPage { page, .. } => {
                if self.mapped.insert(page) {
                    Outcome::Mapped(Ok(()))
                } else {
                    Outcome::Mapped(Err(MapError::PageAlreadyMapped))
                }
            }
            _ => Outcome::Done,
        }
    }
}

fn map(mem: &mut Memory, base: u64, length: usize) -> Result<(), MapError> {
    let (mut s, mut step) = MmioMapping::new(base, length);
    loop {
        match step {
            Step::Finished(r) => return r,
            Step::Perform(a) => {
                let o = mem.answer(a);
                step = s.resume(o);
            }
        }
    }
}

#[test]
fn mapping_twice_does_not_allocate_twice() {
    let mut mem = Memory { mapped: HashSet::new(), next_frame: 0x10_0000, frames_given: Vec::new(), frames_left: 100 };
    assert_eq!(map(&mut mem, 0xFEBF_1000, 0x3000), Ok(()));
    assert_eq!(mem.frames_given.len(), 4);
    assert_eq!(map(&mut mem, 0xFEBF_2800, 0x3000), Ok(()));
    // Pages 0xFEBF_2000..=0xFEBF_4000 were mapped already; only 0xFEBF_5000 is new.
    assert_eq!(mem.frames_given.len(), 5);
    assert!(mem.mapped.contains(&0xFEBF_5000));
    assert_eq!(containing_page(0xFEBF_2801), 0xFEBF_2000);
}

#[test]
fn mapping_reports_frame_exhaustion() {
    let mut mem = Memory { mapped: HashSet::new(), next_frame: 0x10_0000, frames_given: Vec::new(), frames_left: 1 };
    assert_eq!(map(&mut mem, 0x4000_0000, 0x1000), Err(MapError::FrameAllocationFailed));
    assert_eq!(mem.mapped.len(), 1);
}

fn run_virtio(mem: &mut Memory, base: u64, queue_size: u16, writes: &mut Vec<(u64, u64)>) -> Result<test_os::device::virtq::VirtqueueRings, VirtioError> {
    let (mut init, mut step) = initialize_virtio_scsi(base);
    loop {
        let outcome = match step {
            Step::Finished(r) => return r,
            Step::Perform(Access::Read32 { .. }) => Outcome::Value(0xF00D),
            Step::Perform(Access::Read16 { .. }) => Outcome::Value(queue_size as u64),
            Step::Perform(Access::Write8 { addr, value }) => {
                writes.push((addr, value as u64));
                Outcome::Done
            }
            Step::Perform(Access::Write16 { addr, value }) => {
                writes.push((addr, value as u64));
                Outcome::Done
            }
            Step::Perform(Access::Write32 { addr, value }) => {
                writes.push((addr, value as u64));
                Outcome::Done
            }
            Step::Perform(a) => mem.answer(a),
        };
        step = init.resume(outcome);
    }
}

#[test]
fn virtio_bring_up_follows_status_order() {
    let mut mem = Memory { mapped: HashSet::new(), next_frame: 0x20_0000, frames_given: Vec::new(), frames_left: 100 };
    let mut writes = Vec::new();
    let base = 0xC000u64;
    let rings = run_virtio(&mut mem, base, 128, &mut writes).unwrap();
    assert_eq!(mem.frames_given, vec![0x20_0000, 0x20_1000]);
    assert_eq!((rings.desc, rings.avail, rings.used), (0x20_0000, 0x20_0000 + 2048, 0x20_0000 + 2820));
    assert_eq!(
        writes,
        vec![
            (base + 0x12, 0),
            (base + 0x12, 1),
            (base + 0x12, 2),
            (base + 0x10, 0xF00D),
            (base + 0x14, 0),
            (base + 0x14, 0),
            (base + 0x20, 0x200),
            (base + 0x12, 128),
            (base + 0x16, 0),
            (base + 0x12, 4),
        ]
    );
}

#[test]
fn virtio_bring_up_aborts_on_missing_queue() {
    let mut mem = Memory { mapped: HashSet::new(), next_frame: 0x20_0000, frames_given: Vec::new(), frames_left: 100 };
    let mut writes = Vec::new();
    assert_eq!(run_virtio(&mut mem, 0xC000, 0, &mut writes), Err(VirtioError::QueueUnavailable));
    assert!(mem.frames_given.is_empty());
    assert_eq!(run_virtio(&mut mem, 0, 8, &mut writes), Err(VirtioError::InvalidBaseAddress));
}

#[test]
fn virtqueue_setup_fails_without_frames() {
    let mut mem = Memory { mapped: HashSet::new(), next_frame: 0x20_0000, frames_given: Vec::new(), frames_left: 1 };
    let (mut s, mut step) = initialize_virtqueue(0xC000, 0, 256);
    let r = loop {
        match step {
            Step::Finished(r) => break r,
            Step::Perform(a) => {
                let o = mem.answer(a);
                step = s.resume(o);
            }
        }
    };
    assert!(r.is_err());
}

#[test]
fn virtio_bring_up_fails_when_queue_memory_runs_out() {
    let mut mem = Memory { mapped: HashSet::new(), next_frame: 0x20_0000, frames_given: Vec::new(), frames_left: 1 };
    let mut writes = Vec::new();
    assert_eq!(run_virtio(&mut mem, 0xC000, 256, &mut writes), Err(VirtioError::MemoryMappingError));
    // The queue was never registered and the driver never reported ready.
    assert!(!writes.contains(&(0xC000 + 0x20, 0x200)));
    assert!(!writes.contains(&(0xC000 + 0x12, 4)));
}

#[test]
fn ahci_bring_up_maps_resets_and_scans() {
    let base = 0xFEBF_0000u64;
    let mut cfg = PciConfigSpace::new();
    cfg.set_register(0, 31, 0, 0, 0x2922_8086);
    cfg.set_register(0, 31, 0, 8, 0x0106_0102);
    cfg.set_register(0, 31, 0, 0x24, base as u32);
    let (mut up, mut step) = find_and_initialize_ahci_controller(&cfg);
    assert_eq!(up.location, Some((0, 31, 0, base)));
    let mut mem = Memory { mapped: HashSet::new(), next_frame: 0x30_0000, frames_given: Vec::new(), frames_left: 100 };
    let mut regs: HashMap<u64, u32> = HashMap::new();
    regs.insert(base + 0xA0, 0x101);
    regs.insert(base + 0x18, 0x1);
    regs.insert(base + 0x0C, 0x3);
    let reports = loop {
        let outcome = match step {
            Step::Finished(r) => break r,
            Step::Perform(Access::Read32 { addr }) => Outcome::Value(*regs.get(&addr).unwrap_or(&0) as u64),
            Step::Perform(Access::Write32 { addr, value }) => {
                // The controller clears its reset bit at once.
                regs.insert(addr, value & !0x8000);
                Outcome::Done
            }
            Step::Perform(Access::ReadConfig { .. }) => Outcome::Value(0),
            Step::Perform(Access::Delay { .. }) => Outcome::Done,
            Step::Perform(a) => mem.answer(a),
        };
        step = up.resume(outcome);
    }
    .unwrap();
    assert_eq!(mem.frames_given.len(), 7);
    assert_eq!(reports.len(), 6);
    assert_eq!(reports[0].device_present, Some(Ok(true)));
    assert_eq!(reports[1].signature, Some(Ok(0)));
    assert_eq!(reports[2].signature, None);
}

#[test]
fn ahci_bring_up_without_controller_fails() {
    let (_, step) = find_and_initialize_ahci_controller(&PciConfigSpace::new());
    assert!(matches!(step, Step::Finished(Err(AhciError::DeviceNotFound))));
}

#[test]
fn block_info_query_without_poll_budget_times_out_at_once() {
    let (mut q, mut step) = get_block_info(0x1000, 0);
    let mut polls = 0;
    let r = loop {
        let outcome = match step {
            Step::Finished(r) => break r,
            Step::Perform(Access::Read8 { .. }) => {
                polls += 1;
                Outcome::Value(1)
            }
            Step::Perform(_) => Outcome::Done,
        };
        step = q.resume(outcome);
    };
    assert_eq!(r, Err(VirtioError::Timeout));
    assert_eq!(polls, 0);
}

/// Other command-register offsets that earlier revisions of the AHCI driver used; the scan
/// reads the command register at 0x18, the one the live bring-up path relies on.
#[allow(dead_code)]
const PORT_CMD_OFFSET_ALTERNATIVES: [u32; 2] = [0x08, 0x20];

#[test]
fn port_scan_reads_nothing_above_four_gib() {
    let base = 0x1_0000_0000u64;
    // Neither the Ports Implemented register nor any port register lies below 4 GiB:
    // the scan finishes without a single access.
    let (_, step) = find_sata_devices(base);
    let reports = match step {
        Step::Finished(r) => r,
        Step::Perform(a) => panic!("unexpected access {:?}", a),
    };
    assert_eq!(reports.len(), 6);
    assert!(reports.iter().all(|r| r.signature == Some(Err(AhciError::InvalidMemoryAddress))));
    // Just below the limit the Ports Implemented register is out of the window too.
    let (_, step) = find_sata_devices(0xFFFF_FFF4);
    assert!(matches!(step, Step::Finished(_)));
    assert_eq!(test_os::device::ahci::PORT_CMD_OFFSET, 0x18);
    assert!(!PORT_CMD_OFFSET_ALTERNATIVES.contains(&test_os::device::ahci::PORT_CMD_OFFSET));
}
