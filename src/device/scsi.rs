//! Virtio-SCSI bring-up and SCSI command blocks.
use vstd::prelude::*;
use byteorder::{BigEndian, ByteOrder};
use crate::device::mmio::{Access, Outcome, Step};
use crate::device::virtq::{
    initialize_virtqueue, setup_access, setup_initial, setup_next, rings_at, SetupPhase, VirtqueueRings, VirtqueueSetup, VIRTIO_PCI_DEVICE_FEATURES,
    VIRTIO_PCI_QUEUE_SEL, VIRTIO_PCI_QUEUE_SIZE, VIRTIO_PCI_STATUS,
};

verus! {

/// Operation codes of the three command blocks.
pub const SCSI_READ_CAPACITY_10: u8 = 0x25;
pub const SCSI_READ_10: u8 = 0x28;
pub const SCSI_WRITE_10: u8 = 0x2A;

/// Where a command block is copied, relative to the device's register base.
pub const COMMAND_BUFFER_OFFSET: u64 = 0x00;
/// The status byte polled for completion, relative to the register base.
pub const STATUS_REGISTER_OFFSET: u64 = 0x00;
/// Bit of the status byte that reports a completed command.
pub const STATUS_READY: u8 = 0x01;
/// Where the response of a command is read, relative to the register base.
pub const RESPONSE_OFFSET: u64 = 0x10;
/// The notify register that the command layer writes, relative to the register base.
/// The queue setup uses the legacy notify register at 0x16 instead.
pub const SCSI_QUEUE_NOTIFY: u64 = 0x50;

/// The byte of `lba` that weighs `unit` (1, 0x100, 0x1_0000 or 0x100_0000).
pub open spec fn lba_byte(lba: u64, unit: int) -> u8 {
    ((lba as int / unit) % 0x100) as u8
}

/// A ten-byte command block: operation code, the block address big-endian in bytes 2 to 5,
/// the transfer length (low byte only) in byte 8, every other byte zero.
pub open spec fn cdb10(opcode: u8, lba: u64, blocks: u8) -> Seq<u8> {
    seq![opcode, 0, lba_byte(lba, 0x100_0000), lba_byte(lba, 0x1_0000), lba_byte(lba, 0x100), lba_byte(lba, 1), 0, 0, blocks, 0]
}

/// The transfer length, in 512-byte blocks, that a buffer of `bytes` bytes asks for; only
/// its low byte is carried.
pub open spec fn transfer_blocks(bytes: usize) -> u8 {
    ((bytes / 512) % 0x100) as u8
}

fn command10(opcode: u8, lba: u64, blocks: u8) -> (r: [u8; 10])
    ensures
        r@ == cdb10(opcode, lba, blocks),
{
    let b3 = (lba >> 24) as u8;
    let b2 = (lba >> 16) as u8;
    let b1 = (lba >> 8) as u8;
    let b0 = (lba & 0xFF) as u8;
    assert(b3 == (lba / 0x100_0000) % 0x100 && b2 == (lba / 0x1_0000) % 0x100 && b1 == (lba / 0x100) % 0x100
        && b0 == lba % 0x100) by (bit_vector)
        requires
            b3 == (lba >> 24) as u8,
            b2 == (lba >> 16) as u8,
            b1 == (lba >> 8) as u8,
            b0 == (lba & 0xFF) as u8,
    ;
    let r: [u8; 10] = [opcode, 0, b3, b2, b1, b0, 0, 0, blocks, 0];
    assert(r@ =~= cdb10(opcode, lba, blocks));
    r
}

/// READ CAPACITY (10): asks for the number of the last block and the block size.
pub fn read_capacity_command() -> (r: [u8; 10])
    ensures
        r@ == cdb10(SCSI_READ_CAPACITY_10, 0, 0),
{
    command10(SCSI_READ_CAPACITY_10, 0, 0)
}

/// READ (10) of the blocks at `lba` that fill a buffer of `transfer_bytes` bytes.
pub fn read10_command(lba: u64, transfer_bytes: usize) -> (r: [u8; 10])
    ensures
        r@ == cdb10(SCSI_READ_10, lba, transfer_blocks(transfer_bytes)),
{
    command10(SCSI_READ_10, lba, block_count(transfer_bytes))
}

/// WRITE (10) of a buffer of `transfer_bytes` bytes to the blocks at `lba`.
pub fn write10_command(lba: u64, transfer_bytes: usize) -> (r: [u8; 10])
    ensures
        r@ == cdb10(SCSI_WRITE_10, lba, transfer_blocks(transfer_bytes)),
{
    command10(SCSI_WRITE_10, lba, block_count(transfer_bytes))
}

fn block_count(bytes: usize) -> (r: u8)
    ensures
        r == transfer_blocks(bytes),
{
    let r = (bytes >> 9) as u8;
    assert(r == (bytes / 512) % 0x100) by (bit_vector)
        requires
            r == (bytes >> 9) as u8,
    ;
    r
}

/// The big-endian 32-bit word at `i` of `b`.
pub open spec fn be_u32(b: Seq<u8>, i: int) -> u32 {
    (b[i] * 0x100_0000 + b[i + 1] * 0x1_0000 + b[i + 2] * 0x100 + b[i + 3]) as u32
}

/// Relies on byteorder's `BigEndian::read_u32`: the first four bytes of the slice as a
/// big-endian integer (it panics on a shorter slice).
#[verifier::external_body]
fn read_be_u32(buf: &[u8], start: usize) -> (r: u32)
    requires
        start + 4 <= buf@.len(),
    ensures
        r == be_u32(buf@, start as int),
{
    BigEndian::read_u32(&buf[start..])
}

/// Capacity reported by READ CAPACITY.
#[derive(Clone, Copy, Debug, PartialEq, Eq, Structural)]
pub struct BlockInfo {
    pub num_blocks: u64,
    pub block_size: u64,
}

impl BlockInfo {
    /// Total bytes: the number of blocks times the block size.
    pub fn total_size(&self) -> (r: u64)
        requires
            self.num_blocks <= u32::MAX,
            self.block_size <= u32::MAX,
        ensures
            r == self.num_blocks * self.block_size,
    {
        assert(self.num_blocks * self.block_size <= u32::MAX as int * u32::MAX as int) by (nonlinear_arith)
            requires self.num_blocks <= u32::MAX, self.block_size <= u32::MAX;
        self.num_blocks * self.block_size
    }
}

/// Decodes a READ CAPACITY response: two big-endian words, the number of blocks and the
/// block size.
pub fn decode_read_capacity(response: &[u8]) -> (r: BlockInfo)
    requires
        response@.len() >= 8,
    ensures
        r.num_blocks == be_u32(response@, 0),
        r.block_size == be_u32(response@, 4),
{
    let num_blocks = read_be_u32(response, 0) as u64;
    let block_size = read_be_u32(response, 4) as u64;
    BlockInfo { num_blocks, block_size }
}


/// Device status values, written one at a time in this order.
pub const VIRTIO_STATUS_RESET: u8 = 0x00;
pub const VIRTIO_STATUS_ACKNOWLEDGE: u8 = 0x01;
pub const VIRTIO_STATUS_DRIVER: u8 = 0x02;
pub const VIRTIO_STATUS_DRIVER_OK: u8 = 0x04;

/// Why a virtio-SCSI device could not be brought up or queried.
#[derive(Clone, Copy, Debug, PartialEq, Eq, Structural)]
pub enum VirtioError {
    /// The register base is null or too close to the top of the address space.
    InvalidBaseAddress,
    /// The device reports a size of zero for the requested queue.
    QueueUnavailable,
    /// The queue's memory could not be allocated or mapped.
    MemoryMappingError,
    /// The device did not report completion within the allowed number of polls.
    Timeout,
}

/// Where the bring-up of a virtio-SCSI device stands.
#[derive(Clone, Copy, Debug, PartialEq, Eq, Structural)]
pub enum InitPhase {
    Reset,
    Acknowledge,
    Driver,
    ReadFeatures,
    /// Accepting every feature that the device offers.
    WriteFeatures { features: u32 },
    SelectQueue,
    ReadQueueSize,
    /// Allocating, mapping and registering queue 0.
    Queue(VirtqueueSetup),
    DriverOk(VirtqueueRings),
    Done(VirtqueueRings),
    Failed(VirtioError),
}

/// Brings up a legacy virtio-SCSI device: reset, acknowledge, driver, feature
/// negotiation, discovery and setup of queue 0, then driver-ok.
#[derive(Clone, Copy, Debug, PartialEq, Eq, Structural)]
pub struct VirtioScsiInit {
    pub base: u64,
    pub phase: InitPhase,
}

/// The access that a bring-up asks for in its current state.
pub open spec fn init_access(s: VirtioScsiInit) -> Access {
    let status = (s.base + VIRTIO_PCI_STATUS) as u64;
    match s.phase {
        InitPhase::Reset => Access::Write8 { addr: status, value: VIRTIO_STATUS_RESET },
        InitPhase::Acknowledge => Access::Write8 { addr: status, value: VIRTIO_STATUS_ACKNOWLEDGE },
        InitPhase::Driver => Access::Write8 { addr: status, value: VIRTIO_STATUS_DRIVER },
        InitPhase::ReadFeatures => Access::Read32 { addr: (s.base + VIRTIO_PCI_DEVICE_FEATURES) as u64 },
        InitPhase::WriteFeatures { features } => Access::Write32 { addr: (s.base + VIRTIO_PCI_DEVICE_FEATURES) as u64, value: features },
        InitPhase::SelectQueue => Access::Write16 { addr: (s.base + VIRTIO_PCI_QUEUE_SEL) as u64, value: 0 },
        InitPhase::ReadQueueSize => Access::Read16 { addr: (s.base + VIRTIO_PCI_QUEUE_SIZE) as u64 },
        InitPhase::Queue(q) => setup_access(q),
        InitPhase::DriverOk(_) => Access::Write8 { addr: status, value: VIRTIO_STATUS_DRIVER_OK },
        _ => Access::Delay { iterations: 0 },
    }
}

/// What a bring-up asks next in a state.
pub open spec fn init_step(s: VirtioScsiInit) -> Step<Result<VirtqueueRings, VirtioError>> {
    match s.phase {
        InitPhase::Done(r) => Step::Finished(Ok(r)),
        InitPhase::Failed(e) => Step::Finished(Err(e)),
        _ => Step::Perform(init_access(s)),
    }
}

/// The state of a bring-up after an outcome. An outcome of the wrong kind changes nothing.
pub open spec fn init_next(s: VirtioScsiInit, o: Outcome) -> VirtioScsiInit {
    let to = |p: InitPhase| VirtioScsiInit { base: s.base, phase: p };
    match (s.phase, o) {
        (InitPhase::Reset, Outcome::Done) => to(InitPhase::Acknowledge),
        (InitPhase::Acknowledge, Outcome::Done) => to(InitPhase::Driver),
        (InitPhase::Driver, Outcome::Done) => to(InitPhase::ReadFeatures),
        (InitPhase::ReadFeatures, Outcome::Value(v)) => to(InitPhase::WriteFeatures { features: v as u32 }),
        (InitPhase::WriteFeatures { .. }, Outcome::Done) => to(InitPhase::SelectQueue),
        (InitPhase::SelectQueue, Outcome::Done) => to(InitPhase::ReadQueueSize),
        (InitPhase::ReadQueueSize, Outcome::Value(v)) => if v as u16 == 0 {
            to(InitPhase::Failed(VirtioError::QueueUnavailable))
        } else {
            to(InitPhase::Queue(setup_initial(s.base, 0, v as u16)))
        },
        (InitPhase::Queue(q), o) => {
            let q2 = setup_next(q, o);
            match q2.phase {
                SetupPhase::Done => to(InitPhase::DriverOk(rings_at(q2.start, q2.layout))),
                SetupPhase::Failed(_) => to(InitPhase::Failed(VirtioError::MemoryMappingError)),
                _ => to(InitPhase::Queue(q2)),
            }
        },
        (InitPhase::DriverOk(r), Outcome::Done) => to(InitPhase::Done(r)),
        _ => s,
    }
}

/// Starts bringing up the device whose registers start at `base`. A null base, or one
/// too close to the top of the address space, is refused at once.
pub fn initialize_virtio_scsi(base: u64) -> (r: (VirtioScsiInit, Step<Result<VirtqueueRings, VirtioError>>))
    ensures
        r.0.wf(),
        (base == 0 || base > u64::MAX - 0x100) ==> r.0.phase == InitPhase::Failed(VirtioError::InvalidBaseAddress),
        !(base == 0 || base > u64::MAX - 0x100) ==> r.0 == (VirtioScsiInit { base, phase: InitPhase::Reset }),
        r.1 == init_step(r.0),
{
    if base == 0 || base > u64::MAX - 0x100 {
        let s = VirtioScsiInit { base: 0, phase: InitPhase::Failed(VirtioError::InvalidBaseAddress) };
        (s, Step::Finished(Err(VirtioError::InvalidBaseAddress)))
    } else {
        let s = VirtioScsiInit { base, phase: InitPhase::Reset };
        (s, Step::Perform(Access::Write8 { addr: base + VIRTIO_PCI_STATUS, value: VIRTIO_STATUS_RESET }))
    }
}

impl VirtioScsiInit {
    pub open spec fn wf(&self) -> bool {
        &&& self.base <= u64::MAX - 0x100
        &&& match self.phase {
            InitPhase::Queue(q) => q.wf() && q.base == self.base && !(q.phase is Done) && !(q.phase is Failed),
            _ => true,
        }
    }

    /// What the bring-up asks next.
    pub fn step(&self) -> (r: Step<Result<VirtqueueRings, VirtioError>>)
        requires
            self.wf(),
        ensures
            r == init_step(*self),
    {
        let status = self.base + VIRTIO_PCI_STATUS;
        match self.phase {
            InitPhase::Reset => Step::Perform(Access::Write8 { addr: status, value: VIRTIO_STATUS_RESET }),
            InitPhase::Acknowledge => Step::Perform(Access::Write8 { addr: status, value: VIRTIO_STATUS_ACKNOWLEDGE }),
            InitPhase::Driver => Step::Perform(Access::Write8 { addr: status, value: VIRTIO_STATUS_DRIVER }),
            InitPhase::ReadFeatures => Step::Perform(Access::Read32 { addr: self.base + VIRTIO_PCI_DEVICE_FEATURES }),
            InitPhase::WriteFeatures { features } => Step::Perform(Access::Write32 { addr: self.base + VIRTIO_PCI_DEVICE_FEATURES, value: features }),
            InitPhase::SelectQueue => Step::Perform(Access::Write16 { addr: self.base + VIRTIO_PCI_QUEUE_SEL, value: 0 }),
            InitPhase::ReadQueueSize => Step::Perform(Access::Read16 { addr: self.base + VIRTIO_PCI_QUEUE_SIZE }),
            InitPhase::Queue(q) => match q.step() {
                Step::Perform(a) => Step::Perform(a),
                Step::Finished(Ok(r)) => Step::Finished(Ok(r)),
                Step::Finished(Err(_)) => Step::Finished(Err(VirtioError::MemoryMappingError)),
            },
            InitPhase::DriverOk(_) => Step::Perform(Access::Write8 { addr: status, value: VIRTIO_STATUS_DRIVER_OK }),
            InitPhase::Done(r) => Step::Finished(Ok(r)),
            InitPhase::Failed(e) => Step::Finished(Err(e)),
        }
    }

    /// Consumes the outcome of the access asked last and says what comes next.
    pub fn resume(&mut self, outcome: Outcome) -> (r: Step<Result<VirtqueueRings, VirtioError>>)
        requires
            old(self).wf(),
        ensures
            final(self).wf(),
            *final(self) == init_next(*old(self), outcome),
            r == init_step(*final(self)),
    {
        let next = match (self.phase, outcome) {
            (InitPhase::Reset, Outcome::Done) => InitPhase::Acknowledge,
            (InitPhase::Acknowledge, Outcome::Done) => InitPhase::Driver,
            (InitPhase::Driver, Outcome::Done) => InitPhase::ReadFeatures,
            (InitPhase::ReadFeatures, Outcome::Value(v)) => InitPhase::WriteFeatures { features: v as u32 },
            (InitPhase::WriteFeatures { .. }, Outcome::Done) => InitPhase::SelectQueue,
            (InitPhase::SelectQueue, Outcome::Done) => InitPhase::ReadQueueSize,
            (InitPhase::ReadQueueSize, Outcome::Value(v)) => {
                if v as u16 == 0 {
                    InitPhase::Failed(VirtioError::QueueUnavailable)
                } else {
                    let (q, _) = initialize_virtqueue(self.base, 0, v as u16);
                    InitPhase::Queue(q)
                }
            },
            (InitPhase::Queue(q), o) => {
                let mut q2 = q;
                let _ = q2.resume(o);
                match q2.phase {
                    SetupPhase::Done => InitPhase::DriverOk(VirtqueueRings {
                        desc: q2.start + q2.layout.desc_table_offset as u64,
                        avail: q2.start + q2.layout.avail_ring_offset as u64,
                        used: q2.start + q2.layout.used_ring_offset as u64,
                    }),
                    SetupPhase::Failed(_) => InitPhase::Failed(VirtioError::MemoryMappingError),
                    _ => InitPhase::Queue(q2),
                }
            },
            (InitPhase::DriverOk(r), Outcome::Done) => InitPhase::Done(r),
            (p, _) => p,
        };
        self.phase = next;
        self.step()
    }
}

/// Position of a phase in the bring-up order; a failure comes after everything.
pub open spec fn init_rank(p: InitPhase) -> int {
    match p {
        InitPhase::Reset => 0,
        InitPhase::Acknowledge => 1,
        InitPhase::Driver => 2,
        InitPhase::ReadFeatures => 3,
        InitPhase::WriteFeatures { .. } => 4,
        InitPhase::SelectQueue => 5,
        InitPhase::ReadQueueSize => 6,
        InitPhase::Queue(_) => 7,
        InitPhase::DriverOk(_) => 8,
        InitPhase::Done(_) => 9,
        InitPhase::Failed(_) => 10,
    }
}

/// The status value that a bring-up writes in a phase, if it writes one there.
pub open spec fn status_written(p: InitPhase) -> Option<u8> {
    match p {
        InitPhase::Reset => Some(VIRTIO_STATUS_RESET),
        InitPhase::Acknowledge => Some(VIRTIO_STATUS_ACKNOWLEDGE),
        InitPhase::Driver => Some(VIRTIO_STATUS_DRIVER),
        InitPhase::DriverOk(_) => Some(VIRTIO_STATUS_DRIVER_OK),
        _ => None,
    }
}

/// Whatever the outcome, a bring-up either stays where it is, stays in queue setup, moves
/// to the next phase of the order reset, acknowledge, driver, features, queue, driver-ok,
/// done, or fails. As only the reset, acknowledge, driver and driver-ok phases write the
/// status register (see [`status_written`]), the status values are written one at a time,
/// in the order 0, 1, 2, 4, and driver-ok only after the queue is set up.
pub proof fn lemma_status_order(s: VirtioScsiInit, o: Outcome)
    requires
        s.wf(),
    ensures
        ({
            let p2 = init_next(s, o).phase;
            ||| p2 == s.phase
            ||| (s.phase is Queue && p2 is Queue)
            ||| init_rank(p2) == init_rank(s.phase) + 1
            ||| p2 is Failed
        }),
        status_written(s.phase) matches Some(v) ==> init_access(s) == (Access::Write8 { addr: (s.base + VIRTIO_PCI_STATUS) as u64, value: v }),
        init_access(s) is Write8 ==> status_written(s.phase) is Some,
{
}

/// Where a READ CAPACITY query stands.
#[derive(Clone, Copy, Debug, PartialEq, Eq, Structural)]
pub enum QueryPhase {
    SendCommand,
    Notify,
    /// Polling the status byte; `attempts` polls found it not ready.
    Poll { attempts: u32 },
    ReadResponse,
    Done(BlockInfo),
    Failed(VirtioError),
}

/// Issues READ CAPACITY: copies the command block to the command buffer, notifies the
/// device, polls the status byte until its ready bit is set (at most `max_polls` times),
/// then reads and decodes the eight-byte response.
#[derive(Clone, Copy, Debug, PartialEq, Eq, Structural)]
pub struct BlockInfoQuery {
    pub base: u64,
    pub max_polls: u32,
    pub phase: QueryPhase,
}

/// The state of a query after an outcome. An outcome of the wrong kind changes nothing.
pub open spec fn query_next(s: BlockInfoQuery, o: Outcome) -> BlockInfoQuery {
    let to = |p: QueryPhase| BlockInfoQuery { phase: p, ..s };
    match (s.phase, o) {
        (QueryPhase::SendCommand, Outcome::Done) => to(QueryPhase::Notify),
        (QueryPhase::Notify, Outcome::Done) => if s.max_polls == 0 {
            to(QueryPhase::Failed(VirtioError::Timeout))
        } else {
            to(QueryPhase::Poll { attempts: 0 })
        },
        (QueryPhase::Poll { attempts }, Outcome::Value(v)) => if (v as u8) & STATUS_READY != 0 {
            to(QueryPhase::ReadResponse)
        } else if attempts + 1 >= s.max_polls {
            to(QueryPhase::Failed(VirtioError::Timeout))
        } else {
            to(QueryPhase::Poll { attempts: (attempts + 1) as u32 })
        },
        (QueryPhase::ReadResponse, Outcome::Bytes(b)) => if b@.len() >= 8 {
            to(QueryPhase::Done(BlockInfo { num_blocks: be_u32(b@, 0) as u64, block_size: be_u32(b@, 4) as u64 }))
        } else {
            s
        },
        _ => s,
    }
}

/// `r` is what a query asks in state `s`.
pub open spec fn query_step_is(s: BlockInfoQuery, r: Step<Result<BlockInfo, VirtioError>>) -> bool {
    match s.phase {
        QueryPhase::SendCommand => r matches Step::Perform(Access::WriteBytes { addr, bytes })
            && addr == s.base + COMMAND_BUFFER_OFFSET && bytes@ == cdb10(SCSI_READ_CAPACITY_10, 0, 0),
        QueryPhase::Notify => r == Step::<Result<BlockInfo, VirtioError>>::Perform(Access::Write8 { addr: (s.base + SCSI_QUEUE_NOTIFY) as u64, value: 1 }),
        QueryPhase::Poll { .. } => r == Step::<Result<BlockInfo, VirtioError>>::Perform(Access::Read8 { addr: (s.base + STATUS_REGISTER_OFFSET) as u64 }),
        QueryPhase::ReadResponse => r == Step::<Result<BlockInfo, VirtioError>>::Perform(Access::ReadBytes { addr: (s.base + RESPONSE_OFFSET) as u64, len: 8 }),
        QueryPhase::Done(info) => r == Step::<Result<BlockInfo, VirtioError>>::Finished(Ok(info)),
        QueryPhase::Failed(e) => r == Step::<Result<BlockInfo, VirtioError>>::Finished(Err(e)),
    }
}

/// Starts a READ CAPACITY query on the device whose registers start at `base_addr`,
/// allowing `max_polls` polls of the status byte (with none allowed, the query times out
/// right after the notification). A null base, or one too close to the top of the address
/// space, is refused at once.
pub fn get_block_info(base_addr: u64, max_polls: u32) -> (r: (BlockInfoQuery, Step<Result<BlockInfo, VirtioError>>))
    ensures
        r.0.wf(),
        (base_addr == 0 || base_addr > u64::MAX - 0x100) ==> r.0.phase == QueryPhase::Failed(VirtioError::InvalidBaseAddress),
        !(base_addr == 0 || base_addr > u64::MAX - 0x100) ==> r.0 == (BlockInfoQuery { base: base_addr, max_polls, phase: QueryPhase::SendCommand }),
        query_step_is(r.0, r.1),
{
    let s = if base_addr == 0 || base_addr > u64::MAX - 0x100 {
        BlockInfoQuery { base: 0, max_polls, phase: QueryPhase::Failed(VirtioError::InvalidBaseAddress) }
    } else {
        BlockInfoQuery { base: base_addr, max_polls, phase: QueryPhase::SendCommand }
    };
    let r = s.step();
    (s, r)
}

impl BlockInfoQuery {
    pub open spec fn wf(&self) -> bool {
        &&& self.base <= u64::MAX - 0x100
        &&& self.phase matches QueryPhase::Poll { attempts } ==> attempts < self.max_polls
    }

    /// What the query asks next.
    pub fn step(&self) -> (r: Step<Result<BlockInfo, VirtioError>>)
        requires
            self.wf(),
        ensures
            query_step_is(*self, r),
    {
        match self.phase {
            QueryPhase::SendCommand => {
                let cdb = read_capacity_command();
                let mut bytes: Vec<u8> = Vec::new();
                let mut i: usize = 0;
                while i < 10
                    invariant
                        i <= 10,
                        bytes@ == cdb@.subrange(0, i as int),
                    decreases 10 - i,
                {
                    bytes.push(cdb[i]);
                    i = i + 1;
                }
                assert(bytes@ =~= cdb@);
                Step::Perform(Access::WriteBytes { addr: self.base + COMMAND_BUFFER_OFFSET, bytes })
            },
            QueryPhase::Notify => Step::Perform(Access::Write8 { addr: self.base + SCSI_QUEUE_NOTIFY, value: 1 }),
            QueryPhase::Poll { .. } => Step::Perform(Access::Read8 { addr: self.base + STATUS_REGISTER_OFFSET }),
            QueryPhase::ReadResponse => Step::Perform(Access::ReadBytes { addr: self.base + RESPONSE_OFFSET, len: 8 }),
            QueryPhase::Done(info) => Step::Finished(Ok(info)),
            QueryPhase::Failed(e) => Step::Finished(Err(e)),
        }
    }

    /// Consumes the outcome of the access asked last and says what comes next.
    pub fn resume(&mut self, outcome: Outcome) -> (r: Step<Result<BlockInfo, VirtioError>>)
        requires
            old(self).wf(),
        ensures
            final(self).wf(),
            *final(self) == query_next(*old(self), outcome),
            query_step_is(*final(self), r),
    {
        let next = match (self.phase, outcome) {
            (QueryPhase::SendCommand, Outcome::Done) => QueryPhase::Notify,
            (QueryPhase::Notify, Outcome::Done) => {
                if self.max_polls == 0 {
                    QueryPhase::Failed(VirtioError::Timeout)
                } else {
                    QueryPhase::Poll { attempts: 0 }
                }
            },
            (QueryPhase::Poll { attempts }, Outcome::Value(v)) => {
                if (v as u8) & STATUS_READY != 0 {
                    QueryPhase::ReadResponse
                } else if attempts + 1 >= self.max_polls {
                    QueryPhase::Failed(VirtioError::Timeout)
                } else {
                    QueryPhase::Poll { attempts: attempts + 1 }
                }
            },
            (QueryPhase::ReadResponse, Outcome::Bytes(b)) => {
                if b.len() >= 8 {
                    QueryPhase::Done(decode_read_capacity(b.as_slice()))
                } else {
                    QueryPhase::ReadResponse
                }
            },
            (p, _) => p,
        };
        self.phase = next;
        self.step()
    }
}

} // verus!
