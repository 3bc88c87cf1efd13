//! AHCI host controller: reset, port signatures and device detection.
use vstd::prelude::*;
use crate::device::mmio::{
    canonical, canonical_range, map_access, map_transition, page_of, Access, MapPhase, MmioMapping, Outcome, Step,
};
use crate::device::{is_first_controller, PciConfigSpace, AHCI_BAR_OFFSET, AHCI_CLASS, AHCI_PROG_IF, AHCI_SUBCLASS};
pub use crate::device::find_ahci_controller;

verus! {

/// Ports probed by the port scan.
pub const AHCI_CONTROLLER_DRIVE_COUNT: usize = 6;
/// Register memory per port.
pub const AHCI_CONTROLLER_MEMORY_PER_DRIVE: usize = 4096;
/// Register memory of a controller with all its probed ports.
pub const AHCI_MEMORY_SIZE: usize = 24576;

/// Capability register.
pub const AHCI_CAP_OFFSET: u64 = 0x00;
/// Global host control register.
pub const AHCI_GHC_OFFSET: u64 = 0x04;
/// AHCI enable bit of the global host control register.
pub const AHCI_GHC_AE: u32 = 0x0001;
/// Host reset bit of the global host control register.
pub const AHCI_GHC_HR: u32 = 0x8000;
/// Configuration-space dword that holds the vendor-specific port control and status
/// register (PCS, offset 0x92) in its upper half.
pub const PCS_CONFIG_OFFSET: u8 = 0x90;
/// Polls of the host reset bit before the reset is given up.
pub const MAX_RESET_ATTEMPTS: u32 = 10000;
/// Spin rounds between two polls.
pub const RESET_POLL_DELAY: u64 = 1000;

/// Distance between the register windows of two ports.
pub const PORT_STRIDE: u64 = 0x1000;
/// Signature register of a port.
pub const PORT_SIG_OFFSET: u32 = 0xA0;
/// Command register of a port.
pub const PORT_CMD_OFFSET: u32 = 0x18;
/// Bit of the command register that reports a device.
pub const PORT_DETECTED_MASK: u32 = 0x1;
/// Port registers must lie below this address.
pub const PORT_ADDRESS_LIMIT: u64 = 0x1_0000_0000;

/// Signatures of the devices a port can hold.
pub const PORT_SIG_SATA: u32 = 0x0000_0101;
pub const PORT_SIG_ATAPI: u32 = 0xEB14_0101;
pub const PORT_SIG_SCSI: u32 = 0x0000_8000;

pub const ATA_FLAG_SATA: u32 = 0x2;
pub const ATA_FLAG_PIO_DMA: u32 = 0x80;
pub const ATA_FLAG_ACPI_SATA: u32 = 0x2_0000;
pub const ATA_FLAG_AN: u32 = 0x4_0000;
/// Capability flags of an ordinary AHCI controller.
pub const AHCI_FLAG_COMMON: u32 = 0x6_0082;
pub const ATA_PIO4: u32 = 0x10;
pub const ATA_UDMA6: u32 = 0x40;
/// Quirk: the controller needs its port control and status register read after reset.
pub const AHCI_HFLAG_INTEL_PCS_QUIRK: u32 = 0x1000_0000;

/// Why an AHCI operation failed.
#[derive(Clone, Copy, Debug, PartialEq, Eq, Structural)]
pub enum AhciError {
    PciReadError,
    MemoryMappingError,
    /// A bounded wait ended without the expected register state.
    RegisterReadError,
    DeviceNotFound,
    InvalidSignature,
    /// A computed register address is null or outside the accepted window.
    InvalidMemoryAddress,
    PortInitializationFailed,
}

/// Register base of the controller that the machine this kernel targets exposes.
pub fn get_ahci_base_address() -> (r: Option<u64>)
    ensures
        r == Some(0xfebf_1000u64),
{
    Some(0xfebf_1000)
}

/// A controller register address: valid when it neither wraps nor is null.
pub open spec fn register_address_spec(base: u64, offset: u64) -> Result<u64, AhciError> {
    if base + offset > u64::MAX || base + offset == 0 {
        Err(AhciError::InvalidMemoryAddress)
    } else {
        Ok((base + offset) as u64)
    }
}

/// Computes the address of the controller register at `offset`, refusing a null or
/// wrapping one.
pub fn register_address(base: u64, offset: u64) -> (r: Result<u64, AhciError>)
    ensures
        r == register_address_spec(base, offset),
{
    if offset > u64::MAX - base || base + offset == 0 {
        Err(AhciError::InvalidMemoryAddress)
    } else {
        Ok(base + offset)
    }
}

/// A port register address: valid when it lies in `[base, 4 GiB)`.
pub open spec fn port_register_address_spec(base: u64, port: usize, offset: u32) -> Result<u64, AhciError> {
    let a = base + port * PORT_STRIDE + offset;
    if a < PORT_ADDRESS_LIMIT {
        Ok(a as u64)
    } else {
        Err(AhciError::InvalidMemoryAddress)
    }
}

/// Computes the address of register `offset` of port `port`, refusing one outside
/// `[base, 4 GiB)`.
pub fn port_register_address(base: u64, port: usize, offset: u32) -> (r: Result<u64, AhciError>)
    ensures
        r == port_register_address_spec(base, port, offset),
{
    if base >= PORT_ADDRESS_LIMIT || port as u64 >= PORT_ADDRESS_LIMIT / PORT_STRIDE {
        return Err(AhciError::InvalidMemoryAddress);
    }
    let a = base + port as u64 * PORT_STRIDE + offset as u64;
    if a < PORT_ADDRESS_LIMIT {
        Ok(a)
    } else {
        Err(AhciError::InvalidMemoryAddress)
    }
}

/// What a port signature says about the device behind the port.
pub open spec fn signature_description(sig: u32) -> Seq<char> {
    if sig == PORT_SIG_SATA {
        "SATA Device"@
    } else if sig == PORT_SIG_ATAPI {
        "ATAPI Device"@
    } else if sig == PORT_SIG_SCSI {
        "SCSI Device"@
    } else {
        "Unknown or Non-SATA Device"@
    }
}

/// Names the kind of device that a port signature announces.
pub fn interpret_port_signature(sig: u32) -> (r: &'static str)
    ensures
        r@ == signature_description(sig),
{
    if sig == PORT_SIG_SATA {
        "SATA Device"
    } else if sig == PORT_SIG_ATAPI {
        "ATAPI Device"
    } else if sig == PORT_SIG_SCSI {
        "SCSI Device"
    } else {
        "Unknown or Non-SATA Device"
    }
}

/// Whether a port's command register reports a device.
pub fn is_device_present(port_command: u32) -> (r: bool)
    ensures
        r == (port_command & PORT_DETECTED_MASK != 0),
{
    port_command & PORT_DETECTED_MASK != 0
}

/// Spins for `count` rounds.
pub fn busy_wait(count: u64) {
    let mut i: u64 = 0;
    while i < count
        invariant
            i <= count,
        decreases count - i,
    {
        i = i + 1;
    }
}


/// A controller: the base of its register window and its flags.
#[derive(Clone, Copy, Debug, PartialEq, Eq, Structural)]
pub struct AhciController {
    pub base_address: u64,
    pub hflags: u32,
    pub flags: u32,
    pub pio_mask: u32,
    pub udma_mask: u32,
}

/// Where a controller reset stands.
#[derive(Clone, Copy, Debug, PartialEq, Eq, Structural)]
pub enum ResetPhase {
    /// Reading the capability register (for information only).
    ReadCap,
    /// Reading the global host control register.
    ReadGhc,
    /// Writing it back with the enable and reset bits set.
    WriteGhc { value: u32 },
    /// Polling for the reset bit to clear; `attempts` polls found it set.
    Poll { attempts: u32 },
    /// Waiting before the next poll.
    Wait { attempts: u32 },
    /// Reading the global host control register once more after the reset.
    ReadGhcAfter,
    /// Reading the port control and status register, in configuration space, for the quirk.
    Quirk,
    Done,
    Failed(AhciError),
}

/// Resets a controller: sets the enable and reset bits of the global host control
/// register, polls until the reset bit clears (at most [`MAX_RESET_ATTEMPTS`] polls),
/// then applies the PCS quirk where the controller's flags ask for it.
#[derive(Clone, Copy, Debug, PartialEq, Eq, Structural)]
pub struct AhciReset {
    pub controller: AhciController,
    /// Where the controller sits on the PCI bus.
    pub bus: u8,
    pub slot: u8,
    pub function: u8,
    pub phase: ResetPhase,
}

/// The global host control register's address for a valid base.
pub open spec fn ghc_address(base: u64) -> u64 {
    (base + AHCI_GHC_OFFSET) as u64
}

/// The access that a reset asks for in its current state.
pub open spec fn reset_access(s: AhciReset) -> Access {
    let base = s.controller.base_address;
    match s.phase {
        ResetPhase::ReadCap => Access::Read32 { addr: base },
        ResetPhase::ReadGhc => Access::Read32 { addr: ghc_address(base) },
        ResetPhase::WriteGhc { value } => Access::Write32 { addr: ghc_address(base), value },
        ResetPhase::Poll { .. } => Access::Read32 { addr: ghc_address(base) },
        ResetPhase::Wait { .. } => Access::Delay { iterations: RESET_POLL_DELAY },
        ResetPhase::ReadGhcAfter => Access::Read32 { addr: ghc_address(base) },
        ResetPhase::Quirk => Access::ReadConfig { bus: s.bus, slot: s.slot, function: s.function, offset: PCS_CONFIG_OFFSET },
        _ => Access::Delay { iterations: 0 },
    }
}

/// What a reset asks next in a state.
pub open spec fn reset_step(s: AhciReset) -> Step<Result<(), AhciError>> {
    match s.phase {
        ResetPhase::Done => Step::Finished(Ok(())),
        ResetPhase::Failed(e) => Step::Finished(Err(e)),
        _ => Step::Perform(reset_access(s)),
    }
}

/// The state after the reset bit was seen clear and the register read again: the quirk
/// read when the flags ask for it, else done.
pub open spec fn after_reset(s: AhciReset) -> AhciReset {
    if s.controller.hflags & AHCI_HFLAG_INTEL_PCS_QUIRK != 0 {
        AhciReset { phase: ResetPhase::Quirk, ..s }
    } else {
        AhciReset { phase: ResetPhase::Done, ..s }
    }
}

/// The state of a reset after an outcome. An outcome of the wrong kind changes nothing.
pub open spec fn reset_next(s: AhciReset, o: Outcome) -> AhciReset {
    let to = |p: ResetPhase| AhciReset { phase: p, ..s };
    match (s.phase, o) {
        (ResetPhase::ReadCap, Outcome::Value(_)) => to(ResetPhase::ReadGhc),
        (ResetPhase::ReadGhc, Outcome::Value(v)) => to(ResetPhase::WriteGhc { value: (v as u32) | AHCI_GHC_AE | AHCI_GHC_HR }),
        (ResetPhase::WriteGhc { .. }, Outcome::Done) => to(ResetPhase::Poll { attempts: 0 }),
        (ResetPhase::Poll { attempts }, Outcome::Value(v)) => if (v as u32) & AHCI_GHC_HR == 0 {
            to(ResetPhase::ReadGhcAfter)
        } else if attempts + 1 >= MAX_RESET_ATTEMPTS {
            to(ResetPhase::Failed(AhciError::RegisterReadError))
        } else {
            to(ResetPhase::Wait { attempts: (attempts + 1) as u32 })
        },
        (ResetPhase::Wait { attempts }, Outcome::Done) => to(ResetPhase::Poll { attempts }),
        (ResetPhase::ReadGhcAfter, Outcome::Value(_)) => after_reset(s),
        (ResetPhase::Quirk, Outcome::Value(_)) => to(ResetPhase::Done),
        _ => s,
    }
}

impl AhciController {
    pub fn new(base_address: u64, hflags: u32, flags: u32, pio_mask: u32, udma_mask: u32) -> (r: AhciController)
        ensures
            r == (AhciController { base_address, hflags, flags, pio_mask, udma_mask }),
    {
        AhciController { base_address, hflags, flags, pio_mask, udma_mask }
    }

    /// Starts the reset of this controller. A base whose registers would wrap or be null
    /// is refused at once.
    pub fn initialize(&self, bus: u8, slot: u8, function: u8) -> (r: (AhciReset, Step<Result<(), AhciError>>))
        requires
            slot < 32,
            function < 8,
        ensures
            r.0.wf(),
            r.0.controller == *self,
            r.0.bus == bus && r.0.slot == slot && r.0.function == function,
            register_address_spec(self.base_address, AHCI_GHC_OFFSET) is Ok && self.base_address != 0
                ==> r.0.phase == ResetPhase::ReadCap,
            !(register_address_spec(self.base_address, AHCI_GHC_OFFSET) is Ok && self.base_address != 0)
                ==> r.0.phase == ResetPhase::Failed(AhciError::InvalidMemoryAddress),
            r.1 == reset_step(r.0),
    {
        let phase = match register_address(self.base_address, AHCI_GHC_OFFSET) {
            Ok(_) => if self.base_address != 0 { ResetPhase::ReadCap } else { ResetPhase::Failed(AhciError::InvalidMemoryAddress) },
            Err(e) => ResetPhase::Failed(e),
        };
        let s = AhciReset { controller: *self, bus, slot, function, phase };
        (s, s.step())
    }

    /// The configuration-space read of the PCS register that the quirk performs for the
    /// controller at `(bus, slot, function)`, when its flags ask for the quirk.
    pub fn apply_intel_pcs_quirk(&self, bus: u8, slot: u8, function: u8) -> (r: Option<Access>)
        ensures
            self.hflags & AHCI_HFLAG_INTEL_PCS_QUIRK != 0 ==> r == Some(Access::ReadConfig { bus, slot, function, offset: PCS_CONFIG_OFFSET }),
            self.hflags & AHCI_HFLAG_INTEL_PCS_QUIRK == 0 ==> r is None,
    {
        if self.hflags & AHCI_HFLAG_INTEL_PCS_QUIRK != 0 {
            Some(Access::ReadConfig { bus, slot, function, offset: PCS_CONFIG_OFFSET })
        } else {
            None
        }
    }
}

impl AhciReset {
    pub open spec fn wf(&self) -> bool {
        match self.phase {
            ResetPhase::Poll { attempts } => attempts < MAX_RESET_ATTEMPTS && self.regs_valid(),
            ResetPhase::Wait { attempts } => attempts < MAX_RESET_ATTEMPTS && self.regs_valid(),
            ResetPhase::Done | ResetPhase::Failed(_) | ResetPhase::Quirk => true,
            _ => self.regs_valid(),
        }
    }

    pub open spec fn regs_valid(&self) -> bool {
        self.controller.base_address + AHCI_GHC_OFFSET <= u64::MAX
    }

    /// What the reset asks next.
    pub fn step(&self) -> (r: Step<Result<(), AhciError>>)
        requires
            self.wf(),
        ensures
            r == reset_step(*self),
    {
        let base = self.controller.base_address;
        match self.phase {
            ResetPhase::ReadCap => Step::Perform(Access::Read32 { addr: base }),
            ResetPhase::ReadGhc => Step::Perform(Access::Read32 { addr: base + AHCI_GHC_OFFSET }),
            ResetPhase::WriteGhc { value } => Step::Perform(Access::Write32 { addr: base + AHCI_GHC_OFFSET, value }),
            ResetPhase::Poll { .. } => Step::Perform(Access::Read32 { addr: base + AHCI_GHC_OFFSET }),
            ResetPhase::Wait { .. } => Step::Perform(Access::Delay { iterations: RESET_POLL_DELAY }),
            ResetPhase::ReadGhcAfter => Step::Perform(Access::Read32 { addr: base + AHCI_GHC_OFFSET }),
            ResetPhase::Quirk => Step::Perform(Access::ReadConfig { bus: self.bus, slot: self.slot, function: self.function, offset: PCS_CONFIG_OFFSET }),
            ResetPhase::Done => Step::Finished(Ok(())),
            ResetPhase::Failed(e) => Step::Finished(Err(e)),
        }
    }

    /// Consumes the outcome of the access asked last and says what comes next.
    pub fn resume(&mut self, outcome: Outcome) -> (r: Step<Result<(), AhciError>>)
        requires
            old(self).wf(),
        ensures
            final(self).wf(),
            *final(self) == reset_next(*old(self), outcome),
            r == reset_step(*final(self)),
    {
        let next = match (self.phase, outcome) {
            (ResetPhase::ReadCap, Outcome::Value(_)) => ResetPhase::ReadGhc,
            (ResetPhase::ReadGhc, Outcome::Value(v)) => ResetPhase::WriteGhc { value: (v as u32) | AHCI_GHC_AE | AHCI_GHC_HR },
            (ResetPhase::WriteGhc { .. }, Outcome::Done) => ResetPhase::Poll { attempts: 0 },
            (ResetPhase::Poll { attempts }, Outcome::Value(v)) => {
                if (v as u32) & AHCI_GHC_HR == 0 {
                    ResetPhase::ReadGhcAfter
                } else if attempts + 1 >= MAX_RESET_ATTEMPTS {
                    ResetPhase::Failed(AhciError::RegisterReadError)
                } else {
                    ResetPhase::Wait { attempts: attempts + 1 }
                }
            },
            (ResetPhase::Wait { attempts }, Outcome::Done) => ResetPhase::Poll { attempts },
            (ResetPhase::ReadGhcAfter, Outcome::Value(_)) => {
                match self.controller.apply_intel_pcs_quirk(self.bus, self.slot, self.function) {
                    Some(_) => ResetPhase::Quirk,
                    None => ResetPhase::Done,
                }
            },
            (ResetPhase::Quirk, Outcome::Value(_)) => ResetPhase::Done,
            (p, _) => p,
        };
        self.phase = next;
        self.step()
    }
}

/// The reset of a controller at `base` with the common flags, PIO4, UDMA6 and the PCS
/// quirk, before its first access.
pub open spec fn reset_start(base: u64, bus: u8, slot: u8, function: u8) -> AhciReset {
    AhciReset {
        bus,
        slot,
        function,
        controller: AhciController {
            base_address: base,
            hflags: AHCI_HFLAG_INTEL_PCS_QUIRK,
            flags: AHCI_FLAG_COMMON,
            pio_mask: ATA_PIO4,
            udma_mask: ATA_UDMA6,
        },
        phase: if register_address_spec(base, AHCI_GHC_OFFSET) is Ok && base != 0 {
            ResetPhase::ReadCap
        } else {
            ResetPhase::Failed(AhciError::InvalidMemoryAddress)
        },
    }
}

/// Creates a controller at `base_address` with the common flags, PIO4, UDMA6 and the PCS
/// quirk, and starts its reset.
pub fn initialize_ahci_controller(base_address: u64, bus: u8, slot: u8, function: u8) -> (r: (AhciReset, Step<Result<(), AhciError>>))
    requires
        slot < 32,
        function < 8,
    ensures
        r.0.wf(),
        r.0 == reset_start(base_address, bus, slot, function),
        r.1 == reset_step(r.0),
{
    let c = AhciController::new(base_address, AHCI_HFLAG_INTEL_PCS_QUIRK, AHCI_FLAG_COMMON, ATA_PIO4, ATA_UDMA6);
    c.initialize(bus, slot, function)
}


/// How a controller whose registers always read `v` answers an access: reads give `v`,
/// writes and delays complete.
pub open spec fn fixed_register_outcome(s: AhciReset, v: u64) -> Outcome {
    match reset_access(s) {
        Access::Read32 { .. } => Outcome::Value(v),
        _ => Outcome::Done,
    }
}

/// How many of up to `fuel` steps of such a reset are polls of the reset bit.
pub open spec fn reset_polls_fixed(s: AhciReset, v: u64, fuel: nat) -> nat
    decreases fuel,
{
    if fuel == 0 || s.phase is Done || s.phase is Failed {
        0
    } else {
        (if s.phase is Poll { 1nat } else { 0nat }) + reset_polls_fixed(reset_next(s, fixed_register_outcome(s, v)), v, (fuel - 1) as nat)
    }
}

/// Up to `fuel` steps of a reset against a controller whose registers always read `v`.
pub open spec fn reset_run_fixed(s: AhciReset, v: u64, fuel: nat) -> AhciReset
    decreases fuel,
{
    if fuel == 0 || s.phase is Done || s.phase is Failed {
        s
    } else {
        reset_run_fixed(reset_next(s, fixed_register_outcome(s, v)), v, (fuel - 1) as nat)
    }
}

proof fn lemma_poll_gives_up(s: AhciReset, v: u64, fuel: nat)
    requires
        s.wf(),
        s.phase matches ResetPhase::Poll { attempts } && fuel >= 2 * (MAX_RESET_ATTEMPTS - 1 - attempts) + 1,
        (v as u32) & AHCI_GHC_HR != 0,
    ensures
        reset_run_fixed(s, v, fuel).phase == ResetPhase::Failed(AhciError::RegisterReadError),
        reset_polls_fixed(s, v, fuel) == MAX_RESET_ATTEMPTS - s.phase->Poll_attempts,
    decreases MAX_RESET_ATTEMPTS - s.phase->Poll_attempts,
{
    let attempts = s.phase->Poll_attempts;
    let s1 = reset_next(s, fixed_register_outcome(s, v));
    if attempts + 1 >= MAX_RESET_ATTEMPTS {
        assert(s1.phase == ResetPhase::Failed(AhciError::RegisterReadError));
        assert(reset_run_fixed(s1, v, (fuel - 1) as nat) == s1);
        assert(reset_polls_fixed(s1, v, (fuel - 1) as nat) == 0);
    } else {
        assert(s1.phase == ResetPhase::Wait { attempts: (attempts + 1) as u32 });
        let s2 = reset_next(s1, fixed_register_outcome(s1, v));
        assert(s2.phase == ResetPhase::Poll { attempts: (attempts + 1) as u32 });
        assert(reset_run_fixed(s1, v, (fuel - 1) as nat) == reset_run_fixed(s2, v, (fuel - 2) as nat));
        assert(reset_polls_fixed(s1, v, (fuel - 1) as nat) == reset_polls_fixed(s2, v, (fuel - 2) as nat));
        lemma_poll_gives_up(s2, v, (fuel - 2) as nat);
    }
}

/// A reset of a controller whose host reset bit never clears gives up with
/// `RegisterReadError` within `2 * MAX_RESET_ATTEMPTS + 2` steps: three to start the
/// reset, then exactly [`MAX_RESET_ATTEMPTS`] polls with a wait between two of them, and
/// nothing after the last poll (the session is finished).
pub proof fn lemma_reset_gives_up(controller: AhciController, bus: u8, slot: u8, function: u8, v: u64)
    requires
        controller.base_address != 0,
        controller.base_address + AHCI_GHC_OFFSET <= u64::MAX,
        (v as u32) & AHCI_GHC_HR != 0,
    ensures
        reset_run_fixed(AhciReset { controller, bus, slot, function, phase: ResetPhase::ReadCap }, v, (2 * MAX_RESET_ATTEMPTS + 2) as nat).phase
            == ResetPhase::Failed(AhciError::RegisterReadError),
        reset_polls_fixed(AhciReset { controller, bus, slot, function, phase: ResetPhase::ReadCap }, v, (2 * MAX_RESET_ATTEMPTS + 2) as nat)
            == MAX_RESET_ATTEMPTS,
{
    let fuel = (2 * MAX_RESET_ATTEMPTS + 2) as nat;
    let s0 = AhciReset { controller, bus, slot, function, phase: ResetPhase::ReadCap };
    let s1 = reset_next(s0, fixed_register_outcome(s0, v));
    assert(s1.phase == ResetPhase::ReadGhc);
    let s2 = reset_next(s1, fixed_register_outcome(s1, v));
    assert(s2.phase == ResetPhase::WriteGhc { value: (v as u32) | AHCI_GHC_AE | AHCI_GHC_HR });
    let s3 = reset_next(s2, fixed_register_outcome(s2, v));
    assert(s3.phase == ResetPhase::Poll { attempts: 0 });
    assert(reset_run_fixed(s0, v, fuel) == reset_run_fixed(s1, v, (fuel - 1) as nat));
    assert(reset_run_fixed(s1, v, (fuel - 1) as nat) == reset_run_fixed(s2, v, (fuel - 2) as nat));
    assert(reset_run_fixed(s2, v, (fuel - 2) as nat) == reset_run_fixed(s3, v, (fuel - 3) as nat));
    assert(reset_polls_fixed(s0, v, fuel) == reset_polls_fixed(s1, v, (fuel - 1) as nat));
    assert(reset_polls_fixed(s1, v, (fuel - 1) as nat) == reset_polls_fixed(s2, v, (fuel - 2) as nat));
    assert(reset_polls_fixed(s2, v, (fuel - 2) as nat) == reset_polls_fixed(s3, v, (fuel - 3) as nat));
    lemma_poll_gives_up(s3, v, (fuel - 3) as nat);
}


/// The Ports Implemented register.
pub const AHCI_PI_OFFSET: u32 = 0x0C;
/// Bits of the Ports Implemented register that the port scan considers.
pub const AHCI_PI_MASK: u32 = 0x3F;

/// Port `p` is marked implemented in the Ports Implemented value `pi`.
pub open spec fn port_implemented(pi: u32, p: int) -> bool {
    pi & (1u32 << (p as u32)) != 0
}

/// What the port scan found at one port.
#[derive(Clone, Copy, Debug, PartialEq, Eq)]
pub struct PortReport {
    pub port: usize,
    /// The signature register, or why it could not be addressed; `None` for a port that
    /// the Ports Implemented register leaves out, of which nothing is read.
    pub signature: Option<Result<u32, AhciError>>,
    /// For a port with the SATA signature: whether its command register reports a device.
    pub device_present: Option<Result<bool, AhciError>>,
}

/// Where a port scan stands.
#[derive(Clone, Copy, Debug, PartialEq, Eq, Structural)]
pub enum ScanPhase {
    /// Reading the Ports Implemented register.
    ReadPi { addr: u64 },
    /// Reading the signature register of the current port.
    ReadSig { addr: u64 },
    /// Reading the command register of the current port, whose signature is `sig`.
    ReadCmd { sig: u32, addr: u64 },
    Done,
}

/// Probes ports `0..AHCI_CONTROLLER_DRIVE_COUNT`: reads the Ports Implemented register,
/// then each implemented port's signature and, for a SATA signature, its command register.
/// A port left out of Ports Implemented is reported without being read; a register outside
/// `[base, 4 GiB)` is not read either, and the report says so.
#[derive(Debug)]
pub struct SataScan {
    pub base: u64,
    /// The Ports Implemented value, masked with [`AHCI_PI_MASK`].
    pub pi: u32,
    pub port: usize,
    pub phase: ScanPhase,
    pub reports: Vec<PortReport>,
}

/// Skips, from port `p` on, the ports that are not to be read: those that `pi` leaves out
/// and those whose signature register cannot be addressed, reporting each. Gives the first
/// port left to read (or the count, if none) and the reports.
pub open spec fn skip_ports(base: u64, pi: u32, p: int, reports: Seq<PortReport>) -> (int, Seq<PortReport>)
    decreases AHCI_CONTROLLER_DRIVE_COUNT - p,
{
    if p < 0 || p >= AHCI_CONTROLLER_DRIVE_COUNT {
        (p, reports)
    } else if !port_implemented(pi, p) {
        skip_ports(base, pi, p + 1, reports.push(PortReport { port: p as usize, signature: None, device_present: None }))
    } else if port_register_address_spec(base, p as usize, PORT_SIG_OFFSET) is Err {
        skip_ports(base, pi, p + 1, reports.push(PortReport {
            port: p as usize,
            signature: Some(Err(AhciError::InvalidMemoryAddress)),
            device_present: None,
        }))
    } else {
        (p, reports)
    }
}

/// The phase in which a scan that stands at port `p` continues.
pub open spec fn phase_at(base: u64, p: int) -> ScanPhase {
    if p >= AHCI_CONTROLLER_DRIVE_COUNT {
        ScanPhase::Done
    } else {
        ScanPhase::ReadSig { addr: port_register_address_spec(base, p as usize, PORT_SIG_OFFSET)->Ok_0 }
    }
}

/// The Ports Implemented value, port, phase and reports of a scan before its first access.
/// The Ports Implemented register is read only when it lies in `[base, 4 GiB)`, like every
/// port register; otherwise every port is tried, and each port's own address check decides.
pub open spec fn scan_start(base: u64) -> (u32, usize, ScanPhase, Seq<PortReport>) {
    match port_register_address_spec(base, 0, AHCI_PI_OFFSET) {
        Ok(addr) => (0, 0, ScanPhase::ReadPi { addr }, Seq::empty()),
        Err(_) => {
            let (p, reps) = skip_ports(base, AHCI_PI_MASK, 0, Seq::empty());
            (AHCI_PI_MASK, p as usize, phase_at(base, p), reps)
        },
    }
}

/// The Ports Implemented value, port, phase and reports of a scan after an outcome. An
/// outcome of the wrong kind changes nothing.
pub open spec fn scan_next(base: u64, pi: u32, port: usize, phase: ScanPhase, reports: Seq<PortReport>, o: Outcome) -> (u32, usize, ScanPhase, Seq<PortReport>) {
    let move_on = |r: PortReport| {
        let (p2, reps2) = skip_ports(base, pi, port + 1, reports.push(r));
        (pi, p2 as usize, phase_at(base, p2), reps2)
    };
    match (phase, o) {
        (ScanPhase::ReadPi { .. }, Outcome::Value(v)) => {
            let pi2 = (v as u32) & AHCI_PI_MASK;
            let (p2, reps2) = skip_ports(base, pi2, 0, reports);
            (pi2, p2 as usize, phase_at(base, p2), reps2)
        },
        (ScanPhase::ReadSig { .. }, Outcome::Value(v)) => {
            let sig = v as u32;
            if sig != PORT_SIG_SATA {
                move_on(PortReport { port, signature: Some(Ok(sig)), device_present: None })
            } else {
                match port_register_address_spec(base, port, PORT_CMD_OFFSET) {
                    Ok(addr) => (pi, port, ScanPhase::ReadCmd { sig, addr }, reports),
                    Err(e) => move_on(PortReport { port, signature: Some(Ok(sig)), device_present: Some(Err(e)) }),
                }
            }
        },
        (ScanPhase::ReadCmd { sig, .. }, Outcome::Value(c)) =>
            move_on(PortReport { port, signature: Some(Ok(sig)), device_present: Some(Ok((c as u32) & PORT_DETECTED_MASK != 0)) }),
        _ => (pi, port, phase, reports),
    }
}

/// The register a scan reads in a phase lies in `[base, 4 GiB)` and is the Ports
/// Implemented register, or one of the current port's, and that port is implemented: no
/// register of a port that `pi` leaves out is ever read.
pub open spec fn scan_reads_allowed(base: u64, pi: u32, port: usize, phase: ScanPhase) -> bool {
    match phase {
        ScanPhase::ReadPi { addr } => port_register_address_spec(base, 0, AHCI_PI_OFFSET) == Ok::<u64, AhciError>(addr),
        ScanPhase::ReadSig { addr } => port < AHCI_CONTROLLER_DRIVE_COUNT && port_implemented(pi, port as int)
            && port_register_address_spec(base, port, PORT_SIG_OFFSET) == Ok::<u64, AhciError>(addr),
        ScanPhase::ReadCmd { addr, .. } => port < AHCI_CONTROLLER_DRIVE_COUNT && port_implemented(pi, port as int)
            && port_register_address_spec(base, port, PORT_CMD_OFFSET) == Ok::<u64, AhciError>(addr),
        ScanPhase::Done => true,
    }
}

/// What a scan asks in a phase: a read, or its reports once done.
pub open spec fn scan_step_is(phase: ScanPhase, reports: Seq<PortReport>, r: Step<Vec<PortReport>>) -> bool {
    match phase {
        ScanPhase::ReadPi { addr } => r == Step::<Vec<PortReport>>::Perform(Access::Read32 { addr }),
        ScanPhase::ReadSig { addr } => r == Step::<Vec<PortReport>>::Perform(Access::Read32 { addr }),
        ScanPhase::ReadCmd { addr, .. } => r == Step::<Vec<PortReport>>::Perform(Access::Read32 { addr }),
        ScanPhase::Done => r matches Step::Finished(v) && v@ == reports,
    }
}

impl SataScan {
    pub open spec fn wf(&self) -> bool {
        &&& self.port <= AHCI_CONTROLLER_DRIVE_COUNT
        &&& self.reports@.len() == self.port
        &&& (self.phase is Done <==> self.port == AHCI_CONTROLLER_DRIVE_COUNT)
        &&& self.phase is ReadPi ==> self.port == 0
        &&& scan_reads_allowed(self.base, self.pi, self.port, self.phase)
    }

    /// Skips the ports from `self.port` on that are not to be read.
    fn enter_port(&mut self)
        requires
            old(self).port <= AHCI_CONTROLLER_DRIVE_COUNT,
            old(self).reports@.len() == old(self).port,
        ensures
            ({
                let (p, reps) = skip_ports(old(self).base, old(self).pi, old(self).port as int, old(self).reports@);
                &&& final(self).port == p
                &&& final(self).reports@ == reps
                &&& final(self).phase == phase_at(old(self).base, p)
                &&& final(self).base == old(self).base
                &&& final(self).pi == old(self).pi
            }),
            final(self).wf(),
    {
        let ghost target = skip_ports(self.base, self.pi, self.port as int, self.reports@);
        loop
            invariant
                self.port <= AHCI_CONTROLLER_DRIVE_COUNT,
                self.reports@.len() == self.port,
                self.base == old(self).base,
                self.pi == old(self).pi,
                skip_ports(self.base, self.pi, self.port as int, self.reports@) == target,
                target == skip_ports(old(self).base, old(self).pi, old(self).port as int, old(self).reports@),
            decreases AHCI_CONTROLLER_DRIVE_COUNT - self.port,
        {
            if self.port >= AHCI_CONTROLLER_DRIVE_COUNT {
                self.phase = ScanPhase::Done;
                return;
            }
            if self.pi & (1u32 << self.port as u32) == 0 {
                self.reports.push(PortReport { port: self.port, signature: None, device_present: None });
                self.port = self.port + 1;
            } else {
                match port_register_address(self.base, self.port, PORT_SIG_OFFSET) {
                    Ok(addr) => {
                        self.phase = ScanPhase::ReadSig { addr };
                        return;
                    },
                    Err(_) => {
                        self.reports.push(PortReport {
                            port: self.port,
                            signature: Some(Err(AhciError::InvalidMemoryAddress)),
                            device_present: None,
                        });
                        self.port = self.port + 1;
                    },
                }
            }
        }
    }

    /// What the scan asks next.
    pub fn step(&self) -> (r: Step<Vec<PortReport>>)
        ensures
            scan_step_is(self.phase, self.reports@, r),
    {
        match self.phase {
            ScanPhase::ReadPi { addr } => Step::Perform(Access::Read32 { addr }),
            ScanPhase::ReadSig { addr } => Step::Perform(Access::Read32 { addr }),
            ScanPhase::ReadCmd { addr, .. } => Step::Perform(Access::Read32 { addr }),
            ScanPhase::Done => Step::Finished(self.reports.clone()),
        }
    }

    /// Consumes the outcome of the access asked last and says what comes next.
    pub fn resume(&mut self, outcome: Outcome) -> (r: Step<Vec<PortReport>>)
        requires
            old(self).wf(),
        ensures
            final(self).wf(),
            final(self).base == old(self).base,
            (final(self).pi, final(self).port, final(self).phase, final(self).reports@)
                == scan_next(old(self).base, old(self).pi, old(self).port, old(self).phase, old(self).reports@, outcome),
            scan_reads_allowed(final(self).base, final(self).pi, final(self).port, final(self).phase),
            scan_step_is(final(self).phase, final(self).reports@, r),
    {
        match (self.phase, outcome) {
            (ScanPhase::ReadPi { .. }, Outcome::Value(v)) => {
                self.pi = (v as u32) & AHCI_PI_MASK;
                self.enter_port();
            },
            (ScanPhase::ReadSig { .. }, Outcome::Value(v)) => {
                let sig = v as u32;
                if sig != PORT_SIG_SATA {
                    self.reports.push(PortReport { port: self.port, signature: Some(Ok(sig)), device_present: None });
                    self.port = self.port + 1;
                    self.enter_port();
                } else {
                    match port_register_address(self.base, self.port, PORT_CMD_OFFSET) {
                        Ok(addr) => {
                            self.phase = ScanPhase::ReadCmd { sig, addr };
                        },
                        Err(e) => {
                            self.reports.push(PortReport { port: self.port, signature: Some(Ok(sig)), device_present: Some(Err(e)) });
                            self.port = self.port + 1;
                            self.enter_port();
                        },
                    }
                }
            },
            (ScanPhase::ReadCmd { sig, .. }, Outcome::Value(c)) => {
                let present = is_device_present(c as u32);
                self.reports.push(PortReport { port: self.port, signature: Some(Ok(sig)), device_present: Some(Ok(present)) });
                self.port = self.port + 1;
                self.enter_port();
            },
            _ => {},
        }
        self.step()
    }
}

/// Starts probing the ports of the controller whose registers start at `base_address`.
pub fn find_sata_devices(base_address: u64) -> (r: (SataScan, Step<Vec<PortReport>>))
    ensures
        r.0.wf(),
        r.0.base == base_address,
        (r.0.pi, r.0.port, r.0.phase, r.0.reports@) == scan_start(base_address),
        scan_reads_allowed(r.0.base, r.0.pi, r.0.port, r.0.phase),
        scan_step_is(r.0.phase, r.0.reports@, r.1),
{
    let mut s = SataScan { base: base_address, pi: 0, port: 0, phase: ScanPhase::Done, reports: Vec::new() };
    proof {
        assert(s.reports@ =~= Seq::<PortReport>::empty());
    }
    match port_register_address(base_address, 0, AHCI_PI_OFFSET) {
        Ok(addr) => {
            s.phase = ScanPhase::ReadPi { addr };
        },
        Err(_) => {
            s.pi = AHCI_PI_MASK;
            s.enter_port();
        },
    }
    let r = s.step();
    (s, r)
}

/// Where the bring-up of the first AHCI controller stands.
#[derive(Debug)]
pub enum BringUpPhase {
    /// Mapping the controller's register window.
    Mapping(MmioMapping),
    /// Resetting the controller.
    Resetting(AhciReset),
    /// Probing its ports.
    Scanning(SataScan),
    /// Finished, with what the port scan found.
    Done(Vec<PortReport>),
    Failed(AhciError),
}

/// Brings up the first AHCI controller of a configuration-space snapshot: maps its
/// [`AHCI_MEMORY_SIZE`] bytes of registers, resets it, then probes its ports.
#[derive(Debug)]
pub struct AhciBringUp {
    /// The controller found: bus, slot, function and register base.
    pub location: Option<(u8, u8, u8, u64)>,
    pub base: u64,
    pub bus: u8,
    pub slot: u8,
    pub function: u8,
    pub phase: BringUpPhase,
}

/// `p` is the phase in which a bring-up that starts its reset continues.
pub open spec fn entered_reset(base: u64, bus: u8, slot: u8, function: u8, p: &BringUpPhase) -> bool {
    let rs = reset_start(base, bus, slot, function);
    match rs.phase {
        ResetPhase::Failed(e) => *p == BringUpPhase::Failed(e),
        _ => *p == BringUpPhase::Resetting(rs),
    }
}

/// `p` is the phase in which a bring-up that starts its port scan continues.
pub open spec fn entered_scan(base: u64, p: &BringUpPhase) -> bool {
    let (pi, port, ph, reps) = scan_start(base);
    if ph is Done {
        p matches BringUpPhase::Done(v) && v@ == reps
    } else {
        p matches BringUpPhase::Scanning(sc) && sc.base == base && sc.pi == pi && sc.port == port
            && sc.reports@ == reps && sc.phase == ph
    }
}

/// `p2` is the phase of a bring-up of the controller at `(bus, slot, function)` with
/// registers at `base`, after outcome `o` in phase `p`.
pub open spec fn bringup_next_is(base: u64, bus: u8, slot: u8, function: u8, p: &BringUpPhase, o: Outcome, p2: &BringUpPhase) -> bool {
    match p {
        BringUpPhase::Mapping(m) => {
            let (m2, st) = map_transition(*m, o);
            match st {
                Step::Finished(Ok(())) => entered_reset(base, bus, slot, function, p2),
                Step::Finished(Err(_)) => *p2 == BringUpPhase::Failed(AhciError::MemoryMappingError),
                Step::Perform(_) => *p2 == BringUpPhase::Mapping(m2),
            }
        },
        BringUpPhase::Resetting(rs) => {
            let rs2 = reset_next(*rs, o);
            match rs2.phase {
                ResetPhase::Done => entered_scan(base, p2),
                ResetPhase::Failed(e) => *p2 == BringUpPhase::Failed(e),
                _ => *p2 == BringUpPhase::Resetting(rs2),
            }
        },
        BringUpPhase::Scanning(sc) => {
            let (pi, port, ph, reps) = scan_next(sc.base, sc.pi, sc.port, sc.phase, sc.reports@, o);
            if ph is Done {
                p2 matches BringUpPhase::Done(v) && v@ == reps
            } else {
                p2 matches BringUpPhase::Scanning(sc2) && sc2.base == sc.base && sc2.pi == pi && sc2.port == port
                    && sc2.phase == ph && sc2.reports@ == reps
            }
        },
        BringUpPhase::Done(v) => p2 matches BringUpPhase::Done(v2) && v2@ == v@,
        BringUpPhase::Failed(e) => *p2 == BringUpPhase::Failed(*e),
    }
}

/// `r` is what a bring-up asks in phase `p`: the access of the running stage, or the result.
pub open spec fn bringup_step_is(p: &BringUpPhase, r: &Step<Result<Vec<PortReport>, AhciError>>) -> bool {
    match p {
        BringUpPhase::Mapping(m) => *r == Step::<Result<Vec<PortReport>, AhciError>>::Perform(map_access(*m)),
        BringUpPhase::Resetting(rs) => *r == Step::<Result<Vec<PortReport>, AhciError>>::Perform(reset_access(*rs)),
        BringUpPhase::Scanning(sc) => match sc.phase {
            ScanPhase::ReadPi { addr } => *r == Step::<Result<Vec<PortReport>, AhciError>>::Perform(Access::Read32 { addr }),
            ScanPhase::ReadSig { addr } => *r == Step::<Result<Vec<PortReport>, AhciError>>::Perform(Access::Read32 { addr }),
            ScanPhase::ReadCmd { addr, .. } => *r == Step::<Result<Vec<PortReport>, AhciError>>::Perform(Access::Read32 { addr }),
            ScanPhase::Done => false,
        },
        BringUpPhase::Done(v) => r matches Step::Finished(Ok(v2)) && v2@ == v@,
        BringUpPhase::Failed(e) => *r == Step::<Result<Vec<PortReport>, AhciError>>::Finished(Err(*e)),
    }
}

impl AhciBringUp {
    pub open spec fn wf(&self) -> bool {
        &&& self.slot < 32 && self.function < 8
        &&& match &self.phase {
            BringUpPhase::Mapping(m) => m.wf() && !(m.phase is Done),
            BringUpPhase::Resetting(rs) => rs.wf() && !(rs.phase is Done) && !(rs.phase is Failed),
            BringUpPhase::Scanning(sc) => sc.wf() && sc.base == self.base && !(sc.phase is Done),
            _ => true,
        }
    }

    /// What the bring-up asks next.
    pub fn step(&self) -> (r: Step<Result<Vec<PortReport>, AhciError>>)
        requires
            self.wf(),
        ensures
            bringup_step_is(&self.phase, &r),
    {
        match &self.phase {
            BringUpPhase::Mapping(m) => Step::Perform(match m.phase {
                MapPhase::Translating => Access::TranslatePage { page: m.page },
                MapPhase::Allocating => Access::AllocateFrame,
                MapPhase::Mapping { frame } => Access::MapPage { page: m.page, frame },
                MapPhase::Done => Access::Delay { iterations: 0 },
            }),
            BringUpPhase::Resetting(rs) => match rs.step() {
                Step::Perform(a) => Step::Perform(a),
                Step::Finished(Ok(())) => Step::Finished(Ok(Vec::new())),
                Step::Finished(Err(e)) => Step::Finished(Err(e)),
            },
            BringUpPhase::Scanning(sc) => match sc.step() {
                Step::Perform(a) => Step::Perform(a),
                Step::Finished(v) => Step::Finished(Ok(v)),
            },
            BringUpPhase::Done(v) => Step::Finished(Ok(v.clone())),
            BringUpPhase::Failed(e) => Step::Finished(Err(*e)),
        }
    }

    /// The phase in which the reset starts.
    fn start_reset(base: u64, bus: u8, slot: u8, function: u8) -> (p: BringUpPhase)
        requires
            slot < 32,
            function < 8,
        ensures
            entered_reset(base, bus, slot, function, &p),
            p matches BringUpPhase::Resetting(rs) ==> rs.wf() && !(rs.phase is Done) && !(rs.phase is Failed),
    {
        let (rs, _) = initialize_ahci_controller(base, bus, slot, function);
        match rs.phase {
            ResetPhase::Failed(e) => BringUpPhase::Failed(e),
            _ => BringUpPhase::Resetting(rs),
        }
    }

    /// The phase in which the port scan starts.
    fn start_scan(base: u64) -> (p: BringUpPhase)
        ensures
            entered_scan(base, &p),
            p matches BringUpPhase::Scanning(sc) ==> sc.wf() && sc.base == base && !(sc.phase is Done),
    {
        let (sc, _) = find_sata_devices(base);
        match sc.phase {
            ScanPhase::Done => BringUpPhase::Done(sc.reports),
            _ => BringUpPhase::Scanning(sc),
        }
    }

    /// Consumes the outcome of the access asked last and says what comes next.
    pub fn resume(&mut self, outcome: Outcome) -> (r: Step<Result<Vec<PortReport>, AhciError>>)
        requires
            old(self).wf(),
        ensures
            final(self).wf(),
            final(self).base == old(self).base,
            final(self).location == old(self).location,
            final(self).bus == old(self).bus && final(self).slot == old(self).slot && final(self).function == old(self).function,
            bringup_next_is(old(self).base, old(self).bus, old(self).slot, old(self).function, &old(self).phase, outcome, &final(self).phase),
            bringup_step_is(&final(self).phase, &r),
    {
        let base = self.base;
        let mut phase = BringUpPhase::Failed(AhciError::DeviceNotFound);
        std::mem::swap(&mut phase, &mut self.phase);
        let next = match phase {
            BringUpPhase::Mapping(m) => {
                let mut m2 = m;
                match m2.resume(outcome) {
                    Step::Finished(Ok(())) => Self::start_reset(base, self.bus, self.slot, self.function),
                    Step::Finished(Err(_)) => BringUpPhase::Failed(AhciError::MemoryMappingError),
                    Step::Perform(_) => BringUpPhase::Mapping(m2),
                }
            },
            BringUpPhase::Resetting(rs) => {
                let mut rs2 = rs;
                let _ = rs2.resume(outcome);
                match rs2.phase {
                    ResetPhase::Done => Self::start_scan(base),
                    ResetPhase::Failed(e) => BringUpPhase::Failed(e),
                    _ => BringUpPhase::Resetting(rs2),
                }
            },
            BringUpPhase::Scanning(sc) => {
                let mut sc2 = sc;
                let _ = sc2.resume(outcome);
                match sc2.phase {
                    ScanPhase::Done => BringUpPhase::Done(sc2.reports),
                    _ => BringUpPhase::Scanning(sc2),
                }
            },
            other => other,
        };
        self.phase = next;
        self.step()
    }
}

/// Finds the first AHCI controller in `cfg` and starts bringing it up. Without one the
/// bring-up fails at once with `DeviceNotFound`; a register window that cannot be mapped
/// fails it with `InvalidMemoryAddress`.
pub fn find_and_initialize_ahci_controller(cfg: &PciConfigSpace) -> (r: (AhciBringUp, Step<Result<Vec<PortReport>, AhciError>>))
    ensures
        r.0.wf(),
        is_first_controller(*cfg, AHCI_CLASS, AHCI_SUBCLASS, AHCI_PROG_IF, AHCI_BAR_OFFSET, r.0.location),
        r.0.location is None ==> r.0.phase == BringUpPhase::Failed(AhciError::DeviceNotFound),
        r.0.location matches Some((b, s, f, a)) ==> {
            &&& r.0.base == a && r.0.bus == b && r.0.slot == s && r.0.function == f
            &&& !(a + AHCI_MEMORY_SIZE <= u64::MAX && canonical(a as int) && canonical(a + AHCI_MEMORY_SIZE))
                ==> r.0.phase == BringUpPhase::Failed(AhciError::InvalidMemoryAddress)
            &&& (a + AHCI_MEMORY_SIZE <= u64::MAX && canonical(a as int) && canonical(a + AHCI_MEMORY_SIZE))
                ==> r.0.phase == BringUpPhase::Mapping(MmioMapping {
                    page: page_of(a),
                    last_page: page_of((a + AHCI_MEMORY_SIZE) as u64),
                    phase: MapPhase::Translating,
                })
        },
        bringup_step_is(&r.0.phase, &r.1),
{
    let location = find_ahci_controller(cfg);
    let (base, bus, slot, function, phase) = match location {
        None => (0, 0, 0, 0, BringUpPhase::Failed(AhciError::DeviceNotFound)),
        Some((b, s, f, a)) => {
            if canonical_range(a, AHCI_MEMORY_SIZE) {
                let (m, _) = MmioMapping::new(a, AHCI_MEMORY_SIZE);
                (a, b, s, f, BringUpPhase::Mapping(m))
            } else {
                (a, b, s, f, BringUpPhase::Failed(AhciError::InvalidMemoryAddress))
            }
        },
    };
    let s = AhciBringUp { location, base, bus, slot, function, phase };
    let r = s.step();
    (s, r)
}

/// Registers of one port, as read from its register window.
#[derive(Clone, Copy, Debug, PartialEq, Eq, Structural)]
pub struct AhciPort {
    pub clb: u32,
    pub clbu: u32,
    pub fb: u32,
    pub fbu: u32,
    pub intr_status: u32,
    pub intr_enable: u32,
    pub cmd: u32,
    pub tfd: u32,
    pub sig: u32,
    pub ssts: u32,
    pub sctl: u32,
    pub serr: u32,
    pub sact: u32,
    pub ci: u32,
    pub sntf: u32,
    pub fbs: u32,
}

/// Generic host control registers and the 32 port register sets, as read from a
/// controller's register window.
#[derive(Clone, Copy, Debug)]
pub struct AhciHbaMem {
    pub cap: u32,
    pub ghc: u32,
    pub intr_status: u32,
    /// Ports implemented: bit `i` set when port `i` exists.
    pub pi: u32,
    pub vs: u32,
    pub ccc_ctl: u32,
    pub ccc_pts: u32,
    pub em_loc: u32,
    pub em_ctl: u32,
    pub cap2: u32,
    pub bohc: u32,
    pub ports: [AhciPort; 32],
}

/// Device detection field of a SATA status register (bits 3:0).
pub open spec fn ssts_det(ssts: u32) -> u32 {
    ssts & 0x0F
}

/// Interface power management field of a SATA status register (bits 11:8).
pub open spec fn ssts_ipm(ssts: u32) -> u32 {
    (ssts >> 8) & 0x0F
}

/// Port `i` is implemented and holds a device with an established link (detection 3)
/// in the active power state (power management 1).
pub open spec fn port_active(pi: u32, port: AhciPort, i: u32) -> bool {
    &&& pi & (1u32 << i) != 0
    &&& ssts_det(port.ssts) == 3
    &&& ssts_ipm(port.ssts) == 1
}

/// The active ports among the first `n`, in increasing order.
pub open spec fn active_ports_before(hba: AhciHbaMem, n: nat) -> Seq<usize>
    decreases n,
{
    if n == 0 {
        Seq::empty()
    } else {
        let prev = active_ports_before(hba, (n - 1) as nat);
        if port_active(hba.pi, hba.ports@[n - 1], (n - 1) as u32) {
            prev.push((n - 1) as usize)
        } else {
            prev
        }
    }
}

/// Lists the implemented ports whose SATA status shows an active device with its link up.
pub fn identify_sata_devices(hba_mem: &AhciHbaMem) -> (r: Vec<usize>)
    ensures
        r@ == active_ports_before(*hba_mem, 32),
{
    let mut r: Vec<usize> = Vec::new();
    let mut i: usize = 0;
    while i < 32
        invariant
            i <= 32,
            r@ == active_ports_before(*hba_mem, i as nat),
        decreases 32 - i,
    {
        let ssts = hba_mem.ports[i].ssts;
        let ipm = (ssts >> 8) & 0x0F;
        let det = ssts & 0x0F;
        if (hba_mem.pi & (1u32 << i as u32)) != 0 && det == 0x03 && ipm == 0x01 {
            r.push(i);
        }
        i = i + 1;
    }
    r
}

} // verus!
