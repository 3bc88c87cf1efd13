//! PCI bus scanning over a snapshot of configuration space.
use vstd::prelude::*;
use std::collections::HashMap;

pub mod ahci;
pub mod mmio;
pub mod scsi;
pub mod virtq;

verus! {

broadcast use vstd::std_specs::hash::group_hash_axioms;

/// What the configuration data port returns for an address with no device behind it.
pub const PCI_ABSENT: u32 = 0xFFFF_FFFF;

/// Number of buses scanned.
pub const PCI_BUS_COUNT: u32 = 256;

/// Number of slots on each bus.
pub const PCI_SLOT_COUNT: u32 = 32;

/// Number of functions of each slot.
pub const PCI_FUNCTION_COUNT: u32 = 8;

/// The address word written to the configuration address port (mechanism #1).
pub open spec fn config_address_spec(bus: u8, slot: u8, function: u8, offset: u8) -> u32 {
    (0x8000_0000 + bus * 0x1_0000 + slot * 0x800 + function * 0x100 + (offset - offset % 4)) as u32
}

/// Builds the word for the configuration address port: enable bit, bus, slot,
/// function, and the register offset rounded down to a dword.
pub fn config_address(bus: u8, slot: u8, function: u8, offset: u8) -> (r: u32)
    requires
        slot < 32,
        function < 8,
    ensures
        r == config_address_spec(bus, slot, function, offset),
{
    let r = ((bus as u32) << 16) | ((slot as u32) << 11) | ((function as u32) << 8) | ((offset as u32)
        & 0xfc) | 0x8000_0000;
    assert(r == (0x8000_0000 + bus * 0x1_0000 + slot * 0x800 + function * 0x100 + (offset - offset
        % 4)) as u32) by (bit_vector)
        requires
            slot < 32,
            function < 8,
            r == ((bus as u32) << 16) | ((slot as u32) << 11) | ((function as u32) << 8) | ((
            offset as u32) & 0xfc) | 0x8000_0000,
    ;
    r
}

/// The class, subclass and programming interface of a function
/// (configuration offset 0x08, bits 31:24, 23:16 and 15:8).
#[derive(Clone, Copy, Debug, PartialEq, Eq, Structural)]
pub struct PciDeviceClass {
    pub class_code: u8,
    pub subclass: u8,
    pub prog_if: u8,
}

pub open spec fn class_code_of(word: u32) -> u8 {
    (word / 0x100_0000) as u8
}

pub open spec fn subclass_of(word: u32) -> u8 {
    ((word / 0x1_0000) % 0x100) as u8
}

pub open spec fn prog_if_of(word: u32) -> u8 {
    ((word / 0x100) % 0x100) as u8
}

/// Splits the class register into its three fields.
pub fn decode_class(word: u32) -> (r: PciDeviceClass)
    ensures
        r.class_code == class_code_of(word),
        r.subclass == subclass_of(word),
        r.prog_if == prog_if_of(word),
{
    let class_code = (word >> 24) as u8;
    let subclass = (word >> 16) as u8;
    let prog_if = (word >> 8) as u8;
    assert(class_code == (word / 0x100_0000) as u8 && subclass == ((word / 0x1_0000) % 0x100) as u8
        && prog_if == ((word / 0x100) % 0x100) as u8) by (bit_vector)
        requires
            class_code == (word >> 24) as u8,
            subclass == (word >> 16) as u8,
            prog_if == (word >> 8) as u8,
    ;
    PciDeviceClass { class_code, subclass, prog_if }
}

/// A base address register describes a 64-bit memory window when its bits 2:1 are `0b10`.
pub open spec fn is_64bit_bar(low: u32) -> bool {
    low & 0x6 == 0x4
}

/// The window's base address: the low dword without its four attribute bits, and for a
/// 64-bit register the following dword as the upper half.
pub open spec fn bar_base_address(low: u32, high: u32) -> u64 {
    if is_64bit_bar(low) {
        ((low & 0xFFFF_FFF0) as u64) | ((high as u64) << 32)
    } else {
        (low & 0xFFFF_FFF0) as u64
    }
}

/// Computes the base address from a base address register and the dword after it.
pub fn decode_bar(low: u32, high: u32) -> (r: u64)
    ensures
        r == bar_base_address(low, high),
        is_64bit_bar(low) ==> r == ((low & 0xFFFF_FFF0) as u64) | ((high as u64) << 32),
        !is_64bit_bar(low) ==> r == (low & 0xFFFF_FFF0) as u64,
{
    let base = (low & 0xFFFF_FFF0) as u64;
    if low & 0x06 == 0x04 {
        base | ((high as u64) << 32)
    } else {
        base
    }
}

/// The words that configuration space returns, keyed by the address word that selects them.
/// Addresses missing from the snapshot read as [`PCI_ABSENT`].
pub struct PciConfigSpace {
    registers: HashMap<u32, u32>,
}

impl View for PciConfigSpace {
    type V = Map<u32, u32>;

    closed spec fn view(&self) -> Map<u32, u32> {
        self.registers@
    }
}

impl PciConfigSpace {
    /// The word read back for `(bus, slot, function, offset)`.
    pub open spec fn word(&self, bus: u8, slot: u8, function: u8, offset: u8) -> u32 {
        let a = config_address_spec(bus, slot, function, offset);
        if self@.contains_key(a) {
            self@[a]
        } else {
            PCI_ABSENT
        }
    }

    /// A snapshot with no device present.
    pub fn new() -> (r: PciConfigSpace)
        ensures
            r@ == Map::<u32, u32>::empty(),
    {
        PciConfigSpace { registers: HashMap::new() }
    }

    /// Records the word that the dword at `offset` of `(bus, slot, function)` holds.
    pub fn set_register(&mut self, bus: u8, slot: u8, function: u8, offset: u8, value: u32)
        requires
            slot < 32,
            function < 8,
        ensures
            final(self)@ == old(self)@.insert(config_address_spec(bus, slot, function, offset), value),
    {
        let a = config_address(bus, slot, function, offset);
        self.registers.insert(a, value);
    }

    /// Reads the dword at `offset` of `(bus, slot, function)`.
    pub fn read(&self, bus: u8, slot: u8, function: u8, offset: u8) -> (r: u32)
        requires
            slot < 32,
            function < 8,
        ensures
            r == self.word(bus, slot, function, offset),
    {
        let a = config_address(bus, slot, function, offset);
        match self.registers.get(&a) {
            Some(v) => *v,
            None => PCI_ABSENT,
        }
    }
}


/// Bus and slot of the `i`-th location in scan order (bus outer, slot inner).
pub open spec fn scan_bus(i: int) -> u8 {
    (i / 32) as u8
}

pub open spec fn scan_slot(i: int) -> u8 {
    (i % 32) as u8
}

/// Whether function 0 of the `i`-th location holds a device of the given class triple.
pub open spec fn class_matches(cfg: PciConfigSpace, i: int, class_code: u8, subclass: u8, prog_if: u8) -> bool {
    let (b, s) = (scan_bus(i), scan_slot(i));
    let w = cfg.word(b, s, 0, 8);
    &&& cfg.word(b, s, 0, 0) != PCI_ABSENT
    &&& class_code_of(w) == class_code
    &&& subclass_of(w) == subclass
    &&& prog_if_of(w) == prog_if
}

/// The base address that the register at `bar_offset` of location `i` describes.
pub open spec fn location_bar(cfg: PciConfigSpace, i: int, bar_offset: u8) -> u64 {
    let (b, s) = (scan_bus(i), scan_slot(i));
    bar_base_address(cfg.word(b, s, 0, bar_offset), cfg.word(b, s, 0, (bar_offset + 4) as u8))
}

/// `r` is what a scan for the class triple must report: the lowest location in scan order
/// whose function 0 is present and matches, with its base address; `None` when none matches.
pub open spec fn is_first_controller(
    cfg: PciConfigSpace,
    class_code: u8,
    subclass: u8,
    prog_if: u8,
    bar_offset: u8,
    r: Option<(u8, u8, u8, u64)>,
) -> bool {
    &&& r is None <==> forall|i: int| 0 <= i < 8192 ==> !class_matches(cfg, i, class_code, subclass, prog_if)
    &&& r matches Some((b, s, f, a)) ==> {
        let i = b * 32 + s;
        &&& s < 32 && f == 0
        &&& cfg.word(b, s, f, 0) != PCI_ABSENT
        &&& class_matches(cfg, i, class_code, subclass, prog_if)
        &&& forall|j: int| 0 <= j < i ==> !class_matches(cfg, j, class_code, subclass, prog_if)
        &&& a == location_bar(cfg, i, bar_offset)
    }
}

/// Reads the base address register at `bar_offset` (and the next one for a 64-bit window).
fn read_bar(cfg: &PciConfigSpace, bus: u8, slot: u8, bar_offset: u8) -> (r: u64)
    requires
        slot < 32,
        bar_offset <= 0xF8,
    ensures
        r == bar_base_address(cfg.word(bus, slot, 0, bar_offset), cfg.word(bus, slot, 0, (bar_offset + 4) as u8)),
{
    let low = cfg.read(bus, slot, 0, bar_offset);
    if low & 0x06 == 0x04 {
        let high = cfg.read(bus, slot, 0, bar_offset + 4);
        decode_bar(low, high)
    } else {
        decode_bar(low, 0)
    }
}

/// Scans function 0 of every slot of every bus, in order, for a device of the given
/// class triple, and returns the first one with the base address that its register at
/// `bar_offset` describes.
pub fn find_controller(cfg: &PciConfigSpace, class_code: u8, subclass: u8, prog_if: u8, bar_offset: u8) -> (r: Option<(u8, u8, u8, u64)>)
    requires
        bar_offset <= 0xF8,
    ensures
        is_first_controller(*cfg, class_code, subclass, prog_if, bar_offset, r),
{
    let mut i: u32 = 0;
    while i < 8192
        invariant
            i <= 8192,
            bar_offset <= 0xF8,
            forall|j: int| 0 <= j < i ==> !class_matches(*cfg, j, class_code, subclass, prog_if),
        decreases 8192 - i,
    {
        let bus = (i / 32) as u8;
        let slot = (i % 32) as u8;
        assert(bus == scan_bus(i as int) && slot == scan_slot(i as int));
        let vendor_device = cfg.read(bus, slot, 0, 0);
        if vendor_device != PCI_ABSENT {
            let class = decode_class(cfg.read(bus, slot, 0, 8));
            if class.class_code == class_code && class.subclass == subclass && class.prog_if == prog_if {
                let base = read_bar(cfg, bus, slot, bar_offset);
                assert(bus as int * 32 + slot as int == i);
                assert(class_matches(*cfg, i as int, class_code, subclass, prog_if));
                return Some((bus, slot, 0, base));
            }
        }
        i = i + 1;
    }
    None
}


/// Class triple of a serial ATA controller in AHCI mode.
pub const AHCI_CLASS: u8 = 0x01;
pub const AHCI_SUBCLASS: u8 = 0x06;
pub const AHCI_PROG_IF: u8 = 0x01;

/// Offset of BAR5, which holds the AHCI register window (ABAR).
pub const AHCI_BAR_OFFSET: u8 = 0x24;

/// Finds the first AHCI controller and the base address of its register window.
pub fn find_ahci_controller(cfg: &PciConfigSpace) -> (r: Option<(u8, u8, u8, u64)>)
    ensures
        is_first_controller(*cfg, AHCI_CLASS, AHCI_SUBCLASS, AHCI_PROG_IF, AHCI_BAR_OFFSET, r),
{
    find_controller(cfg, AHCI_CLASS, AHCI_SUBCLASS, AHCI_PROG_IF, AHCI_BAR_OFFSET)
}

/// Class and subclass of a SCSI mass-storage controller.
pub const SCSI_CLASS: u8 = 0x01;
pub const SCSI_SUBCLASS: u8 = 0x00;

/// Offset of the `k`-th base address register.
pub open spec fn bar_offset_of(k: int) -> u8 {
    (0x10 + 4 * k) as u8
}

/// A base address register that is implemented and assigned.
pub open spec fn usable_bar(w: u32) -> bool {
    w != 0 && w != PCI_ABSENT
}

pub open spec fn location_bar_word(cfg: PciConfigSpace, i: int, k: int) -> u32 {
    cfg.word(scan_bus(i), scan_slot(i), 0, bar_offset_of(k))
}

/// Location `i` holds a present SCSI controller with at least one usable register.
pub open spec fn scsi_candidate(cfg: PciConfigSpace, i: int) -> bool {
    let (b, s) = (scan_bus(i), scan_slot(i));
    let w = cfg.word(b, s, 0, 8);
    &&& cfg.word(b, s, 0, 0) != PCI_ABSENT
    &&& class_code_of(w) == SCSI_CLASS
    &&& subclass_of(w) == SCSI_SUBCLASS
    &&& exists|k: int| 0 <= k < 6 && usable_bar(#[trigger] location_bar_word(cfg, i, k))
}

/// Finds the first SCSI controller (any programming interface) and the base address
/// described by its first usable base address register.
pub fn find_scsi_controller(cfg: &PciConfigSpace) -> (r: Option<(u8, u8, u8, u64)>)
    ensures
        r is None <==> forall|i: int| 0 <= i < 8192 ==> !scsi_candidate(*cfg, i),
        r matches Some((b, s, f, a)) ==> {
            let i = b * 32 + s;
            &&& s < 32 && f == 0
            &&& cfg.word(b, s, f, 0) != PCI_ABSENT
            &&& scsi_candidate(*cfg, i)
            &&& forall|j: int| 0 <= j < i ==> !scsi_candidate(*cfg, j)
            &&& exists|k: int| 0 <= k < 6 && usable_bar(location_bar_word(*cfg, i, k))
                && (forall|k2: int| 0 <= k2 < k ==> !usable_bar(#[trigger] location_bar_word(*cfg, i, k2)))
                && a == location_bar(*cfg, i, bar_offset_of(k))
        },
{
    let mut i: u32 = 0;
    while i < 8192
        invariant
            i <= 8192,
            forall|j: int| 0 <= j < i ==> !scsi_candidate(*cfg, j),
        decreases 8192 - i,
    {
        let bus = (i / 32) as u8;
        let slot = (i % 32) as u8;
        assert(bus == scan_bus(i as int) && slot == scan_slot(i as int));
        assert(bus as int * 32 + slot as int == i);
        let vendor_device = cfg.read(bus, slot, 0, 0);
        if vendor_device != PCI_ABSENT {
            let class = decode_class(cfg.read(bus, slot, 0, 8));
            if class.class_code == SCSI_CLASS && class.subclass == SCSI_SUBCLASS {
                let mut k: u8 = 0;
                while k < 6
                    invariant
                        k <= 6,
                        bus == scan_bus(i as int) && slot == scan_slot(i as int),
                        slot < 32,
                        i < 8192,
                        bus as int * 32 + slot as int == i,
                        cfg.word(bus, slot, 0, 0) != PCI_ABSENT,
                        class_code_of(cfg.word(bus, slot, 0, 8)) == SCSI_CLASS,
                        subclass_of(cfg.word(bus, slot, 0, 8)) == SCSI_SUBCLASS,
                        forall|j: int| 0 <= j < i ==> !scsi_candidate(*cfg, j),
                        forall|k2: int| 0 <= k2 < k ==> !usable_bar(#[trigger] location_bar_word(*cfg, i as int, k2)),
                    decreases 6 - k,
                {
                    let offset: u8 = 0x10 + 4 * k;
                    assert(offset == bar_offset_of(k as int));
                    let bar = cfg.read(bus, slot, 0, offset);
                    if bar != 0 && bar != PCI_ABSENT {
                        let base = read_bar(cfg, bus, slot, offset);
                        assert(usable_bar(location_bar_word(*cfg, i as int, k as int)));
                        assert(scsi_candidate(*cfg, i as int));
                        return Some((bus, slot, 0, base));
                    }
                    k = k + 1;
                }
                assert(!scsi_candidate(*cfg, i as int));
            }
        }
        i = i + 1;
    }
    None
}

/// A function found present on the bus.
#[derive(Clone, Copy, Debug, PartialEq, Eq, Structural)]
pub struct PciDevice {
    pub bus: u8,
    pub slot: u8,
    pub function: u8,
    pub vendor_id: u16,
    pub device_id: u16,
    pub class: PciDeviceClass,
}

/// Bus, slot and function of the `n`-th function in scan order.
pub open spec fn function_bus(n: int) -> u8 {
    (n / 256) as u8
}

pub open spec fn function_slot(n: int) -> u8 {
    ((n / 8) % 32) as u8
}

pub open spec fn function_number(n: int) -> u8 {
    (n % 8) as u8
}

pub open spec fn function_word(cfg: PciConfigSpace, n: int, offset: u8) -> u32 {
    cfg.word(function_bus(n), function_slot(n), function_number(n), offset)
}

/// A function is present when its vendor identifier is not `0xFFFF`.
pub open spec fn function_present(cfg: PciConfigSpace, n: int) -> bool {
    function_word(cfg, n, 0) % 0x1_0000 != 0xFFFF
}

pub open spec fn device_at(cfg: PciConfigSpace, n: int) -> PciDevice {
    let id = function_word(cfg, n, 0);
    let c = function_word(cfg, n, 8);
    PciDevice {
        bus: function_bus(n),
        slot: function_slot(n),
        function: function_number(n),
        vendor_id: (id % 0x1_0000) as u16,
        device_id: (id / 0x1_0000) as u16,
        class: PciDeviceClass { class_code: class_code_of(c), subclass: subclass_of(c), prog_if: prog_if_of(c) },
    }
}

/// The present functions among the first `n` in scan order, in that order.
pub open spec fn devices_before(cfg: PciConfigSpace, n: nat) -> Seq<PciDevice>
    decreases n,
{
    if n == 0 {
        Seq::empty()
    } else {
        let prev = devices_before(cfg, (n - 1) as nat);
        if function_present(cfg, n - 1) {
            prev.push(device_at(cfg, n - 1))
        } else {
            prev
        }
    }
}

/// Lists every present function of every slot of every bus, in scan order.
pub fn get_all_devices(cfg: &PciConfigSpace) -> (r: Vec<PciDevice>)
    ensures
        r@ == devices_before(*cfg, 65536),
{
    let mut r: Vec<PciDevice> = Vec::new();
    let mut n: u32 = 0;
    while n < 65536
        invariant
            n <= 65536,
            r@ == devices_before(*cfg, n as nat),
        decreases 65536 - n,
    {
        let bus = (n / 256) as u8;
        let slot = ((n / 8) % 32) as u8;
        let function = (n % 8) as u8;
        assert(bus == function_bus(n as int) && slot == function_slot(n as int) && function
            == function_number(n as int));
        let id = cfg.read(bus, slot, function, 0);
        let vendor_id = (id & 0xFFFF) as u16;
        assert(vendor_id == id % 0x1_0000 && (vendor_id == 0xFFFF) == (id % 0x1_0000 == 0xFFFF))
            by (bit_vector)
            requires
                vendor_id == (id & 0xFFFF) as u16,
        ;
        if vendor_id != 0xFFFF {
            let device_id = (id >> 16) as u16;
            assert(device_id == (id / 0x1_0000) as u16) by (bit_vector)
                requires
                    device_id == (id >> 16) as u16,
            ;
            let class = decode_class(cfg.read(bus, slot, function, 8));
            r.push(PciDevice { bus, slot, function, vendor_id, device_id, class });
        }
        n = n + 1;
    }
    r
}

} // verus!
