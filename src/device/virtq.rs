//! Layout, allocation and registration of a split virtqueue.
use vstd::prelude::*;
use crate::device::mmio::{Access, Outcome, Step, PAGE_SIZE};

verus! {

/// Bytes of one descriptor: address (8), length (4), flags (2), next index (2).
pub const VIRTQ_DESC_SIZE: usize = 16;

/// Fixed part of the available ring: flags, index and a 256-entry ring of 16-bit indices.
pub const VIRTQ_AVAIL_FIXED: usize = 516;

/// Fixed part of the used ring: flags, index and a 256-entry ring of (id, length) pairs.
pub const VIRTQ_USED_FIXED: usize = 2052;

/// Bytes of one used-ring element: a 32-bit id and a 32-bit length.
pub const VIRTQ_USED_ELEM_SIZE: usize = 8;

/// Legacy virtio PCI registers, as offsets from the device's register base.
pub const VIRTIO_PCI_DEVICE_FEATURES: u64 = 0x10;
/// The device status byte. This legacy layout shares its offset with `QUEUE_SIZE`;
/// the two are kept as distinct registers here.
pub const VIRTIO_PCI_STATUS: u64 = 0x12;
pub const VIRTIO_PCI_QUEUE_SIZE: u64 = 0x12;
pub const VIRTIO_PCI_QUEUE_SEL: u64 = 0x14;
pub const VIRTIO_PCI_QUEUE_NOTIFY: u64 = 0x16;
pub const VIRTIO_PCI_QUEUE_PFN: u64 = 0x20;

/// Bytes that the three parts of a queue of `n` descriptors take before rounding.
pub open spec fn virtqueue_bytes(n: int) -> int {
    VIRTQ_DESC_SIZE * n + (VIRTQ_AVAIL_FIXED + 2 * n) + (VIRTQ_USED_FIXED + VIRTQ_USED_ELEM_SIZE * n)
}

/// `x` rounded up to a whole number of pages.
pub open spec fn round_up_to_page(x: int) -> int {
    ((x + 4095) / 4096) * 4096
}

/// The largest queue whose size arithmetic fits a `usize`.
pub open spec fn queue_size_fits(n: int) -> bool {
    26 * n + 2568 + 4095 <= usize::MAX
}

/// Bytes of memory a queue of `queue_size` descriptors needs, rounded up to whole pages.
pub fn calculate_virtqueue_size(queue_size: usize) -> (r: usize)
    requires
        queue_size_fits(queue_size as int),
    ensures
        r == round_up_to_page(virtqueue_bytes(queue_size as int)),
        r % 4096 == 0,
        r >= virtqueue_bytes(queue_size as int),
{
    let desc_size = VIRTQ_DESC_SIZE * queue_size;
    let avail_size = VIRTQ_AVAIL_FIXED + queue_size * 2;
    let used_size = VIRTQ_USED_FIXED + queue_size * VIRTQ_USED_ELEM_SIZE;
    let x = desc_size + avail_size + used_size + (PAGE_SIZE as usize - 1);
    let r = x & !4095usize;
    assert(r == x - x % 4096) by (bit_vector)
        requires
            r == x & !4095usize,
    ;
    assert(r == ((x / 4096) * 4096)) by (nonlinear_arith)
        requires r == x - x % 4096;
    r
}

/// The size is a whole number of pages for every queue size, and never shrinks as the
/// queue grows.
pub proof fn lemma_virtqueue_size_monotonic(n: int, m: int)
    requires
        0 <= n <= m,
        queue_size_fits(m),
    ensures
        round_up_to_page(virtqueue_bytes(n)) % 4096 == 0,
        round_up_to_page(virtqueue_bytes(n)) <= round_up_to_page(virtqueue_bytes(m)),
{
    let a = virtqueue_bytes(n) + 4095;
    let b = virtqueue_bytes(m) + 4095;
    assert(a <= b);
    assert((a / 4096) <= (b / 4096)) by (nonlinear_arith)
        requires a <= b, 0 <= a;
    assert((a / 4096) * 4096 <= (b / 4096) * 4096) by (nonlinear_arith)
        requires (a / 4096) <= (b / 4096);
    assert(((a / 4096) * 4096) % 4096 == 0) by (nonlinear_arith)
        requires 0 <= a;
}

/// Where the three parts of a queue lie, as offsets from the start of its memory.
#[derive(Clone, Copy, Debug, PartialEq, Eq, Structural)]
pub struct VirtioQueueLayout {
    pub descriptor_count: u16,
    pub desc_table_offset: usize,
    pub avail_ring_offset: usize,
    pub used_ring_offset: usize,
    pub total_size: usize,
}

/// The layout of a queue of `n` descriptors.
pub open spec fn queue_layout_spec(n: u16) -> VirtioQueueLayout {
    VirtioQueueLayout {
        descriptor_count: n,
        desc_table_offset: 0,
        avail_ring_offset: (VIRTQ_DESC_SIZE * n) as usize,
        used_ring_offset: (VIRTQ_DESC_SIZE * n + VIRTQ_AVAIL_FIXED + 2 * n) as usize,
        total_size: round_up_to_page(virtqueue_bytes(n as int)) as usize,
    }
}

/// Computes the layout of a queue of `descriptor_count` descriptors.
pub fn queue_layout(descriptor_count: u16) -> (r: VirtioQueueLayout)
    ensures
        r == queue_layout_spec(descriptor_count),
{
    let n = descriptor_count as usize;
    let total_size = calculate_virtqueue_size(n);
    VirtioQueueLayout {
        descriptor_count,
        desc_table_offset: 0,
        avail_ring_offset: VIRTQ_DESC_SIZE * n,
        used_ring_offset: VIRTQ_DESC_SIZE * n + VIRTQ_AVAIL_FIXED + 2 * n,
        total_size,
    }
}

/// Where the three parts of a registered queue lie in memory.
#[derive(Clone, Copy, Debug, PartialEq, Eq, Structural)]
pub struct VirtqueueRings {
    pub desc: u64,
    pub avail: u64,
    pub used: u64,
}

/// Why a queue could not be set up.
#[derive(Clone, Copy, Debug, PartialEq, Eq, Structural)]
pub enum VirtqueueError {
    /// No frame was left, the frames were not contiguous, or a page could not be mapped.
    MemoryMappingError,
}

/// Where a queue setup stands.
#[derive(Clone, Copy, Debug, PartialEq, Eq, Structural)]
pub enum SetupPhase {
    /// Waiting for a frame; `count` frames were received so far.
    Allocating { count: u64 },
    /// Asking whether page `index` of the queue is mapped.
    Translating { index: u64 },
    /// Waiting for page `index` to be mapped to its frame.
    Mapping { index: u64 },
    /// Writing the queue index to the queue-select register.
    Select,
    /// Writing the page frame number of the descriptor table.
    Pfn,
    /// Writing the queue size.
    Size,
    /// Notifying the device of the queue index.
    Notify,
    Done,
    Failed(VirtqueueError),
}

/// Allocates, maps and registers one virtqueue: `pages` contiguous frames are taken from
/// the allocator, each page at the same address as its frame is mapped unless it already
/// is, and the queue is then registered with the device.
#[derive(Clone, Copy, Debug, PartialEq, Eq, Structural)]
pub struct VirtqueueSetup {
    pub base: u64,
    pub queue_index: u16,
    pub layout: VirtioQueueLayout,
    /// Pages the queue takes.
    pub pages: u64,
    /// The first frame, once allocated.
    pub start: u64,
    pub phase: SetupPhase,
}

/// Page `i` of a queue whose memory starts at `start`.
pub open spec fn queue_page(start: u64, i: u64) -> u64 {
    (start + i * PAGE_SIZE) as u64
}

/// The access that a setup asks for in its current state.
pub open spec fn setup_access(s: VirtqueueSetup) -> Access {
    match s.phase {
        SetupPhase::Allocating { .. } => Access::AllocateFrame,
        SetupPhase::Translating { index } => Access::TranslatePage { page: queue_page(s.start, index) },
        SetupPhase::Mapping { index } => Access::MapPage { page: queue_page(s.start, index), frame: queue_page(s.start, index) },
        SetupPhase::Select => Access::Write16 { addr: (s.base + VIRTIO_PCI_QUEUE_SEL) as u64, value: s.queue_index },
        SetupPhase::Pfn => Access::Write32 { addr: (s.base + VIRTIO_PCI_QUEUE_PFN) as u64, value: (s.start / 4096) as u32 },
        SetupPhase::Size => Access::Write16 { addr: (s.base + VIRTIO_PCI_QUEUE_SIZE) as u64, value: s.layout.descriptor_count },
        SetupPhase::Notify => Access::Write16 { addr: (s.base + VIRTIO_PCI_QUEUE_NOTIFY) as u64, value: s.queue_index },
        _ => Access::Delay { iterations: 0 },
    }
}

/// The rings of a queue whose memory starts at `start`.
pub open spec fn rings_at(start: u64, layout: VirtioQueueLayout) -> VirtqueueRings {
    VirtqueueRings {
        desc: (start + layout.desc_table_offset) as u64,
        avail: (start + layout.avail_ring_offset) as u64,
        used: (start + layout.used_ring_offset) as u64,
    }
}

/// What a setup asks next in a state: an access, or its result once done or failed.
pub open spec fn setup_step(s: VirtqueueSetup) -> Step<Result<VirtqueueRings, VirtqueueError>> {
    match s.phase {
        SetupPhase::Done => Step::Finished(Ok(rings_at(s.start, s.layout))),
        SetupPhase::Failed(e) => Step::Finished(Err(e)),
        _ => Step::Perform(setup_access(s)),
    }
}

/// The state after the page with index `index` is handled.
pub open spec fn after_page(s: VirtqueueSetup, index: u64) -> VirtqueueSetup {
    if index + 1 == s.pages {
        VirtqueueSetup { phase: SetupPhase::Select, ..s }
    } else {
        VirtqueueSetup { phase: SetupPhase::Translating { index: (index + 1) as u64 }, ..s }
    }
}

/// The state of a setup after an outcome. An outcome of the wrong kind changes nothing.
pub open spec fn setup_next(s: VirtqueueSetup, o: Outcome) -> VirtqueueSetup {
    let fail = VirtqueueSetup { phase: SetupPhase::Failed(VirtqueueError::MemoryMappingError), ..s };
    match (s.phase, o) {
        (SetupPhase::Allocating { count }, Outcome::Frame(None)) => fail,
        (SetupPhase::Allocating { count }, Outcome::Frame(Some(f))) => {
            let start = if count == 0 { f } else { s.start };
            if f % 4096 != 0 || f != start + count * PAGE_SIZE || start + s.pages * PAGE_SIZE > 0x8000_0000_0000 {
                fail
            } else if count + 1 == s.pages {
                VirtqueueSetup { start, phase: SetupPhase::Translating { index: 0 }, ..s }
            } else {
                VirtqueueSetup { start, phase: SetupPhase::Allocating { count: (count + 1) as u64 }, ..s }
            }
        },
        (SetupPhase::Translating { index }, Outcome::Translated(true)) => after_page(s, index),
        (SetupPhase::Translating { index }, Outcome::Translated(false)) => VirtqueueSetup { phase: SetupPhase::Mapping { index }, ..s },
        (SetupPhase::Mapping { index }, Outcome::Mapped(Ok(()))) => after_page(s, index),
        (SetupPhase::Mapping { index }, Outcome::Mapped(Err(_))) => fail,
        (SetupPhase::Select, Outcome::Done) => VirtqueueSetup { phase: SetupPhase::Pfn, ..s },
        (SetupPhase::Pfn, Outcome::Done) => VirtqueueSetup { phase: SetupPhase::Size, ..s },
        (SetupPhase::Size, Outcome::Done) => VirtqueueSetup { phase: SetupPhase::Notify, ..s },
        (SetupPhase::Notify, Outcome::Done) => VirtqueueSetup { phase: SetupPhase::Done, ..s },
        _ => s,
    }
}

/// A setup that has not yet received its first frame.
pub open spec fn setup_initial(base: u64, queue_index: u16, queue_size: u16) -> VirtqueueSetup {
    VirtqueueSetup {
        base,
        queue_index,
        layout: queue_layout_spec(queue_size),
        pages: (queue_layout_spec(queue_size).total_size / 4096) as u64,
        start: 0,
        phase: SetupPhase::Allocating { count: 0 },
    }
}

/// Starts setting up queue `queue_index` of `queue_size` descriptors for the device
/// whose registers start at `base`; the first access asks for a frame.
pub fn initialize_virtqueue(base: u64, queue_index: u16, queue_size: u16) -> (r: (VirtqueueSetup, Step<Result<VirtqueueRings, VirtqueueError>>))
    requires
        base <= u64::MAX - 0x100,
    ensures
        r.0.wf(),
        r.0 == setup_initial(base, queue_index, queue_size),
        r.1 == Step::<Result<VirtqueueRings, VirtqueueError>>::Perform(Access::AllocateFrame),
{
    let layout = queue_layout(queue_size);
    let pages = (layout.total_size / PAGE_SIZE as usize) as u64;
    assert(layout.total_size <= 26 * 65535 + 2568 + 4095);
    assert(layout.total_size >= 2568);
    assert(pages * 4096 == layout.total_size && 1 <= pages <= 0x1000) by (nonlinear_arith)
        requires
            layout.total_size % 4096 == 0,
            2568 <= layout.total_size <= 26 * 65535 + 2568 + 4095,
            pages == layout.total_size / 4096,
    ;
    let s = VirtqueueSetup { base, queue_index, layout, pages, start: 0, phase: SetupPhase::Allocating { count: 0 } };
    (s, Step::Perform(Access::AllocateFrame))
}

impl VirtqueueSetup {
    /// Counters stay within the queue's pages, and the queue's memory stays below the
    /// canonical boundary once its first frame is known.
    pub open spec fn wf(&self) -> bool {
        &&& 1 <= self.pages <= 0x1000
        &&& self.base <= u64::MAX - 0x100
        &&& self.layout == queue_layout_spec(self.layout.descriptor_count)
        &&& self.pages * 4096 == self.layout.total_size
        &&& match self.phase {
            SetupPhase::Allocating { count } => count < self.pages && (count > 0 ==> self.start + self.pages * PAGE_SIZE <= 0x8000_0000_0000),
            SetupPhase::Translating { index } => index < self.pages && self.start + self.pages * PAGE_SIZE <= 0x8000_0000_0000,
            SetupPhase::Mapping { index } => index < self.pages && self.start + self.pages * PAGE_SIZE <= 0x8000_0000_0000,
            SetupPhase::Failed(_) => true,
            _ => self.start + self.pages * PAGE_SIZE <= 0x8000_0000_0000,
        }
    }

    /// What the setup asks next.
    pub fn step(&self) -> (r: Step<Result<VirtqueueRings, VirtqueueError>>)
        requires
            self.wf(),
        ensures
            r == setup_step(*self),
    {
        match self.phase {
            SetupPhase::Done => Step::Finished(Ok(VirtqueueRings {
                desc: self.start + self.layout.desc_table_offset as u64,
                avail: self.start + self.layout.avail_ring_offset as u64,
                used: self.start + self.layout.used_ring_offset as u64,
            })),
            SetupPhase::Failed(e) => Step::Finished(Err(e)),
            SetupPhase::Allocating { .. } => Step::Perform(Access::AllocateFrame),
            SetupPhase::Translating { index } => {
                let page = self.start + index * PAGE_SIZE;
                Step::Perform(Access::TranslatePage { page })
            },
            SetupPhase::Mapping { index } => {
                let page = self.start + index * PAGE_SIZE;
                Step::Perform(Access::MapPage { page, frame: page })
            },
            SetupPhase::Select => Step::Perform(Access::Write16 { addr: self.base + VIRTIO_PCI_QUEUE_SEL, value: self.queue_index }),
            SetupPhase::Pfn => Step::Perform(Access::Write32 { addr: self.base + VIRTIO_PCI_QUEUE_PFN, value: (self.start / 4096) as u32 }),
            SetupPhase::Size => Step::Perform(Access::Write16 { addr: self.base + VIRTIO_PCI_QUEUE_SIZE, value: self.layout.descriptor_count }),
            SetupPhase::Notify => Step::Perform(Access::Write16 { addr: self.base + VIRTIO_PCI_QUEUE_NOTIFY, value: self.queue_index }),
        }
    }

    /// Consumes the outcome of the access asked last and says what comes next.
    pub fn resume(&mut self, outcome: Outcome) -> (r: Step<Result<VirtqueueRings, VirtqueueError>>)
        requires
            old(self).wf(),
        ensures
            final(self).wf(),
            *final(self) == setup_next(*old(self), outcome),
            r == setup_step(*final(self)),
    {
        let fail = SetupPhase::Failed(VirtqueueError::MemoryMappingError);
        match (self.phase, outcome) {
            (SetupPhase::Allocating { .. }, Outcome::Frame(None)) => {
                self.phase = fail;
            },
            (SetupPhase::Allocating { count }, Outcome::Frame(Some(f))) => {
                let start = if count == 0 { f } else { self.start };
                if f % PAGE_SIZE != 0 || start > 0x8000_0000_0000 - self.pages * PAGE_SIZE
                    || f != start + count * PAGE_SIZE {
                    self.phase = fail;
                } else {
                    self.start = start;
                    if count + 1 == self.pages {
                        self.phase = SetupPhase::Translating { index: 0 };
                    } else {
                        self.phase = SetupPhase::Allocating { count: count + 1 };
                    }
                }
            },
            (SetupPhase::Translating { index }, Outcome::Translated(true)) => self.next_page(index),
            (SetupPhase::Translating { index }, Outcome::Translated(false)) => {
                self.phase = SetupPhase::Mapping { index };
            },
            (SetupPhase::Mapping { index }, Outcome::Mapped(Ok(()))) => self.next_page(index),
            (SetupPhase::Mapping { .. }, Outcome::Mapped(Err(_))) => {
                self.phase = fail;
            },
            (SetupPhase::Select, Outcome::Done) => {
                self.phase = SetupPhase::Pfn;
            },
            (SetupPhase::Pfn, Outcome::Done) => {
                self.phase = SetupPhase::Size;
            },
            (SetupPhase::Size, Outcome::Done) => {
                self.phase = SetupPhase::Notify;
            },
            (SetupPhase::Notify, Outcome::Done) => {
                self.phase = SetupPhase::Done;
            },
            _ => {},
        }
        self.step()
    }

    fn next_page(&mut self, index: u64)
        requires
            old(self).wf(),
            index < old(self).pages,
            old(self).start + old(self).pages * PAGE_SIZE <= 0x8000_0000_0000,
        ensures
            *final(self) == after_page(*old(self), index),
            final(self).wf(),
    {
        if index + 1 == self.pages {
            self.phase = SetupPhase::Select;
        } else {
            self.phase = SetupPhase::Translating { index: index + 1 };
        }
    }
}

} // verus!
