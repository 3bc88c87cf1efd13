//! The accesses that drivers ask for, and the mapping of a memory-mapped I/O window.
use vstd::prelude::*;

verus! {

/// Size of a page and of a physical frame.
pub const PAGE_SIZE: u64 = 4096;

/// One access that a driver asks its caller to perform on its behalf.
#[derive(Debug)]
#[allow(inconsistent_fields)]
pub enum Access {
    /// Read the byte at `addr`.
    Read8 { addr: u64 },
    /// Read the 16-bit word at `addr`.
    Read16 { addr: u64 },
    /// Read the 32-bit word at `addr`.
    Read32 { addr: u64 },
    /// Write a byte to `addr`.
    Write8 { addr: u64, value: u8 },
    /// Write a 16-bit word to `addr`.
    Write16 { addr: u64, value: u16 },
    /// Write a 32-bit word to `addr`.
    Write32 { addr: u64, value: u32 },
    /// Copy `bytes` to device memory starting at `addr`.
    WriteBytes { addr: u64, bytes: Vec<u8> },
    /// Copy `len` bytes of device memory starting at `addr`.
    ReadBytes { addr: u64, len: usize },
    /// Read the configuration-space dword at `offset` of `(bus, slot, function)`.
    ReadConfig { bus: u8, slot: u8, function: u8, offset: u8 },
    /// Spin for `iterations` rounds before the next access.
    Delay { iterations: u64 },
    /// Ask the page table whether the page starting at `page` is mapped.
    TranslatePage { page: u64 },
    /// Take one physical frame from the frame allocator.
    AllocateFrame,
    /// Map the page starting at `page` to the frame starting at `frame`, present and writable.
    MapPage { page: u64, frame: u64 },
}

/// What came of the last access.
#[derive(Debug)]
pub enum Outcome {
    /// A read returned this value (zero-extended).
    Value(u64),
    /// A block read returned these bytes.
    Bytes(Vec<u8>),
    /// A write or a delay completed.
    Done,
    /// The page is mapped (`true`) or not (`false`).
    Translated(bool),
    /// The allocator gave this frame, or had none left.
    Frame(Option<u64>),
    /// The mapping was established, or the page table refused it.
    Mapped(Result<(), MapError>),
}

/// What a driver wants next: an access, or its final result.
#[derive(Debug)]
pub enum Step<T> {
    Perform(Access),
    Finished(T),
}

/// Why a window could not be mapped.
#[derive(Clone, Copy, Debug, PartialEq, Eq, Structural)]
pub enum MapError {
    /// The frame allocator had no frame left.
    FrameAllocationFailed,
    /// A parent entry of the page maps a huge page.
    ParentEntryHugePage,
    /// The page was already mapped.
    PageAlreadyMapped,
}

/// An address whose upper bits are a sign extension of bit 47, left as it is by the paging code.
pub open spec fn canonical(addr: int) -> bool {
    addr < 0x8000_0000_0000 || (0xFFFF_8000_0000_0000 <= addr && addr <= u64::MAX)
}

/// Whether a window of `length` bytes at `base` can be mapped: its ends neither wrap nor
/// leave the canonical address ranges.
pub fn canonical_range(base: u64, length: usize) -> (r: bool)
    ensures
        r == (base + length <= u64::MAX && canonical(base as int) && canonical(base + length)),
{
    if length as u64 > u64::MAX - base {
        return false;
    }
    let end = base + length as u64;
    (base < 0x8000_0000_0000 || base >= 0xFFFF_8000_0000_0000) && (end < 0x8000_0000_0000 || end >= 0xFFFF_8000_0000_0000)
}

/// Start of the page that contains `addr`.
pub open spec fn page_of(addr: u64) -> u64 {
    (addr - addr % 4096) as u64
}

/// Rounds an address down to the start of its page.
pub fn containing_page(addr: u64) -> (r: u64)
    ensures
        r == page_of(addr),
        r % 4096 == 0,
        r <= addr,
{
    let r = addr & !0xFFFu64;
    assert(r == addr - addr % 4096 && r % 4096 == 0) by (bit_vector)
        requires
            r == addr & !0xFFFu64,
    ;
    r
}

/// Where a mapping session stands.
#[derive(Clone, Copy, Debug, PartialEq, Eq, Structural)]
pub enum MapPhase {
    /// Asking whether the current page is mapped.
    Translating,
    /// Waiting for a frame for the current page.
    Allocating,
    /// Waiting for the page table to map the current page to `frame`.
    Mapping { frame: u64 },
    /// Finished.
    Done,
}

/// Maps the pages that cover `[base, base + length]` to freshly allocated frames, present
/// and writable, skipping every page that the page table already maps.
#[derive(Clone, Copy, Debug, PartialEq, Eq, Structural)]
pub struct MmioMapping {
    /// Start of the page being handled.
    pub page: u64,
    /// Start of the last page of the window.
    pub last_page: u64,
    pub phase: MapPhase,
}

/// The access that a mapping session asks for in its current state.
pub open spec fn map_access(s: MmioMapping) -> Access {
    match s.phase {
        MapPhase::Translating => Access::TranslatePage { page: s.page },
        MapPhase::Allocating => Access::AllocateFrame,
        MapPhase::Mapping { frame } => Access::MapPage { page: s.page, frame },
        MapPhase::Done => Access::Delay { iterations: 0 },
    }
}

/// The transition of a mapping session on an outcome: the session after it, and what it asks next.
pub open spec fn map_transition(s: MmioMapping, o: Outcome) -> (MmioMapping, Step<Result<(), MapError>>) {
    let next_page = MmioMapping { page: (s.page + PAGE_SIZE) as u64, last_page: s.last_page, phase: MapPhase::Translating };
    let finished = MmioMapping { phase: MapPhase::Done, ..s };
    match s.phase {
        MapPhase::Translating => match o {
            Outcome::Translated(true) => if s.page == s.last_page {
                (finished, Step::Finished(Ok(())))
            } else {
                (next_page, Step::Perform(Access::TranslatePage { page: next_page.page }))
            },
            Outcome::Translated(false) => (MmioMapping { phase: MapPhase::Allocating, ..s }, Step::Perform(Access::AllocateFrame)),
            _ => (s, Step::Perform(Access::TranslatePage { page: s.page })),
        },
        MapPhase::Allocating => match o {
            Outcome::Frame(Some(f)) => (MmioMapping { phase: MapPhase::Mapping { frame: f }, ..s }, Step::Perform(Access::MapPage { page: s.page, frame: f })),
            Outcome::Frame(None) => (finished, Step::Finished(Err(MapError::FrameAllocationFailed))),
            _ => (s, Step::Perform(Access::AllocateFrame)),
        },
        MapPhase::Mapping { frame } => match o {
            Outcome::Mapped(Ok(())) => if s.page == s.last_page {
                (finished, Step::Finished(Ok(())))
            } else {
                (next_page, Step::Perform(Access::TranslatePage { page: next_page.page }))
            },
            Outcome::Mapped(Err(e)) => (finished, Step::Finished(Err(e))),
            _ => (s, Step::Perform(Access::MapPage { page: s.page, frame })),
        },
        MapPhase::Done => (s, Step::Finished(Ok(()))),
    }
}

impl MmioMapping {
    /// Pages lie on page boundaries, in order, and the last one is reachable.
    pub open spec fn wf(&self) -> bool {
        &&& self.page % 4096 == 0
        &&& self.last_page % 4096 == 0
        &&& self.page <= self.last_page
    }

    /// Starts mapping the window of `length` bytes at `base`; the first access asks whether
    /// the page that contains `base` is mapped.
    pub fn new(base: u64, length: usize) -> (r: (MmioMapping, Step<Result<(), MapError>>))
        requires
            base + length <= u64::MAX,
            canonical(base as int),
            canonical(base + length),
        ensures
            r.0.wf(),
            r.0.page == page_of(base),
            r.0.last_page == page_of((base + length) as u64),
            r.0.phase == MapPhase::Translating,
            r.1 == Step::<Result<(), MapError>>::Perform(Access::TranslatePage { page: page_of(base) }),
    {
        let first = containing_page(base);
        let last = containing_page(base + length as u64);
        (MmioMapping { page: first, last_page: last, phase: MapPhase::Translating }, Step::Perform(Access::TranslatePage { page: first }))
    }

    /// Consumes the outcome of the access asked last and says what comes next. An outcome
    /// of the wrong kind leaves the session as it is and asks for the same access again.
    pub fn resume(&mut self, outcome: Outcome) -> (r: Step<Result<(), MapError>>)
        requires
            old(self).wf(),
        ensures
            final(self).wf(),
            (*final(self), r) == map_transition(*old(self), outcome),
    {
        let next = self.page;
        match self.phase {
            MapPhase::Translating => match outcome {
                Outcome::Translated(true) => self.advance(),
                Outcome::Translated(false) => {
                    self.phase = MapPhase::Allocating;
                    Step::Perform(Access::AllocateFrame)
                },
                _ => Step::Perform(Access::TranslatePage { page: next }),
            },
            MapPhase::Allocating => match outcome {
                Outcome::Frame(Some(f)) => {
                    self.phase = MapPhase::Mapping { frame: f };
                    Step::Perform(Access::MapPage { page: next, frame: f })
                },
                Outcome::Frame(None) => {
                    self.phase = MapPhase::Done;
                    Step::Finished(Err(MapError::FrameAllocationFailed))
                },
                _ => Step::Perform(Access::AllocateFrame),
            },
            MapPhase::Mapping { frame } => match outcome {
                Outcome::Mapped(Ok(())) => self.advance(),
                Outcome::Mapped(Err(e)) => {
                    self.phase = MapPhase::Done;
                    Step::Finished(Err(e))
                },
                _ => Step::Perform(Access::MapPage { page: next, frame }),
            },
            MapPhase::Done => Step::Finished(Ok(())),
        }
    }

    /// Moves past the current page, or finishes after the last one.
    fn advance(&mut self) -> (r: Step<Result<(), MapError>>)
        requires
            old(self).wf(),
        ensures
            final(self).wf(),
            old(self).page == old(self).last_page ==> *final(self) == (MmioMapping { phase: MapPhase::Done, ..*old(self) })
                && r == Step::<Result<(), MapError>>::Finished(Ok(())),
            old(self).page != old(self).last_page ==> *final(self) == (MmioMapping { page: (old(self).page + PAGE_SIZE) as u64, last_page: old(self).last_page, phase: MapPhase::Translating })
                && r == Step::<Result<(), MapError>>::Perform(Access::TranslatePage { page: (old(self).page + PAGE_SIZE) as u64 }),
    {
        if self.page == self.last_page {
            self.phase = MapPhase::Done;
            Step::Finished(Ok(()))
        } else {
            self.page = self.page + PAGE_SIZE;
            self.phase = MapPhase::Translating;
            Step::Perform(Access::TranslatePage { page: self.page })
        }
    }
}


/// The pages of `[first, last]`.
pub open spec fn pages_between(first: u64, last: u64) -> Set<u64> {
    Set::new(|p: u64| first <= p && p <= last && p % 4096 == 0)
}

/// The pages that a window of `length` bytes at `base` covers.
pub open spec fn window_pages(base: u64, length: usize) -> Set<u64> {
    pages_between(page_of(base), page_of((base + length) as u64))
}

/// One step of a session against a page table that answers truthfully and an allocator
/// that never runs out: the session after it, the mapped pages after it, and the pages
/// that received a frame in it.
pub open spec fn table_step(s: MmioMapping, mapped: Set<u64>) -> (MmioMapping, Set<u64>, Set<u64>) {
    let o = match s.phase {
        MapPhase::Translating => Outcome::Translated(mapped.contains(s.page)),
        MapPhase::Allocating => Outcome::Frame(Some(s.page)),
        MapPhase::Mapping { .. } => Outcome::Mapped(Ok(())),
        MapPhase::Done => Outcome::Done,
    };
    let mapped2 = if s.phase is Mapping { mapped.insert(s.page) } else { mapped };
    let given = if s.phase is Allocating { set![s.page] } else { Set::empty() };
    (map_transition(s, o).0, mapped2, given)
}

/// Up to `fuel` steps of a session against such a page table.
pub open spec fn table_run(s: MmioMapping, mapped: Set<u64>, fuel: nat) -> (MmioMapping, Set<u64>, Set<u64>)
    decreases fuel,
{
    if fuel == 0 || s.phase == MapPhase::Done {
        (s, mapped, Set::empty())
    } else {
        let (s2, m2, g) = table_step(s, mapped);
        let (s3, m3, g3) = table_run(s2, m2, (fuel - 1) as nat);
        (s3, m3, g.union(g3))
    }
}

/// Steps enough for a session that stands at page `first` to reach page `last`.
pub open spec fn map_fuel(first: u64, last: u64) -> nat {
    (3 * ((last - first) / 4096 + 1)) as nat
}

proof fn lemma_table_run(s: MmioMapping, mapped: Set<u64>, fuel: nat)
    requires
        s.wf(),
        s.phase == MapPhase::Translating,
        fuel >= map_fuel(s.page, s.last_page),
    ensures
        ({
            let (s2, m2, g) = table_run(s, mapped, fuel);
            &&& s2.phase == MapPhase::Done
            &&& m2 == mapped.union(pages_between(s.page, s.last_page))
            &&& g == pages_between(s.page, s.last_page).difference(mapped)
        }),
    decreases s.last_page - s.page,
{
    let p = s.page;
    let rest = pages_between((p + 4096) as u64, s.last_page);
    let all = pages_between(p, s.last_page);
    if p < s.last_page {
        assert(all =~= rest.insert(p));
    } else {
        assert(all =~= set![p]);
    }
    let after = MmioMapping { page: (p + PAGE_SIZE) as u64, last_page: s.last_page, phase: MapPhase::Translating };
    if mapped.contains(p) {
        let (s1, m1, g1) = table_step(s, mapped);
        assert(m1 == mapped && g1 =~= Set::<u64>::empty());
        if p == s.last_page {
            assert(s1.phase == MapPhase::Done);
            assert(table_run(s1, m1, (fuel - 1) as nat) == (s1, m1, Set::<u64>::empty()));
            assert(mapped.union(all) =~= mapped);
            assert(all.difference(mapped) =~= Set::<u64>::empty());
        } else {
            assert(s1 == after);
            lemma_table_run(after, mapped, (fuel - 1) as nat);
            assert(mapped.union(all) =~= mapped.union(rest));
            assert(all.difference(mapped) =~= rest.difference(mapped));
            assert(g1.union(rest.difference(mapped)) =~= rest.difference(mapped));
        }
    } else {
        let (s1, m1, g1) = table_step(s, mapped);
        assert(s1.phase == MapPhase::Allocating && m1 == mapped);
        let (s2, m2, g2) = table_step(s1, m1);
        assert(s2.phase == (MapPhase::Mapping { frame: p }) && m2 == mapped && g2 == set![p]);
        let (s3, m3, g3) = table_step(s2, m2);
        assert(m3 == mapped.insert(p) && g3 =~= Set::<u64>::empty());
        assert(table_run(s, mapped, fuel) == ({
            let (a, b, c) = table_run(s1, m1, (fuel - 1) as nat);
            (a, b, g1.union(c))
        }));
        assert(table_run(s1, m1, (fuel - 1) as nat) == ({
            let (a, b, c) = table_run(s2, m2, (fuel - 2) as nat);
            (a, b, g2.union(c))
        }));
        assert(table_run(s2, m2, (fuel - 2) as nat) == ({
            let (a, b, c) = table_run(s3, m3, (fuel - 3) as nat);
            (a, b, g3.union(c))
        }));
        if p == s.last_page {
            assert(s3.phase == MapPhase::Done);
            assert(mapped.union(all) =~= mapped.insert(p));
            assert(all.difference(mapped) =~= set![p]);
            assert(g1.union(g2.union(g3.union(Set::<u64>::empty()))) =~= set![p]);
        } else {
            assert(s3 == after);
            lemma_table_run(after, m3, (fuel - 3) as nat);
            assert(m3.union(rest) =~= mapped.union(all));
            let r3 = rest.difference(m3);
            assert(g1.union(g2.union(g3.union(r3))) =~= all.difference(mapped));
        }
    }
}

/// Mapping a window against a page table that answers truthfully and an allocator that
/// never runs out finishes, leaves every page of the window mapped, and gives a frame to
/// exactly the pages of the window that were not mapped before.
pub proof fn lemma_map_allocates_unmapped_pages(base: u64, length: usize, mapped: Set<u64>)
    requires
        base + length <= u64::MAX,
    ensures
        ({
            let s = MmioMapping { page: page_of(base), last_page: page_of((base + length) as u64), phase: MapPhase::Translating };
            let (s2, m2, g) = table_run(s, mapped, map_fuel(s.page, s.last_page));
            &&& s2.phase == MapPhase::Done
            &&& m2 == mapped.union(window_pages(base, length))
            &&& g == window_pages(base, length).difference(mapped)
        }),
{
    let s = MmioMapping { page: page_of(base), last_page: page_of((base + length) as u64), phase: MapPhase::Translating };
    assert(s.wf()) by {
        assert(base % 4096 <= base);
        assert(((base + length) as u64) - ((base + length) as u64) % 4096 >= base - base % 4096) by (nonlinear_arith)
            requires base + length <= u64::MAX;
    }
    lemma_table_run(s, mapped, map_fuel(s.page, s.last_page));
}

/// Mapping two windows one after the other never gives a frame, in the second mapping,
/// to a page that the first one covered or that was mapped before either.
pub proof fn lemma_map_twice_no_double_allocation(base1: u64, length1: usize, base2: u64, length2: usize, mapped: Set<u64>)
    requires
        base1 + length1 <= u64::MAX,
        base2 + length2 <= u64::MAX,
    ensures
        ({
            let s1 = MmioMapping { page: page_of(base1), last_page: page_of((base1 + length1) as u64), phase: MapPhase::Translating };
            let (_, m1, g1) = table_run(s1, mapped, map_fuel(s1.page, s1.last_page));
            let s2 = MmioMapping { page: page_of(base2), last_page: page_of((base2 + length2) as u64), phase: MapPhase::Translating };
            let (_, _, g2) = table_run(s2, m1, map_fuel(s2.page, s2.last_page));
            &&& g1 == window_pages(base1, length1).difference(mapped)
            &&& g2 == window_pages(base2, length2).difference(mapped.union(window_pages(base1, length1)))
            &&& g1.disjoint(g2)
            &&& g2.disjoint(window_pages(base1, length1))
        }),
{
    lemma_map_allocates_unmapped_pages(base1, length1, mapped);
    let w1 = window_pages(base1, length1);
    lemma_map_allocates_unmapped_pages(base2, length2, mapped.union(w1));
}

} // verus!
