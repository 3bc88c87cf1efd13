//! In-memory block storage and the storage views that a filesystem sits on.
use vstd::prelude::*;

pub mod fat;
pub mod scsifs;
pub mod vfs;

verus! {

/// Bytes of an in-memory storage.
pub const RAM_SIZE: usize = 131072;

/// Where a seek counts from.
#[derive(Clone, Copy, Debug, PartialEq, Eq, Structural)]
pub enum SeekFrom {
    Start(u64),
    End(i64),
    Current(i64),
}

/// `s` with `data` written over it from index `at` on.
pub open spec fn splice(s: Seq<u8>, at: int, data: Seq<u8>) -> Seq<u8> {
    Seq::new(s.len(), |i: int| if at <= i < at + data.len() { data[i - at] } else { s[i] })
}

/// After `data` is written at `at`, the range `[at, at + data.len())` holds `data` and
/// every other byte is as before: a read of that range gives the data back.
pub proof fn lemma_splice_read_back(s: Seq<u8>, at: int, data: Seq<u8>)
    requires
        0 <= at,
        at + data.len() <= s.len(),
    ensures
        splice(s, at, data).len() == s.len(),
        splice(s, at, data).subrange(at, at + data.len()) == data,
        forall|i: int| 0 <= i < s.len() && !(at <= i < at + data.len()) ==> #[trigger] splice(s, at, data)[i] == s[i],
{
    assert(splice(s, at, data).subrange(at, at + data.len()) =~= data);
}

/// A byte store of [`RAM_SIZE`] bytes with a cursor for sequential access.
pub struct RamStorage {
    memory: Vec<u8>,
    position: usize,
}

impl RamStorage {
    /// The bytes held.
    pub closed spec fn contents(&self) -> Seq<u8> {
        self.memory@
    }

    /// The cursor of sequential access.
    pub closed spec fn cursor(&self) -> nat {
        self.position as nat
    }

    pub closed spec fn wf(&self) -> bool {
        self.memory@.len() == RAM_SIZE && self.position <= RAM_SIZE
    }

    /// A well-formed store holds exactly [`RAM_SIZE`] bytes and its cursor lies within them.
    pub proof fn lemma_wf_size(&self)
        requires
            self.wf(),
        ensures
            self.contents().len() == RAM_SIZE,
            self.cursor() <= RAM_SIZE,
    {
    }

    /// A zeroed store with its cursor at the start.
    pub fn new() -> (r: RamStorage)
        ensures
            r.wf(),
            r.contents().len() == RAM_SIZE,
            r.contents() == Seq::new(RAM_SIZE as nat, |i: int| 0u8),
            r.cursor() == 0,
    {
        let mut memory: Vec<u8> = Vec::new();
        let mut i: usize = 0;
        while i < RAM_SIZE
            invariant
                i <= RAM_SIZE,
                memory@ == Seq::new(i as nat, |j: int| 0u8),
            decreases RAM_SIZE - i,
        {
            memory.push(0);
            i = i + 1;
            assert(memory@ =~= Seq::new(i as nat, |j: int| 0u8));
        }
        RamStorage { memory, position: 0 }
    }

    /// Copies the bytes at `offset` into `buf`; refused when they run past the end.
    pub fn read(&self, offset: u64, buf: &mut [u8]) -> (r: Result<(), ()>)
        requires
            self.wf(),
        ensures
            r is Err <==> offset + old(buf)@.len() > RAM_SIZE,
            r is Ok ==> final(buf)@ == self.contents().subrange(offset as int, offset + old(buf)@.len()),
            r is Err ==> final(buf)@ == old(buf)@,
    {
        let len = buf.len();
        if offset > RAM_SIZE as u64 || len > RAM_SIZE - offset as usize {
            return Err(());
        }
        let start = offset as usize;
        let mut j: usize = 0;
        while j < len
            invariant
                j <= len,
                len == buf@.len(),
                start + len <= RAM_SIZE,
                self.memory@.len() == RAM_SIZE,
                forall|k: int| 0 <= k < j ==> buf@[k] == self.memory@[start + k],
            decreases len - j,
        {
            buf[j] = self.memory[start + j];
            j = j + 1;
        }
        assert(buf@ =~= self.contents().subrange(offset as int, offset + len));
        Ok(())
    }

    /// Copies `buf` to the bytes at `offset`; refused when they would run past the end.
    pub fn write(&mut self, offset: u64, buf: &[u8]) -> (r: Result<(), ()>)
        requires
            old(self).wf(),
        ensures
            final(self).wf(),
            final(self).contents().len() == RAM_SIZE,
            final(self).cursor() == old(self).cursor(),
            r is Err <==> offset + buf@.len() > RAM_SIZE,
            r is Ok ==> final(self).contents() == splice(old(self).contents(), offset as int, buf@),
            r is Err ==> final(self).contents() == old(self).contents(),
    {
        let len = buf.len();
        if offset > RAM_SIZE as u64 || len > RAM_SIZE - offset as usize {
            return Err(());
        }
        let start = offset as usize;
        let mut j: usize = 0;
        while j < len
            invariant
                j <= len,
                len == buf@.len(),
                start + len <= RAM_SIZE,
                self.memory@.len() == RAM_SIZE,
                self.position == old(self).position,
                self.memory@ == splice(old(self).memory@, start as int, buf@.subrange(0, j as int)),
            decreases len - j,
        {
            self.memory.set(start + j, buf[j]);
            j = j + 1;
            assert(self.memory@ =~= splice(old(self).memory@, start as int, buf@.subrange(0, j as int)));
        }
        assert(buf@.subrange(0, len as int) =~= buf@);
        Ok(())
    }

    /// Zeroes `len` bytes at `offset`; refused when they would run past the end.
    pub fn erase(&mut self, offset: u64, len: u64) -> (r: Result<(), ()>)
        requires
            old(self).wf(),
        ensures
            final(self).wf(),
            final(self).contents().len() == RAM_SIZE,
            final(self).cursor() == old(self).cursor(),
            r is Err <==> offset + len > RAM_SIZE,
            r is Ok ==> final(self).contents() == splice(old(self).contents(), offset as int, Seq::new(len as nat, |i: int| 0u8)),
            r is Err ==> final(self).contents() == old(self).contents(),
    {
        if offset > RAM_SIZE as u64 || len > RAM_SIZE as u64 - offset {
            return Err(());
        }
        let start = offset as usize;
        let n = len as usize;
        let mut j: usize = 0;
        while j < n
            invariant
                j <= n,
                n == len,
                start + n <= RAM_SIZE,
                self.memory@.len() == RAM_SIZE,
                self.position == old(self).position,
                self.memory@ == splice(old(self).memory@, start as int, Seq::new(j as nat, |i: int| 0u8)),
            decreases n - j,
        {
            self.memory.set(start + j, 0);
            j = j + 1;
            assert(self.memory@ =~= splice(old(self).memory@, start as int, Seq::new(j as nat, |i: int| 0u8)));
        }
        Ok(())
    }

    /// Reads from the cursor into `buf`, up to the end of the store, and moves the cursor
    /// past what was read; returns how many bytes were read.
    pub fn read_at_cursor(&mut self, buf: &mut [u8]) -> (r: usize)
        requires
            old(self).wf(),
        ensures
            final(self).wf(),
            final(self).contents().len() == RAM_SIZE,
            final(self).contents() == old(self).contents(),
            r == vstd::math::min(old(buf)@.len() as int, RAM_SIZE - old(self).cursor()),
            final(self).cursor() == old(self).cursor() + r,
            final(buf)@ == splice(old(buf)@, 0, old(self).contents().subrange(old(self).cursor() as int, old(self).cursor() + r)),
    {
        let pos = self.position;
        let n = if buf.len() < RAM_SIZE - pos { buf.len() } else { RAM_SIZE - pos };
        let mut j: usize = 0;
        while j < n
            invariant
                j <= n,
                n <= buf@.len(),
                pos + n <= RAM_SIZE,
                self.memory@.len() == RAM_SIZE,
                buf@.len() == old(buf)@.len(),
                buf@ == splice(old(buf)@, 0, self.memory@.subrange(pos as int, pos + j)),
            decreases n - j,
        {
            buf[j] = self.memory[pos + j];
            j = j + 1;
            assert(buf@ =~= splice(old(buf)@, 0, self.memory@.subrange(pos as int, pos + j)));
        }
        self.position = pos + n;
        n
    }

    /// Writes `buf` at the cursor, up to the end of the store, and moves the cursor past
    /// what was written; returns how many bytes were written.
    pub fn write_at_cursor(&mut self, buf: &[u8]) -> (r: usize)
        requires
            old(self).wf(),
        ensures
            final(self).wf(),
            final(self).contents().len() == RAM_SIZE,
            r == vstd::math::min(buf@.len() as int, RAM_SIZE - old(self).cursor()),
            final(self).cursor() == old(self).cursor() + r,
            final(self).contents() == splice(old(self).contents(), old(self).cursor() as int, buf@.subrange(0, r as int)),
    {
        let pos = self.position;
        let n = if buf.len() < RAM_SIZE - pos { buf.len() } else { RAM_SIZE - pos };
        let mut j: usize = 0;
        while j < n
            invariant
                j <= n,
                n <= buf@.len(),
                pos + n <= RAM_SIZE,
                pos == old(self).position,
                self.memory@.len() == RAM_SIZE,
                self.memory@ == splice(old(self).memory@, pos as int, buf@.subrange(0, j as int)),
            decreases n - j,
        {
            self.memory.set(pos + j, buf[j]);
            j = j + 1;
            assert(self.memory@ =~= splice(old(self).memory@, pos as int, buf@.subrange(0, j as int)));
        }
        self.position = pos + n;
        n
    }

    /// Moves the cursor; refused when the target lies outside `[0, RAM_SIZE]`.
    pub fn seek(&mut self, pos: SeekFrom) -> (r: Result<u64, ()>)
        requires
            old(self).wf(),
        ensures
            final(self).wf(),
            final(self).contents().len() == RAM_SIZE,
            final(self).contents() == old(self).contents(),
            ({
                let target: int = match pos {
                    SeekFrom::Start(o) => o as int,
                    SeekFrom::End(o) => RAM_SIZE + o,
                    SeekFrom::Current(o) => old(self).cursor() + o,
                };
                &&& r is Ok <==> 0 <= target <= RAM_SIZE
                &&& r is Ok ==> r == Ok::<u64, ()>(target as u64) && final(self).cursor() == target
                &&& r is Err ==> final(self).cursor() == old(self).cursor()
            }),
    {
        let target: i128 = match pos {
            SeekFrom::Start(o) => o as i128,
            SeekFrom::End(o) => RAM_SIZE as i128 + o as i128,
            SeekFrom::Current(o) => self.position as i128 + o as i128,
        };
        if target < 0 || target > RAM_SIZE as i128 {
            return Err(());
        }
        self.position = target as usize;
        Ok(target as u64)
    }

    /// Sequential writes need no flushing.
    pub fn flush(&mut self) -> (r: Result<(), ()>)
        ensures
            r is Ok,
            *final(self) == *old(self),
    {
        Ok(())
    }
}

} // verus!
