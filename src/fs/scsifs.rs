//! A block device over a SCSI target, seen as a byte stream.
use vstd::prelude::*;
use crate::device::scsi::{cdb10, read10_command, transfer_blocks, write10_command, SCSI_READ_10, SCSI_WRITE_10};
use crate::fs::SeekFrom;

verus! {

/// Block sizes that a FAT volume on a SCSI target may use.
pub fn supported_block_size(block_size: u64) -> (r: bool)
    ensures
        r == (512 <= block_size <= 4096),
{
    512 <= block_size && block_size <= 4096
}

/// Which bytes of which block a sequential access touches.
#[derive(Clone, Copy, Debug, PartialEq, Eq, Structural)]
pub struct BlockTransfer {
    /// The block that holds the cursor.
    pub block: u64,
    /// Where the cursor lies inside that block.
    pub offset: usize,
    /// How many bytes are moved: what was asked, up to the end of the block.
    pub len: usize,
}

/// A SCSI target whose command register starts at `base_addr`, read and written one
/// block of `block_size` bytes at a time, with a cursor for sequential access.
pub struct SCSIBlockDevice {
    base_addr: u64,
    block_size: u64,
    current_pos: u64,
}

impl SCSIBlockDevice {
    pub closed spec fn base_spec(&self) -> u64 {
        self.base_addr
    }

    pub closed spec fn block_size_spec(&self) -> u64 {
        self.block_size
    }

    pub closed spec fn position_spec(&self) -> u64 {
        self.current_pos
    }

    pub fn new(base_addr: u64, block_size: u64) -> (r: SCSIBlockDevice)
        ensures
            r.base_spec() == base_addr,
            r.block_size_spec() == block_size,
            r.position_spec() == 0,
    {
        SCSIBlockDevice { base_addr, block_size, current_pos: 0 }
    }

    pub fn base_addr(&self) -> (r: u64)
        ensures
            r == self.base_spec(),
    {
        self.base_addr
    }

    pub fn position(&self) -> (r: u64)
        ensures
            r == self.position_spec(),
    {
        self.current_pos
    }

    pub fn block_size(&self) -> (r: u64)
        ensures
            r == self.block_size_spec(),
    {
        self.block_size
    }

    /// The block, offset and length of a sequential access of `requested` bytes.
    pub fn next_transfer(&self, requested: usize) -> (r: BlockTransfer)
        requires
            0 < self.block_size_spec() <= usize::MAX,
        ensures
            r.block == self.position_spec() / self.block_size_spec(),
            r.offset == self.position_spec() % self.block_size_spec(),
            r.len == vstd::math::min(requested as int, self.block_size_spec() - r.offset),
    {
        let block = self.current_pos / self.block_size;
        let offset = (self.current_pos % self.block_size) as usize;
        let room = self.block_size as usize - offset;
        let len = if requested < room { requested } else { room };
        BlockTransfer { block, offset, len }
    }

    /// Moves the cursor past `n` bytes.
    pub fn advance(&mut self, n: usize)
        requires
            old(self).position_spec() + n <= u64::MAX,
        ensures
            final(self).position_spec() == old(self).position_spec() + n,
            final(self).base_spec() == old(self).base_spec(),
            final(self).block_size_spec() == old(self).block_size_spec(),
    {
        self.current_pos = self.current_pos + n as u64;
    }

    /// READ (10) of `block` into a buffer of `buffer_len` bytes.
    pub fn read_block_command(&self, block: u64, buffer_len: usize) -> (r: [u8; 10])
        ensures
            r@ == cdb10(SCSI_READ_10, block, transfer_blocks(buffer_len)),
    {
        read10_command(block, buffer_len)
    }

    /// WRITE (10) of a buffer of `buffer_len` bytes to `block`.
    pub fn write_block_command(&self, block: u64, buffer_len: usize) -> (r: [u8; 10])
        ensures
            r@ == cdb10(SCSI_WRITE_10, block, transfer_blocks(buffer_len)),
    {
        write10_command(block, buffer_len)
    }

    /// Seeking is not supported: the cursor stays where it is and 0 is reported.
    pub fn seek(&mut self, pos: SeekFrom) -> (r: Result<u64, ()>)
        ensures
            r == Ok::<u64, ()>(0),
            final(self).position_spec() == old(self).position_spec(),
            final(self).base_spec() == old(self).base_spec(),
            final(self).block_size_spec() == old(self).block_size_spec(),
    {
        Ok(0)
    }

    /// Nothing is buffered, so flushing does nothing.
    pub fn flush(&mut self) -> (r: Result<(), ()>)
        ensures
            r is Ok,
            final(self).position_spec() == old(self).position_spec(),
            final(self).base_spec() == old(self).base_spec(),
            final(self).block_size_spec() == old(self).block_size_spec(),
    {
        Ok(())
    }
}

} // verus!
