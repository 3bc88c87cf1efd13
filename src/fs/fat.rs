//! The FAT filesystem as a provider of node operations.
use vstd::prelude::*;
use crate::fs::vfs::FsFunctions;

verus! {

/// Node operations of a FAT volume.
#[derive(Debug, Clone, Copy, Default)]
pub struct FatFs;

impl FsFunctions for FatFs {
    /// Reports ten bytes read, whatever was asked.
    open spec fn read_spec(&self, offset: u32, size: u32, buffer: u8) -> u32 {
        10
    }

    /// Reports eleven bytes written, whatever was asked.
    open spec fn write_spec(&self, offset: u32, size: u32, buffer: u8) -> u32 {
        11
    }

    fn read(&self, offset: u32, size: u32, buffer: u8) -> (r: u32) {
        10
    }

    fn write(&self, offset: u32, size: u32, buffer: u8) -> (r: u32) {
        11
    }

    fn open(&self, read: u8, write: u8) {
    }

    fn close(&self) {
    }
}

} // verus!
