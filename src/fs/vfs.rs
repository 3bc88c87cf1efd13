//! Nodes of the virtual filesystem and the operations a filesystem provides.
use vstd::prelude::*;

pub mod ramfs;

verus! {

/// The type of a node.
#[allow(non_camel_case_types)]
#[derive(Debug, Clone, Copy, PartialEq, Eq, Structural)]
pub enum FS_FLAGS {
    File,
    Directory,
    CharDevice,
    BlockDevice,
    Pipe,
    Symlink,
    /// An active mount point.
    Mountpoint,
}

impl FS_FLAGS {
    pub open spec fn value_spec(self) -> u32 {
        match self {
            FS_FLAGS::File => 0x01,
            FS_FLAGS::Directory => 0x02,
            FS_FLAGS::CharDevice => 0x03,
            FS_FLAGS::BlockDevice => 0x04,
            FS_FLAGS::Pipe => 0x05,
            FS_FLAGS::Symlink => 0x06,
            FS_FLAGS::Mountpoint => 0x08,
        }
    }

    /// The value that a node's `flags` field holds for this type.
    pub fn value(self) -> (r: u32)
        ensures
            r == self.value_spec(),
    {
        match self {
            FS_FLAGS::File => 0x01,
            FS_FLAGS::Directory => 0x02,
            FS_FLAGS::CharDevice => 0x03,
            FS_FLAGS::BlockDevice => 0x04,
            FS_FLAGS::Pipe => 0x05,
            FS_FLAGS::Symlink => 0x06,
            FS_FLAGS::Mountpoint => 0x08,
        }
    }
}

/// A file, directory or device of the virtual filesystem.
pub struct FsNode {
    /// The file name.
    pub name: Vec<u8>,
    /// Permission mask.
    pub mask: u32,
    pub uid: u32,
    pub gid: u32,
    /// The node type (see [`FS_FLAGS`]).
    pub flags: u32,
    /// Identifies the file within its filesystem.
    pub inode: u32,
    /// Size in bytes.
    pub length: u32,
    /// A number for the filesystem's own use.
    pub impl_n: u32,
    /// The node a mount point or a symbolic link refers to.
    pub ptr: Option<Box<FsNode>>,
}

/// A directory entry: a name and an inode number.
pub struct Dirent {
    pub name: Vec<u8>,
    pub ino: u32,
}

/// What a filesystem offers for its nodes.
pub trait FsFunctions {
    spec fn read_spec(&self, offset: u32, size: u32, buffer: u8) -> u32;

    spec fn write_spec(&self, offset: u32, size: u32, buffer: u8) -> u32;

    /// Reads `size` bytes at `offset`; returns how many were read.
    fn read(&self, offset: u32, size: u32, buffer: u8) -> (r: u32)
        ensures
            r == self.read_spec(offset, size, buffer);

    /// Writes `size` bytes at `offset`; returns how many were written.
    fn write(&self, offset: u32, size: u32, buffer: u8) -> (r: u32)
        ensures
            r == self.write_spec(offset, size, buffer);

    fn open(&self, read: u8, write: u8);

    fn close(&self);
}

/// A node holds no read or write operation of its own: reading and writing through it
/// move nothing.
impl FsFunctions for FsNode {
    open spec fn read_spec(&self, offset: u32, size: u32, buffer: u8) -> u32 {
        0
    }

    open spec fn write_spec(&self, offset: u32, size: u32, buffer: u8) -> u32 {
        0
    }

    fn read(&self, offset: u32, size: u32, buffer: u8) -> (r: u32) {
        0
    }

    fn write(&self, offset: u32, size: u32, buffer: u8) -> (r: u32) {
        0
    }

    fn open(&self, read: u8, write: u8) {
    }

    fn close(&self) {
    }
}

/// Reads through `node`.
pub fn read_fs(node: FsNode, offset: u32, size: u32, buffer: u8) -> (r: u32)
    ensures
        r == node.read_spec(offset, size, buffer),
{
    node.read(offset, size, buffer)
}

/// Opens `node` for reading and writing.
pub fn open_fs(node: FsNode, read: u8, write: u8) {
    node.open(read, write)
}

/// Closes `node`.
pub fn close_fs(node: FsNode) {
    node.close()
}

/// Writes through `node`.
pub fn write_fs(node: FsNode, offset: u32, size: u32, buffer: u8) -> (r: u32)
    ensures
        r == node.write_spec(offset, size, buffer),
{
    node.write(offset, size, buffer)
}

} // verus!
