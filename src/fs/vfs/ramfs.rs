//! The initial ramdisk.
use vstd::prelude::*;
use crate::fs::vfs::{FsFunctions, FsNode, FS_FLAGS};

verus! {

/// Header of a ramdisk: how many files it holds.
#[derive(Clone, Copy, Debug, PartialEq, Eq, Structural)]
pub struct RamDiskHeader {
    pub nfiles: u32,
}

/// Header of one file of a ramdisk.
#[derive(Debug)]
pub struct RamDiskFileHeader {
    pub magic: u8,
    pub name: Vec<u8>,
    /// Where the file starts, from the start of the ramdisk.
    pub offset: u32,
    pub length: u32,
}

/// The nodes of a loaded ramdisk: its root directory, the `/dev` directory, one file node
/// per file header, and the headers with their offsets made absolute.
pub struct Initrd {
    pub header: RamDiskHeader,
    pub root: FsNode,
    pub dev: FsNode,
    pub files: Vec<FsNode>,
    pub file_headers: Vec<RamDiskFileHeader>,
}

/// An empty directory node named `name`.
fn directory(name: Vec<u8>) -> (r: FsNode)
    ensures
        r.name@ == name@,
        r.flags == FS_FLAGS::Directory.value_spec(),
        r.mask == 0 && r.uid == 0 && r.gid == 0 && r.inode == 0 && r.length == 0 && r.impl_n == 0,
        r.ptr is None,
{
    FsNode { name, mask: 0, uid: 0, gid: 0, flags: FS_FLAGS::Directory.value(), inode: 0, length: 0, impl_n: 0, ptr: None }
}

/// Loads the ramdisk at `location` whose file headers are `file_headers`: creates the
/// root directory `initrd`, the directory `dev`, and for file `i` a file node with inode
/// `i`, the header's name and length; each header's offset is moved by `location`
/// (modulo 2^32, as addresses are 32 bits wide here).
pub fn initialise_initrd(location: u32, file_headers: &Vec<RamDiskFileHeader>) -> (r: Initrd)
    requires
        file_headers@.len() <= u32::MAX,
    ensures
        r.header.nfiles == file_headers@.len(),
        r.root.name@ == seq![105u8, 110, 105, 116, 114, 100],
        r.root.flags == FS_FLAGS::Directory.value_spec(),
        r.root.inode == 0 && r.root.length == 0 && r.root.ptr is None,
        r.dev.name@ == seq![100u8, 101, 118],
        r.dev.flags == FS_FLAGS::Directory.value_spec(),
        r.files@.len() == file_headers@.len(),
        r.file_headers@.len() == file_headers@.len(),
        forall|i: int| 0 <= i < file_headers@.len() ==> {
            let f = #[trigger] r.files@[i];
            &&& f.name@ == file_headers@[i].name@
            &&& f.inode == i
            &&& f.length == file_headers@[i].length
            &&& f.flags == FS_FLAGS::File.value_spec()
            &&& f.mask == 0 && f.uid == 0 && f.gid == 0 && f.impl_n == 0
            &&& f.ptr is None
        },
        forall|i: int| 0 <= i < file_headers@.len() ==> {
            let h = #[trigger] r.file_headers@[i];
            &&& h.offset == (file_headers@[i].offset + location) % 0x1_0000_0000
            &&& h.name@ == file_headers@[i].name@
            &&& h.length == file_headers@[i].length
            &&& h.magic == file_headers@[i].magic
        },
{
    let root = directory(vec![105u8, 110, 105, 116, 114, 100]);
    let dev = directory(vec![100u8, 101, 118]);
    let n = file_headers.len();
    let mut files: Vec<FsNode> = Vec::new();
    let mut headers: Vec<RamDiskFileHeader> = Vec::new();
    let mut i: usize = 0;
    while i < n
        invariant
            i <= n,
            n == file_headers@.len(),
            n <= u32::MAX,
            files@.len() == i,
            headers@.len() == i,
            forall|k: int| 0 <= k < i ==> {
                let f = #[trigger] files@[k];
                &&& f.name@ == file_headers@[k].name@
                &&& f.inode == k
                &&& f.length == file_headers@[k].length
                &&& f.flags == FS_FLAGS::File.value_spec()
                &&& f.mask == 0 && f.uid == 0 && f.gid == 0 && f.impl_n == 0
                &&& f.ptr is None
            },
            forall|k: int| 0 <= k < i ==> {
                let h = #[trigger] headers@[k];
                &&& h.offset == (file_headers@[k].offset + location) % 0x1_0000_0000
                &&& h.name@ == file_headers@[k].name@
                &&& h.length == file_headers@[k].length
                &&& h.magic == file_headers@[k].magic
            },
        decreases n - i,
    {
        let h = &file_headers[i];
        let name = copy_bytes(&h.name);
        files.push(FsNode {
            name,
            mask: 0,
            uid: 0,
            gid: 0,
            flags: FS_FLAGS::File.value(),
            inode: i as u32,
            length: h.length,
            impl_n: 0,
            ptr: None,
        });
        let offset = h.offset.wrapping_add(location);
        headers.push(RamDiskFileHeader { magic: h.magic, name: copy_bytes(&h.name), offset, length: h.length });
        i = i + 1;
    }
    Initrd { header: RamDiskHeader { nfiles: n as u32 }, root, dev, files, file_headers: headers }
}

fn copy_bytes(v: &Vec<u8>) -> (r: Vec<u8>)
    ensures
        r@ == v@,
{
    let mut r: Vec<u8> = Vec::new();
    let mut i: usize = 0;
    while i < v.len()
        invariant
            i <= v@.len(),
            r@ == v@.subrange(0, i as int),
        decreases v@.len() - i,
    {
        r.push(v[i]);
        i = i + 1;
    }
    assert(r@ =~= v@);
    r
}

/// The filesystem of the initial ramdisk.
#[derive(Debug, Clone, Copy, Default)]
pub struct RamFS;

impl FsFunctions for RamFS {
    /// Reports ten bytes read, whatever was asked.
    open spec fn read_spec(&self, offset: u32, size: u32, buffer: u8) -> u32 {
        10
    }

    /// Reports eleven bytes written, whatever was asked.
    open spec fn write_spec(&self, offset: u32, size: u32, buffer: u8) -> u32 {
        11
    }

    fn read(&self, offset: u32, size: u32, buffer: u8) -> (r: u32) {
        10
    }

    fn write(&self, offset: u32, size: u32, buffer: u8) -> (r: u32) {
        11
    }

    fn open(&self, read: u8, write: u8) {
    }

    fn close(&self) {
    }
}

} // verus!
