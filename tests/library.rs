use test_os::fs::fat::FatFs;
use test_os::fs::scsifs::SCSIBlockDevice;
use test_os::fs::vfs::ramfs::{initialise_initrd, RamDiskFileHeader, RamFS};
use test_os::fs::vfs::{read_fs, write_fs, FsFunctions, FsNode, FS_FLAGS};
use test_os::fs::{RamStorage, SeekFrom, RAM_SIZE};
use test_os::shell::parse_command_line;
use test_os::task::keyboard::{rmvec, KeyboardHooks};
use test_os::util::bitfield::BitField;
use test_os::vga_old::vga_buffer::{Color, ColorCode};
use test_os::vga_old::ansii::{convert_ansii_to_color, convert_code_to_color};
use test_os::vga::ansii::convert_ansii_to_color as convert_whole_sequence;

#[test]
fn bitfield_sets_and_clears_bits() {
    let mut bf = BitField::new(16);
    assert!(!bf.get(1));
    bf.set(0);
    bf.set(14);
    assert!(!bf.get(1));
    assert!(bf.get(14));
    assert_eq!(bf.get_value(), 16385);
    bf.unset(0);
    assert_eq!(bf.get_value(), 16384);
    // The second word holds the length given at creation.
    assert!(bf.get(32 + 4));
}

#[test]
fn ram_storage_reads_back_what_was_written() {
    let mut s = RamStorage::new();
    assert_eq!(s.write(100, &[1, 2, 3]), Ok(()));
    let mut buf = [0u8; 5];
    assert_eq!(s.read(99, &mut buf), Ok(()));
    assert_eq!(buf, [0, 1, 2, 3, 0]);
    assert_eq!(s.erase(101, 1), Ok(()));
    assert_eq!(s.read(99, &mut buf), Ok(()));
    assert_eq!(buf, [0, 1, 0, 3, 0]);
}

#[test]
fn ram_storage_refuses_out_of_range() {
    let mut s = RamStorage::new();
    let mut buf = [7u8; 4];
    assert_eq!(s.read((RAM_SIZE - 3) as u64, &mut buf), Err(()));
    assert_eq!(buf, [7u8; 4]);
    assert_eq!(s.read((RAM_SIZE - 4) as u64, &mut buf), Ok(()));
    assert_eq!(s.write(RAM_SIZE as u64, &[1]), Err(()));
    assert_eq!(s.write(u64::MAX, &[1]), Err(()));
    assert_eq!(s.erase(10, RAM_SIZE as u64), Err(()));
    assert_eq!(s.erase(0, RAM_SIZE as u64), Ok(()));
}

#[test]
fn ram_storage_cursor_access() {
    let mut s = RamStorage::new();
    assert_eq!(s.seek(SeekFrom::End(-2)), Ok((RAM_SIZE - 2) as u64));
    assert_eq!(s.write_at_cursor(&[9, 8, 7]), 2);
    assert_eq!(s.seek(SeekFrom::Current(-2)), Ok((RAM_SIZE - 2) as u64));
    let mut buf = [0u8; 4];
    assert_eq!(s.read_at_cursor(&mut buf), 2);
    assert_eq!(buf, [9, 8, 0, 0]);
    assert_eq!(s.seek(SeekFrom::Current(1)), Err(()));
    assert_eq!(s.seek(SeekFrom::End(-(RAM_SIZE as i64) - 1)), Err(()));
    assert_eq!(s.seek(SeekFrom::Start(5)), Ok(5));
    assert_eq!(s.flush(), Ok(()));
}

#[test]
fn command_line_is_split_at_spaces() {
    let words = parse_command_line(&b"  write  notes.txt hello world ".to_vec());
    assert_eq!(words, vec!["write", "notes.txt", "hello", "world"]);
    assert!(parse_command_line(&b"   ".to_vec()).is_empty());
    let words = parse_command_line(&vec![b'a', b' ', 0xFF, 0xFE, b' ', b'b']);
    assert_eq!(words, vec!["a", "b"]);
}

#[test]
fn backspace_drops_last_byte() {
    assert_eq!(rmvec(b"help".to_vec()), b"hel".to_vec());
    assert_eq!(rmvec(vec![1]), Vec::<u8>::new());
}

fn hook_a() {}

#[test]
fn hooks_keep_registration_order() {
    let mut hooks: KeyboardHooks<fn()> = KeyboardHooks::new();
    assert!(hooks.hooks.is_empty());
    hooks.register(hook_a);
    hooks.register(hook_a);
    assert_eq!(hooks.hooks.len(), 2);
}

#[test]
fn colour_code_packs_nibbles() {
    assert_eq!(ColorCode::new(Color::White, Color::Black), ColorCode(0x0F));
    assert_eq!(ColorCode::new(Color::Yellow, Color::Blue), ColorCode(0x1E));
}

#[test]
fn escape_parameters_select_colours() {
    assert_eq!(convert_code_to_color(b"32"), Color::Green);
    assert_eq!(convert_code_to_color(b"47"), Color::White);
    assert_eq!(convert_code_to_color(b"38"), Color::Black);
    assert_eq!(convert_ansii_to_color(b"[31".to_vec()), ColorCode::new(Color::Red, Color::Black));
    assert_eq!(convert_ansii_to_color(b"[1;33;44".to_vec()), ColorCode::new(Color::Yellow, Color::Blue));
    assert_eq!(convert_ansii_to_color(b"[42;36".to_vec()), ColorCode::new(Color::Cyan, Color::Green));
    assert_eq!(convert_ansii_to_color(b"[0".to_vec()), ColorCode::new(Color::White, Color::Black));
}

#[test]
fn whole_escape_sequences_select_colours() {
    assert_eq!(convert_whole_sequence(b"[35".to_vec()), ColorCode::new(Color::Magenta, Color::Black));
    assert_eq!(convert_whole_sequence(b"[43".to_vec()), ColorCode::new(Color::White, Color::Yellow));
    assert_eq!(convert_whole_sequence(b"[40".to_vec()), ColorCode::new(Color::White, Color::Black));
    assert_eq!(convert_whole_sequence(b"[31;42".to_vec()), ColorCode::new(Color::White, Color::Black));
}

#[test]
fn filesystem_providers_report_fixed_counts() {
    assert_eq!(RamFS.read(0, 4, 0), 10);
    assert_eq!(RamFS.write(0, 4, 0), 11);
    assert_eq!(FatFs.read(1, 2, 3), 10);
    assert_eq!(FatFs.write(1, 2, 3), 11);
    let node = FsNode { name: b"a".to_vec(), mask: 0, uid: 0, gid: 0, flags: 1, inode: 0, length: 0, impl_n: 0, ptr: None };
    assert_eq!(read_fs(node, 0, 10, 0), 0);
    let node = FsNode { name: b"a".to_vec(), mask: 0, uid: 0, gid: 0, flags: 1, inode: 0, length: 0, impl_n: 0, ptr: None };
    assert_eq!(write_fs(node, 0, 10, 0), 0);
    assert_eq!(FS_FLAGS::Mountpoint.value(), 8);
}

#[test]
fn initrd_creates_root_dev_and_file_nodes() {
    let headers = vec![
        RamDiskFileHeader { magic: 0xBF, name: b"a.txt".to_vec(), offset: 0x10, length: 5 },
        RamDiskFileHeader { magic: 0xBF, name: b"b.txt".to_vec(), offset: 0xFFFF_FFF0, length: 9 },
    ];
    let rd = initialise_initrd(0x20, &headers);
    assert_eq!(rd.header.nfiles, 2);
    assert_eq!(rd.root.name, b"initrd".to_vec());
    assert_eq!(rd.root.flags, 2);
    assert_eq!(rd.dev.name, b"dev".to_vec());
    assert_eq!(rd.files[1].name, b"b.txt".to_vec());
    assert_eq!((rd.files[1].inode, rd.files[1].length, rd.files[1].flags), (1, 9, 1));
    assert_eq!(rd.file_headers[0].offset, 0x30);
    assert_eq!(rd.file_headers[1].offset, 0x10);
}

#[test]
fn scsi_device_splits_access_at_block_boundaries() {
    let mut d = SCSIBlockDevice::new(0xFEB0_0000, 512);
    d.advance(700);
    let t = d.next_transfer(1000);
    assert_eq!((t.block, t.offset, t.len), (1, 188, 324));
    assert_eq!(d.read_block_command(t.block, 512), [0x28, 0, 0, 0, 0, 1, 0, 0, 1, 0]);
    assert_eq!(d.write_block_command(3, 1024), [0x2A, 0, 0, 0, 0, 3, 0, 0, 2, 0]);
    assert_eq!(d.seek(SeekFrom::Start(4)), Ok(0));
    assert_eq!(d.block_size(), 512);
    assert_eq!(d.base_addr(), 0xFEB0_0000);
}
