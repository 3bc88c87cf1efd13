use test_os::device::mmio::canonical_range;
use test_os::fs::scsifs::supported_block_size;
use test_os::shell::{shell_command, ShellCommand};
use test_os::vga_old::vga_buffer::{Color, ColorCode, Writer, BUFFER_HEIGHT};

#[test]
fn writer_puts_text_on_bottom_row() {
    let mut w = Writer::new();
    let s = "Some test string that fits on a single line";
    w.write_string(s);
    for (i, c) in s.chars().enumerate() {
        assert_eq!(char::from(w.char_at(BUFFER_HEIGHT - 1, i).ascii_character), c);
    }
    assert_eq!(w.column(), s.len());
}

#[test]
fn writer_newline_scrolls_text_up() {
    let mut w = Writer::new();
    w.write_string("\nSome test string that fits on a single line\n");
    let s = "Some test string that fits on a single line";
    for (i, c) in s.chars().enumerate() {
        assert_eq!(char::from(w.char_at(BUFFER_HEIGHT - 2, i).ascii_character), c);
    }
    assert_eq!(w.char_at(BUFFER_HEIGHT - 1, 0).ascii_character, b' ');
    assert_eq!(w.column(), 0);
}

#[test]
fn writer_wraps_long_lines() {
    let mut w = Writer::new();
    for _ in 0..81 {
        w.write_string("x");
    }
    assert_eq!(w.column(), 1);
    assert_eq!(w.char_at(BUFFER_HEIGHT - 2, 79).ascii_character, b'x');
    assert_eq!(w.char_at(BUFFER_HEIGHT - 1, 0).ascii_character, b'x');
    assert_eq!(w.char_at(BUFFER_HEIGHT - 1, 1).ascii_character, b' ');
}

#[test]
fn writer_applies_escape_colours_and_delete() {
    let mut w = Writer::new();
    w.write_string("\x1b[31;44mab\x7f");
    assert_eq!(w.color(), ColorCode::new(Color::Red, Color::Blue));
    assert_eq!(w.char_at(BUFFER_HEIGHT - 1, 0).ascii_character, b'a');
    assert_eq!(w.char_at(BUFFER_HEIGHT - 1, 0).color_code, ColorCode::new(Color::Red, Color::Blue));
    assert_eq!(w.char_at(BUFFER_HEIGHT - 1, 1).ascii_character, b' ');
    assert_eq!(w.column(), 1);
    w.write_string("\u{e9}");
    assert_eq!(w.char_at(BUFFER_HEIGHT - 1, 1).ascii_character, 0xFE);
    w.clear_color();
    assert_eq!(w.color(), ColorCode::new(Color::White, Color::Black));
}

#[test]
fn shell_reads_commands_and_arguments() {
    assert!(matches!(shell_command(&b"help".to_vec()), ShellCommand::Help));
    assert!(matches!(shell_command(&b"  ".to_vec()), ShellCommand::Empty));
    assert!(matches!(shell_command(&b"frobnicate".to_vec()), ShellCommand::Unknown));
    assert!(matches!(shell_command(&b"read".to_vec()), ShellCommand::MissingArgument));
    match shell_command(&b"write notes hello  world".to_vec()) {
        ShellCommand::Write { filename, contents } => {
            assert_eq!(filename, "notes");
            assert_eq!(contents, vec!["hello", "world"]);
        }
        other => panic!("unexpected {:?}", other),
    }
    match shell_command(&b"param a b".to_vec()) {
        ShellCommand::Param { args } => assert_eq!(args, vec!["a", "b"]),
        other => panic!("unexpected {:?}", other),
    }
    match shell_command(&b"mkdir docs".to_vec()) {
        ShellCommand::Mkdir { dirname } => assert_eq!(dirname, "docs"),
        other => panic!("unexpected {:?}", other),
    }
    assert!(matches!(shell_command(&b"rand".to_vec()), ShellCommand::Rand));
    assert!(matches!(shell_command(&b"read x".to_vec()), ShellCommand::Read { .. }));
}

#[test]
fn window_and_block_size_checks() {
    assert!(canonical_range(0xFEBF_1000, 0x6000));
    assert!(!canonical_range(0x7FFF_FFFF_F000, 0x2000));
    assert!(!canonical_range(u64::MAX, 1));
    assert!(supported_block_size(512));
    assert!(supported_block_size(4096));
    assert!(!supported_block_size(8192));
}
