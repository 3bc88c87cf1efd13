//! Text-mode colours and the parsing of colour escape sequences.
pub mod ansii;
pub mod vga_buffer;
