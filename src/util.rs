//! Small containers used by the shell.
pub mod bitfield;
