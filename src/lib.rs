//! Hardware enumeration and storage-controller drivers for a small x86_64 kernel.
//!
//! Register and memory accesses are not performed here: each driver is a state
//! machine that names the next access and consumes its outcome, so that every
//! decision it takes is stated and proved.
pub mod device;
pub mod fs;
pub mod shell;
pub mod task;
pub mod util;
pub mod vga;
pub mod vga_old;
