//! Keyboard input helpers.
pub mod keyboard;
