//! Colour escape sequences matched whole.
pub mod ansii;
