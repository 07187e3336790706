//! Encoder and decoder for 32-bit base-integer RISC instruction words.

pub mod error;
pub mod fields;
pub mod text;
pub mod util;
pub mod isa;
pub mod format;
pub mod decoder;
pub mod encoder;
pub mod laws;
pub mod session;
