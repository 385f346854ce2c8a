//! An interpreter for the CHIP-8 virtual machine and its SUPER-CHIP extension.
//!
//! The machine state, the instruction set and its quirks are modelled as
//! mathematical functions in `semantics`; the executable interpreter in
//! `interpreter` is proved to follow them, and `laws` holds properties proved
//! of the model.
pub mod decode;
pub mod display;
pub mod explain;
pub mod interpreter;
pub mod laws;
pub mod memory;
pub mod message;
pub mod quirks;
pub mod semantics;

pub use interpreter::Chip8;
pub use quirks::Quirks;
pub use quirks::Variant;
