//! Inspection core for a SNES emulator front end.
//!
//! The crate holds what the inspector decides and computes: the image of the
//! built-in blank cartridge, the decoding of object-table records and video
//! registers into display records, and the protocol by which one frame is
//! rendered either for display only or for good.  The emulator itself and
//! the window toolkit stay outside; they are driven with plain values.

pub mod blank_rom;
pub mod controller;
pub mod data;
pub mod machine;
pub mod model;
pub mod registers;
pub mod runner;
pub mod text;
pub mod tools;
