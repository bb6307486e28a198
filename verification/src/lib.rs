//! A library for converting between machine-code bytes and assembly text.
//!
//! The core is a configuration record selecting a target architecture and
//! bit-width, a verified hex codec for the byte-level side, and dispatch
//! routines that hand the bytes or text to an external disassembly or
//! assembly engine.

pub mod assembler;
pub mod config;
pub mod disasm;
pub mod hexcode;
