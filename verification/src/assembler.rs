//! Assembly: dispatch on the configured target and turn the engine's bytes
//! into the hex text shown to the user.
//!
//! The assembly engine itself is a native library that the surrounding
//! program links and calls; this module decides which engine to open and
//! what to make of its outcome.

use vstd::prelude::*;

use crate::config::{MyArch, MyMode};
use crate::hexcode::{encode_hex, hex_encoded};

verus! {

/// The address assembly starts at.
pub const ASM_BASE_ADDR: u64 = 0x1000;

/// The assembly engine's architecture selector.
#[derive(Clone, Copy, PartialEq, Eq, Structural, Debug)]
pub enum AsmArch {
    Arm,
    Arm64,
    X86,
}

/// The assembly engine's mode selector.
#[derive(Clone, Copy, PartialEq, Eq, Structural, Debug)]
pub enum AsmMode {
    Arm,
    LittleEndian,
    Mode32,
    Mode64,
}

/// The engine to open for each target.
pub fn asm_engine_for(arch: MyArch, mode: MyMode) -> (r: (AsmArch, AsmMode))
    ensures
        arch == MyArch::Arm && mode == MyMode::Bits32 ==> r == (AsmArch::Arm, AsmMode::Arm),
        arch == MyArch::Arm && mode == MyMode::Bits64 ==> r == (
            AsmArch::Arm64,
            AsmMode::LittleEndian,
        ),
        arch == MyArch::X86 && mode == MyMode::Bits32 ==> r == (AsmArch::X86, AsmMode::Mode32),
        arch == MyArch::X86 && mode == MyMode::Bits64 ==> r == (AsmArch::X86, AsmMode::Mode64),
{
    match (arch, mode) {
        (MyArch::Arm, MyMode::Bits32) => (AsmArch::Arm, AsmMode::Arm),
        (MyArch::Arm, MyMode::Bits64) => (AsmArch::Arm64, AsmMode::LittleEndian),
        (MyArch::X86, MyMode::Bits32) => (AsmArch::X86, AsmMode::Mode32),
        (MyArch::X86, MyMode::Bits64) => (AsmArch::X86, AsmMode::Mode64),
    }
}

/// What the assemble action shows for the engine's outcome: the bytes as
/// lowercase hex on success, the engine's error text otherwise.
pub fn assemble_output(outcome: Result<Vec<u8>, String>) -> (r: Result<String, String>)
    ensures
        match r {
            Ok(text) => outcome matches Ok(bytes) && text@ == hex_encoded(bytes@),
            Err(msg) => outcome matches Err(e) && msg == e,
        },
{
    match outcome {
        Ok(bytes) => Ok(encode_hex(bytes.as_slice())),
        Err(msg) => Err(msg),
    }
}

} // verus!
