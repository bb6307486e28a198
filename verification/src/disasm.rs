//! Disassembly: dispatch on the configured target, hand the bytes to the
//! capstone engine, and join the instruction lines into one listing.

use vstd::prelude::*;

use crate::config::{Config, MyArch, MyMode};
use crate::hexcode::{decode_hex_multiline, hex_decoded, hex_error_for, hex_ok, without_newlines, HexError};
use capstone::arch::BuildsCapstone;
use capstone::Capstone;

verus! {

/// The address disassembly starts at.
pub const DISASM_BASE_ADDR: u64 = 0;

/// The listing the engine yields for 32-bit x86 code at `addr`: one line per
/// instruction, or the engine's error text.
pub uninterp spec fn cs_disasm_x86_32_of(code: Seq<u8>, addr: int) -> Result<
    Seq<Seq<char>>,
    Seq<char>,
>;

/// The listing the engine yields for 64-bit x86 code at `addr`.
pub uninterp spec fn cs_disasm_x86_64_of(code: Seq<u8>, addr: int) -> Result<
    Seq<Seq<char>>,
    Seq<char>,
>;

/// The listing the engine yields for 32-bit ARM code at `addr`.
pub uninterp spec fn cs_disasm_arm_of(code: Seq<u8>, addr: int) -> Result<
    Seq<Seq<char>>,
    Seq<char>,
>;

/// The listing the engine yields for 64-bit ARM code at `addr`.
pub uninterp spec fn cs_disasm_arm64_of(code: Seq<u8>, addr: int) -> Result<
    Seq<Seq<char>>,
    Seq<char>,
>;

/// Relies on capstone's 32-bit x86 disassembly: for given bytes and start
/// address the engine yields a fixed listing, one line per instruction.
#[verifier::external_body]
fn cs_disasm_x86_32(code: &[u8], addr: u64) -> (r: Result<Vec<String>, String>)
    ensures
        match r {
            Ok(lines) => cs_disasm_x86_32_of(code@, addr as int) == Ok::<
                Seq<Seq<char>>,
                Seq<char>,
            >(lines.deep_view()),
            Err(msg) => cs_disasm_x86_32_of(code@, addr as int) == Err::<
                Seq<Seq<char>>,
                Seq<char>,
            >(msg@),
        },
{
    let cs = match Capstone::new().x86().mode(capstone::arch::x86::ArchMode::Mode32).detail(
        true,
    ).build() {
        Ok(c) => c,
        Err(e) => return Err(e.to_string()),
    };
    let r = match cs.disasm_all(code, addr) {
        Ok(insns) => Ok(insns.iter().map(|i| i.to_string()).collect()),
        Err(e) => Err(e.to_string()),
    };
    r
}

/// Relies on capstone's 64-bit x86 disassembly, as above.
#[verifier::external_body]
fn cs_disasm_x86_64(code: &[u8], addr: u64) -> (r: Result<Vec<String>, String>)
    ensures
        match r {
            Ok(lines) => cs_disasm_x86_64_of(code@, addr as int) == Ok::<
                Seq<Seq<char>>,
                Seq<char>,
            >(lines.deep_view()),
            Err(msg) => cs_disasm_x86_64_of(code@, addr as int) == Err::<
                Seq<Seq<char>>,
                Seq<char>,
            >(msg@),
        },
{
    let cs = match Capstone::new().x86().mode(capstone::arch::x86::ArchMode::Mode64).detail(
        true,
    ).build() {
        Ok(c) => c,
        Err(e) => return Err(e.to_string()),
    };
    let r = match cs.disasm_all(code, addr) {
        Ok(insns) => Ok(insns.iter().map(|i| i.to_string()).collect()),
        Err(e) => Err(e.to_string()),
    };
    r
}

/// Relies on capstone's 32-bit ARM disassembly, as above.
#[verifier::external_body]
fn cs_disasm_arm(code: &[u8], addr: u64) -> (r: Result<Vec<String>, String>)
    ensures
        match r {
            Ok(lines) => cs_disasm_arm_of(code@, addr as int) == Ok::<
                Seq<Seq<char>>,
                Seq<char>,
            >(lines.deep_view()),
            Err(msg) => cs_disasm_arm_of(code@, addr as int) == Err::<
                Seq<Seq<char>>,
                Seq<char>,
            >(msg@),
        },
{
    let cs = match Capstone::new().arm().mode(capstone::arch::arm::ArchMode::Arm).detail(
        true,
    ).build() {
        Ok(c) => c,
        Err(e) => return Err(e.to_string()),
    };
    let r = match cs.disasm_all(code, addr) {
        Ok(insns) => Ok(insns.iter().map(|i| i.to_string()).collect()),
        Err(e) => Err(e.to_string()),
    };
    r
}

/// Relies on capstone's 64-bit ARM disassembly, as above.
#[verifier::external_body]
fn cs_disasm_arm64(code: &[u8], addr: u64) -> (r: Result<Vec<String>, String>)
    ensures
        match r {
            Ok(lines) => cs_disasm_arm64_of(code@, addr as int) == Ok::<
                Seq<Seq<char>>,
                Seq<char>,
            >(lines.deep_view()),
            Err(msg) => cs_disasm_arm64_of(code@, addr as int) == Err::<
                Seq<Seq<char>>,
                Seq<char>,
            >(msg@),
        },
{
    let cs = match Capstone::new().arm64().mode(capstone::arch::arm64::ArchMode::Arm).detail(
        true,
    ).build() {
        Ok(c) => c,
        Err(e) => return Err(e.to_string()),
    };
    let r = match cs.disasm_all(code, addr) {
        Ok(insns) => Ok(insns.iter().map(|i| i.to_string()).collect()),
        Err(e) => Err(e.to_string()),
    };
    r
}

/// The listing for `code` under the given target, line by line.
pub open spec fn disasm_listing_of(arch: MyArch, mode: MyMode, code: Seq<u8>, addr: int) -> Result<
    Seq<Seq<char>>,
    Seq<char>,
> {
    match (arch, mode) {
        (MyArch::X86, MyMode::Bits32) => cs_disasm_x86_32_of(code, addr),
        (MyArch::X86, MyMode::Bits64) => cs_disasm_x86_64_of(code, addr),
        (MyArch::Arm, MyMode::Bits32) => cs_disasm_arm_of(code, addr),
        (MyArch::Arm, MyMode::Bits64) => cs_disasm_arm64_of(code, addr),
    }
}

/// The lines of a listing, each followed by a newline, as one text.
pub open spec fn joined_lines(lines: Seq<Seq<char>>) -> Seq<char>
    decreases lines.len(),
{
    if lines.len() == 0 {
        Seq::empty()
    } else {
        joined_lines(lines.drop_last()) + lines.last() + seq!['\n']
    }
}

/// The text `disassemble` returns for `code` under the given target.
pub open spec fn disasm_text_of(arch: MyArch, mode: MyMode, code: Seq<u8>, addr: int) -> Result<
    Seq<char>,
    Seq<char>,
> {
    match disasm_listing_of(arch, mode, code, addr) {
        Ok(lines) => Ok(joined_lines(lines)),
        Err(msg) => Err(msg),
    }
}

/// Join instruction lines into one listing, a newline after each line.
fn join_lines(lines: &Vec<String>) -> (r: String)
    ensures
        r@ == joined_lines(lines.deep_view()),
{
    let mut out = String::new();
    let mut i: usize = 0;
    while i < lines.len()
        invariant
            i <= lines@.len(),
            lines.deep_view().len() == lines@.len(),
            out@ == joined_lines(lines.deep_view().take(i as int)),
        decreases lines@.len() - i,
    {
        out.append(lines[i].as_str());
        out.append("\n");
        proof {
            reveal_strlit("\n");
            assert("\n"@ =~= seq!['\n']);
            assert(lines.deep_view().take(i + 1 as int).drop_last() =~= lines.deep_view().take(
                i as int,
            ));
            assert(lines.deep_view().take(i + 1 as int).last() == lines@[i as int]@);
        }
        i = i + 1;
    }
    proof {
        assert(lines.deep_view().take(lines.deep_view().len() as int) =~= lines.deep_view());
    }
    out
}

/// Disassemble `code` for the configured target, starting at the base
/// address: the engine's instruction lines joined into one listing, or the
/// engine's error text.
pub fn disassemble(config: &Config, code: &[u8]) -> (r: Result<String, String>)
    ensures
        r matches Ok(text) ==> disasm_text_of(
            config.arch,
            config.mode,
            code@,
            DISASM_BASE_ADDR as int,
        ) == Ok::<Seq<char>, Seq<char>>(text@),
        r matches Err(msg) ==> disasm_text_of(
            config.arch,
            config.mode,
            code@,
            DISASM_BASE_ADDR as int,
        ) == Err::<Seq<char>, Seq<char>>(msg@),
{
    let listing = match (config.arch, config.mode) {
        (MyArch::X86, MyMode::Bits32) => cs_disasm_x86_32(code, DISASM_BASE_ADDR),
        (MyArch::X86, MyMode::Bits64) => cs_disasm_x86_64(code, DISASM_BASE_ADDR),
        (MyArch::Arm, MyMode::Bits32) => cs_disasm_arm(code, DISASM_BASE_ADDR),
        (MyArch::Arm, MyMode::Bits64) => cs_disasm_arm64(code, DISASM_BASE_ADDR),
    };
    match listing {
        Ok(lines) => Ok(join_lines(&lines)),
        Err(msg) => Err(msg),
    }
}

/// Why the whole hex-to-listing path failed.
#[derive(PartialEq, Eq, Debug)]
pub enum DisassembleError {
    /// The input was not a well-formed hex string.
    InvalidHex(HexError),
    /// The engine rejected the bytes; its error text.
    Engine(String),
}

/// The whole path behind the disassemble action: read the pasted text as a
/// hex string, newlines dropped, and disassemble the bytes it spells for the
/// configured target.
pub fn disassemble_input(config: &Config, text: &str) -> (r: Result<String, DisassembleError>)
    ensures
        r matches Ok(listing) ==> {
            &&& hex_ok(without_newlines(text@))
            &&& disasm_text_of(
                config.arch,
                config.mode,
                hex_decoded(without_newlines(text@)),
                DISASM_BASE_ADDR as int,
            ) == Ok::<Seq<char>, Seq<char>>(listing@)
        },
        r matches Err(DisassembleError::InvalidHex(e)) ==> hex_error_for(
            without_newlines(text@),
            e,
        ),
        r matches Err(DisassembleError::Engine(msg)) ==> {
            &&& hex_ok(without_newlines(text@))
            &&& disasm_text_of(
                config.arch,
                config.mode,
                hex_decoded(without_newlines(text@)),
                DISASM_BASE_ADDR as int,
            ) == Err::<Seq<char>, Seq<char>>(msg@)
        },
{
    let bytes = match decode_hex_multiline(text) {
        Ok(b) => b,
        Err(e) => {
            return Err(DisassembleError::InvalidHex(e));
        },
    };
    match disassemble(config, bytes.as_slice()) {
        Ok(listing) => Ok(listing),
        Err(msg) => Err(DisassembleError::Engine(msg)),
    }
}

} // verus!
