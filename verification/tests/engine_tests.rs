use guidra::assembler::{asm_engine_for, assemble_output, AsmArch, AsmMode, ASM_BASE_ADDR};
use guidra::config::{Config, MyArch, MyMode};
use guidra::disasm::{disassemble, disassemble_input, DisassembleError};
use guidra::hexcode::HexError;

#[test]
fn disassemble_x86_64_push() {
    let config = Config::new();
    let listing = disassemble(&config, &[0x55]).unwrap();
    assert!(listing.contains("push"));
    assert!(listing.starts_with("0x0"));
    assert!(listing.ends_with('\n'));
}

#[test]
fn disassemble_is_not_the_input() {
    let config = Config::new();
    let listing = disassemble(&config, &[0x90]).unwrap();
    assert!(listing.contains("nop"));
    assert_ne!(listing, "90");
}

#[test]
fn disassemble_empty_input() {
    let config = Config::new();
    let listing = disassemble(&config, &[]).unwrap();
    assert_eq!(listing, "");
}

#[test]
fn disassemble_x86_32() {
    let mut config = Config::new();
    config.set_mode(MyMode::Bits32);
    // 60 is pusha, valid only outside 64-bit mode.
    let listing = disassemble(&config, &[0x60]).unwrap();
    assert!(listing.contains("pusha"));
}

#[test]
fn disassemble_arm64_nop() {
    let mut config = Config::new();
    config.set_arch(MyArch::Arm);
    config.set_mode(MyMode::Bits64);
    let listing = disassemble(&config, &[0x1f, 0x20, 0x03, 0xd5]).unwrap();
    assert!(listing.contains("nop"));
}

#[test]
fn disassemble_arm32() {
    let mut config = Config::new();
    config.set_arch(MyArch::Arm);
    config.set_mode(MyMode::Bits32);
    // e5 2d e0 04: str lr, [sp, #-4]!
    let listing = disassemble(&config, &[0x04, 0xe0, 0x2d, 0xe5]).unwrap();
    assert!(listing.contains("str"));
}

#[test]
fn disassemble_input_multiline() {
    let config = Config::new();
    let listing = disassemble_input(&config, "55\n90").unwrap();
    let lines: Vec<&str> = listing.lines().collect();
    assert_eq!(lines.len(), 2);
    assert!(lines[0].contains("push"));
    assert!(lines[1].contains("nop"));
}

#[test]
fn disassemble_input_rejects_bad_hex() {
    let config = Config::new();
    assert_eq!(
        disassemble_input(&config, "5x"),
        Err(DisassembleError::InvalidHex(HexError::InvalidChar { index: 1 }))
    );
    assert_eq!(
        disassemble_input(&config, "555"),
        Err(DisassembleError::InvalidHex(HexError::OddLength))
    );
}

#[test]
fn engine_choice_per_target() {
    assert_eq!(asm_engine_for(MyArch::Arm, MyMode::Bits32), (AsmArch::Arm, AsmMode::Arm));
    assert_eq!(
        asm_engine_for(MyArch::Arm, MyMode::Bits64),
        (AsmArch::Arm64, AsmMode::LittleEndian)
    );
    assert_eq!(asm_engine_for(MyArch::X86, MyMode::Bits32), (AsmArch::X86, AsmMode::Mode32));
    assert_eq!(asm_engine_for(MyArch::X86, MyMode::Bits64), (AsmArch::X86, AsmMode::Mode64));
}

#[test]
fn assemble_base_address() {
    assert_eq!(ASM_BASE_ADDR, 0x1000);
}

#[test]
fn assemble_output_encodes_bytes() {
    assert_eq!(assemble_output(Ok(vec![0xde, 0xad])), Ok(String::from("dead")));
    assert_eq!(assemble_output(Ok(vec![])), Ok(String::new()));
}

#[test]
fn assemble_output_passes_error_through() {
    assert_eq!(
        assemble_output(Err(String::from("invalid mnemonic"))),
        Err(String::from("invalid mnemonic"))
    );
}
