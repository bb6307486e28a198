use guidra::config::{mode_label, Config, MyArch, MyMode};

#[test]
fn default_target_is_x86_64() {
    let c = Config::new();
    let (arch, mode) = c.get();
    assert_eq!(arch, MyArch::X86);
    assert_eq!(mode, MyMode::Bits64);
}

#[test]
fn set_arch_keeps_mode() {
    let mut c = Config::new();
    c.set_arch(MyArch::Arm);
    let (arch, mode) = c.get();
    assert_eq!(arch, MyArch::Arm);
    assert_eq!(mode, MyMode::Bits64);
}

#[test]
fn set_mode_keeps_arch() {
    let mut c = Config::new();
    c.set_mode(MyMode::Bits32);
    let (arch, mode) = c.get();
    assert_eq!(arch, MyArch::X86);
    assert_eq!(mode, MyMode::Bits32);
}

#[test]
fn labels() {
    assert_eq!(mode_label(MyArch::X86, MyMode::Bits32), "x86");
    assert_eq!(mode_label(MyArch::X86, MyMode::Bits64), "x64");
    assert_eq!(mode_label(MyArch::Arm, MyMode::Bits32), "ARM 32 bits little endian");
    assert_eq!(mode_label(MyArch::Arm, MyMode::Bits64), "ARM 64 bits little endian");
}
