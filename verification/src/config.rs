//! The target configuration: instruction-set architecture and bit-width.

use vstd::prelude::*;

verus! {

/// The instruction-set architecture an engine is configured for.
#[derive(Clone, Copy, PartialEq, Eq, Structural, Debug)]
pub enum MyArch {
    X86,
    Arm,
}

/// The bit-width an engine is configured for.
#[derive(Clone, Copy, PartialEq, Eq, Structural, Debug)]
pub enum MyMode {
    Bits32,
    Bits64,
}

/// The current target: an architecture together with a bit-width.
#[derive(Clone, Copy, PartialEq, Eq, Structural, Debug)]
pub struct Config {
    pub arch: MyArch,
    pub mode: MyMode,
}

impl Config {
    /// The default target is 64-bit x86.
    pub fn new() -> (c: Config)
        ensures
            c.arch == MyArch::X86,
            c.mode == MyMode::Bits64,
    {
        Config { arch: MyArch::X86, mode: MyMode::Bits64 }
    }

    pub fn set_arch(&mut self, new_arch: MyArch)
        ensures
            final(self).arch == new_arch,
            final(self).mode == old(self).mode,
    {
        self.arch = new_arch;
    }

    pub fn set_mode(&mut self, new_mode: MyMode)
        ensures
            final(self).mode == new_mode,
            final(self).arch == old(self).arch,
    {
        self.mode = new_mode;
    }

    pub fn get(&self) -> (r: (MyArch, MyMode))
        ensures
            r.0 == self.arch,
            r.1 == self.mode,
    {
        (self.arch, self.mode)
    }
}

/// The text shown to the user for each target.
pub fn mode_label(arch: MyArch, mode: MyMode) -> (r: &'static str)
    ensures
        arch == MyArch::X86 && mode == MyMode::Bits32 ==> r@ == "x86"@,
        arch == MyArch::X86 && mode == MyMode::Bits64 ==> r@ == "x64"@,
        arch == MyArch::Arm && mode == MyMode::Bits32 ==> r@ == "ARM 32 bits little endian"@,
        arch == MyArch::Arm && mode == MyMode::Bits64 ==> r@ == "ARM 64 bits little endian"@,
{
    match (arch, mode) {
        (MyArch::X86, MyMode::Bits32) => "x86",
        (MyArch::X86, MyMode::Bits64) => "x64",
        (MyArch::Arm, MyMode::Bits32) => "ARM 32 bits little endian",
        (MyArch::Arm, MyMode::Bits64) => "ARM 64 bits little endian",
    }
}

} // verus!
