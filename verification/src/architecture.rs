//! The CPU architectures a package can target.

use vstd::prelude::*;
use vstd::string::StringExecFns;

use crate::bytes::str_bytes_eq;

verus! {

#[derive(Debug, Clone, Copy, PartialEq, Eq, Hash, Structural)]
pub enum Architecture {
    X86_64,
    AArch64,
    RiscV64,
    Prum64,
}

impl Architecture {
    /// The canonical lower-case name of the architecture.
    pub open spec fn spec_str(self) -> Seq<char> {
        match self {
            Architecture::X86_64 => "x86_64"@,
            Architecture::AArch64 => "aarch64"@,
            Architecture::RiscV64 => "riscv64"@,
            Architecture::Prum64 => "prum64"@,
        }
    }

    pub fn as_str(&self) -> (r: &'static str)
        ensures
            r@ == self.spec_str(),
    {
        match self {
            Architecture::X86_64 => "x86_64",
            Architecture::AArch64 => "aarch64",
            Architecture::RiscV64 => "riscv64",
            Architecture::Prum64 => "prum64",
        }
    }

    /// All four supported architectures, in their canonical order.
    pub fn supported_architectures() -> (r: Vec<Architecture>)
        ensures
            r@ == seq![
                Architecture::X86_64,
                Architecture::AArch64,
                Architecture::RiscV64,
                Architecture::Prum64,
            ],
    {
        let mut v: Vec<Architecture> = Vec::new();
        v.push(Architecture::X86_64);
        v.push(Architecture::AArch64);
        v.push(Architecture::RiscV64);
        v.push(Architecture::Prum64);
        proof {
            assert(v@ =~= seq![
                Architecture::X86_64,
                Architecture::AArch64,
                Architecture::RiscV64,
                Architecture::Prum64,
            ]);
        }
        v
    }
}

impl core::str::FromStr for Architecture {
    type Err = String;

    /// Parses a canonical architecture name; anything else names the
    /// unrecognized input in the error.
    fn from_str(s: &str) -> Result<Architecture, String> {
        if str_bytes_eq(s, "x86_64") {
            Ok(Architecture::X86_64)
        } else if str_bytes_eq(s, "aarch64") {
            Ok(Architecture::AArch64)
        } else if str_bytes_eq(s, "riscv64") {
            Ok(Architecture::RiscV64)
        } else if str_bytes_eq(s, "prum64") {
            Ok(Architecture::Prum64)
        } else {
            Err(<String as StringExecFns>::from_str("Unknown architecture: ").concat(s))
        }
    }
}

} // verus!
