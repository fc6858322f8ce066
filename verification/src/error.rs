//! Errors reported by the translator.

use crate::text::{hex_name, hex_name_padded, hex_text, hex_text_padded};
use vstd::prelude::*;
use vstd::string::StringExecFns;

verus! {

/// Why a translation was refused.
#[derive(Debug, Clone, Copy, PartialEq, Eq, Structural)]
pub enum CompileError {
    /// The input is not a well-formed ELF container.
    InvalidElf,
    /// The ELF targets another machine than RISC-V.
    NotRiscV { machine: u16 },
    /// The ELF is a RISC-V binary of the 32-bit class.
    Not64Bit,
    /// The code region holds no decodable instruction.
    EmptyRegion { base: u32 },
    /// The module has more entries, or longer entries, than the binary
    /// format can count with 32 bits, or a block is too long to optimize.
    ModuleTooLarge,
}

impl CompileError {
    /// The text of the message for this error.
    pub open spec fn message_text(self) -> Seq<char> {
        match self {
            CompileError::InvalidElf => "Invalid ELF format"@,
            CompileError::NotRiscV { machine } => "Not a RISC-V binary (e_machine=0x"@ + hex_text(
                machine as nat,
            ) + ")"@,
            CompileError::Not64Bit => "Only 64-bit RISC-V (RV64) is supported"@,
            CompileError::EmptyRegion { base } => "No instructions decoded in region 0x"@
                + hex_text_padded(base as nat, 8),
            CompileError::ModuleTooLarge => "Module too large for the WebAssembly binary format"@,
        }
    }

    /// The message for this error.
    pub fn message(&self) -> (s: String)
        ensures
            s@ == self.message_text(),
    {
        match self {
            CompileError::InvalidElf => String::from_str("Invalid ELF format"),
            CompileError::NotRiscV { machine } => hex_name(
                "Not a RISC-V binary (e_machine=0x",
                *machine as u64,
            ).concat(")"),
            CompileError::Not64Bit => String::from_str("Only 64-bit RISC-V (RV64) is supported"),
            CompileError::EmptyRegion { base } => hex_name_padded(
                "No instructions decoded in region 0x",
                *base as u64,
            ),
            CompileError::ModuleTooLarge => String::from_str(
                "Module too large for the WebAssembly binary format",
            ),
        }
    }
}

} // verus!
