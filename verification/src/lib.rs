//! Translates RV64GC RISC-V machine code into WebAssembly modules.
//!
//! The pipeline runs strictly forward: the decoder turns bytes into
//! instruction records, the control-flow reconstructor groups them into
//! basic blocks, the lowerer turns each block into a Wasm function over a
//! memory-resident register file, and the assembler emits the final module
//! together with a dispatch loop exported as `run`.
//!
//! The generated module imports its memory as `env.memory` and a
//! system-call callback as `env.syscall`. A block function returns the next
//! guest PC, -1 to halt, or a PC with bit 31 set to ask for the callback.

pub mod cfg;
pub mod disasm;
pub mod elf;
pub mod encoder;
pub mod error;
pub mod ir;
pub mod optimize;
pub mod ordered;
pub mod text;
pub mod translate;
pub mod wasm_builder;

pub use crate::cfg::{BasicBlock, ControlFlowGraph, Function};
pub use crate::disasm::{Instruction, Opcode};
pub use crate::elf::{CodeSection, ElfInfo, Segment};
pub use crate::error::CompileError;
pub use crate::ir::{WasmFunction, WasmInst, WasmModule};

use crate::cfg::graph_of;
use crate::disasm::decode_stream;
use crate::elf::{
    code_ranges, code_sections, code_views, elf_info, loadable, parse_elf, parse_sections,
    parsed_elf, parsed_sections, refusal, section_views, CodeView, ElfImage, ImageView,
    SectionHeader, SectionView,
};
use crate::text::hex_name_padded;
use crate::translate::{some_oversized, translated, translated_jit};
use crate::wasm_builder::{fits, module_bytes};
use vstd::prelude::*;
use vstd::string::StringExecFns;

verus! {

/// The name and version of the run-time compiler.
pub fn version() -> (s: String)
    ensures
        s@ == "rv2wasm-jit 0.1.0"@,
{
    String::from_str("rv2wasm-jit 0.1.0")
}

/// The instructions of a list of code ranges, in range order.
pub open spec fn decoded_all(ranges: Seq<CodeView>) -> Seq<Instruction>
    decreases ranges.len(),
{
    if ranges.len() == 0 {
        Seq::<Instruction>::empty()
    } else {
        decoded_all(ranges.drop_last()) + decode_stream(ranges.last().data, ranges.last().vaddr, 0)
    }
}

/// The instructions of the code ranges of a file.
pub open spec fn program(elf_data: Seq<u8>, image: ImageView, sections: Seq<SectionView>) -> Seq<
    Instruction,
> {
    decoded_all(code_ranges(elf_data, loadable(image.program_headers), sections))
}

/// Is `bytes` the module made from the instruction list: the encoding of
/// the translation of its control-flow graph?
pub open spec fn compiled(
    bytes: Seq<u8>,
    insts: Seq<Instruction>,
    entry: u64,
    segments: Seq<Segment>,
    opt_level: u8,
    debug: bool,
) -> bool {
    exists|cfg: ControlFlowGraph, module: WasmModule|
        graph_of(cfg, insts, entry) && translated(module, cfg, segments, opt_level, debug) && fits(
            module,
        ) && bytes == module_bytes(module)
}

/// Does the translation of the instruction list fit no module: is a block
/// too long to optimize, or the module too large for the binary format?
pub open spec fn too_large(
    insts: Seq<Instruction>,
    entry: u64,
    segments: Seq<Segment>,
    opt_level: u8,
    debug: bool,
) -> bool {
    exists|cfg: ControlFlowGraph|
        graph_of(cfg, insts, entry) && ((opt_level >= 2 && some_oversized(cfg.blocks@, debug))
            || exists|module: WasmModule|
            translated(module, cfg, segments, opt_level, debug) && !fits(module))
}

fn disassemble_all(ranges: &Vec<CodeSection>) -> (insts: Vec<Instruction>)
    ensures
        insts@ == decoded_all(code_views(ranges@)),
{
    let ghost views = code_views(ranges@);
    let mut all_instructions: Vec<Instruction> = Vec::new();
    let mut i: usize = 0;
    proof {
        assert(views.take(0) =~= Seq::<CodeView>::empty());
    }
    while i < ranges.len()
        invariant
            i <= ranges.len(),
            views == code_views(ranges@),
            all_instructions@ == decoded_all(views.take(i as int)),
        decreases ranges.len() - i,
    {
        proof {
            assert(views.take(i + 1).drop_last() =~= views.take(i as int));
            assert(views.take(i + 1).last() == ranges@[i as int]@);
        }
        match crate::disasm::disassemble(&ranges[i]) {
            Ok(instructions) => {
                let mut instructions = instructions;
                all_instructions.append(&mut instructions);
            },
            Err(_) => {},
        }
        i += 1;
    }
    proof {
        assert(views.take(i as int) =~= views);
    }
    all_instructions
}

/// Compiles a parsed RISC-V ELF binary to WebAssembly. `elf_data` holds
/// the bytes of the file that `image` and `sections` were parsed from.
pub fn compile_image(
    elf_data: &[u8],
    image: &ElfImage,
    sections: &Vec<SectionHeader>,
    opt_level: u8,
    debug: bool,
) -> (r: Result<Vec<u8>, CompileError>)
    ensures
        match r {
            Ok(bytes) => refusal(image@) is None && compiled(
                bytes@,
                program(elf_data@, image@, section_views(sections@)),
                image.entry,
                loadable(image.program_headers@),
                opt_level,
                debug,
            ),
            Err(e) => if refusal(image@) is Some {
                refusal(image@) == Some(e)
            } else {
                e == CompileError::ModuleTooLarge && too_large(
                    program(elf_data@, image@, section_views(sections@)),
                    image.entry,
                    loadable(image.program_headers@),
                    opt_level,
                    debug,
                )
            },
        },
{
    let info = match elf_info(image) {
        Ok(info) => info,
        Err(e) => {
            return Err(e);
        },
    };
    let ranges = code_sections(elf_data, &info, sections);
    let all_instructions = disassemble_all(&ranges);
    let cfg = match crate::cfg::build(all_instructions.as_slice(), info.entry) {
        Ok(cfg) => cfg,
        Err(e) => {
            return Err(e);
        },
    };
    let wasm_module = match crate::translate::translate(&cfg, &info, opt_level, debug) {
        Ok(m) => m,
        Err(e) => {
            return Err(e);
        },
    };
    crate::wasm_builder::build(&wasm_module)
}

/// Compiles a RISC-V ELF binary to WebAssembly. A file that is no
/// well-formed ELF container, that targets another machine than RISC-V, or
/// that is not of the 64-bit class is refused.
pub fn compile(elf_data: &[u8], opt_level: u8, debug: bool) -> (r: Result<Vec<u8>, CompileError>)
    ensures
        match r {
            Ok(bytes) => parsed_elf(elf_data@) is Some && parsed_sections(elf_data@) is Some
                && refusal(parsed_elf(elf_data@)->Some_0) is None && compiled(
                bytes@,
                program(elf_data@, parsed_elf(elf_data@)->Some_0, parsed_sections(elf_data@)->Some_0),
                parsed_elf(elf_data@)->Some_0.entry,
                loadable(parsed_elf(elf_data@)->Some_0.program_headers),
                opt_level,
                debug,
            ),
            Err(e) => match parsed_elf(elf_data@) {
                None => e == CompileError::InvalidElf,
                Some(image) => if refusal(image) is Some {
                    refusal(image) == Some(e)
                } else {
                    match parsed_sections(elf_data@) {
                        None => e == CompileError::InvalidElf,
                        Some(sections) => e == CompileError::ModuleTooLarge && too_large(
                            program(elf_data@, image, sections),
                            image.entry,
                            loadable(image.program_headers),
                            opt_level,
                            debug,
                        ),
                    }
                },
            },
        },
{
    let image = match parse_elf(elf_data) {
        Some(image) => image,
        None => {
            return Err(CompileError::InvalidElf);
        },
    };
    match elf_info(&image) {
        Ok(_) => {},
        Err(e) => {
            return Err(e);
        },
    }
    match parse_sections(elf_data) {
        Some(sections) => compile_image(elf_data, &image, &sections, opt_level, debug),
        None => Err(CompileError::InvalidElf),
    }
}

/// Is `bytes` the run-time module of the code region at `base`?
pub open spec fn compiled_region(bytes: Seq<u8>, code: Seq<u8>, base: u32) -> bool {
    let insts = decode_stream(code, base as u64, 0);
    exists|cfg: ControlFlowGraph, module: WasmModule|
        graph_of(cfg, insts, insts[0].addr) && translated_jit(module, cfg, base as u64) && fits(
            module,
        ) && bytes == module_bytes(module)
}

/// Does the translation of the code region at `base` fit no module?
pub open spec fn region_too_large(code: Seq<u8>, base: u32) -> bool {
    let insts = decode_stream(code, base as u64, 0);
    exists|cfg: ControlFlowGraph|
        graph_of(cfg, insts, insts[0].addr) && (some_oversized(cfg.blocks@, false) || exists|
            module: WasmModule,
        |
            translated_jit(module, cfg, base as u64) && !fits(module))
}

/// Compiles a region of RISC-V machine code, loaded at `base_addr`, to a
/// WebAssembly module. The module imports its memory from the host, and
/// its entry is `base_addr`. A region without a decodable instruction is
/// refused.
pub fn compile_region(code: &[u8], base_addr: u32) -> (r: Result<Vec<u8>, CompileError>)
    ensures
        match r {
            Ok(bytes) => decode_stream(code@, base_addr as u64, 0).len() > 0 && compiled_region(
                bytes@,
                code@,
                base_addr,
            ),
            Err(e) => if decode_stream(code@, base_addr as u64, 0).len() == 0 {
                e == (CompileError::EmptyRegion { base: base_addr })
            } else {
                e == CompileError::ModuleTooLarge && region_too_large(code@, base_addr)
            },
        },
{
    let mut data: Vec<u8> = Vec::new();
    let mut i: usize = 0;
    while i < code.len()
        invariant
            i <= code.len(),
            data@ == code@.take(i as int),
        decreases code.len() - i,
    {
        data.push(code[i]);
        proof {
            assert(code@.take(i + 1) =~= code@.take(i as int).push(code@[i as int]));
        }
        i += 1;
    }
    proof {
        assert(code@.take(i as int) =~= code@);
    }
    let section = CodeSection {
        vaddr: base_addr as u64,
        data,
        name: hex_name_padded("jit_0x", base_addr as u64),
    };
    let instructions = match crate::disasm::disassemble(&section) {
        Ok(instructions) => instructions,
        Err(e) => {
            return Err(e);
        },
    };
    if instructions.len() == 0 {
        return Err(CompileError::EmptyRegion { base: base_addr });
    }
    let entry = instructions[0].addr;
    let cfg = match crate::cfg::build(instructions.as_slice(), entry) {
        Ok(cfg) => cfg,
        Err(e) => {
            return Err(e);
        },
    };
    let wasm_module = match crate::translate::translate_jit(&cfg, base_addr as u64) {
        Ok(m) => m,
        Err(e) => {
            return Err(e);
        },
    };
    crate::wasm_builder::build(&wasm_module)
}

} // verus!
