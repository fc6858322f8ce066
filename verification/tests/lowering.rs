use rv2wasm::cfg::{build as build_graph, BasicBlock};
use rv2wasm::disasm::{decode_32bit, decode_compressed, disassemble, Instruction, Opcode};
use rv2wasm::elf::{CodeSection, ElfInfo, Segment};
use rv2wasm::ir::WasmInst;
use rv2wasm::translate::{
    add_terminator_return, lower, translate, translate_block, translate_instruction, translate_jit,
};

fn show(body: &[WasmInst]) -> String {
    format!("{:?}", body)
}

fn block_of(base: u64, code: &[u32]) -> BasicBlock {
    let mut data = Vec::new();
    for w in code {
        data.extend_from_slice(&w.to_le_bytes());
    }
    let section = CodeSection { vaddr: base, data, name: String::from("test") };
    let instructions = disassemble(&section).unwrap();
    let end = base + 4 * code.len() as u64;
    BasicBlock { start_addr: base, end_addr: end, instructions, successors: vec![], is_function_entry: false }
}

fn info(segments: Vec<Segment>) -> ElfInfo {
    ElfInfo { entry: 0, is_pie: false, interpreter: None, segments, phdr_vaddr: 0, phdr_count: 0 }
}

#[test]
fn addi_loads_adds_and_stores() {
    let mut body = Vec::new();
    translate_instruction(&decode_32bit(0x1000, 0x00700293), &mut body).unwrap();
    assert_eq!(
        show(&body),
        show(&[
            WasmInst::LocalGet { idx: 0 },
            WasmInst::LocalGet { idx: 0 },
            WasmInst::I64Load { offset: 0 },
            WasmInst::I64Const { value: 7 },
            WasmInst::I64Add,
            WasmInst::I64Store { offset: 40 },
        ])
    );
}

#[test]
fn canonical_nop_lowers_to_nothing() {
    // addi x0, x0, 0
    assert!(lower(&decode_32bit(0x1000, 0x00000013)).is_empty());
    assert!(lower(&decode_compressed(0x1000, 0x0001)).is_empty());
    let block = block_of(0x1000, &[0x00000013]);
    let func = translate_block(&block, 0, false, &vec![]).unwrap();
    assert_eq!(show(&func.body), show(&[WasmInst::I32Const { value: 0x1004 }, WasmInst::Return]));
}

#[test]
fn destination_x0_writes_no_register() {
    // add x0,x5,x6 ; lui x0,1 ; ld x0,8(x6) ; mul x0,x5,x6 ; slti x0,x5,1 ; addiw x0,x5,1 ; lr.w x0,(x5)
    for word in [0x00628033, 0x00001037, 0x00833003, 0x02628033, 0x0012a013, 0x0012801b, 0x1002a02f] {
        let code = lower(&decode_32bit(0x1000, word));
        assert!(code.is_empty(), "{:08x}", word);
    }
    // amoadd.w x0,x11,(x10) and sc.w x0,x11,(x10) still write memory, at offset 0 of a computed address
    for word in [0x00b5202f, 0x18b5202f] {
        let code = lower(&decode_32bit(0x1000, word));
        assert!(!code.is_empty());
        for inst in &code {
            assert!(!matches!(inst, WasmInst::I64Store { .. }));
            if let WasmInst::I32Store { offset } = inst {
                assert_eq!(*offset, 0);
            }
        }
    }
}

#[test]
fn loads_and_stores_narrow_the_address() {
    // ld x5, 8(x6)
    assert_eq!(
        show(&lower(&decode_32bit(0, 0x00833283))),
        show(&[
            WasmInst::LocalGet { idx: 0 },
            WasmInst::LocalGet { idx: 0 },
            WasmInst::I64Load { offset: 48 },
            WasmInst::I64Const { value: 8 },
            WasmInst::I64Add,
            WasmInst::I32WrapI64,
            WasmInst::I64Load { offset: 0 },
            WasmInst::I64Store { offset: 40 },
        ])
    );
    // sw x5, -8(x6)
    assert_eq!(
        show(&lower(&decode_32bit(0, 0xfe532c23))),
        show(&[
            WasmInst::LocalGet { idx: 0 },
            WasmInst::I64Load { offset: 48 },
            WasmInst::I64Const { value: -8 },
            WasmInst::I64Add,
            WasmInst::I32WrapI64,
            WasmInst::LocalGet { idx: 0 },
            WasmInst::I64Load { offset: 40 },
            WasmInst::I64Store32 { offset: 0 },
        ])
    );
}

#[test]
fn load_widths() {
    let last_load = |word: u32| -> String {
        let code = lower(&decode_32bit(0, word));
        format!("{:?}", code[code.len() - 2])
    };
    assert_eq!(last_load(0x00830283), "I64Load8S { offset: 0 }"); // lb
    assert_eq!(last_load(0x00834283), "I64Load8U { offset: 0 }"); // lbu
    assert_eq!(last_load(0x00831283), "I64Load16S { offset: 0 }"); // lh
    assert_eq!(last_load(0x00835283), "I64Load16U { offset: 0 }"); // lhu
    assert_eq!(last_load(0x00832283), "I64Load32S { offset: 0 }"); // lw
    assert_eq!(last_load(0x00836283), "I64Load32U { offset: 0 }"); // lwu
    assert_eq!(last_load(0x00833283), "I64Load { offset: 0 }"); // ld
}

#[test]
fn immediate_shifts_mask_the_amount() {
    // srai x5, x5, 33
    let code = lower(&decode_32bit(0, 0x4212d293));
    assert!(matches!(code[3], WasmInst::I64Const { value: 33 }));
    assert!(matches!(code[4], WasmInst::I64ShrS));
    // sraiw x5, x5, 3
    let code = lower(&decode_32bit(0, 0x4032d29b));
    assert!(matches!(code[4], WasmInst::I32Const { value: 3 }));
    assert!(matches!(code[5], WasmInst::I32ShrS));
    assert!(matches!(code[6], WasmInst::I64ExtendI32S));
}

#[test]
fn auipc_is_resolved_at_translation_time() {
    // auipc x5, 1 at 0x1000
    assert_eq!(
        show(&lower(&decode_32bit(0x1000, 0x00001297))),
        show(&[
            WasmInst::LocalGet { idx: 0 },
            WasmInst::I64Const { value: 0x2000 },
            WasmInst::I64Store { offset: 40 },
        ])
    );
}

#[test]
fn high_multiplies_store_zero() {
    // mulh x5, x5, x6
    assert_eq!(
        show(&lower(&decode_32bit(0, 0x026292b3))),
        show(&[
            WasmInst::LocalGet { idx: 0 },
            WasmInst::I64Const { value: 0 },
            WasmInst::I64Store { offset: 40 },
        ])
    );
}

#[test]
fn floating_point_uses_the_register_file_views() {
    // fadd.s f10, f11, f12
    assert_eq!(
        show(&lower(&decode_32bit(0, 0x00c5f553))),
        show(&[
            WasmInst::LocalGet { idx: 0 },
            WasmInst::LocalGet { idx: 0 },
            WasmInst::F32Load { offset: 256 + 4 * 11 },
            WasmInst::LocalGet { idx: 0 },
            WasmInst::F32Load { offset: 256 + 4 * 12 },
            WasmInst::F32Add,
            WasmInst::F32Store { offset: 256 + 4 * 10 },
        ])
    );
    // fadd.d f10, f11, f12
    assert_eq!(
        show(&lower(&decode_32bit(0, 0x02c5f553))),
        show(&[
            WasmInst::LocalGet { idx: 0 },
            WasmInst::LocalGet { idx: 0 },
            WasmInst::F64Load { offset: 384 + 8 * 11 },
            WasmInst::LocalGet { idx: 0 },
            WasmInst::F64Load { offset: 384 + 8 * 12 },
            WasmInst::F64Add,
            WasmInst::F64Store { offset: 384 + 8 * 10 },
        ])
    );
}

#[test]
fn fused_multiply_add_takes_its_third_operand_from_bits_31_to_27() {
    // fnmadd.d f10, f11, f12, f13
    assert_eq!(
        show(&lower(&decode_32bit(0, 0x6ac5f54f))),
        show(&[
            WasmInst::LocalGet { idx: 0 },
            WasmInst::LocalGet { idx: 0 },
            WasmInst::F64Load { offset: 384 + 8 * 11 },
            WasmInst::LocalGet { idx: 0 },
            WasmInst::F64Load { offset: 384 + 8 * 12 },
            WasmInst::F64Mul,
            WasmInst::F64Neg,
            WasmInst::LocalGet { idx: 0 },
            WasmInst::F64Load { offset: 384 + 8 * 13 },
            WasmInst::F64Sub,
            WasmInst::F64Store { offset: 384 + 8 * 10 },
        ])
    );
}

#[test]
fn sign_injection_masks_the_sign_bit() {
    // fsgnjn.s f10, f11, f12
    assert_eq!(
        show(&lower(&decode_32bit(0, 0x20c59553))),
        show(&[
            WasmInst::LocalGet { idx: 0 },
            WasmInst::LocalGet { idx: 0 },
            WasmInst::F32Load { offset: 300 },
            WasmInst::I32ReinterpretF32,
            WasmInst::I32Const { value: 0x7fff_ffff },
            WasmInst::I32And,
            WasmInst::LocalGet { idx: 0 },
            WasmInst::F32Load { offset: 304 },
            WasmInst::I32ReinterpretF32,
            WasmInst::I32Const { value: i32::MIN },
            WasmInst::I32Xor,
            WasmInst::I32Const { value: i32::MIN },
            WasmInst::I32And,
            WasmInst::I32Or,
            WasmInst::F32ReinterpretI32,
            WasmInst::F32Store { offset: 296 },
        ])
    );
}

#[test]
fn comparisons_of_floats_go_to_the_integer_file() {
    // feq.s x10, f11, f12
    let code = lower(&decode_32bit(0, 0xa0c5a553));
    assert!(matches!(code[code.len() - 3], WasmInst::F32Eq));
    assert!(matches!(code[code.len() - 2], WasmInst::I64ExtendI32U));
    assert!(matches!(code[code.len() - 1], WasmInst::I64Store { offset: 80 }));
}

#[test]
fn unknown_instruction_lowers_to_an_annotated_halt() {
    let mut inst = decode_32bit(0x1000, 0xffffffff);
    assert_eq!(inst.opcode, Opcode::Unknown);
    inst.rd = Some(5);
    let code = lower(&inst);
    assert_eq!(
        show(&code),
        show(&[
            WasmInst::Comment { text: String::from("UNSUPPORTED: Unknown") },
            WasmInst::I32Const { value: -1 },
            WasmInst::Return,
        ])
    );
}

#[test]
fn branch_selects_between_two_constants() {
    let block = block_of(0x1008, &[0xfe029ee3]); // bne x5, x0, -4
    let mut body = Vec::new();
    add_terminator_return(&block.instructions[0], &block, &mut body, &vec![]).unwrap();
    assert_eq!(
        show(&body),
        show(&[
            WasmInst::I32Const { value: 0x1004 },
            WasmInst::I32Const { value: 0x100c },
            WasmInst::LocalGet { idx: 0 },
            WasmInst::I64Load { offset: 40 },
            WasmInst::LocalGet { idx: 0 },
            WasmInst::I64Load { offset: 0 },
            WasmInst::I64Ne,
            WasmInst::Select,
            WasmInst::Return,
        ])
    );
}

#[test]
fn direct_jump_returns_a_constant() {
    let block = block_of(0x1000, &[0x008000ef]); // jal x1, +8
    let func = translate_block(&block, 0, false, &vec![]).unwrap();
    assert_eq!(
        show(&func.body),
        show(&[
            WasmInst::LocalGet { idx: 0 },
            WasmInst::I64Const { value: 0x1004 },
            WasmInst::I64Store { offset: 8 },
            WasmInst::I32Const { value: 0x1008 },
            WasmInst::Return,
        ])
    );
    assert_eq!(func.name, "block_1000");
    assert_eq!(func.block_addr, 0x1000);
    assert_eq!(func.num_locals, 4);
}

#[test]
fn return_narrows_the_link_register() {
    let block = block_of(0x1000, &[0x00008067]); // jalr x0, 0(x1)
    let func = translate_block(&block, 0, false, &vec![0x1004]).unwrap();
    assert_eq!(
        show(&func.body),
        show(&[
            WasmInst::LocalGet { idx: 0 },
            WasmInst::I64Load { offset: 8 },
            WasmInst::I64Const { value: -2 },
            WasmInst::I64And,
            WasmInst::I32WrapI64,
            WasmInst::Return,
        ])
    );
}

#[test]
fn indirect_call_probes_its_known_successors() {
    // jalr x1, 4(x5) at 0x1000, with successors 0x1004 and 0x3000, of which 0x1004 is known
    let mut block = block_of(0x1000, &[0x004280e7]);
    block.successors = vec![0x3000, 0x1004];
    let func = translate_block(&block, 0, false, &vec![0x1000, 0x1004]).unwrap();
    assert_eq!(
        show(&func.body),
        show(&[
            WasmInst::LocalGet { idx: 0 },
            WasmInst::I64Load { offset: 40 },
            WasmInst::I64Const { value: 4 },
            WasmInst::I64Add,
            WasmInst::I64Const { value: -2 },
            WasmInst::I64And,
            WasmInst::LocalGet { idx: 0 },
            WasmInst::I64Const { value: 0x1004 },
            WasmInst::I64Store { offset: 8 },
            WasmInst::LocalSet { idx: 1 },
            WasmInst::Block { label: 0 },
            WasmInst::LocalGet { idx: 1 },
            WasmInst::I32WrapI64,
            WasmInst::I32Const { value: 0x1004 },
            WasmInst::I32Ne,
            WasmInst::BrIf { label: 0 },
            WasmInst::I32Const { value: 0x1004 },
            WasmInst::Return,
            WasmInst::End,
            WasmInst::LocalGet { idx: 1 },
            WasmInst::I32WrapI64,
            WasmInst::Return,
        ])
    );
}

#[test]
fn at_most_two_probes_guard_an_indirect_call() {
    let mut block = block_of(0x1000, &[0x000280e7]);
    block.successors = vec![0x10, 0x20, 0x30];
    let func = translate_block(&block, 0, false, &vec![0x10, 0x20, 0x30]).unwrap();
    assert_eq!(func.body.iter().filter(|i| matches!(i, WasmInst::Block { .. })).count(), 2);
}

#[test]
fn traps_return_their_tagged_pc() {
    let block = block_of(0x1000, &[0x00000073]); // ecall
    let func = translate_block(&block, 0, false, &vec![]).unwrap();
    assert_eq!(
        show(&func.body),
        show(&[WasmInst::I32Const { value: (0x8000_1000u32) as i32 }, WasmInst::Return])
    );
    let block = block_of(0x1000, &[0x00100073]); // ebreak
    let func = translate_block(&block, 0, false, &vec![]).unwrap();
    assert_eq!(
        show(&func.body),
        show(&[WasmInst::I32Const { value: (0xC000_1000u32) as i32 }, WasmInst::Return])
    );
}

#[test]
fn empty_block_falls_through_to_its_end() {
    let block = BasicBlock {
        start_addr: 0x1000,
        end_addr: 0x1000,
        instructions: vec![],
        successors: vec![],
        is_function_entry: false,
    };
    let func = translate_block(&block, 0, true, &vec![]).unwrap();
    assert_eq!(
        show(&func.body),
        show(&[
            WasmInst::Comment { text: String::from("Block 0x00001000") },
            WasmInst::I32Const { value: 0x1000 },
            WasmInst::Return,
        ])
    );
}

#[test]
fn debug_mode_annotates_block_and_instructions() {
    let block = block_of(0x1000, &[0x00000013, 0x00100073]);
    let func = translate_block(&block, 0, true, &vec![]).unwrap();
    assert_eq!(
        show(&func.body),
        show(&[
            WasmInst::Comment { text: String::from("Block 0x00001000") },
            WasmInst::Comment { text: String::from("  00001000: ADDI") },
            WasmInst::Comment { text: String::from("  00001004: EBREAK") },
            WasmInst::I32Const { value: (0xC000_1004u32) as i32 },
            WasmInst::Return,
        ])
    );
}

#[test]
fn every_block_function_ends_in_a_return() {
    let words: Vec<u32> = vec![
        0x00300293, 0xfff28293, 0xfe029ee3, 0x008000ef, 0x00100073, 0x02a00513, 0x00008067,
        0x000280e7, 0x00000073, 0xffffffff,
    ];
    let mut data = Vec::new();
    for w in &words {
        data.extend_from_slice(&w.to_le_bytes());
    }
    let section = CodeSection { vaddr: 0x1000, data, name: String::from("test") };
    let instructions: Vec<Instruction> = disassemble(&section).unwrap();
    let graph = build_graph(&instructions, 0x1000).unwrap();
    for opt in [0, 2] {
        let module = translate(&graph, &info(vec![]), opt, false).unwrap();
        assert_eq!(module.function_count(), graph.blocks.len());
        for func in &module.functions {
            assert!(matches!(func.body.last(), Some(WasmInst::Return)));
        }
    }
}

#[test]
fn module_lists_the_blocks_in_address_order() {
    let block_words: Vec<u32> = vec![0x008000ef, 0x00100073, 0x02a00513, 0x00008067];
    let mut data = Vec::new();
    for w in &block_words {
        data.extend_from_slice(&w.to_le_bytes());
    }
    let section = CodeSection { vaddr: 0x1000, data, name: String::from("test") };
    let instructions = disassemble(&section).unwrap();
    let graph = build_graph(&instructions, 0x1000).unwrap();
    let module = translate(&graph, &info(vec![]), 0, false).unwrap();
    let addrs: Vec<u64> = module.functions.iter().map(|f| f.block_addr).collect();
    assert_eq!(addrs, vec![0x1000, 0x1004, 0x1008]);
    let names: Vec<&str> = module.functions.iter().map(|f| f.name.as_str()).collect();
    assert_eq!(names, vec!["block_1000", "block_1004", "block_1008"]);
    assert_eq!(module.block_to_func[&0x1000], 0);
    assert_eq!(module.block_to_func[&0x1004], 1);
    assert_eq!(module.block_to_func[&0x1008], 2);
    assert_eq!(module.entry, 0x1000);
}

#[test]
fn memory_covers_the_highest_segment_and_at_least_512_kib() {
    let graph = build_graph(&[], 0).unwrap();
    let seg = |vaddr: u64, memsz: u64| Segment { vaddr, memsz, filesz: 0, offset: 0, flags: 0 };
    assert_eq!(translate(&graph, &info(vec![]), 0, false).unwrap().memory_pages, 8);
    assert_eq!(
        translate(&graph, &info(vec![seg(0x10000, 0x1000)]), 0, false).unwrap().memory_pages,
        8
    );
    assert_eq!(
        translate(&graph, &info(vec![seg(0x100000, 1), seg(0x10000, 0x1000)]), 0, false)
            .unwrap()
            .memory_pages,
        17
    );
    assert_eq!(
        translate(&graph, &info(vec![seg(0, 0x100000)]), 0, false).unwrap().memory_pages,
        16
    );
}

#[test]
fn run_time_translation_asks_for_no_memory_and_optimizes() {
    let block_words: Vec<u32> = vec![0x00700293, 0x00128313]; // addi x5,x0,7 ; addi x6,x5,1
    let mut data = Vec::new();
    for w in &block_words {
        data.extend_from_slice(&w.to_le_bytes());
    }
    let section = CodeSection { vaddr: 0x1000, data, name: String::from("test") };
    let instructions = disassemble(&section).unwrap();
    let graph = build_graph(&instructions, 0x1000).unwrap();
    let module = translate_jit(&graph, 0x1000).unwrap();
    assert_eq!(module.memory_pages, 0);
    assert_eq!(module.entry, 0x1000);
    assert_eq!(module.functions.len(), 1);
    // the reload of x5 reads the local that caches it
    let body = &module.functions[0].body;
    assert!(!body.iter().any(|i| matches!(i, WasmInst::I64Load { offset: 40 })));
    assert!(module.functions[0].num_locals > 4);
}
