use rv2wasm::cfg::{build, compute_successors, find_block_boundaries};
use rv2wasm::disasm::{decode_32bit, decode_compressed, disassemble, Instruction, Opcode};
use rv2wasm::elf::CodeSection;

fn words(base: u64, code: &[u32]) -> Vec<Instruction> {
    let mut data = Vec::new();
    for w in code {
        data.extend_from_slice(&w.to_le_bytes());
    }
    let section = CodeSection { vaddr: base, data, name: String::from("test") };
    disassemble(&section).unwrap()
}

#[test]
fn test_empty_cfg() {
    let cfg = build(&[], 0x1000).unwrap();
    assert!(cfg.blocks.is_empty());
}

#[test]
fn empty_cfg_has_no_function_and_keeps_the_entry() {
    let cfg = build(&[], 0x1000).unwrap();
    assert!(cfg.functions.is_empty());
    assert_eq!(cfg.entry, 0x1000);
}

#[test]
fn branch_has_target_and_fall_through() {
    // bne x5, x0, -4 at 0x1008
    let inst = decode_32bit(0x1008, 0xfe029ee3);
    assert_eq!(inst.opcode, Opcode::BNE);
    assert_eq!(compute_successors(&inst), vec![0x1004, 0x100c]);
}

#[test]
fn compressed_branch_has_target_and_fall_through() {
    // c.beqz x8, +8 at 0x2000
    let inst = decode_compressed(0x2000, 0xc401);
    assert_eq!(inst.opcode, Opcode::C_BEQZ);
    assert_eq!(compute_successors(&inst), vec![0x2008, 0x2002]);
}

#[test]
fn jump_without_link_has_only_its_target() {
    // jal x0, +16 at 0x1000
    let inst = decode_32bit(0x1000, 0x0100006f);
    assert_eq!(inst.opcode, Opcode::JAL);
    assert_eq!(compute_successors(&inst), vec![0x1010]);
}

#[test]
fn call_has_target_then_fall_through() {
    // jal x1, +8 at 0x1000
    let inst = decode_32bit(0x1000, 0x008000ef);
    assert_eq!(inst.rd, Some(1));
    assert_eq!(compute_successors(&inst), vec![0x1008, 0x1004]);
}

#[test]
fn compressed_jump_has_only_its_target() {
    // c.j +4 at 0x1000
    let inst = decode_compressed(0x1000, 0xa011);
    assert_eq!(inst.opcode, Opcode::C_J);
    assert_eq!(compute_successors(&inst), vec![0x1004]);
}

#[test]
fn indirect_call_falls_through() {
    // jalr x1, 0(x5) at 0x1000
    let inst = decode_32bit(0x1000, 0x000280e7);
    assert_eq!(inst.opcode, Opcode::JALR);
    assert_eq!(compute_successors(&inst), vec![0x1004]);
}

#[test]
fn return_has_no_successor() {
    // jalr x0, 0(x1)
    let inst = decode_32bit(0x1000, 0x00008067);
    assert_eq!(compute_successors(&inst), Vec::<u64>::new());
    // c.jr x1
    let inst = decode_compressed(0x1000, 0x8082);
    assert_eq!(inst.opcode, Opcode::C_JR);
    assert_eq!(compute_successors(&inst), Vec::<u64>::new());
}

#[test]
fn traps_fall_through() {
    let ecall = decode_32bit(0x1000, 0x00000073);
    assert_eq!(compute_successors(&ecall), vec![0x1004]);
    let ebreak = decode_32bit(0x1000, 0x00100073);
    assert_eq!(compute_successors(&ebreak), vec![0x1004]);
    let c_ebreak = decode_compressed(0x1000, 0x9002);
    assert_eq!(c_ebreak.opcode, Opcode::C_EBREAK);
    assert_eq!(compute_successors(&c_ebreak), vec![0x1002]);
}

#[test]
fn successors_wrap_in_the_address_space() {
    // bne x5, x0, -4 at address 0: the target is 2^64 - 4
    let inst = decode_32bit(0, 0xfe029ee3);
    assert_eq!(compute_successors(&inst), vec![0xffff_ffff_ffff_fffc, 4]);
}

#[test]
fn boundaries_hold_entry_first_address_targets_and_fall_throughs() {
    // addi x5,x0,3 ; addi x5,x5,-1 ; bne x5,x0,-4
    let insts = words(0x1000, &[0x00300293, 0xfff28293, 0xfe029ee3]);
    let bounds = find_block_boundaries(&insts, 0x2000);
    let got: Vec<u64> = bounds.iter().copied().collect();
    assert_eq!(got, vec![0x1000, 0x1004, 0x100c, 0x2000]);
}

#[test]
fn loop_is_cut_at_the_branch_target() {
    let insts = words(0x1000, &[0x00300293, 0xfff28293, 0xfe029ee3]);
    let cfg = build(&insts, 0x1000).unwrap();
    let keys: Vec<u64> = cfg.blocks.keys().copied().collect();
    assert_eq!(keys, vec![0x1000, 0x1004]);
    let first = &cfg.blocks[&0x1000];
    assert_eq!(first.start_addr, 0x1000);
    assert_eq!(first.end_addr, 0x1004);
    assert_eq!(first.instructions.len(), 1);
    // a block without a terminator falls through to the block at its end
    assert_eq!(first.successors, vec![0x1004]);
    assert!(!first.is_return());
    let second = &cfg.blocks[&0x1004];
    assert_eq!(second.end_addr, 0x100c);
    assert_eq!(second.instructions.len(), 2);
    assert_eq!(second.successors, vec![0x1004, 0x100c]);
    assert_eq!(second.terminator().unwrap().opcode, Opcode::BNE);
}

#[test]
fn only_the_last_instruction_of_a_block_is_a_terminator() {
    // jal x1,+8 ; ebreak ; addi x10,x0,42 ; jalr x0,0(x1)
    let insts = words(0x1000, &[0x008000ef, 0x00100073, 0x02a00513, 0x00008067]);
    let cfg = build(&insts, 0x1000).unwrap();
    assert_eq!(cfg.blocks.len(), 3);
    for block in cfg.blocks.values() {
        let n = block.instructions.len();
        assert!(n > 0);
        for inst in &block.instructions[..n - 1] {
            assert!(!inst.opcode.is_terminator());
        }
        assert_eq!(block.start_addr, block.instructions[0].addr);
        let last = &block.instructions[n - 1];
        assert_eq!(block.end_addr, last.addr + last.len as u64);
    }
    assert!(cfg.blocks[&0x1008].is_return());
    assert_eq!(cfg.blocks[&0x1008].successors, Vec::<u64>::new());
}

#[test]
fn functions_are_grouped_around_call_targets() {
    // main: jal x1,+8 ; ebreak.  f: addi x10,x0,42 ; jalr x0,0(x1)
    let insts = words(0x1000, &[0x008000ef, 0x00100073, 0x02a00513, 0x00008067]);
    let cfg = build(&insts, 0x1000).unwrap();
    assert_eq!(cfg.functions.len(), 2);
    assert_eq!(cfg.functions[0].entry, 0x1000);
    assert_eq!(cfg.functions[0].name, "func_1000");
    // the walk from main does not cross into f
    assert_eq!(cfg.functions[0].blocks, vec![0x1000, 0x1004]);
    assert_eq!(cfg.functions[1].entry, 0x1008);
    assert_eq!(cfg.functions[1].name, "func_1008");
    assert_eq!(cfg.functions[1].blocks, vec![0x1008]);
}

#[test]
fn entry_outside_the_code_gives_no_function() {
    let insts = words(0x1000, &[0x00700293]);
    let cfg = build(&insts, 0x9000).unwrap();
    assert_eq!(cfg.blocks.len(), 1);
    assert!(cfg.functions.is_empty());
}

#[test]
fn a_gap_in_the_addresses_starts_a_new_block() {
    let mut insts = words(0x1000, &[0x00700293]);
    insts.extend(words(0x3000, &[0x00700293]));
    let cfg = build(&insts, 0x1000).unwrap();
    let keys: Vec<u64> = cfg.blocks.keys().copied().collect();
    assert_eq!(keys, vec![0x1000, 0x3000]);
    assert_eq!(cfg.blocks[&0x1000].successors, Vec::<u64>::new());
}

#[test]
fn blocks_of_arbitrary_code_are_closed_and_contiguous() {
    let mut state: u32 = 777;
    for _ in 0..50 {
        let mut data = Vec::new();
        for _ in 0..400 {
            state = state.wrapping_mul(1_103_515_245).wrapping_add(12_345);
            data.push((state >> 16) as u8);
        }
        let section = CodeSection { vaddr: 0x4000, data, name: String::from("test") };
        let insts = disassemble(&section).unwrap();
        let cfg = build(&insts, 0x4000).unwrap();
        let mut covered = 0;
        for (addr, block) in &cfg.blocks {
            assert_eq!(*addr, block.start_addr);
            let n = block.instructions.len();
            assert!(n > 0);
            covered += n;
            assert_eq!(block.instructions[0].addr, block.start_addr);
            for pair in block.instructions.windows(2) {
                assert!(!pair[0].opcode.is_terminator());
                assert_eq!(pair[1].addr, pair[0].addr + pair[0].len as u64);
            }
            let last = &block.instructions[n - 1];
            assert_eq!(block.end_addr, last.addr + last.len as u64);
            if last.opcode.is_branch() {
                let target = last.addr.wrapping_add_signed(last.imm.unwrap());
                assert_eq!(block.successors, vec![target, last.addr + last.len as u64]);
            }
            assert!(block.successors.len() <= 2);
            if !last.opcode.is_terminator() {
                let next = cfg.blocks.contains_key(&block.end_addr);
                assert_eq!(block.successors, if next { vec![block.end_addr] } else { vec![] });
            }
        }
        assert_eq!(covered, insts.len());
        for function in &cfg.functions {
            assert!(cfg.blocks.contains_key(&function.entry));
            assert_eq!(function.blocks[0], function.entry);
            let mut seen = function.blocks.clone();
            seen.sort();
            seen.dedup();
            assert_eq!(seen.len(), function.blocks.len());
        }
    }
}

#[test]
fn function_blocks_come_in_reverse_postorder() {
    // A: beq x5,x0,+8 ; C: jalr x0,0(x1) ; B: beq x0,x0,-4
    // A -> [B, C], B -> [C]: B comes before C, which the walk entered from it
    let insts = words(0x1000, &[0x00028463, 0x00008067, 0xfe000ee3]);
    let cfg = build(&insts, 0x1000).unwrap();
    assert_eq!(cfg.blocks[&0x1000].successors, vec![0x1008, 0x1004]);
    assert_eq!(cfg.blocks[&0x1008].successors, vec![0x1004, 0x100c]);
    assert_eq!(cfg.functions.len(), 1);
    assert_eq!(cfg.functions[0].blocks, vec![0x1000, 0x1008, 0x1004]);
}
