use rv2wasm::disasm::{
    decode_32bit, decode_addi16sp_imm, decode_b_imm, decode_cb_imm, decode_ci_imm,
    decode_ci_ldsp_imm, decode_ci_lui_imm, decode_ci_lwsp_imm, decode_ci_shamt, decode_cj_imm,
    decode_cl_imm_d, decode_cl_imm_w, decode_ciw_imm, decode_compressed, decode_css_imm_d,
    decode_css_imm_w, decode_i_imm, decode_j_imm, decode_s_imm, decode_u_imm, disassemble, Opcode,
};
use rv2wasm::elf::CodeSection;

fn section(vaddr: u64, data: Vec<u8>) -> CodeSection {
    CodeSection { vaddr, data, name: String::from("test") }
}

#[test]
fn i_type_immediate_is_sign_extended() {
    assert_eq!(decode_i_imm(0x00700293), 7); // addi x5, x0, 7
    assert_eq!(decode_i_imm(0xfff28293), -1); // addi x5, x5, -1
    assert_eq!(decode_i_imm(0x80000013), -2048);
    assert_eq!(decode_i_imm(0x7ff00013), 2047);
}

#[test]
fn s_type_immediate_joins_both_fields() {
    assert_eq!(decode_s_imm(0x00533423), 8); // sd x5, 8(x6)
    assert_eq!(decode_s_imm(0xfe533c23), -8); // sd x5, -8(x6)
}

#[test]
fn b_type_immediate_is_even_and_signed() {
    assert_eq!(decode_b_imm(0xfe029ee3), -4); // bne x5, x0, -4
    assert_eq!(decode_b_imm(0x00628463), 8); // beq x5, x6, +8
    assert_eq!(decode_b_imm(0x80000063), -4096);
    assert_eq!(decode_b_imm(0x7e000fe3), 4094);
}

#[test]
fn u_type_immediate_keeps_the_upper_twenty_bits() {
    assert_eq!(decode_u_imm(0x123452b7), 0x12345000); // lui x5, 0x12345
    assert_eq!(decode_u_imm(0xfffff2b7), -4096); // lui x5, 0xfffff
    assert_eq!(decode_u_imm(0x800002b7), -0x8000_0000);
}

#[test]
fn j_type_immediate_is_unscrambled() {
    assert_eq!(decode_j_imm(0x008000ef), 8); // jal x1, +8
    assert_eq!(decode_j_imm(0xff9ff06f), -8); // jal x0, -8
    assert_eq!(decode_j_imm(0x001000ef), 0x800); // bit 11 comes from bit 20
    assert_eq!(decode_j_imm(0x000010ef), 0x1000); // bits 19:12 stay in place
    assert_eq!(decode_j_imm(0x800000ef), -0x100000);
}

#[test]
fn compressed_immediates() {
    assert_eq!(decode_ci_imm(0x0415), 5); // c.addi x8, 5
    assert_eq!(decode_ci_imm(0x147d), -1); // c.addi x8, -1
    assert_eq!(decode_ci_shamt(0x1402), 32); // c.slli x8, 32
    assert_eq!(decode_ci_shamt(0x040e), 3); // c.slli x8, 3
    assert_eq!(decode_ci_lui_imm(0x6405), 0x1000); // c.lui x8, 1
    assert_eq!(decode_ci_lui_imm(0x747d), -4096); // c.lui x8, 0xfffff
    assert_eq!(decode_ci_lwsp_imm(0x4432), 12); // c.lwsp x8, 12(sp)
    assert_eq!(decode_ci_ldsp_imm(0x6442), 16); // c.ldsp x8, 16(sp)
    assert_eq!(decode_css_imm_w(0xc622), 12); // c.swsp x8, 12(sp)
    assert_eq!(decode_css_imm_d(0xe822), 16); // c.sdsp x8, 16(sp)
    assert_eq!(decode_ciw_imm(0x0800), 16); // c.addi4spn x8, sp, 16
    assert_eq!(decode_cl_imm_w(0x4040), 4); // c.lw x8, 4(x8)
    assert_eq!(decode_cl_imm_d(0x6400), 8); // c.ld x8, 8(x8)
    assert_eq!(decode_cb_imm(0xc401), 8); // c.beqz x8, +8
    assert_eq!(decode_cb_imm(0xfc75), -4); // c.bnez x8, -4
    assert_eq!(decode_cj_imm(0xa011), 4); // c.j +4
    assert_eq!(decode_cj_imm(0xbff5), -4); // c.j -4
    assert_eq!(decode_addi16sp_imm(0x6141), 16); // c.addi16sp sp, 16
    assert_eq!(decode_addi16sp_imm(0x717d), -16); // c.addi16sp sp, -16
}

#[test]
fn base_forms_decode_to_their_opcodes_and_registers() {
    let inst = decode_32bit(0x1000, 0x00700293); // addi x5, x0, 7
    assert_eq!(inst.addr, 0x1000);
    assert_eq!(inst.bytes, 0x00700293);
    assert_eq!(inst.len, 4);
    assert_eq!(inst.opcode, Opcode::ADDI);
    assert_eq!(inst.rd, Some(5));
    assert_eq!(inst.rs1, Some(0));
    assert_eq!(inst.imm, Some(7));

    let inst = decode_32bit(0, 0x006282b3); // add x5, x5, x6
    assert_eq!(inst.opcode, Opcode::ADD);
    assert_eq!((inst.rd, inst.rs1, inst.rs2), (Some(5), Some(5), Some(6)));
    assert_eq!(inst.imm, None);

    assert_eq!(decode_32bit(0, 0x406282b3).opcode, Opcode::SUB);
    assert_eq!(decode_32bit(0, 0x026282b3).opcode, Opcode::MUL);
    assert_eq!(decode_32bit(0, 0x0262c2b3).opcode, Opcode::DIV);
    assert_eq!(decode_32bit(0, 0x0062833b).opcode, Opcode::ADDW);
    assert_eq!(decode_32bit(0, 0x00533423).opcode, Opcode::SD);
    assert_eq!(decode_32bit(0, 0x00833283).opcode, Opcode::LD);
    assert_eq!(decode_32bit(0, 0x00836283).opcode, Opcode::LWU);
    assert_eq!(decode_32bit(0, 0x0000000f).opcode, Opcode::FENCE);
    assert_eq!(decode_32bit(0, 0x00000073).opcode, Opcode::ECALL);
    assert_eq!(decode_32bit(0, 0x00100073).opcode, Opcode::EBREAK);
    assert_eq!(decode_32bit(0, 0x00200073).opcode, Opcode::Unknown);
}

#[test]
fn right_shifts_are_told_apart_by_their_top_six_bits() {
    assert_eq!(decode_32bit(0, 0x0032d293).opcode, Opcode::SRLI); // srli x5, x5, 3
    assert_eq!(decode_32bit(0, 0x4032d293).opcode, Opcode::SRAI); // srai x5, x5, 3
    // srai x5, x5, 33: the sixth bit of the shift amount is bit 25
    let inst = decode_32bit(0, 0x4212d293);
    assert_eq!(inst.opcode, Opcode::SRAI);
    assert_eq!(inst.imm.unwrap() & 0x3f, 33);
    assert_eq!(decode_32bit(0, 0x0212d293).opcode, Opcode::SRLI); // srli x5, x5, 33
    assert_eq!(decode_32bit(0, 0x4032d29b).opcode, Opcode::SRAIW);
    assert_eq!(decode_32bit(0, 0x0032d29b).opcode, Opcode::SRLIW);
}

#[test]
fn atomics_decode_by_width_and_function() {
    assert_eq!(decode_32bit(0, 0x1005252f).opcode, Opcode::LR_W);
    assert_eq!(decode_32bit(0, 0x18b5252f).opcode, Opcode::SC_W);
    assert_eq!(decode_32bit(0, 0x08b5352f).opcode, Opcode::AMOSWAP_D);
    assert_eq!(decode_32bit(0, 0x00b5252f).opcode, Opcode::AMOADD_W);
    assert_eq!(decode_32bit(0, 0xe0b5352f).opcode, Opcode::AMOMAXU_D);
    assert_eq!(decode_32bit(0, 0x00b5152f).opcode, Opcode::Unknown);
}

#[test]
fn floating_point_forms_decode() {
    assert_eq!(decode_32bit(0, 0x0082a507).opcode, Opcode::FLW); // flw f10, 8(x5)
    assert_eq!(decode_32bit(0, 0x0082b507).opcode, Opcode::FLD);
    assert_eq!(decode_32bit(0, 0x00a2a427).opcode, Opcode::FSW); // fsw f10, 8(x5)
    assert_eq!(decode_32bit(0, 0x00a2a427).imm, Some(8));
    assert_eq!(decode_32bit(0, 0x00a2b427).opcode, Opcode::FSD);
    assert_eq!(decode_32bit(0, 0x00c5f553).opcode, Opcode::FADD_S); // fadd.s f10, f11, f12
    assert_eq!(decode_32bit(0, 0x02c5f553).opcode, Opcode::FADD_D);
    assert_eq!(decode_32bit(0, 0x0ac5f553).opcode, Opcode::FSUB_D);
    assert_eq!(decode_32bit(0, 0x5805f553).opcode, Opcode::FSQRT_S);
    assert_eq!(decode_32bit(0, 0x22c58553).opcode, Opcode::FSGNJ_D);
    assert_eq!(decode_32bit(0, 0x20c59553).opcode, Opcode::FSGNJN_S);
    assert_eq!(decode_32bit(0, 0x20c5a553).opcode, Opcode::FSGNJX_S);
    assert_eq!(decode_32bit(0, 0xa0c5a553).opcode, Opcode::FEQ_S);
    assert_eq!(decode_32bit(0, 0xa2c59553).opcode, Opcode::FLT_D);
    assert_eq!(decode_32bit(0, 0xc0059553).opcode, Opcode::FCVT_W_S);
    assert_eq!(decode_32bit(0, 0xc2359553).opcode, Opcode::FCVT_LU_D);
    assert_eq!(decode_32bit(0, 0xd2258553).opcode, Opcode::FCVT_D_L);
    assert_eq!(decode_32bit(0, 0x40158553).opcode, Opcode::FCVT_S_D);
    assert_eq!(decode_32bit(0, 0x42058553).opcode, Opcode::FCVT_D_S);
    assert_eq!(decode_32bit(0, 0xe0058553).opcode, Opcode::FMV_X_W);
    assert_eq!(decode_32bit(0, 0xf2058553).opcode, Opcode::FMV_D_X);
    assert_eq!(decode_32bit(0, 0xe2059553).opcode, Opcode::FCLASS_D);
    assert_eq!(decode_32bit(0, 0x68c5f543).opcode, Opcode::FMADD_S); // rs3 = f13
    assert_eq!(decode_32bit(0, 0x6ac5f54f).opcode, Opcode::FNMADD_D);
}

#[test]
fn compressed_forms_decode_to_their_opcodes_and_registers() {
    let inst = decode_compressed(0x1000, 0x0415); // c.addi x8, 5
    assert_eq!(inst.len, 2);
    assert_eq!(inst.bytes, 0x0415);
    assert_eq!(inst.opcode, Opcode::C_ADDI);
    assert_eq!((inst.rd, inst.rs1, inst.rs2), (Some(8), Some(8), None));
    assert_eq!(inst.imm, Some(5));

    let inst = decode_compressed(0, 0x0001); // c.nop
    assert_eq!(inst.opcode, Opcode::C_NOP);
    assert_eq!((inst.rd, inst.rs1, inst.rs2, inst.imm), (None, None, None, None));

    let inst = decode_compressed(0, 0x4040); // c.lw x8, 4(x8)
    assert_eq!(inst.opcode, Opcode::C_LW);
    assert_eq!((inst.rd, inst.rs1), (Some(8), Some(8)));

    let inst = decode_compressed(0, 0xe004); // c.sd x9, 0(x8)
    assert_eq!(inst.opcode, Opcode::C_SD);
    assert_eq!((inst.rd, inst.rs1, inst.rs2), (None, Some(8), Some(9)));

    let inst = decode_compressed(0, 0x842a); // c.mv x8, x10
    assert_eq!(inst.opcode, Opcode::C_MV);
    assert_eq!((inst.rd, inst.rs1, inst.rs2), (Some(8), Some(0), Some(10)));

    let inst = decode_compressed(0, 0x942a); // c.add x8, x10
    assert_eq!(inst.opcode, Opcode::C_ADD);
    assert_eq!((inst.rd, inst.rs1, inst.rs2), (Some(8), Some(8), Some(10)));

    let inst = decode_compressed(0, 0x9402); // c.jalr x8
    assert_eq!(inst.opcode, Opcode::C_JALR);
    assert_eq!((inst.rd, inst.rs1, inst.imm), (Some(1), Some(8), Some(0)));

    assert_eq!(decode_compressed(0, 0x8c05).opcode, Opcode::C_SUB); // c.sub x8, x9
    assert_eq!(decode_compressed(0, 0x8c25).opcode, Opcode::C_XOR);
    assert_eq!(decode_compressed(0, 0x8c45).opcode, Opcode::C_OR);
    assert_eq!(decode_compressed(0, 0x8c65).opcode, Opcode::C_AND);
    assert_eq!(decode_compressed(0, 0x9c05).opcode, Opcode::C_SUBW);
    assert_eq!(decode_compressed(0, 0x9c25).opcode, Opcode::C_ADDW);
    assert_eq!(decode_compressed(0, 0x9c45).opcode, Opcode::Unknown);
    assert_eq!(decode_compressed(0, 0x6141).opcode, Opcode::C_ADDI16SP);
    assert_eq!(decode_compressed(0, 0x6405).opcode, Opcode::C_LUI);
    assert_eq!(decode_compressed(0, 0x2405).opcode, Opcode::C_ADDIW);
    assert_eq!(decode_compressed(0, 0x4415).opcode, Opcode::C_LI);
    assert_eq!(decode_compressed(0, 0x9002).opcode, Opcode::C_EBREAK);
    assert_eq!(decode_compressed(0, 0x2000).opcode, Opcode::Unknown); // c.fld
}

#[test]
fn the_all_zero_parcel_is_unknown() {
    let inst = decode_compressed(0x1000, 0x0000);
    assert_eq!(inst.opcode, Opcode::Unknown);
    assert_eq!(inst.len, 2);
    assert_eq!((inst.rd, inst.rs1, inst.rs2, inst.imm), (None, None, None, None));
}

#[test]
fn predicates_partition_the_terminators() {
    assert!(Opcode::BEQ.is_branch() && Opcode::C_BNEZ.is_branch());
    assert!(!Opcode::JAL.is_branch());
    assert!(Opcode::JAL.is_jump() && Opcode::JALR.is_jump() && Opcode::C_JR.is_jump());
    assert!(!Opcode::BEQ.is_jump());
    assert!(Opcode::ECALL.is_syscall() && Opcode::EBREAK.is_syscall());
    assert!(Opcode::C_EBREAK.is_syscall());
    assert!(!Opcode::ADDI.is_syscall());
    for op in [Opcode::BEQ, Opcode::C_J, Opcode::ECALL, Opcode::EBREAK, Opcode::C_EBREAK] {
        assert!(op.is_terminator());
        assert_eq!(op.is_terminator(), op.is_branch() || op.is_jump() || op.is_syscall());
    }
    for op in [Opcode::ADDI, Opcode::LD, Opcode::FENCE, Opcode::Unknown, Opcode::C_NOP] {
        assert!(!op.is_terminator());
    }
}

#[test]
fn stream_mixes_parcel_sizes_and_keeps_every_byte() {
    // c.addi x8,5 ; addi x5,x0,7 ; c.nop ; ebreak
    let data: Vec<u8> = vec![0x15, 0x04, 0x93, 0x02, 0x70, 0x00, 0x01, 0x00, 0x73, 0x00, 0x10, 0x00];
    let insts = disassemble(&section(0x1000, data.clone())).unwrap();
    let addrs: Vec<u64> = insts.iter().map(|i| i.addr).collect();
    assert_eq!(addrs, vec![0x1000, 0x1002, 0x1006, 0x1008]);
    let lens: Vec<u8> = insts.iter().map(|i| i.len).collect();
    assert_eq!(lens, vec![2, 4, 2, 4]);
    let mut raw = Vec::new();
    for inst in &insts {
        raw.extend_from_slice(&inst.bytes.to_le_bytes()[..inst.len as usize]);
    }
    assert_eq!(raw, data);
}

#[test]
fn truncated_parcel_ends_decoding_without_a_record() {
    // addi x5,x0,7 followed by three bytes of a 32-bit word
    let insts = disassemble(&section(0, vec![0x93, 0x02, 0x70, 0x00, 0x93, 0x02, 0x70])).unwrap();
    assert_eq!(insts.len(), 1);
    // a single byte that starts a compressed parcel
    assert!(disassemble(&section(0, vec![0x01])).unwrap().is_empty());
    // nothing at all
    assert!(disassemble(&section(0, vec![])).unwrap().is_empty());
}

#[test]
fn unknown_words_are_recorded_not_skipped() {
    let insts = disassemble(&section(0, vec![0xff, 0xff, 0xff, 0xff, 0x01, 0x00])).unwrap();
    assert_eq!(insts.len(), 2);
    assert_eq!(insts[0].opcode, Opcode::Unknown);
    assert_eq!(insts[0].len, 4);
    assert_eq!(insts[1].opcode, Opcode::C_NOP);
}

#[test]
fn every_parcel_decodes_to_one_record_of_its_length() {
    for half in 0..=0xffffu32 {
        let inst = decode_compressed(0x1000, half);
        assert_eq!(inst.len, 2);
        assert_eq!(inst.bytes, half);
        assert_eq!(inst.addr, 0x1000);
        for reg in [inst.rd, inst.rs1, inst.rs2].into_iter().flatten() {
            assert!(reg <= 31);
        }
    }
    let mut word: u32 = 0x2545_f491;
    for _ in 0..200_000 {
        word = word.wrapping_mul(1_664_525).wrapping_add(1_013_904_223);
        let inst = decode_32bit(0x2000, word);
        assert_eq!(inst.len, 4);
        assert_eq!(inst.bytes, word);
        for reg in [inst.rd, inst.rs1, inst.rs2].into_iter().flatten() {
            assert!(reg <= 31);
        }
    }
}

#[test]
fn decoded_streams_keep_every_consumed_byte() {
    let mut state: u32 = 12345;
    for round in 0..200 {
        let len = 1 + (round * 7) % 97;
        let mut data = Vec::new();
        for _ in 0..len {
            state = state.wrapping_mul(1_103_515_245).wrapping_add(12_345);
            data.push((state >> 16) as u8);
        }
        let insts = disassemble(&section(0x8000, data.clone())).unwrap();
        let mut raw = Vec::new();
        let mut addr = 0x8000u64;
        for inst in &insts {
            assert_eq!(inst.addr, addr);
            assert!(inst.len == 2 || inst.len == 4);
            raw.extend_from_slice(&inst.bytes.to_le_bytes()[..inst.len as usize]);
            addr += inst.len as u64;
        }
        assert_eq!(&raw[..], &data[..raw.len()]);
        // what is left is a truncated parcel
        let left = &data[raw.len()..];
        assert!(left.len() < 4);
        if !left.is_empty() && left[0] & 3 != 3 {
            assert!(left.len() < 2);
        }
    }
}
