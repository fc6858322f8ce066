//! RV64GC instruction decoder.
//!
//! Turns an executable byte range into a list of instruction records. Every
//! 2- or 4-byte window decodes to exactly one record; encodings outside the
//! supported set are recorded as [`Opcode::Unknown`], never remapped.

use crate::elf::CodeSection;
use crate::error::CompileError;
use vstd::prelude::*;

verus! {

/// A decoded RISC-V instruction.
#[derive(Debug, Clone, Copy)]
pub struct Instruction {
    /// Guest virtual address.
    pub addr: u64,
    /// Raw encoded form (16 or 32 significant bits).
    pub bytes: u32,
    /// Encoded length in bytes (2 or 4).
    pub len: u8,
    /// Decoded opcode.
    pub opcode: Opcode,
    /// Destination register, if the form has one.
    pub rd: Option<u8>,
    /// First source register, if the form has one.
    pub rs1: Option<u8>,
    /// Second source register, if the form has one.
    pub rs2: Option<u8>,
    /// Sign-extended immediate, if the form has one.
    pub imm: Option<i64>,
}

/// RISC-V opcodes of the RV64GC set, plus the sentinel `Unknown`.
#[derive(Debug, Clone, Copy, PartialEq, Eq, Structural)]
#[allow(non_camel_case_types)]
pub enum Opcode {
    // RV32I base
    LUI,
    AUIPC,
    JAL,
    JALR,
    BEQ,
    BNE,
    BLT,
    BGE,
    BLTU,
    BGEU,
    LB,
    LH,
    LW,
    LBU,
    LHU,
    SB,
    SH,
    SW,
    ADDI,
    SLTI,
    SLTIU,
    XORI,
    ORI,
    ANDI,
    SLLI,
    SRLI,
    SRAI,
    ADD,
    SUB,
    SLL,
    SLT,
    SLTU,
    XOR,
    SRL,
    SRA,
    OR,
    AND,
    FENCE,
    ECALL,
    EBREAK,
    // RV64I
    LWU,
    LD,
    SD,
    ADDIW,
    SLLIW,
    SRLIW,
    SRAIW,
    ADDW,
    SUBW,
    SLLW,
    SRLW,
    SRAW,
    // RV32M
    MUL,
    MULH,
    MULHSU,
    MULHU,
    DIV,
    DIVU,
    REM,
    REMU,
    // RV64M
    MULW,
    DIVW,
    DIVUW,
    REMW,
    REMUW,
    // RV32A
    LR_W,
    SC_W,
    AMOSWAP_W,
    AMOADD_W,
    AMOXOR_W,
    AMOAND_W,
    AMOOR_W,
    AMOMIN_W,
    AMOMAX_W,
    AMOMINU_W,
    AMOMAXU_W,
    // RV64A
    LR_D,
    SC_D,
    AMOSWAP_D,
    AMOADD_D,
    AMOXOR_D,
    AMOAND_D,
    AMOOR_D,
    AMOMIN_D,
    AMOMAX_D,
    AMOMINU_D,
    AMOMAXU_D,
    // F and D: memory, fused multiply-add, arithmetic
    FLW,
    FSW,
    FLD,
    FSD,
    FMADD_S,
    FMSUB_S,
    FNMSUB_S,
    FNMADD_S,
    FADD_S,
    FSUB_S,
    FMUL_S,
    FDIV_S,
    FSQRT_S,
    FMADD_D,
    FMSUB_D,
    FNMSUB_D,
    FNMADD_D,
    FADD_D,
    FSUB_D,
    FMUL_D,
    FDIV_D,
    FSQRT_D,
    // F and D: sign injection, min/max, comparison
    FSGNJ_S,
    FSGNJN_S,
    FSGNJX_S,
    FSGNJ_D,
    FSGNJN_D,
    FSGNJX_D,
    FMIN_S,
    FMAX_S,
    FMIN_D,
    FMAX_D,
    FEQ_S,
    FLT_S,
    FLE_S,
    FEQ_D,
    FLT_D,
    FLE_D,
    // F and D: conversions, moves, classification
    FCVT_W_S,
    FCVT_WU_S,
    FCVT_L_S,
    FCVT_LU_S,
    FCVT_W_D,
    FCVT_WU_D,
    FCVT_L_D,
    FCVT_LU_D,
    FCVT_S_W,
    FCVT_S_WU,
    FCVT_S_L,
    FCVT_S_LU,
    FCVT_D_W,
    FCVT_D_WU,
    FCVT_D_L,
    FCVT_D_LU,
    FCVT_S_D,
    FCVT_D_S,
    FMV_X_W,
    FMV_W_X,
    FMV_X_D,
    FMV_D_X,
    FCLASS_S,
    FCLASS_D,
    // C extension
    C_ADDI4SPN,
    C_LW,
    C_SW,
    C_NOP,
    C_ADDI,
    C_JAL,
    C_LI,
    C_ADDI16SP,
    C_LUI,
    C_SRLI,
    C_SRAI,
    C_ANDI,
    C_SUB,
    C_XOR,
    C_OR,
    C_AND,
    C_J,
    C_BEQZ,
    C_BNEZ,
    C_SLLI,
    C_LWSP,
    C_JR,
    C_MV,
    C_EBREAK,
    C_JALR,
    C_ADD,
    C_SWSP,
    C_LD,
    C_SD,
    C_LDSP,
    C_SDSP,
    C_ADDIW,
    C_SUBW,
    C_ADDW,
    /// Any encoding outside the supported set.
    Unknown,
}

impl Opcode {
    /// Conditional, two-target control transfer.
    pub open spec fn branches(self) -> bool {
        self == Opcode::BEQ || self == Opcode::BNE || self == Opcode::BLT || self == Opcode::BGE
            || self == Opcode::BLTU || self == Opcode::BGEU || self == Opcode::C_BEQZ || self
            == Opcode::C_BNEZ
    }

    /// Unconditional control transfer, direct or indirect, with or without link.
    pub open spec fn jumps(self) -> bool {
        self == Opcode::JAL || self == Opcode::JALR || self == Opcode::C_J || self == Opcode::C_JAL
            || self == Opcode::C_JR || self == Opcode::C_JALR
    }

    /// Environment call or breakpoint.
    pub open spec fn traps(self) -> bool {
        self == Opcode::ECALL || self == Opcode::EBREAK || self == Opcode::C_EBREAK
    }

    /// Ends a basic block.
    pub open spec fn terminates(self) -> bool {
        self.branches() || self.jumps() || self.traps()
    }

    /// Is this a conditional branch?
    pub fn is_branch(&self) -> (r: bool)
        ensures
            r == self.branches(),
    {
        match self {
            Opcode::BEQ
            | Opcode::BNE
            | Opcode::BLT
            | Opcode::BGE
            | Opcode::BLTU
            | Opcode::BGEU
            | Opcode::C_BEQZ
            | Opcode::C_BNEZ => true,
            _ => false,
        }
    }

    /// Is this an unconditional jump?
    pub fn is_jump(&self) -> (r: bool)
        ensures
            r == self.jumps(),
    {
        match self {
            Opcode::JAL
            | Opcode::JALR
            | Opcode::C_J
            | Opcode::C_JAL
            | Opcode::C_JR
            | Opcode::C_JALR => true,
            _ => false,
        }
    }

    /// Is this an environment call or a breakpoint?
    pub fn is_syscall(&self) -> (r: bool)
        ensures
            r == self.traps(),
    {
        match self {
            Opcode::ECALL | Opcode::EBREAK | Opcode::C_EBREAK => true,
            _ => false,
        }
    }

    /// Does this instruction end a basic block?
    pub fn is_terminator(&self) -> (r: bool)
        ensures
            r == self.terminates(),
            r == (self.branches() || self.jumps() || self.traps()),
    {
        self.is_branch() || self.is_jump() || self.is_syscall()
    }
}

// ---------------------------------------------------------------------------
// Guest addresses
// ---------------------------------------------------------------------------

/// `pc + imm` in the 64-bit guest address space.
pub open spec fn target_of(pc: u64, imm: i64) -> u64 {
    vstd::wrapping::u64_specs::wrapping_add_signed(pc, imm)
}

/// `pc + len` in the 64-bit guest address space.
pub open spec fn next_of(pc: u64, len: u8) -> u64 {
    vstd::wrapping::u64_specs::wrapping_add(pc, len as u64)
}

impl Instruction {
    /// Address of the instruction that follows this one.
    pub open spec fn next_pc(self) -> u64 {
        next_of(self.addr, self.len)
    }

    /// Address that a direct branch or jump transfers to; an absent
    /// immediate reads as 0.
    pub open spec fn target_pc(self) -> u64 {
        target_of(
            self.addr,
            match self.imm {
                Some(i) => i,
                None => 0,
            },
        )
    }

    /// Address of the instruction that follows this one.
    pub fn next_addr(&self) -> (a: u64)
        ensures
            a == self.next_pc(),
    {
        self.addr.wrapping_add(self.len as u64)
    }

    /// The address `addr + imm`, if the instruction has an immediate.
    pub fn target_addr(&self) -> (a: Option<u64>)
        ensures
            a == (match self.imm {
                Some(i) => Some(target_of(self.addr, i)),
                None => None,
            }),
    {
        match self.imm {
            Some(i) => Some(self.addr.wrapping_add_signed(i)),
            None => None,
        }
    }
}

// ---------------------------------------------------------------------------
// Bit fields and sign extension
// ---------------------------------------------------------------------------

/// Bits `lo ..` of `word`, masked by `mask`.
pub open spec fn field(word: u32, lo: u32, mask: u32) -> u32 {
    (word >> lo) & mask
}

/// Two's-complement reading of `value`, whose sign bit has weight `sign`.
pub open spec fn sign_extend(value: int, sign: int) -> int {
    if value >= sign {
        value - 2 * sign
    } else {
        value
    }
}

proof fn lemma_field_bound(word: u32, lo: u32, mask: u32)
    requires
        lo < 32,
    ensures
        field(word, lo, mask) <= mask,
{
    assert((word >> lo) & mask <= mask) by (bit_vector);
}

/// Extracts the bit field of `word` that starts at bit `lo` and is selected
/// by `mask`.
pub(crate) fn take(word: u32, lo: u32, mask: u32) -> (r: u32)
    requires
        lo < 32,
    ensures
        r == field(word, lo, mask),
        r <= mask,
{
    proof {
        lemma_field_bound(word, lo, mask);
    }
    (word >> lo) & mask
}

/// Sign-extends `value` from the width whose sign bit has weight `sign`.
pub(crate) fn extend(value: u32, sign: u32) -> (r: i64)
    requires
        0 < sign <= 0x8000_0000,
        value < 2 * sign,
    ensures
        r == sign_extend(value as int, sign as int),
        -(sign as int) <= r < sign as int,
{
    if value >= sign {
        (value as i64) - 2 * (sign as i64)
    } else {
        value as i64
    }
}

/// A 3-bit compressed register number, which names x8..x15.
pub open spec fn creg(word: u32, lo: u32) -> u8 {
    (field(word, lo, 7) + 8) as u8
}

fn take_creg(word: u32, lo: u32) -> (r: u8)
    requires
        lo < 32,
    ensures
        r == creg(word, lo),
        8 <= r <= 15,
{
    (take(word, lo, 7) + 8) as u8
}

fn take_reg(word: u32, lo: u32) -> (r: u8)
    requires
        lo < 32,
    ensures
        r == field(word, lo, 0x1f),
        r == field(word, lo, 0x1f) as u8,
        r <= 31,
{
    take(word, lo, 0x1f) as u8
}

// ---------------------------------------------------------------------------
// Immediates of the 32-bit forms
// ---------------------------------------------------------------------------

/// I-type: bits 31:20, sign-extended.
pub open spec fn i_imm(inst: u32) -> int {
    sign_extend(field(inst, 20, 0xfff) as int, 0x800)
}

/// S-type: bits 31:25 and 11:7, sign-extended from 12 bits.
pub open spec fn s_imm(inst: u32) -> int {
    sign_extend(field(inst, 25, 0x7f) * 32 + field(inst, 7, 0x1f), 0x800)
}

/// B-type: bits 31, 7, 30:25, 11:8, times two, sign-extended from 13 bits.
pub open spec fn b_imm(inst: u32) -> int {
    sign_extend(
        field(inst, 31, 1) * 0x1000 + field(inst, 7, 1) * 0x800 + field(inst, 25, 0x3f) * 32
            + field(inst, 8, 0xf) * 2,
        0x1000,
    )
}

/// U-type: bits 31:12 over twelve zero bits, read as a signed 32-bit value.
pub open spec fn u_imm(inst: u32) -> int {
    sign_extend(field(inst, 12, 0xfffff) * 0x1000, 0x8000_0000)
}

/// J-type: bits 31, 19:12, 20, 30:21, times two, sign-extended from 21 bits.
pub open spec fn j_imm(inst: u32) -> int {
    sign_extend(
        field(inst, 31, 1) * 0x100000 + field(inst, 12, 0xff) * 0x1000 + field(inst, 20, 1) * 0x800
            + field(inst, 21, 0x3ff) * 2,
        0x100000,
    )
}

pub fn decode_i_imm(inst: u32) -> (imm: i64)
    ensures
        imm == i_imm(inst),
        -0x800 <= imm < 0x800,
{
    extend(take(inst, 20, 0xfff), 0x800)
}

pub fn decode_u_imm(inst: u32) -> (imm: i64)
    ensures
        imm == u_imm(inst),
        -0x8000_0000 <= imm < 0x8000_0000,
        imm % 0x1000 == 0,
{
    let upper: u32 = take(inst, 12, 0xfffff);
    extend(upper * 0x1000, 0x8000_0000)
}

pub fn decode_j_imm(inst: u32) -> (imm: i64)
    ensures
        imm == j_imm(inst),
        -0x100000 <= imm < 0x100000,
        imm % 2 == 0,
{
    let imm20: u32 = take(inst, 31, 1);
    let imm10_1: u32 = take(inst, 21, 0x3ff);
    let imm11: u32 = take(inst, 20, 1);
    let imm19_12: u32 = take(inst, 12, 0xff);
    extend(imm20 * 0x100000 + imm19_12 * 0x1000 + imm11 * 0x800 + imm10_1 * 2, 0x100000)
}

pub fn decode_b_imm(inst: u32) -> (imm: i64)
    ensures
        imm == b_imm(inst),
        -0x1000 <= imm < 0x1000,
        imm % 2 == 0,
{
    let imm12: u32 = take(inst, 31, 1);
    let imm10_5: u32 = take(inst, 25, 0x3f);
    let imm4_1: u32 = take(inst, 8, 0xf);
    let imm11: u32 = take(inst, 7, 1);
    extend(imm12 * 0x1000 + imm11 * 0x800 + imm10_5 * 32 + imm4_1 * 2, 0x1000)
}

pub fn decode_s_imm(inst: u32) -> (imm: i64)
    ensures
        imm == s_imm(inst),
        -0x800 <= imm < 0x800,
{
    let imm11_5: u32 = take(inst, 25, 0x7f);
    let imm4_0: u32 = take(inst, 7, 0x1f);
    extend(imm11_5 * 32 + imm4_0, 0x800)
}

// ---------------------------------------------------------------------------
// Immediates of the compressed forms
// ---------------------------------------------------------------------------

/// CI: bit 12 and bits 6:2, sign-extended from 6 bits.
pub open spec fn ci_imm(inst: u32) -> int {
    sign_extend(field(inst, 12, 1) * 32 + field(inst, 2, 0x1f), 32)
}

/// CI shift amount: bit 12 and bits 6:2, unsigned.
pub open spec fn ci_shamt(inst: u32) -> int {
    field(inst, 12, 1) * 32 + field(inst, 2, 0x1f)
}

/// C.LUI: bit 12 and bits 6:2 placed at bits 17:12, sign-extended from 18 bits.
pub open spec fn ci_lui_imm(inst: u32) -> int {
    sign_extend(field(inst, 12, 1) * 0x20000 + field(inst, 2, 0x1f) * 0x1000, 0x20000)
}

/// C.LWSP: offset bits 5, 4:2, 7:6.
pub open spec fn ci_lwsp_imm(inst: u32) -> int {
    field(inst, 12, 1) * 32 + field(inst, 4, 7) * 4 + field(inst, 2, 3) * 64
}

/// C.LDSP: offset bits 5, 4:3, 8:6.
pub open spec fn ci_ldsp_imm(inst: u32) -> int {
    field(inst, 12, 1) * 32 + field(inst, 5, 3) * 8 + field(inst, 2, 7) * 64
}

/// C.SWSP: offset bits 5:2, 7:6.
pub open spec fn css_imm_w(inst: u32) -> int {
    field(inst, 9, 0xf) * 4 + field(inst, 7, 3) * 64
}

/// C.SDSP: offset bits 5:3, 8:6.
pub open spec fn css_imm_d(inst: u32) -> int {
    field(inst, 10, 7) * 8 + field(inst, 7, 7) * 64
}

/// C.ADDI4SPN: offset bits 5:4, 9:6, 2, 3.
pub open spec fn ciw_imm(inst: u32) -> int {
    field(inst, 11, 3) * 16 + field(inst, 7, 0xf) * 64 + field(inst, 6, 1) * 4 + field(inst, 5, 1)
        * 8
}

/// C.LW / C.SW: offset bits 5:3, 2, 6.
pub open spec fn cl_imm_w(inst: u32) -> int {
    field(inst, 10, 7) * 8 + field(inst, 6, 1) * 4 + field(inst, 5, 1) * 64
}

/// C.LD / C.SD: offset bits 5:3, 7:6.
pub open spec fn cl_imm_d(inst: u32) -> int {
    field(inst, 10, 7) * 8 + field(inst, 5, 3) * 64
}

/// CB: offset bits 8, 4:3, 7:6, 2:1, 5, sign-extended from 9 bits.
pub open spec fn cb_imm(inst: u32) -> int {
    sign_extend(
        field(inst, 12, 1) * 256 + field(inst, 10, 3) * 8 + field(inst, 5, 3) * 64 + field(
            inst,
            3,
            3,
        ) * 2 + field(inst, 2, 1) * 32,
        256,
    )
}

/// CJ: offset bits 11, 4, 9:8, 10, 6, 7, 3:1, 5, sign-extended from 12 bits.
pub open spec fn cj_imm(inst: u32) -> int {
    sign_extend(
        field(inst, 12, 1) * 0x800 + field(inst, 8, 1) * 0x400 + field(inst, 9, 3) * 0x100 + field(
            inst,
            6,
            1,
        ) * 0x80 + field(inst, 7, 1) * 0x40 + field(inst, 2, 1) * 0x20 + field(inst, 11, 1) * 0x10
            + field(inst, 3, 7) * 2,
        0x800,
    )
}

/// C.ADDI16SP: offset bits 9, 4, 6, 8:7, 5, sign-extended from 10 bits.
pub open spec fn addi16sp_imm(inst: u32) -> int {
    sign_extend(
        field(inst, 12, 1) * 0x200 + field(inst, 3, 3) * 0x80 + field(inst, 5, 1) * 0x40 + field(
            inst,
            2,
            1,
        ) * 0x20 + field(inst, 6, 1) * 0x10,
        0x200,
    )
}

pub fn decode_ci_imm(inst: u32) -> (imm: i64)
    ensures
        imm == ci_imm(inst),
        -32 <= imm < 32,
{
    let imm5: u32 = take(inst, 12, 1);
    let imm4_0: u32 = take(inst, 2, 0x1f);
    extend(imm5 * 32 + imm4_0, 32)
}

pub fn decode_ci_shamt(inst: u32) -> (imm: i64)
    ensures
        imm == ci_shamt(inst),
        0 <= imm < 64,
{
    let shamt5: u32 = take(inst, 12, 1);
    let shamt4_0: u32 = take(inst, 2, 0x1f);
    (shamt5 * 32 + shamt4_0) as i64
}

pub fn decode_ci_lui_imm(inst: u32) -> (imm: i64)
    ensures
        imm == ci_lui_imm(inst),
        -0x20000 <= imm < 0x20000,
{
    let imm17: u32 = take(inst, 12, 1);
    let imm16_12: u32 = take(inst, 2, 0x1f);
    extend(imm17 * 0x20000 + imm16_12 * 0x1000, 0x20000)
}

pub fn decode_ci_lwsp_imm(inst: u32) -> (imm: i64)
    ensures
        imm == ci_lwsp_imm(inst),
        0 <= imm < 256,
{
    let imm5: u32 = take(inst, 12, 1);
    let imm4_2: u32 = take(inst, 4, 7);
    let imm7_6: u32 = take(inst, 2, 3);
    (imm5 * 32 + imm4_2 * 4 + imm7_6 * 64) as i64
}

pub fn decode_ci_ldsp_imm(inst: u32) -> (imm: i64)
    ensures
        imm == ci_ldsp_imm(inst),
        0 <= imm < 512,
{
    let imm5: u32 = take(inst, 12, 1);
    let imm4_3: u32 = take(inst, 5, 3);
    let imm8_6: u32 = take(inst, 2, 7);
    (imm5 * 32 + imm4_3 * 8 + imm8_6 * 64) as i64
}

pub fn decode_css_imm_w(inst: u32) -> (imm: i64)
    ensures
        imm == css_imm_w(inst),
        0 <= imm < 256,
{
    let imm5_2: u32 = take(inst, 9, 0xf);
    let imm7_6: u32 = take(inst, 7, 3);
    (imm5_2 * 4 + imm7_6 * 64) as i64
}

pub fn decode_css_imm_d(inst: u32) -> (imm: i64)
    ensures
        imm == css_imm_d(inst),
        0 <= imm < 512,
{
    let imm5_3: u32 = take(inst, 10, 7);
    let imm8_6: u32 = take(inst, 7, 7);
    (imm5_3 * 8 + imm8_6 * 64) as i64
}

pub fn decode_ciw_imm(inst: u32) -> (imm: i64)
    ensures
        imm == ciw_imm(inst),
        0 <= imm < 1024,
{
    let imm5_4: u32 = take(inst, 11, 3);
    let imm9_6: u32 = take(inst, 7, 0xf);
    let imm2: u32 = take(inst, 6, 1);
    let imm3: u32 = take(inst, 5, 1);
    (imm5_4 * 16 + imm9_6 * 64 + imm2 * 4 + imm3 * 8) as i64
}

pub fn decode_cl_imm_w(inst: u32) -> (imm: i64)
    ensures
        imm == cl_imm_w(inst),
        0 <= imm < 128,
{
    let imm5_3: u32 = take(inst, 10, 7);
    let imm2: u32 = take(inst, 6, 1);
    let imm6: u32 = take(inst, 5, 1);
    (imm5_3 * 8 + imm2 * 4 + imm6 * 64) as i64
}

pub fn decode_cl_imm_d(inst: u32) -> (imm: i64)
    ensures
        imm == cl_imm_d(inst),
        0 <= imm < 256,
{
    let imm5_3: u32 = take(inst, 10, 7);
    let imm7_6: u32 = take(inst, 5, 3);
    (imm5_3 * 8 + imm7_6 * 64) as i64
}

pub fn decode_cb_imm(inst: u32) -> (imm: i64)
    ensures
        imm == cb_imm(inst),
        -256 <= imm < 256,
{
    let imm8: u32 = take(inst, 12, 1);
    let imm4_3: u32 = take(inst, 10, 3);
    let imm7_6: u32 = take(inst, 5, 3);
    let imm2_1: u32 = take(inst, 3, 3);
    let imm5: u32 = take(inst, 2, 1);
    extend(imm8 * 256 + imm4_3 * 8 + imm7_6 * 64 + imm2_1 * 2 + imm5 * 32, 256)
}

pub fn decode_cj_imm(inst: u32) -> (imm: i64)
    ensures
        imm == cj_imm(inst),
        -0x800 <= imm < 0x800,
{
    let imm11: u32 = take(inst, 12, 1);
    let imm4: u32 = take(inst, 11, 1);
    let imm9_8: u32 = take(inst, 9, 3);
    let imm10: u32 = take(inst, 8, 1);
    let imm6: u32 = take(inst, 7, 1);
    let imm7: u32 = take(inst, 6, 1);
    let imm3_1: u32 = take(inst, 3, 7);
    let imm5: u32 = take(inst, 2, 1);
    extend(
        imm11 * 0x800 + imm10 * 0x400 + imm9_8 * 0x100 + imm7 * 0x80 + imm6 * 0x40 + imm5 * 0x20
            + imm4 * 0x10 + imm3_1 * 2,
        0x800,
    )
}

pub fn decode_addi16sp_imm(inst: u32) -> (imm: i64)
    ensures
        imm == addi16sp_imm(inst),
        -0x200 <= imm < 0x200,
{
    let imm9: u32 = take(inst, 12, 1);
    let imm4: u32 = take(inst, 6, 1);
    let imm6: u32 = take(inst, 5, 1);
    let imm8_7: u32 = take(inst, 3, 3);
    let imm5: u32 = take(inst, 2, 1);
    extend(imm9 * 0x200 + imm8_7 * 0x80 + imm6 * 0x40 + imm5 * 0x20 + imm4 * 0x10, 0x200)
}


// ---------------------------------------------------------------------------
// Opcode tables
// ---------------------------------------------------------------------------

/// BRANCH, by funct3.
pub open spec fn branch_op(funct3: u32) -> Opcode {
    match funct3 {
        0 => Opcode::BEQ,
        1 => Opcode::BNE,
        4 => Opcode::BLT,
        5 => Opcode::BGE,
        6 => Opcode::BLTU,
        7 => Opcode::BGEU,
        _ => Opcode::Unknown,
    }
}

fn pick_branch_op(funct3: u32) -> (op: Opcode)
    ensures
        op == branch_op(funct3),
{
    match funct3 {
        0 => Opcode::BEQ,
        1 => Opcode::BNE,
        4 => Opcode::BLT,
        5 => Opcode::BGE,
        6 => Opcode::BLTU,
        7 => Opcode::BGEU,
        _ => Opcode::Unknown,
    }
}

/// LOAD, by funct3.
pub open spec fn load_op(funct3: u32) -> Opcode {
    match funct3 {
        0 => Opcode::LB,
        1 => Opcode::LH,
        2 => Opcode::LW,
        3 => Opcode::LD,
        4 => Opcode::LBU,
        5 => Opcode::LHU,
        6 => Opcode::LWU,
        _ => Opcode::Unknown,
    }
}

fn pick_load_op(funct3: u32) -> (op: Opcode)
    ensures
        op == load_op(funct3),
{
    match funct3 {
        0 => Opcode::LB,
        1 => Opcode::LH,
        2 => Opcode::LW,
        3 => Opcode::LD,
        4 => Opcode::LBU,
        5 => Opcode::LHU,
        6 => Opcode::LWU,
        _ => Opcode::Unknown,
    }
}

/// STORE, by funct3.
pub open spec fn store_op(funct3: u32) -> Opcode {
    match funct3 {
        0 => Opcode::SB,
        1 => Opcode::SH,
        2 => Opcode::SW,
        3 => Opcode::SD,
        _ => Opcode::Unknown,
    }
}

fn pick_store_op(funct3: u32) -> (op: Opcode)
    ensures
        op == store_op(funct3),
{
    match funct3 {
        0 => Opcode::SB,
        1 => Opcode::SH,
        2 => Opcode::SW,
        3 => Opcode::SD,
        _ => Opcode::Unknown,
    }
}

/// OP-IMM, by funct3; the right shifts by bits 31:26, since the shift amount has six bits.
pub open spec fn op_imm(funct3: u32, funct6: u32) -> Opcode {
    match (funct3, funct6) {
        (0, _) => Opcode::ADDI,
        (1, _) => Opcode::SLLI,
        (2, _) => Opcode::SLTI,
        (3, _) => Opcode::SLTIU,
        (4, _) => Opcode::XORI,
        (5, 0x10) => Opcode::SRAI,
        (5, _) => Opcode::SRLI,
        (6, _) => Opcode::ORI,
        (7, _) => Opcode::ANDI,
        _ => Opcode::Unknown,
    }
}

fn pick_op_imm(funct3: u32, funct6: u32) -> (op: Opcode)
    ensures
        op == op_imm(funct3, funct6),
{
    match (funct3, funct6) {
        (0, _) => Opcode::ADDI,
        (1, _) => Opcode::SLLI,
        (2, _) => Opcode::SLTI,
        (3, _) => Opcode::SLTIU,
        (4, _) => Opcode::XORI,
        (5, 0x10) => Opcode::SRAI,
        (5, _) => Opcode::SRLI,
        (6, _) => Opcode::ORI,
        (7, _) => Opcode::ANDI,
        _ => Opcode::Unknown,
    }
}

/// OP-IMM-32, by funct3; the right shifts by funct7.
pub open spec fn op_imm32(funct3: u32, funct7: u32) -> Opcode {
    match (funct3, funct7) {
        (0, _) => Opcode::ADDIW,
        (1, _) => Opcode::SLLIW,
        (5, 0x20) => Opcode::SRAIW,
        (5, _) => Opcode::SRLIW,
        _ => Opcode::Unknown,
    }
}

fn pick_op_imm32(funct3: u32, funct7: u32) -> (op: Opcode)
    ensures
        op == op_imm32(funct3, funct7),
{
    match (funct3, funct7) {
        (0, _) => Opcode::ADDIW,
        (1, _) => Opcode::SLLIW,
        (5, 0x20) => Opcode::SRAIW,
        (5, _) => Opcode::SRLIW,
        _ => Opcode::Unknown,
    }
}

/// OP, by funct7 and funct3.
pub open spec fn op_reg(funct7: u32, funct3: u32) -> Opcode {
    match (funct7, funct3) {
        (0x00, 0) => Opcode::ADD,
        (0x20, 0) => Opcode::SUB,
        (0x00, 1) => Opcode::SLL,
        (0x00, 2) => Opcode::SLT,
        (0x00, 3) => Opcode::SLTU,
        (0x00, 4) => Opcode::XOR,
        (0x00, 5) => Opcode::SRL,
        (0x20, 5) => Opcode::SRA,
        (0x00, 6) => Opcode::OR,
        (0x00, 7) => Opcode::AND,
        (0x01, 0) => Opcode::MUL,
        (0x01, 1) => Opcode::MULH,
        (0x01, 2) => Opcode::MULHSU,
        (0x01, 3) => Opcode::MULHU,
        (0x01, 4) => Opcode::DIV,
        (0x01, 5) => Opcode::DIVU,
        (0x01, 6) => Opcode::REM,
        (0x01, 7) => Opcode::REMU,
        _ => Opcode::Unknown,
    }
}

fn pick_op_reg(funct7: u32, funct3: u32) -> (op: Opcode)
    ensures
        op == op_reg(funct7, funct3),
{
    match (funct7, funct3) {
        (0x00, 0) => Opcode::ADD,
        (0x20, 0) => Opcode::SUB,
        (0x00, 1) => Opcode::SLL,
        (0x00, 2) => Opcode::SLT,
        (0x00, 3) => Opcode::SLTU,
        (0x00, 4) => Opcode::XOR,
        (0x00, 5) => Opcode::SRL,
        (0x20, 5) => Opcode::SRA,
        (0x00, 6) => Opcode::OR,
        (0x00, 7) => Opcode::AND,
        (0x01, 0) => Opcode::MUL,
        (0x01, 1) => Opcode::MULH,
        (0x01, 2) => Opcode::MULHSU,
        (0x01, 3) => Opcode::MULHU,
        (0x01, 4) => Opcode::DIV,
        (0x01, 5) => Opcode::DIVU,
        (0x01, 6) => Opcode::REM,
        (0x01, 7) => Opcode::REMU,
        _ => Opcode::Unknown,
    }
}

/// OP-32, by funct7 and funct3.
pub open spec fn op_reg32(funct7: u32, funct3: u32) -> Opcode {
    match (funct7, funct3) {
        (0x00, 0) => Opcode::ADDW,
        (0x20, 0) => Opcode::SUBW,
        (0x00, 1) => Opcode::SLLW,
        (0x00, 5) => Opcode::SRLW,
        (0x20, 5) => Opcode::SRAW,
        (0x01, 0) => Opcode::MULW,
        (0x01, 4) => Opcode::DIVW,
        (0x01, 5) => Opcode::DIVUW,
        (0x01, 6) => Opcode::REMW,
        (0x01, 7) => Opcode::REMUW,
        _ => Opcode::Unknown,
    }
}

fn pick_op_reg32(funct7: u32, funct3: u32) -> (op: Opcode)
    ensures
        op == op_reg32(funct7, funct3),
{
    match (funct7, funct3) {
        (0x00, 0) => Opcode::ADDW,
        (0x20, 0) => Opcode::SUBW,
        (0x00, 1) => Opcode::SLLW,
        (0x00, 5) => Opcode::SRLW,
        (0x20, 5) => Opcode::SRAW,
        (0x01, 0) => Opcode::MULW,
        (0x01, 4) => Opcode::DIVW,
        (0x01, 5) => Opcode::DIVUW,
        (0x01, 6) => Opcode::REMW,
        (0x01, 7) => Opcode::REMUW,
        _ => Opcode::Unknown,
    }
}

/// AMO, by funct3 (the width) and funct5.
pub open spec fn amo_op(funct3: u32, funct5: u32) -> Opcode {
    match (funct3, funct5) {
        (2, 0x02) => Opcode::LR_W,
        (2, 0x03) => Opcode::SC_W,
        (2, 0x01) => Opcode::AMOSWAP_W,
        (2, 0x00) => Opcode::AMOADD_W,
        (2, 0x04) => Opcode::AMOXOR_W,
        (2, 0x0c) => Opcode::AMOAND_W,
        (2, 0x08) => Opcode::AMOOR_W,
        (2, 0x10) => Opcode::AMOMIN_W,
        (2, 0x14) => Opcode::AMOMAX_W,
        (2, 0x18) => Opcode::AMOMINU_W,
        (2, 0x1c) => Opcode::AMOMAXU_W,
        (3, 0x02) => Opcode::LR_D,
        (3, 0x03) => Opcode::SC_D,
        (3, 0x01) => Opcode::AMOSWAP_D,
        (3, 0x00) => Opcode::AMOADD_D,
        (3, 0x04) => Opcode::AMOXOR_D,
        (3, 0x0c) => Opcode::AMOAND_D,
        (3, 0x08) => Opcode::AMOOR_D,
        (3, 0x10) => Opcode::AMOMIN_D,
        (3, 0x14) => Opcode::AMOMAX_D,
        (3, 0x18) => Opcode::AMOMINU_D,
        (3, 0x1c) => Opcode::AMOMAXU_D,
        _ => Opcode::Unknown,
    }
}

fn pick_amo_op(funct3: u32, funct5: u32) -> (op: Opcode)
    ensures
        op == amo_op(funct3, funct5),
{
    match (funct3, funct5) {
        (2, 0x02) => Opcode::LR_W,
        (2, 0x03) => Opcode::SC_W,
        (2, 0x01) => Opcode::AMOSWAP_W,
        (2, 0x00) => Opcode::AMOADD_W,
        (2, 0x04) => Opcode::AMOXOR_W,
        (2, 0x0c) => Opcode::AMOAND_W,
        (2, 0x08) => Opcode::AMOOR_W,
        (2, 0x10) => Opcode::AMOMIN_W,
        (2, 0x14) => Opcode::AMOMAX_W,
        (2, 0x18) => Opcode::AMOMINU_W,
        (2, 0x1c) => Opcode::AMOMAXU_W,
        (3, 0x02) => Opcode::LR_D,
        (3, 0x03) => Opcode::SC_D,
        (3, 0x01) => Opcode::AMOSWAP_D,
        (3, 0x00) => Opcode::AMOADD_D,
        (3, 0x04) => Opcode::AMOXOR_D,
        (3, 0x0c) => Opcode::AMOAND_D,
        (3, 0x08) => Opcode::AMOOR_D,
        (3, 0x10) => Opcode::AMOMIN_D,
        (3, 0x14) => Opcode::AMOMAX_D,
        (3, 0x18) => Opcode::AMOMINU_D,
        (3, 0x1c) => Opcode::AMOMAXU_D,
        _ => Opcode::Unknown,
    }
}

/// SYSTEM: only the two exact words are supported.
pub open spec fn system_op(word: u32) -> Opcode {
    match word {
        0x0000_0073 => Opcode::ECALL,
        0x0010_0073 => Opcode::EBREAK,
        _ => Opcode::Unknown,
    }
}

fn pick_system_op(word: u32) -> (op: Opcode)
    ensures
        op == system_op(word),
{
    match word {
        0x0000_0073 => Opcode::ECALL,
        0x0010_0073 => Opcode::EBREAK,
        _ => Opcode::Unknown,
    }
}

/// LOAD-FP, by funct3.
pub open spec fn fp_load_op(funct3: u32) -> Opcode {
    match funct3 {
        2 => Opcode::FLW,
        3 => Opcode::FLD,
        _ => Opcode::Unknown,
    }
}

fn pick_fp_load_op(funct3: u32) -> (op: Opcode)
    ensures
        op == fp_load_op(funct3),
{
    match funct3 {
        2 => Opcode::FLW,
        3 => Opcode::FLD,
        _ => Opcode::Unknown,
    }
}

/// STORE-FP, by funct3.
pub open spec fn fp_store_op(funct3: u32) -> Opcode {
    match funct3 {
        2 => Opcode::FSW,
        3 => Opcode::FSD,
        _ => Opcode::Unknown,
    }
}

fn pick_fp_store_op(funct3: u32) -> (op: Opcode)
    ensures
        op == fp_store_op(funct3),
{
    match funct3 {
        2 => Opcode::FSW,
        3 => Opcode::FSD,
        _ => Opcode::Unknown,
    }
}

/// Fused multiply-add, by major opcode and format (bits 26:25).
pub open spec fn fma_op(major: u32, fmt: u32) -> Opcode {
    match (major, fmt) {
        (0x43, 0) => Opcode::FMADD_S,
        (0x47, 0) => Opcode::FMSUB_S,
        (0x4b, 0) => Opcode::FNMSUB_S,
        (0x4f, 0) => Opcode::FNMADD_S,
        (0x43, 1) => Opcode::FMADD_D,
        (0x47, 1) => Opcode::FMSUB_D,
        (0x4b, 1) => Opcode::FNMSUB_D,
        (0x4f, 1) => Opcode::FNMADD_D,
        _ => Opcode::Unknown,
    }
}

fn pick_fma_op(major: u32, fmt: u32) -> (op: Opcode)
    ensures
        op == fma_op(major, fmt),
{
    match (major, fmt) {
        (0x43, 0) => Opcode::FMADD_S,
        (0x47, 0) => Opcode::FMSUB_S,
        (0x4b, 0) => Opcode::FNMSUB_S,
        (0x4f, 0) => Opcode::FNMADD_S,
        (0x43, 1) => Opcode::FMADD_D,
        (0x47, 1) => Opcode::FMSUB_D,
        (0x4b, 1) => Opcode::FNMSUB_D,
        (0x4f, 1) => Opcode::FNMADD_D,
        _ => Opcode::Unknown,
    }
}

/// OP-FP, by funct7, funct3 and the rs2 field.
pub open spec fn fp_op(funct7: u32, funct3: u32, rs2: u32) -> Opcode {
    match (funct7, funct3, rs2) {
        (0x00, _, _) => Opcode::FADD_S,
        (0x04, _, _) => Opcode::FSUB_S,
        (0x08, _, _) => Opcode::FMUL_S,
        (0x0c, _, _) => Opcode::FDIV_S,
        (0x2c, _, 0) => Opcode::FSQRT_S,
        (0x10, 0, _) => Opcode::FSGNJ_S,
        (0x10, 1, _) => Opcode::FSGNJN_S,
        (0x10, 2, _) => Opcode::FSGNJX_S,
        (0x14, 0, _) => Opcode::FMIN_S,
        (0x14, 1, _) => Opcode::FMAX_S,
        (0x50, 2, _) => Opcode::FEQ_S,
        (0x50, 1, _) => Opcode::FLT_S,
        (0x50, 0, _) => Opcode::FLE_S,
        (0x60, _, 0) => Opcode::FCVT_W_S,
        (0x60, _, 1) => Opcode::FCVT_WU_S,
        (0x60, _, 2) => Opcode::FCVT_L_S,
        (0x60, _, 3) => Opcode::FCVT_LU_S,
        (0x68, _, 0) => Opcode::FCVT_S_W,
        (0x68, _, 1) => Opcode::FCVT_S_WU,
        (0x68, _, 2) => Opcode::FCVT_S_L,
        (0x68, _, 3) => Opcode::FCVT_S_LU,
        (0x70, 0, 0) => Opcode::FMV_X_W,
        (0x70, 1, 0) => Opcode::FCLASS_S,
        (0x78, 0, 0) => Opcode::FMV_W_X,
        (0x01, _, _) => Opcode::FADD_D,
        (0x05, _, _) => Opcode::FSUB_D,
        (0x09, _, _) => Opcode::FMUL_D,
        (0x0d, _, _) => Opcode::FDIV_D,
        (0x2d, _, 0) => Opcode::FSQRT_D,
        (0x11, 0, _) => Opcode::FSGNJ_D,
        (0x11, 1, _) => Opcode::FSGNJN_D,
        (0x11, 2, _) => Opcode::FSGNJX_D,
        (0x15, 0, _) => Opcode::FMIN_D,
        (0x15, 1, _) => Opcode::FMAX_D,
        (0x51, 2, _) => Opcode::FEQ_D,
        (0x51, 1, _) => Opcode::FLT_D,
        (0x51, 0, _) => Opcode::FLE_D,
        (0x61, _, 0) => Opcode::FCVT_W_D,
        (0x61, _, 1) => Opcode::FCVT_WU_D,
        (0x61, _, 2) => Opcode::FCVT_L_D,
        (0x61, _, 3) => Opcode::FCVT_LU_D,
        (0x69, _, 0) => Opcode::FCVT_D_W,
        (0x69, _, 1) => Opcode::FCVT_D_WU,
        (0x69, _, 2) => Opcode::FCVT_D_L,
        (0x69, _, 3) => Opcode::FCVT_D_LU,
        (0x71, 0, 0) => Opcode::FMV_X_D,
        (0x71, 1, 0) => Opcode::FCLASS_D,
        (0x79, 0, 0) => Opcode::FMV_D_X,
        (0x20, _, 1) => Opcode::FCVT_S_D,
        (0x21, _, 0) => Opcode::FCVT_D_S,
        _ => Opcode::Unknown,
    }
}

fn pick_fp_op(funct7: u32, funct3: u32, rs2: u32) -> (op: Opcode)
    ensures
        op == fp_op(funct7, funct3, rs2),
{
    match (funct7, funct3, rs2) {
        (0x00, _, _) => Opcode::FADD_S,
        (0x04, _, _) => Opcode::FSUB_S,
        (0x08, _, _) => Opcode::FMUL_S,
        (0x0c, _, _) => Opcode::FDIV_S,
        (0x2c, _, 0) => Opcode::FSQRT_S,
        (0x10, 0, _) => Opcode::FSGNJ_S,
        (0x10, 1, _) => Opcode::FSGNJN_S,
        (0x10, 2, _) => Opcode::FSGNJX_S,
        (0x14, 0, _) => Opcode::FMIN_S,
        (0x14, 1, _) => Opcode::FMAX_S,
        (0x50, 2, _) => Opcode::FEQ_S,
        (0x50, 1, _) => Opcode::FLT_S,
        (0x50, 0, _) => Opcode::FLE_S,
        (0x60, _, 0) => Opcode::FCVT_W_S,
        (0x60, _, 1) => Opcode::FCVT_WU_S,
        (0x60, _, 2) => Opcode::FCVT_L_S,
        (0x60, _, 3) => Opcode::FCVT_LU_S,
        (0x68, _, 0) => Opcode::FCVT_S_W,
        (0x68, _, 1) => Opcode::FCVT_S_WU,
        (0x68, _, 2) => Opcode::FCVT_S_L,
        (0x68, _, 3) => Opcode::FCVT_S_LU,
        (0x70, 0, 0) => Opcode::FMV_X_W,
        (0x70, 1, 0) => Opcode::FCLASS_S,
        (0x78, 0, 0) => Opcode::FMV_W_X,
        (0x01, _, _) => Opcode::FADD_D,
        (0x05, _, _) => Opcode::FSUB_D,
        (0x09, _, _) => Opcode::FMUL_D,
        (0x0d, _, _) => Opcode::FDIV_D,
        (0x2d, _, 0) => Opcode::FSQRT_D,
        (0x11, 0, _) => Opcode::FSGNJ_D,
        (0x11, 1, _) => Opcode::FSGNJN_D,
        (0x11, 2, _) => Opcode::FSGNJX_D,
        (0x15, 0, _) => Opcode::FMIN_D,
        (0x15, 1, _) => Opcode::FMAX_D,
        (0x51, 2, _) => Opcode::FEQ_D,
        (0x51, 1, _) => Opcode::FLT_D,
        (0x51, 0, _) => Opcode::FLE_D,
        (0x61, _, 0) => Opcode::FCVT_W_D,
        (0x61, _, 1) => Opcode::FCVT_WU_D,
        (0x61, _, 2) => Opcode::FCVT_L_D,
        (0x61, _, 3) => Opcode::FCVT_LU_D,
        (0x69, _, 0) => Opcode::FCVT_D_W,
        (0x69, _, 1) => Opcode::FCVT_D_WU,
        (0x69, _, 2) => Opcode::FCVT_D_L,
        (0x69, _, 3) => Opcode::FCVT_D_LU,
        (0x71, 0, 0) => Opcode::FMV_X_D,
        (0x71, 1, 0) => Opcode::FCLASS_D,
        (0x79, 0, 0) => Opcode::FMV_D_X,
        (0x20, _, 1) => Opcode::FCVT_S_D,
        (0x21, _, 0) => Opcode::FCVT_D_S,
        _ => Opcode::Unknown,
    }
}

/// Compressed register arithmetic, by bit 12 and bits 6:5.
pub open spec fn c_arith_op(bit12: u32, funct: u32) -> Opcode {
    match (bit12, funct) {
        (0, 0) => Opcode::C_SUB,
        (0, 1) => Opcode::C_XOR,
        (0, 2) => Opcode::C_OR,
        (0, 3) => Opcode::C_AND,
        (1, 0) => Opcode::C_SUBW,
        (1, 1) => Opcode::C_ADDW,
        _ => Opcode::Unknown,
    }
}

fn pick_c_arith_op(bit12: u32, funct: u32) -> (op: Opcode)
    ensures
        op == c_arith_op(bit12, funct),
{
    match (bit12, funct) {
        (0, 0) => Opcode::C_SUB,
        (0, 1) => Opcode::C_XOR,
        (0, 2) => Opcode::C_OR,
        (0, 3) => Opcode::C_AND,
        (1, 0) => Opcode::C_SUBW,
        (1, 1) => Opcode::C_ADDW,
        _ => Opcode::Unknown,
    }
}

// ---------------------------------------------------------------------------
// 32-bit forms
// ---------------------------------------------------------------------------

/// The opcode of a 32-bit word.
pub open spec fn opcode32(word: u32) -> Opcode {
    let funct3 = field(word, 12, 7);
    let funct7 = field(word, 25, 0x7f);
    match field(word, 0, 0x7f) {
        0x37 => Opcode::LUI,
        0x17 => Opcode::AUIPC,
        0x6f => Opcode::JAL,
        0x67 => Opcode::JALR,
        0x63 => branch_op(funct3),
        0x03 => load_op(funct3),
        0x23 => store_op(funct3),
        0x13 => op_imm(funct3, field(word, 26, 0x3f)),
        0x1b => op_imm32(funct3, funct7),
        0x33 => op_reg(funct7, funct3),
        0x3b => op_reg32(funct7, funct3),
        0x0f => Opcode::FENCE,
        0x73 => system_op(word),
        0x2f => amo_op(funct3, field(word, 27, 0x1f)),
        0x07 => fp_load_op(funct3),
        0x27 => fp_store_op(funct3),
        0x43 | 0x47 | 0x4b | 0x4f => fma_op(field(word, 0, 0x7f), field(word, 25, 3)),
        0x53 => fp_op(funct7, funct3, field(word, 20, 0x1f)),
        _ => Opcode::Unknown,
    }
}

/// The immediate of a 32-bit word, which depends on its major opcode alone.
pub open spec fn imm32(word: u32) -> Option<i64> {
    match field(word, 0, 0x7f) {
        0x37 | 0x17 => Some(u_imm(word) as i64),
        0x6f => Some(j_imm(word) as i64),
        0x67 | 0x03 | 0x13 | 0x1b | 0x07 => Some(i_imm(word) as i64),
        0x63 => Some(b_imm(word) as i64),
        0x23 | 0x27 => Some(s_imm(word) as i64),
        _ => None,
    }
}

/// The record of the 32-bit word `word` at address `addr`: registers from
/// bits 11:7, 19:15 and 24:20.
pub open spec fn decoded32(addr: u64, word: u32) -> Instruction {
    Instruction {
        addr,
        bytes: word,
        len: 4,
        opcode: opcode32(word),
        rd: Some(field(word, 7, 0x1f) as u8),
        rs1: Some(field(word, 15, 0x1f) as u8),
        rs2: Some(field(word, 20, 0x1f) as u8),
        imm: imm32(word),
    }
}

/// Are the register fields of the record, where present, in `[0, 31]`?
pub open spec fn registers_in_range(inst: Instruction) -> bool {
    &&& inst.rd is Some ==> inst.rd->Some_0 <= 31
    &&& inst.rs1 is Some ==> inst.rs1->Some_0 <= 31
    &&& inst.rs2 is Some ==> inst.rs2->Some_0 <= 31
}

/// Decodes a 32-bit instruction.
pub fn decode_32bit(addr: u64, bytes: u32) -> (inst: Instruction)
    ensures
        inst == decoded32(addr, bytes),
        inst.addr == addr,
        inst.bytes == bytes,
        inst.len == 4,
        registers_in_range(inst),
{
    let opcode_bits: u32 = take(bytes, 0, 0x7f);
    let rd: u8 = take_reg(bytes, 7);
    let funct3: u32 = take(bytes, 12, 7);
    let rs1: u8 = take_reg(bytes, 15);
    let rs2: u8 = take_reg(bytes, 20);
    let funct7: u32 = take(bytes, 25, 0x7f);
    let opcode = match opcode_bits {
        0x37 => Opcode::LUI,
        0x17 => Opcode::AUIPC,
        0x6f => Opcode::JAL,
        0x67 => Opcode::JALR,
        0x63 => pick_branch_op(funct3),
        0x03 => pick_load_op(funct3),
        0x23 => pick_store_op(funct3),
        0x13 => pick_op_imm(funct3, take(bytes, 26, 0x3f)),
        0x1b => pick_op_imm32(funct3, funct7),
        0x33 => pick_op_reg(funct7, funct3),
        0x3b => pick_op_reg32(funct7, funct3),
        0x0f => Opcode::FENCE,
        0x73 => pick_system_op(bytes),
        0x2f => pick_amo_op(funct3, take(bytes, 27, 0x1f)),
        0x07 => pick_fp_load_op(funct3),
        0x27 => pick_fp_store_op(funct3),
        0x43 | 0x47 | 0x4b | 0x4f => pick_fma_op(opcode_bits, take(bytes, 25, 3)),
        0x53 => pick_fp_op(funct7, funct3, take(bytes, 20, 0x1f)),
        _ => Opcode::Unknown,
    };
    let imm = match opcode_bits {
        0x37 | 0x17 => Some(decode_u_imm(bytes)),
        0x6f => Some(decode_j_imm(bytes)),
        0x67 | 0x03 | 0x13 | 0x1b | 0x07 => Some(decode_i_imm(bytes)),
        0x63 => Some(decode_b_imm(bytes)),
        0x23 | 0x27 => Some(decode_s_imm(bytes)),
        _ => None,
    };
    Instruction { addr, bytes, len: 4, opcode, rd: Some(rd), rs1: Some(rs1), rs2: Some(rs2), imm }
}

// ---------------------------------------------------------------------------
// Compressed forms
// ---------------------------------------------------------------------------

/// The register named by the five bits at `lo`.
pub open spec fn xreg(half: u32, lo: u32) -> u8 {
    field(half, lo, 0x1f) as u8
}

/// Opcode, rd, rs1, rs2 and immediate of the 16-bit parcel `half`, by
/// quadrant (bits 1:0) and funct3 (bits 15:13). Three-bit register fields
/// name x8..x15. The all-zero parcel, and every C.ADDI4SPN with a zero
/// immediate, is not an instruction.
pub open spec fn operands16(half: u32) -> (Opcode, Option<u8>, Option<u8>, Option<u8>, Option<i64>) {
    let rd = xreg(half, 7);
    let rs2 = xreg(half, 2);
    let rd3 = creg(half, 7);
    let rs2_3 = creg(half, 2);
    match (field(half, 0, 3), field(half, 13, 7)) {
        (0, 0) => if ciw_imm(half) == 0 {
            (Opcode::Unknown, None, None, None, None)
        } else {
            (Opcode::C_ADDI4SPN, Some(rs2_3), Some(2), None, Some(ciw_imm(half) as i64))
        },
        (0, 2) => (Opcode::C_LW, Some(rs2_3), Some(rd3), None, Some(cl_imm_w(half) as i64)),
        (0, 3) => (Opcode::C_LD, Some(rs2_3), Some(rd3), None, Some(cl_imm_d(half) as i64)),
        (0, 6) => (Opcode::C_SW, None, Some(rd3), Some(rs2_3), Some(cl_imm_w(half) as i64)),
        (0, 7) => (Opcode::C_SD, None, Some(rd3), Some(rs2_3), Some(cl_imm_d(half) as i64)),
        (1, 0) => if rd == 0 {
            (Opcode::C_NOP, None, None, None, None)
        } else {
            (Opcode::C_ADDI, Some(rd), Some(rd), None, Some(ci_imm(half) as i64))
        },
        (1, 1) => (Opcode::C_ADDIW, Some(rd), Some(rd), None, Some(ci_imm(half) as i64)),
        (1, 2) => (Opcode::C_LI, Some(rd), Some(0), None, Some(ci_imm(half) as i64)),
        (1, 3) => if rd == 2 {
            (Opcode::C_ADDI16SP, Some(2), Some(2), None, Some(addi16sp_imm(half) as i64))
        } else {
            (Opcode::C_LUI, Some(rd), None, None, Some(ci_lui_imm(half) as i64))
        },
        (1, 4) => match field(half, 10, 3) {
            0 => (Opcode::C_SRLI, Some(rd3), Some(rd3), None, Some(ci_shamt(half) as i64)),
            1 => (Opcode::C_SRAI, Some(rd3), Some(rd3), None, Some(ci_shamt(half) as i64)),
            2 => (Opcode::C_ANDI, Some(rd3), Some(rd3), None, Some(ci_imm(half) as i64)),
            _ => (
                c_arith_op(field(half, 12, 1), field(half, 5, 3)),
                Some(rd3),
                Some(rd3),
                Some(rs2_3),
                None,
            ),
        },
        (1, 5) => (Opcode::C_J, Some(0), None, None, Some(cj_imm(half) as i64)),
        (1, 6) => (Opcode::C_BEQZ, None, Some(rd3), Some(0), Some(cb_imm(half) as i64)),
        (1, 7) => (Opcode::C_BNEZ, None, Some(rd3), Some(0), Some(cb_imm(half) as i64)),
        (2, 0) => (Opcode::C_SLLI, Some(rd), Some(rd), None, Some(ci_shamt(half) as i64)),
        (2, 2) => (Opcode::C_LWSP, Some(rd), Some(2), None, Some(ci_lwsp_imm(half) as i64)),
        (2, 3) => (Opcode::C_LDSP, Some(rd), Some(2), None, Some(ci_ldsp_imm(half) as i64)),
        (2, 4) => if field(half, 12, 1) == 0 {
            if rs2 == 0 {
                (Opcode::C_JR, Some(0), Some(rd), None, Some(0))
            } else {
                (Opcode::C_MV, Some(rd), Some(0), Some(rs2), None)
            }
        } else if rs2 == 0 {
            if rd == 0 {
                (Opcode::C_EBREAK, None, None, None, None)
            } else {
                (Opcode::C_JALR, Some(1), Some(rd), None, Some(0))
            }
        } else {
            (Opcode::C_ADD, Some(rd), Some(rd), Some(rs2), None)
        },
        (2, 6) => (Opcode::C_SWSP, None, Some(2), Some(rs2), Some(css_imm_w(half) as i64)),
        (2, 7) => (Opcode::C_SDSP, None, Some(2), Some(rs2), Some(css_imm_d(half) as i64)),
        _ => (Opcode::Unknown, None, None, None, None),
    }
}

/// The record of the 16-bit parcel `half` at address `addr`.
pub open spec fn decoded16(addr: u64, half: u32) -> Instruction {
    let f = operands16(half);
    Instruction { addr, bytes: half, len: 2, opcode: f.0, rd: f.1, rs1: f.2, rs2: f.3, imm: f.4 }
}

/// Decodes a 16-bit compressed instruction, held in the low half of `bytes`.
pub fn decode_compressed(addr: u64, bytes: u32) -> (inst: Instruction)
    ensures
        inst == decoded16(addr, bytes),
        inst.addr == addr,
        inst.bytes == bytes,
        inst.len == 2,
        registers_in_range(inst),
{
    let quadrant: u32 = take(bytes, 0, 3);
    let funct3: u32 = take(bytes, 13, 7);
    let rd5: u8 = take_reg(bytes, 7);
    let rs2_5: u8 = take_reg(bytes, 2);
    let rd3: u8 = take_creg(bytes, 7);
    let rs2_3: u8 = take_creg(bytes, 2);
    let (opcode, rd, rs1, rs2, imm) = match (quadrant, funct3) {
        (0, 0) => {
            let imm = decode_ciw_imm(bytes);
            if imm == 0 {
                (Opcode::Unknown, None, None, None, None)
            } else {
                (Opcode::C_ADDI4SPN, Some(rs2_3), Some(2), None, Some(imm))
            }
        },
        (0, 2) => (Opcode::C_LW, Some(rs2_3), Some(rd3), None, Some(decode_cl_imm_w(bytes))),
        (0, 3) => (Opcode::C_LD, Some(rs2_3), Some(rd3), None, Some(decode_cl_imm_d(bytes))),
        (0, 6) => (Opcode::C_SW, None, Some(rd3), Some(rs2_3), Some(decode_cl_imm_w(bytes))),
        (0, 7) => (Opcode::C_SD, None, Some(rd3), Some(rs2_3), Some(decode_cl_imm_d(bytes))),
        (1, 0) => {
            if rd5 == 0 {
                (Opcode::C_NOP, None, None, None, None)
            } else {
                (Opcode::C_ADDI, Some(rd5), Some(rd5), None, Some(decode_ci_imm(bytes)))
            }
        },
        (1, 1) => (Opcode::C_ADDIW, Some(rd5), Some(rd5), None, Some(decode_ci_imm(bytes))),
        (1, 2) => (Opcode::C_LI, Some(rd5), Some(0), None, Some(decode_ci_imm(bytes))),
        (1, 3) => {
            if rd5 == 2 {
                (Opcode::C_ADDI16SP, Some(2), Some(2), None, Some(decode_addi16sp_imm(bytes)))
            } else {
                (Opcode::C_LUI, Some(rd5), None, None, Some(decode_ci_lui_imm(bytes)))
            }
        },
        (1, 4) => {
            let funct2: u32 = take(bytes, 10, 3);
            match funct2 {
                0 => (Opcode::C_SRLI, Some(rd3), Some(rd3), None, Some(decode_ci_shamt(bytes))),
                1 => (Opcode::C_SRAI, Some(rd3), Some(rd3), None, Some(decode_ci_shamt(bytes))),
                2 => (Opcode::C_ANDI, Some(rd3), Some(rd3), None, Some(decode_ci_imm(bytes))),
                _ => {
                    let op = pick_c_arith_op(take(bytes, 12, 1), take(bytes, 5, 3));
                    (op, Some(rd3), Some(rd3), Some(rs2_3), None)
                },
            }
        },
        (1, 5) => (Opcode::C_J, Some(0), None, None, Some(decode_cj_imm(bytes))),
        (1, 6) => (Opcode::C_BEQZ, None, Some(rd3), Some(0), Some(decode_cb_imm(bytes))),
        (1, 7) => (Opcode::C_BNEZ, None, Some(rd3), Some(0), Some(decode_cb_imm(bytes))),
        (2, 0) => (Opcode::C_SLLI, Some(rd5), Some(rd5), None, Some(decode_ci_shamt(bytes))),
        (2, 2) => (Opcode::C_LWSP, Some(rd5), Some(2), None, Some(decode_ci_lwsp_imm(bytes))),
        (2, 3) => (Opcode::C_LDSP, Some(rd5), Some(2), None, Some(decode_ci_ldsp_imm(bytes))),
        (2, 4) => {
            let bit12: u32 = take(bytes, 12, 1);
            if bit12 == 0 {
                if rs2_5 == 0 {
                    (Opcode::C_JR, Some(0), Some(rd5), None, Some(0))
                } else {
                    (Opcode::C_MV, Some(rd5), Some(0), Some(rs2_5), None)
                }
            } else if rs2_5 == 0 {
                if rd5 == 0 {
                    (Opcode::C_EBREAK, None, None, None, None)
                } else {
                    (Opcode::C_JALR, Some(1), Some(rd5), None, Some(0))
                }
            } else {
                (Opcode::C_ADD, Some(rd5), Some(rd5), Some(rs2_5), None)
            }
        },
        (2, 6) => (Opcode::C_SWSP, None, Some(2), Some(rs2_5), Some(decode_css_imm_w(bytes))),
        (2, 7) => (Opcode::C_SDSP, None, Some(2), Some(rs2_5), Some(decode_css_imm_d(bytes))),
        _ => (Opcode::Unknown, None, None, None, None),
    };
    Instruction { addr, bytes, len: 2, opcode, rd, rs1, rs2, imm }
}

// ---------------------------------------------------------------------------
// A whole byte range
// ---------------------------------------------------------------------------

/// Does a parcel that starts with this byte hold a compressed instruction?
/// It does unless its two low bits are both set.
pub open spec fn starts_compressed(first: u8) -> bool {
    first & 3 != 3
}

/// The little-endian 16-bit parcel at `offset`.
pub open spec fn half_at(data: Seq<u8>, offset: int) -> u32 {
    (data[offset] as int + data[offset + 1] as int * 0x100) as u32
}

/// The little-endian 32-bit word at `offset`.
pub open spec fn word_at(data: Seq<u8>, offset: int) -> u32 {
    (data[offset] as int + data[offset + 1] as int * 0x100 + data[offset + 2] as int * 0x1_0000
        + data[offset + 3] as int * 0x100_0000) as u32
}

/// The guest address of the byte at `offset` of a range loaded at `vaddr`.
pub open spec fn addr_at(vaddr: u64, offset: int) -> u64 {
    vstd::wrapping::u64_specs::wrapping_add(vaddr, offset as u64)
}

/// The records decoded from `data` from `offset` on. The cursor consumes 2
/// bytes where the next byte starts a compressed parcel and 4 bytes
/// otherwise. A parcel that runs past the end of the range ends decoding
/// and leaves no record.
pub open spec fn decode_stream(data: Seq<u8>, vaddr: u64, offset: int) -> Seq<Instruction>
    decreases data.len() - offset,
{
    if offset < 0 || offset >= data.len() {
        Seq::<Instruction>::empty()
    } else if starts_compressed(data[offset]) {
        if offset + 2 > data.len() {
            Seq::<Instruction>::empty()
        } else {
            seq![decoded16(addr_at(vaddr, offset), half_at(data, offset))] + decode_stream(
                data,
                vaddr,
                offset + 2,
            )
        }
    } else {
        if offset + 4 > data.len() {
            Seq::<Instruction>::empty()
        } else {
            seq![decoded32(addr_at(vaddr, offset), word_at(data, offset))] + decode_stream(
                data,
                vaddr,
                offset + 4,
            )
        }
    }
}

/// Disassembles a code range into instruction records, ordered by address.
/// Decoding never fails: an encoding outside the supported set gives a
/// record with [`Opcode::Unknown`].
pub fn disassemble(section: &CodeSection) -> (r: Result<Vec<Instruction>, CompileError>)
    ensures
        r is Ok,
        r->Ok_0@ == decode_stream(section.data@, section.vaddr, 0),
{
    let mut instructions: Vec<Instruction> = Vec::new();
    let mut offset: usize = 0;
    let mut truncated = false;
    let len = section.data.len();
    let ghost data = section.data@;
    let ghost all = decode_stream(data, section.vaddr, 0);
    while offset < len && !truncated
        invariant
            len == data.len(),
            data == section.data@,
            offset <= len,
            !truncated ==> all == instructions@ + decode_stream(data, section.vaddr, offset as int),
            truncated ==> all == instructions@,
        decreases len - offset + (if truncated { 0int } else { 1int }),
    {
        let addr = section.vaddr.wrapping_add(offset as u64);
        let first_byte = section.data[offset];
        if (first_byte & 0x03) != 0x03 {
            if len - offset < 2 {
                truncated = true;
                assert(instructions@ + Seq::<Instruction>::empty() =~= instructions@);
            } else {
                let bytes: u32 = (section.data[offset] as u32) + (section.data[offset + 1] as u32)
                    * 0x100;
                let inst = decode_compressed(addr, bytes);
                proof {
                    assert(instructions@.push(inst) + decode_stream(
                        data,
                        section.vaddr,
                        offset + 2,
                    ) =~= instructions@ + (seq![inst] + decode_stream(
                        data,
                        section.vaddr,
                        offset + 2,
                    )));
                }
                instructions.push(inst);
                offset += 2;
            }
        } else {
            if len - offset < 4 {
                truncated = true;
                assert(instructions@ + Seq::<Instruction>::empty() =~= instructions@);
            } else {
                let bytes: u32 = (section.data[offset] as u32) + (section.data[offset + 1] as u32)
                    * 0x100 + (section.data[offset + 2] as u32) * 0x1_0000 + (section.data[offset
                    + 3] as u32) * 0x100_0000;
                let inst = decode_32bit(addr, bytes);
                proof {
                    assert(instructions@.push(inst) + decode_stream(
                        data,
                        section.vaddr,
                        offset + 4,
                    ) =~= instructions@ + (seq![inst] + decode_stream(
                        data,
                        section.vaddr,
                        offset + 4,
                    )));
                }
                instructions.push(inst);
                offset += 4;
            }
        }
    }
    proof {
        assert(instructions@ + Seq::<Instruction>::empty() =~= instructions@);
    }
    Ok(instructions)
}

// ---------------------------------------------------------------------------
// What decoding preserves
// ---------------------------------------------------------------------------

/// The bytes that a record was decoded from: the low `len` bytes of its raw
/// form, least significant first.
pub open spec fn raw_bytes(inst: Instruction) -> Seq<u8> {
    if inst.len == 2 {
        seq![(inst.bytes % 0x100) as u8, (inst.bytes / 0x100 % 0x100) as u8]
    } else {
        seq![
            (inst.bytes % 0x100) as u8,
            (inst.bytes / 0x100 % 0x100) as u8,
            (inst.bytes / 0x1_0000 % 0x100) as u8,
            (inst.bytes / 0x100_0000 % 0x100) as u8,
        ]
    }
}

/// The raw bytes of a list of records, concatenated.
pub open spec fn raw_stream(insts: Seq<Instruction>) -> Seq<u8>
    decreases insts.len(),
{
    if insts.len() == 0 {
        Seq::<u8>::empty()
    } else {
        raw_bytes(insts[0]) + raw_stream(insts.drop_first())
    }
}

proof fn lemma_half_bytes(data: Seq<u8>, offset: int, inst: Instruction)
    requires
        0 <= offset,
        offset + 2 <= data.len(),
        inst.len == 2,
        inst.bytes == half_at(data, offset),
    ensures
        raw_bytes(inst) == data.subrange(offset, offset + 2),
{
    assert(raw_bytes(inst) =~= data.subrange(offset, offset + 2));
}

proof fn lemma_low_byte(low: int, high: int)
    requires
        0 <= low < 0x100,
    ensures
        (low + 0x100 * high) % 0x100 == low,
        (low + 0x100 * high) / 0x100 == high,
{
}

proof fn lemma_word_bytes(data: Seq<u8>, offset: int, inst: Instruction)
    requires
        0 <= offset,
        offset + 4 <= data.len(),
        inst.len == 4,
        inst.bytes == word_at(data, offset),
    ensures
        raw_bytes(inst) == data.subrange(offset, offset + 4),
{
    let d0 = data[offset] as int;
    let d1 = data[offset + 1] as int;
    let d2 = data[offset + 2] as int;
    let d3 = data[offset + 3] as int;
    let w = inst.bytes as int;
    assert(w == d0 + 0x100 * (d1 + 0x100 * (d2 + 0x100 * d3)));
    lemma_low_byte(d0, d1 + 0x100 * (d2 + 0x100 * d3));
    lemma_low_byte(d1, d2 + 0x100 * d3);
    lemma_low_byte(d2, d3);
    assert(w / 0x100 == d1 + 0x100 * (d2 + 0x100 * d3));
    assert(w / 0x1_0000 == (w / 0x100) / 0x100);
    assert(w / 0x100_0000 == (w / 0x1_0000) / 0x100);
    assert(w / 0x1_0000 == d2 + 0x100 * d3);
    assert(w / 0x100_0000 == d3);
    assert(raw_bytes(inst) =~= data.subrange(offset, offset + 4));
}

proof fn lemma_stream_step(
    data: Seq<u8>,
    offset: int,
    step: int,
    head: Instruction,
    rest: Seq<Instruction>,
)
    requires
        0 <= offset,
        step == 2 || step == 4,
        head.len == step,
        offset + step + raw_stream(rest).len() <= data.len(),
        raw_bytes(head) == data.subrange(offset, offset + step),
        raw_stream(rest) == data.subrange(offset + step, offset + step + raw_stream(rest).len()),
        forall|i: int| 0 <= i < rest.len() ==> (#[trigger] rest[i]).len == 2 || rest[i].len == 4,
    ensures
        ({
            let insts = seq![head] + rest;
            &&& raw_stream(insts).len() == step + raw_stream(rest).len()
            &&& raw_stream(insts) == data.subrange(offset, offset + raw_stream(insts).len())
            &&& forall|i: int|
                0 <= i < insts.len() ==> (#[trigger] insts[i]).len == 2 || insts[i].len == 4
        }),
{
    let insts = seq![head] + rest;
    assert(insts.drop_first() =~= rest);
    assert(insts[0] == head);
    assert(raw_stream(insts) == raw_bytes(head) + raw_stream(rest));
    assert(raw_stream(insts) =~= data.subrange(offset, offset + step + raw_stream(rest).len()));
    assert forall|i: int| 0 <= i < insts.len() implies (#[trigger] insts[i]).len == 2
        || insts[i].len == 4 by {
        if i > 0 {
            assert(insts[i] == rest[i - 1]);
        }
    }
}

/// Decoding is total and loses nothing: every record of a decoded stream
/// has length 2 or 4, the raw bytes of the records, concatenated, are
/// exactly the bytes that the cursor consumed, and the cursor stops only
/// where fewer bytes are left than the next parcel needs.
pub proof fn lemma_decoder_total(data: Seq<u8>, vaddr: u64, offset: int)
    requires
        0 <= offset <= data.len(),
    ensures
        ({
            let insts = decode_stream(data, vaddr, offset);
            let used = raw_stream(insts).len();
            &&& forall|i: int|
                0 <= i < insts.len() ==> (#[trigger] insts[i]).len == 2 || insts[i].len == 4
            &&& offset + used <= data.len()
            &&& raw_stream(insts) == data.subrange(offset, offset + used)
            &&& data.len() - (offset + used) < 4
            &&& offset + used < data.len() && starts_compressed(data[offset + used]) ==> data.len()
                - (offset + used) < 2
        }),
    decreases data.len() - offset,
{
    let insts = decode_stream(data, vaddr, offset);
    if offset >= data.len() {
        assert(raw_stream(insts) =~= data.subrange(offset, offset));
    } else if starts_compressed(data[offset]) {
        if offset + 2 > data.len() {
            assert(raw_stream(insts) =~= data.subrange(offset, offset));
        } else {
            lemma_decoder_total(data, vaddr, offset + 2);
            let head = decoded16(addr_at(vaddr, offset), half_at(data, offset));
            let rest = decode_stream(data, vaddr, offset + 2);
            assert(insts == seq![head] + rest);
            lemma_half_bytes(data, offset, head);
            lemma_stream_step(data, offset, 2, head, rest);
        }
    } else {
        if offset + 4 > data.len() {
            assert(raw_stream(insts) =~= data.subrange(offset, offset));
        } else {
            lemma_decoder_total(data, vaddr, offset + 4);
            let head = decoded32(addr_at(vaddr, offset), word_at(data, offset));
            let rest = decode_stream(data, vaddr, offset + 4);
            assert(insts == seq![head] + rest);
            lemma_word_bytes(data, offset, head);
            lemma_stream_step(data, offset, 4, head, rest);
        }
    }
}

} // verus!
