//! Lowering of decoded instructions to Wasm operations.
//!
//! Every block function has the signature `(param i32) (result i32)`. The
//! parameter is the base address of the machine-state region: x_i at offset
//! `8 * i`, f_i as single at `256 + 4 * i`, f_i as double at `384 + 8 * i`.
//! The result is the guest PC to run next, `-1` to halt, or a PC with bit 31
//! set to request a system call or report a breakpoint.
//!
//! The generated code is sequential. Atomic instructions lower to plain
//! loads and stores: the guest runs on one hart, which always holds its
//! reservation, so LR/SC always succeed.
//!
//! Known losses of precision: MULH, MULHU and MULHSU store zero in place of
//! the high half of the product; FCLASS stores a constant; floating-point
//! operations round as the Wasm engine does and raise no exception flags;
//! a fused multiply-add rounds twice, after the product and after the sum.

use crate::cfg::{BasicBlock, ControlFlowGraph};
use crate::disasm::{next_of, take, target_of, Instruction, Opcode};
use crate::elf::{ElfInfo, Segment};
use crate::error::CompileError;
use crate::ir::{emit, ops, WasmFunction, WasmInst, WasmModule, WasmOp};
use crate::optimize::{
    ends_in_return, lemma_optimized_keeps_return, optimize_function, optimized, returns_constant,
};
use crate::ordered::{ascending, lemma_push_to_set, lists, sorted_keys};
use crate::text::{hex_name, hex_name_padded, hex_text, hex_text_padded, mnemonic, mnemonic_text};
use std::collections::HashMap;
use vstd::prelude::*;
use vstd::string::StringExecFns;

verus! {

broadcast use {vstd::std_specs::hash::group_hash_axioms, vstd::std_specs::btree::group_btree_axioms};

/// The PC value with which a block asks the dispatcher to halt.
pub const HALT: i32 = -1;

// ---------------------------------------------------------------------------
// Machine-state layout
// ---------------------------------------------------------------------------

/// Register number held by an optional field; an absent field reads as 0.
pub open spec fn reg(r: Option<u8>) -> u32 {
    match r {
        Some(x) => x as u32,
        None => 0,
    }
}

/// Immediate held by an optional field; an absent field reads as 0.
pub open spec fn imm_of(i: Option<i64>) -> i64 {
    match i {
        Some(x) => x,
        None => 0,
    }
}

/// Offset of integer register `r`.
pub open spec fn x_off(r: u32) -> u32 {
    (r * 8) as u32
}

/// Offset of the single-precision view of floating-point register `r`.
pub open spec fn s_off(r: u32) -> u32 {
    (256 + r * 4) as u32
}

/// Offset of the double-precision view of floating-point register `r`.
pub open spec fn d_off(r: u32) -> u32 {
    (384 + r * 8) as u32
}

/// The third source register of a fused multiply-add, bits 31:27.
pub open spec fn rs3_of(bytes: u32) -> u32 {
    crate::disasm::field(bytes, 27, 0x1f)
}

fn reg_of(r: Option<u8>) -> (n: u32)
    ensures
        n == reg(r),
        n <= 255,
{
    match r {
        Some(x) => x as u32,
        None => 0,
    }
}

fn imm_or_zero(i: Option<i64>) -> (n: i64)
    ensures
        n == imm_of(i),
{
    match i {
        Some(x) => x,
        None => 0,
    }
}

// ---------------------------------------------------------------------------
// Operand abbreviations
// ---------------------------------------------------------------------------

/// The machine-state base, parameter 0.
pub open spec fn base() -> WasmOp {
    WasmOp::LocalGet { idx: 0 }
}

pub open spec fn xl(r: u32) -> WasmOp {
    WasmOp::I64Load { offset: x_off(r) }
}

pub open spec fn xs(r: u32) -> WasmOp {
    WasmOp::I64Store { offset: x_off(r) }
}

pub open spec fn sl(r: u32) -> WasmOp {
    WasmOp::F32Load { offset: s_off(r) }
}

pub open spec fn ss(r: u32) -> WasmOp {
    WasmOp::F32Store { offset: s_off(r) }
}

pub open spec fn dl(r: u32) -> WasmOp {
    WasmOp::F64Load { offset: d_off(r) }
}

pub open spec fn ds(r: u32) -> WasmOp {
    WasmOp::F64Store { offset: d_off(r) }
}

fn get_base() -> (i: WasmInst)
    ensures
        i@ == base(),
{
    WasmInst::LocalGet { idx: 0 }
}

fn load_x(r: u32) -> (i: WasmInst)
    requires
        r <= 255,
    ensures
        i@ == xl(r),
{
    WasmInst::I64Load { offset: r * 8 }
}

fn store_x(r: u32) -> (i: WasmInst)
    requires
        r <= 255,
    ensures
        i@ == xs(r),
{
    WasmInst::I64Store { offset: r * 8 }
}

fn load_s(r: u32) -> (i: WasmInst)
    requires
        r <= 255,
    ensures
        i@ == sl(r),
{
    WasmInst::F32Load { offset: 256 + r * 4 }
}

fn store_s(r: u32) -> (i: WasmInst)
    requires
        r <= 255,
    ensures
        i@ == ss(r),
{
    WasmInst::F32Store { offset: 256 + r * 4 }
}

fn load_d(r: u32) -> (i: WasmInst)
    requires
        r <= 255,
    ensures
        i@ == dl(r),
{
    WasmInst::F64Load { offset: 384 + r * 8 }
}

fn store_d(r: u32) -> (i: WasmInst)
    requires
        r <= 255,
    ensures
        i@ == ds(r),
{
    WasmInst::F64Store { offset: 384 + r * 8 }
}

// ---------------------------------------------------------------------------
// Code shapes
// ---------------------------------------------------------------------------

/// `st(a op b)`: two operands, one operator.
pub open spec fn binary(a: WasmOp, b: WasmOp, op: WasmOp, st: WasmOp) -> Seq<WasmOp> {
    seq![base(), base(), a, base(), b, op, st]
}

/// `st(extend(a op b))`: a comparison, widened to 64 bits.
pub open spec fn binary_flag(a: WasmOp, b: WasmOp, op: WasmOp, st: WasmOp) -> Seq<WasmOp> {
    seq![base(), base(), a, base(), b, op, WasmOp::I64ExtendI32U, st]
}

/// `st(a op k)`: one operand and a 64-bit constant.
pub open spec fn with_const(a: WasmOp, k: i64, op: WasmOp, st: WasmOp) -> Seq<WasmOp> {
    seq![base(), base(), a, WasmOp::I64Const { value: k }, op, st]
}

/// `st(extend(a op k))`.
pub open spec fn with_const_flag(a: WasmOp, k: i64, op: WasmOp, st: WasmOp) -> Seq<WasmOp> {
    seq![base(), base(), a, WasmOp::I64Const { value: k }, op, WasmOp::I64ExtendI32U, st]
}

/// `st(k)`.
pub open spec fn constant(k: i64, st: WasmOp) -> Seq<WasmOp> {
    seq![base(), WasmOp::I64Const { value: k }, st]
}

/// `st(a)`.
pub open spec fn unary0(a: WasmOp, st: WasmOp) -> Seq<WasmOp> {
    seq![base(), base(), a, st]
}

/// `st(f(a))`.
pub open spec fn unary1(a: WasmOp, f: WasmOp, st: WasmOp) -> Seq<WasmOp> {
    seq![base(), base(), a, f, st]
}

/// `st(g(f(a)))`.
pub open spec fn unary2(a: WasmOp, f: WasmOp, g: WasmOp, st: WasmOp) -> Seq<WasmOp> {
    seq![base(), base(), a, f, g, st]
}

/// An integer load from guest memory at `x[rs1] + imm`: the 64-bit sum is
/// narrowed to a Wasm pointer and the access has zero displacement.
pub open spec fn load_mem(rs1: u32, imm: i64, ld: WasmOp, st: WasmOp) -> Seq<WasmOp> {
    seq![
        base(),
        base(),
        xl(rs1),
        WasmOp::I64Const { value: imm },
        WasmOp::I64Add,
        WasmOp::I32WrapI64,
        ld,
        st,
    ]
}

/// An integer store to guest memory at `x[rs1] + imm`.
pub open spec fn store_mem(rs1: u32, imm: i64, rs2: u32, st: WasmOp) -> Seq<WasmOp> {
    seq![
        base(),
        xl(rs1),
        WasmOp::I64Const { value: imm },
        WasmOp::I64Add,
        WasmOp::I32WrapI64,
        base(),
        xl(rs2),
        st,
    ]
}

/// A floating-point load from guest memory at `x[rs1] + imm`.
pub open spec fn fp_load_mem(rs1: u32, imm: i64, ld: WasmOp, st: WasmOp) -> Seq<WasmOp> {
    seq![
        base(),
        base(),
        xl(rs1),
        WasmOp::I32WrapI64,
        WasmOp::I64Const { value: imm },
        WasmOp::I32WrapI64,
        WasmOp::I32Add,
        ld,
        st,
    ]
}

/// A floating-point store to guest memory at `x[rs1] + imm`.
pub open spec fn fp_store_mem(rs1: u32, imm: i64, ld: WasmOp, st: WasmOp) -> Seq<WasmOp> {
    seq![
        base(),
        xl(rs1),
        WasmOp::I32WrapI64,
        WasmOp::I64Const { value: imm },
        WasmOp::I32WrapI64,
        WasmOp::I32Add,
        base(),
        ld,
        st,
    ]
}

/// `st(last(mul(a, b), c))`.
pub open spec fn fused(a: WasmOp, b: WasmOp, mul: WasmOp, c: WasmOp, last: WasmOp, st: WasmOp) -> Seq<
    WasmOp,
> {
    seq![base(), base(), a, base(), b, mul, base(), c, last, st]
}

/// `st(last(neg(mul(a, b)), c))`.
pub open spec fn fused_neg(
    a: WasmOp,
    b: WasmOp,
    mul: WasmOp,
    neg: WasmOp,
    c: WasmOp,
    last: WasmOp,
    st: WasmOp,
) -> Seq<WasmOp> {
    seq![base(), base(), a, base(), b, mul, neg, base(), c, last, st]
}

/// `x[rd] = sext32(x[rs1] + imm)`.
pub open spec fn word_add_imm(rs1: u32, imm: i64, rd: u32) -> Seq<WasmOp> {
    seq![
        base(),
        base(),
        xl(rs1),
        WasmOp::I64Const { value: imm },
        WasmOp::I64Add,
        WasmOp::I32WrapI64,
        WasmOp::I64ExtendI32S,
        xs(rd),
    ]
}

/// `x[rd] = sext32(low32(x[rs1]) op k)`.
pub open spec fn word_imm(rs1: u32, k: i32, op: WasmOp, rd: u32) -> Seq<WasmOp> {
    seq![
        base(),
        base(),
        xl(rs1),
        WasmOp::I32WrapI64,
        WasmOp::I32Const { value: k },
        op,
        WasmOp::I64ExtendI32S,
        xs(rd),
    ]
}

/// `x[rd] = sext32(low32(x[rs1]) op low32(x[rs2]))`.
pub open spec fn word_binary(rs1: u32, rs2: u32, op: WasmOp, rd: u32) -> Seq<WasmOp> {
    seq![
        base(),
        base(),
        xl(rs1),
        WasmOp::I32WrapI64,
        base(),
        xl(rs2),
        WasmOp::I32WrapI64,
        op,
        WasmOp::I64ExtendI32S,
        xs(rd),
    ]
}

/// Sign injection on the integer image of the operands: the magnitude of
/// `a` joined with the sign bit of `b`, which is flipped first when `flip`
/// holds.
pub open spec fn sign_inject_s(a: WasmOp, b: WasmOp, flip: bool, st: WasmOp) -> Seq<WasmOp> {
    seq![
        base(),
        base(),
        a,
        WasmOp::I32ReinterpretF32,
        WasmOp::I32Const { value: 0x7fff_ffff },
        WasmOp::I32And,
        base(),
        b,
        WasmOp::I32ReinterpretF32,
    ] + (if flip {
        seq![WasmOp::I32Const { value: i32::MIN }, WasmOp::I32Xor]
    } else {
        Seq::<WasmOp>::empty()
    }) + seq![
        WasmOp::I32Const { value: i32::MIN },
        WasmOp::I32And,
        WasmOp::I32Or,
        WasmOp::F32ReinterpretI32,
        st,
    ]
}

/// Sign injection by exclusive or: `a` with its sign bit flipped where the
/// sign bit of `b` is set.
pub open spec fn sign_xor_s(a: WasmOp, b: WasmOp, st: WasmOp) -> Seq<WasmOp> {
    seq![
        base(),
        base(),
        a,
        WasmOp::I32ReinterpretF32,
        base(),
        b,
        WasmOp::I32ReinterpretF32,
        WasmOp::I32Const { value: i32::MIN },
        WasmOp::I32And,
        WasmOp::I32Xor,
        WasmOp::F32ReinterpretI32,
        st,
    ]
}

/// Double-precision counterpart of [`sign_inject_s`].
pub open spec fn sign_inject_d(a: WasmOp, b: WasmOp, flip: bool, st: WasmOp) -> Seq<WasmOp> {
    seq![
        base(),
        base(),
        a,
        WasmOp::I64ReinterpretF64,
        WasmOp::I64Const { value: 0x7fff_ffff_ffff_ffff },
        WasmOp::I64And,
        base(),
        b,
        WasmOp::I64ReinterpretF64,
    ] + (if flip {
        seq![WasmOp::I64Const { value: i64::MIN }, WasmOp::I64Xor]
    } else {
        Seq::<WasmOp>::empty()
    }) + seq![
        WasmOp::I64Const { value: i64::MIN },
        WasmOp::I64And,
        WasmOp::I64Or,
        WasmOp::F64ReinterpretI64,
        st,
    ]
}

/// Double-precision counterpart of [`sign_xor_s`].
pub open spec fn sign_xor_d(a: WasmOp, b: WasmOp, st: WasmOp) -> Seq<WasmOp> {
    seq![
        base(),
        base(),
        a,
        WasmOp::I64ReinterpretF64,
        base(),
        b,
        WasmOp::I64ReinterpretF64,
        WasmOp::I64Const { value: i64::MIN },
        WasmOp::I64And,
        WasmOp::I64Xor,
        WasmOp::F64ReinterpretI64,
        st,
    ]
}

// --- atomics ---------------------------------------------------------------

/// Pushes the base and the old word at `x[rs1]`, sign-extended, for a later
/// store to a register.
pub open spec fn old_word(rs1: u32) -> Seq<WasmOp> {
    seq![
        base(),
        base(),
        xl(rs1),
        WasmOp::I32WrapI64,
        WasmOp::I32Load { offset: 0 },
        WasmOp::I64ExtendI32S,
    ]
}

/// Pushes the base and the old doubleword at `x[rs1]`.
pub open spec fn old_double(rs1: u32) -> Seq<WasmOp> {
    seq![base(), base(), xl(rs1), WasmOp::I32WrapI64, WasmOp::I64Load { offset: 0 }]
}

/// `M32[x[rs1]] = low32(x[rs2])`.
pub open spec fn put_word(rs1: u32, rs2: u32) -> Seq<WasmOp> {
    seq![
        base(),
        xl(rs1),
        WasmOp::I32WrapI64,
        base(),
        xl(rs2),
        WasmOp::I32WrapI64,
        WasmOp::I32Store { offset: 0 },
    ]
}

/// `M64[x[rs1]] = x[rs2]`.
pub open spec fn put_double(rs1: u32, rs2: u32) -> Seq<WasmOp> {
    seq![base(), xl(rs1), WasmOp::I32WrapI64, base(), xl(rs2), WasmOp::I64Store { offset: 0 }]
}

/// `M32[x[rs1]] = M32[x[rs1]] op low32(x[rs2])`.
pub open spec fn update_word(rs1: u32, rs2: u32, op: WasmOp) -> Seq<WasmOp> {
    seq![
        base(),
        xl(rs1),
        WasmOp::I32WrapI64,
        base(),
        xl(rs1),
        WasmOp::I32WrapI64,
        WasmOp::I32Load { offset: 0 },
        base(),
        xl(rs2),
        WasmOp::I32WrapI64,
        op,
        WasmOp::I32Store { offset: 0 },
    ]
}

/// `M64[x[rs1]] = M64[x[rs1]] op x[rs2]`.
pub open spec fn update_double(rs1: u32, rs2: u32, op: WasmOp) -> Seq<WasmOp> {
    seq![
        base(),
        xl(rs1),
        WasmOp::I32WrapI64,
        base(),
        xl(rs1),
        WasmOp::I32WrapI64,
        WasmOp::I64Load { offset: 0 },
        base(),
        xl(rs2),
        op,
        WasmOp::I64Store { offset: 0 },
    ]
}

/// `M32[x[rs1]] = select(old, low32(x[rs2]), old test low32(x[rs2]))`.
pub open spec fn select_word(rs1: u32, rs2: u32, test: WasmOp) -> Seq<WasmOp> {
    seq![
        base(),
        xl(rs1),
        WasmOp::I32WrapI64,
        base(),
        xl(rs1),
        WasmOp::I32WrapI64,
        WasmOp::I32Load { offset: 0 },
        base(),
        xl(rs2),
        WasmOp::I32WrapI64,
        base(),
        xl(rs1),
        WasmOp::I32WrapI64,
        WasmOp::I32Load { offset: 0 },
        base(),
        xl(rs2),
        WasmOp::I32WrapI64,
        test,
        WasmOp::Select,
        WasmOp::I32Store { offset: 0 },
    ]
}

/// `M64[x[rs1]] = select(old, x[rs2], old test x[rs2])`.
pub open spec fn select_double(rs1: u32, rs2: u32, test: WasmOp) -> Seq<WasmOp> {
    seq![
        base(),
        xl(rs1),
        WasmOp::I32WrapI64,
        base(),
        xl(rs1),
        WasmOp::I32WrapI64,
        WasmOp::I64Load { offset: 0 },
        base(),
        xl(rs2),
        base(),
        xl(rs1),
        WasmOp::I32WrapI64,
        WasmOp::I64Load { offset: 0 },
        base(),
        xl(rs2),
        test,
        WasmOp::Select,
        WasmOp::I64Store { offset: 0 },
    ]
}

/// A read-modify-write: the old memory value is loaded first, memory is
/// written next, and the old value is stored to `x[rd]` last, so that the
/// address and operand registers are read before `rd` changes. With `rd`
/// zero only the memory write remains.
pub open spec fn read_modify_write(rd: u32, old_value: Seq<WasmOp>, write: Seq<WasmOp>) -> Seq<
    WasmOp,
> {
    if rd != 0 {
        old_value + write + seq![xs(rd)]
    } else {
        write
    }
}

/// A store-conditional, which always succeeds: memory is written, then
/// `x[rd]` is cleared.
pub open spec fn store_conditional(rd: u32, write: Seq<WasmOp>) -> Seq<WasmOp> {
    if rd != 0 {
        write + constant(0, xs(rd))
    } else {
        write
    }
}

/// The in-line halt that stands for an instruction outside the supported set.
pub open spec fn unsupported(code: Opcode) -> Seq<WasmOp> {
    seq![
        WasmOp::Comment { text: unsupported_text(code) },
        WasmOp::I32Const { value: HALT },
        WasmOp::Return,
    ]
}

/// Text of the annotation on an unsupported instruction.
pub open spec fn unsupported_text(code: Opcode) -> Seq<char> {
    "UNSUPPORTED: "@ + mnemonic_text(code)
}

/// Code that is emitted only for a destination other than x0.
pub open spec fn unless_x0(rd: u32, code: Seq<WasmOp>) -> Seq<WasmOp> {
    if rd != 0 {
        code
    } else {
        Seq::<WasmOp>::empty()
    }
}


// ---------------------------------------------------------------------------
// Exec counterparts of the shapes
// ---------------------------------------------------------------------------

/// The operations of a concatenation are the concatenation of the operations.
pub proof fn lemma_ops_concat(a: Seq<WasmInst>, b: Seq<WasmInst>)
    ensures
        ops(a + b) == ops(a) + ops(b),
{
    assert(ops(a + b) =~= ops(a) + ops(b));
}

/// Appends `code` to `body`.
pub fn append_code(body: &mut Vec<WasmInst>, code: Vec<WasmInst>)
    ensures
        final(body)@ == old(body)@ + code@,
        ops(final(body)@) == ops(old(body)@) + ops(code@),
{
    let mut code = code;
    proof {
        lemma_ops_concat(body@, code@);
    }
    body.append(&mut code);
}

fn join(first: Vec<WasmInst>, second: Vec<WasmInst>) -> (v: Vec<WasmInst>)
    ensures
        ops(v@) == ops(first@) + ops(second@),
{
    let mut v = first;
    append_code(&mut v, second);
    v
}

fn nothing() -> (v: Vec<WasmInst>)
    ensures
        ops(v@) == Seq::<WasmOp>::empty(),
{
    let v: Vec<WasmInst> = Vec::new();
    assert(ops(v@) =~= Seq::<WasmOp>::empty());
    v
}

fn unless_zero(rd: u32, code: Vec<WasmInst>) -> (v: Vec<WasmInst>)
    ensures
        ops(v@) == unless_x0(rd, ops(code@)),
{
    if rd != 0 {
        code
    } else {
        nothing()
    }
}

fn binary_code(a: WasmInst, b: WasmInst, op: WasmInst, st: WasmInst) -> (v: Vec<WasmInst>)
    ensures
        ops(v@) == binary(a@, b@, op@, st@),
{
    let v = vec![get_base(), get_base(), a, get_base(), b, op, st];
    assert(ops(v@) =~= binary(a@, b@, op@, st@));
    v
}

fn binary_flag_code(a: WasmInst, b: WasmInst, op: WasmInst, st: WasmInst) -> (v: Vec<WasmInst>)
    ensures
        ops(v@) == binary_flag(a@, b@, op@, st@),
{
    let v = vec![get_base(), get_base(), a, get_base(), b, op, WasmInst::I64ExtendI32U, st];
    assert(ops(v@) =~= binary_flag(a@, b@, op@, st@));
    v
}

fn with_const_code(a: WasmInst, k: i64, op: WasmInst, st: WasmInst) -> (v: Vec<WasmInst>)
    ensures
        ops(v@) == with_const(a@, k, op@, st@),
{
    let v = vec![get_base(), get_base(), a, WasmInst::I64Const { value: k }, op, st];
    assert(ops(v@) =~= with_const(a@, k, op@, st@));
    v
}

fn with_const_flag_code(a: WasmInst, k: i64, op: WasmInst, st: WasmInst) -> (v: Vec<WasmInst>)
    ensures
        ops(v@) == with_const_flag(a@, k, op@, st@),
{
    let v = vec![
        get_base(),
        get_base(),
        a,
        WasmInst::I64Const { value: k },
        op,
        WasmInst::I64ExtendI32U,
        st,
    ];
    assert(ops(v@) =~= with_const_flag(a@, k, op@, st@));
    v
}

fn constant_code(k: i64, st: WasmInst) -> (v: Vec<WasmInst>)
    ensures
        ops(v@) == constant(k, st@),
{
    let v = vec![get_base(), WasmInst::I64Const { value: k }, st];
    assert(ops(v@) =~= constant(k, st@));
    v
}

fn unary0_code(a: WasmInst, st: WasmInst) -> (v: Vec<WasmInst>)
    ensures
        ops(v@) == unary0(a@, st@),
{
    let v = vec![get_base(), get_base(), a, st];
    assert(ops(v@) =~= unary0(a@, st@));
    v
}

fn unary1_code(a: WasmInst, f: WasmInst, st: WasmInst) -> (v: Vec<WasmInst>)
    ensures
        ops(v@) == unary1(a@, f@, st@),
{
    let v = vec![get_base(), get_base(), a, f, st];
    assert(ops(v@) =~= unary1(a@, f@, st@));
    v
}

fn unary2_code(a: WasmInst, f: WasmInst, g: WasmInst, st: WasmInst) -> (v: Vec<WasmInst>)
    ensures
        ops(v@) == unary2(a@, f@, g@, st@),
{
    let v = vec![get_base(), get_base(), a, f, g, st];
    assert(ops(v@) =~= unary2(a@, f@, g@, st@));
    v
}

fn load_mem_code(rs1: u32, imm: i64, ld: WasmInst, st: WasmInst) -> (v: Vec<WasmInst>)
    requires
        rs1 <= 255,
    ensures
        ops(v@) == load_mem(rs1, imm, ld@, st@),
{
    let v = vec![
        get_base(),
        get_base(),
        load_x(rs1),
        WasmInst::I64Const { value: imm },
        WasmInst::I64Add,
        WasmInst::I32WrapI64,
        ld,
        st,
    ];
    assert(ops(v@) =~= load_mem(rs1, imm, ld@, st@));
    v
}

fn store_mem_code(rs1: u32, imm: i64, rs2: u32, st: WasmInst) -> (v: Vec<WasmInst>)
    requires
        rs1 <= 255,
        rs2 <= 255,
    ensures
        ops(v@) == store_mem(rs1, imm, rs2, st@),
{
    let v = vec![
        get_base(),
        load_x(rs1),
        WasmInst::I64Const { value: imm },
        WasmInst::I64Add,
        WasmInst::I32WrapI64,
        get_base(),
        load_x(rs2),
        st,
    ];
    assert(ops(v@) =~= store_mem(rs1, imm, rs2, st@));
    v
}

fn fp_load_mem_code(rs1: u32, imm: i64, ld: WasmInst, st: WasmInst) -> (v: Vec<WasmInst>)
    requires
        rs1 <= 255,
    ensures
        ops(v@) == fp_load_mem(rs1, imm, ld@, st@),
{
    let v = vec![
        get_base(),
        get_base(),
        load_x(rs1),
        WasmInst::I32WrapI64,
        WasmInst::I64Const { value: imm },
        WasmInst::I32WrapI64,
        WasmInst::I32Add,
        ld,
        st,
    ];
    assert(ops(v@) =~= fp_load_mem(rs1, imm, ld@, st@));
    v
}

fn fp_store_mem_code(rs1: u32, imm: i64, ld: WasmInst, st: WasmInst) -> (v: Vec<WasmInst>)
    requires
        rs1 <= 255,
    ensures
        ops(v@) == fp_store_mem(rs1, imm, ld@, st@),
{
    let v = vec![
        get_base(),
        load_x(rs1),
        WasmInst::I32WrapI64,
        WasmInst::I64Const { value: imm },
        WasmInst::I32WrapI64,
        WasmInst::I32Add,
        get_base(),
        ld,
        st,
    ];
    assert(ops(v@) =~= fp_store_mem(rs1, imm, ld@, st@));
    v
}

fn fused_code(a: WasmInst, b: WasmInst, mul: WasmInst, c: WasmInst, last: WasmInst, st: WasmInst) -> (v:
    Vec<WasmInst>)
    ensures
        ops(v@) == fused(a@, b@, mul@, c@, last@, st@),
{
    let v = vec![get_base(), get_base(), a, get_base(), b, mul, get_base(), c, last, st];
    assert(ops(v@) =~= fused(a@, b@, mul@, c@, last@, st@));
    v
}

fn fused_neg_code(
    a: WasmInst,
    b: WasmInst,
    mul: WasmInst,
    neg: WasmInst,
    c: WasmInst,
    last: WasmInst,
    st: WasmInst,
) -> (v: Vec<WasmInst>)
    ensures
        ops(v@) == fused_neg(a@, b@, mul@, neg@, c@, last@, st@),
{
    let v = vec![get_base(), get_base(), a, get_base(), b, mul, neg, get_base(), c, last, st];
    assert(ops(v@) =~= fused_neg(a@, b@, mul@, neg@, c@, last@, st@));
    v
}

fn word_add_imm_code(rs1: u32, imm: i64, rd: u32) -> (v: Vec<WasmInst>)
    requires
        rs1 <= 255,
        rd <= 255,
    ensures
        ops(v@) == word_add_imm(rs1, imm, rd),
{
    let v = vec![
        get_base(),
        get_base(),
        load_x(rs1),
        WasmInst::I64Const { value: imm },
        WasmInst::I64Add,
        WasmInst::I32WrapI64,
        WasmInst::I64ExtendI32S,
        store_x(rd),
    ];
    assert(ops(v@) =~= word_add_imm(rs1, imm, rd));
    v
}

fn word_imm_code(rs1: u32, k: i32, op: WasmInst, rd: u32) -> (v: Vec<WasmInst>)
    requires
        rs1 <= 255,
        rd <= 255,
    ensures
        ops(v@) == word_imm(rs1, k, op@, rd),
{
    let v = vec![
        get_base(),
        get_base(),
        load_x(rs1),
        WasmInst::I32WrapI64,
        WasmInst::I32Const { value: k },
        op,
        WasmInst::I64ExtendI32S,
        store_x(rd),
    ];
    assert(ops(v@) =~= word_imm(rs1, k, op@, rd));
    v
}

fn word_binary_code(rs1: u32, rs2: u32, op: WasmInst, rd: u32) -> (v: Vec<WasmInst>)
    requires
        rs1 <= 255,
        rs2 <= 255,
        rd <= 255,
    ensures
        ops(v@) == word_binary(rs1, rs2, op@, rd),
{
    let v = vec![
        get_base(),
        get_base(),
        load_x(rs1),
        WasmInst::I32WrapI64,
        get_base(),
        load_x(rs2),
        WasmInst::I32WrapI64,
        op,
        WasmInst::I64ExtendI32S,
        store_x(rd),
    ];
    assert(ops(v@) =~= word_binary(rs1, rs2, op@, rd));
    v
}

fn sign_inject_s_code(a: WasmInst, b: WasmInst, flip: bool, st: WasmInst) -> (v: Vec<WasmInst>)
    ensures
        ops(v@) == sign_inject_s(a@, b@, flip, st@),
{
    let ghost want = sign_inject_s(a@, b@, flip, st@);
    if flip {
        let v = vec![
            get_base(),
            get_base(),
            a,
            WasmInst::I32ReinterpretF32,
            WasmInst::I32Const { value: 0x7fff_ffff },
            WasmInst::I32And,
            get_base(),
            b,
            WasmInst::I32ReinterpretF32,
            WasmInst::I32Const { value: i32::MIN },
            WasmInst::I32Xor,
            WasmInst::I32Const { value: i32::MIN },
            WasmInst::I32And,
            WasmInst::I32Or,
            WasmInst::F32ReinterpretI32,
            st,
        ];
        assert(ops(v@) =~= want);
        v
    } else {
        let v = vec![
            get_base(),
            get_base(),
            a,
            WasmInst::I32ReinterpretF32,
            WasmInst::I32Const { value: 0x7fff_ffff },
            WasmInst::I32And,
            get_base(),
            b,
            WasmInst::I32ReinterpretF32,
            WasmInst::I32Const { value: i32::MIN },
            WasmInst::I32And,
            WasmInst::I32Or,
            WasmInst::F32ReinterpretI32,
            st,
        ];
        assert(ops(v@) =~= want);
        v
    }
}

fn sign_xor_s_code(a: WasmInst, b: WasmInst, st: WasmInst) -> (v: Vec<WasmInst>)
    ensures
        ops(v@) == sign_xor_s(a@, b@, st@),
{
    let v = vec![
        get_base(),
        get_base(),
        a,
        WasmInst::I32ReinterpretF32,
        get_base(),
        b,
        WasmInst::I32ReinterpretF32,
        WasmInst::I32Const { value: i32::MIN },
        WasmInst::I32And,
        WasmInst::I32Xor,
        WasmInst::F32ReinterpretI32,
        st,
    ];
    assert(ops(v@) =~= sign_xor_s(a@, b@, st@));
    v
}

fn sign_inject_d_code(a: WasmInst, b: WasmInst, flip: bool, st: WasmInst) -> (v: Vec<WasmInst>)
    ensures
        ops(v@) == sign_inject_d(a@, b@, flip, st@),
{
    let ghost want = sign_inject_d(a@, b@, flip, st@);
    if flip {
        let v = vec![
            get_base(),
            get_base(),
            a,
            WasmInst::I64ReinterpretF64,
            WasmInst::I64Const { value: 0x7fff_ffff_ffff_ffff },
            WasmInst::I64And,
            get_base(),
            b,
            WasmInst::I64ReinterpretF64,
            WasmInst::I64Const { value: i64::MIN },
            WasmInst::I64Xor,
            WasmInst::I64Const { value: i64::MIN },
            WasmInst::I64And,
            WasmInst::I64Or,
            WasmInst::F64ReinterpretI64,
            st,
        ];
        assert(ops(v@) =~= want);
        v
    } else {
        let v = vec![
            get_base(),
            get_base(),
            a,
            WasmInst::I64ReinterpretF64,
            WasmInst::I64Const { value: 0x7fff_ffff_ffff_ffff },
            WasmInst::I64And,
            get_base(),
            b,
            WasmInst::I64ReinterpretF64,
            WasmInst::I64Const { value: i64::MIN },
            WasmInst::I64And,
            WasmInst::I64Or,
            WasmInst::F64ReinterpretI64,
            st,
        ];
        assert(ops(v@) =~= want);
        v
    }
}

fn sign_xor_d_code(a: WasmInst, b: WasmInst, st: WasmInst) -> (v: Vec<WasmInst>)
    ensures
        ops(v@) == sign_xor_d(a@, b@, st@),
{
    let v = vec![
        get_base(),
        get_base(),
        a,
        WasmInst::I64ReinterpretF64,
        get_base(),
        b,
        WasmInst::I64ReinterpretF64,
        WasmInst::I64Const { value: i64::MIN },
        WasmInst::I64And,
        WasmInst::I64Xor,
        WasmInst::F64ReinterpretI64,
        st,
    ];
    assert(ops(v@) =~= sign_xor_d(a@, b@, st@));
    v
}

fn old_word_code(rs1: u32) -> (v: Vec<WasmInst>)
    requires
        rs1 <= 255,
    ensures
        ops(v@) == old_word(rs1),
{
    let v = vec![
        get_base(),
        get_base(),
        load_x(rs1),
        WasmInst::I32WrapI64,
        WasmInst::I32Load { offset: 0 },
        WasmInst::I64ExtendI32S,
    ];
    assert(ops(v@) =~= old_word(rs1));
    v
}

fn old_double_code(rs1: u32) -> (v: Vec<WasmInst>)
    requires
        rs1 <= 255,
    ensures
        ops(v@) == old_double(rs1),
{
    let v = vec![
        get_base(),
        get_base(),
        load_x(rs1),
        WasmInst::I32WrapI64,
        WasmInst::I64Load { offset: 0 },
    ];
    assert(ops(v@) =~= old_double(rs1));
    v
}

fn put_word_code(rs1: u32, rs2: u32) -> (v: Vec<WasmInst>)
    requires
        rs1 <= 255,
        rs2 <= 255,
    ensures
        ops(v@) == put_word(rs1, rs2),
{
    let v = vec![
        get_base(),
        load_x(rs1),
        WasmInst::I32WrapI64,
        get_base(),
        load_x(rs2),
        WasmInst::I32WrapI64,
        WasmInst::I32Store { offset: 0 },
    ];
    assert(ops(v@) =~= put_word(rs1, rs2));
    v
}

fn put_double_code(rs1: u32, rs2: u32) -> (v: Vec<WasmInst>)
    requires
        rs1 <= 255,
        rs2 <= 255,
    ensures
        ops(v@) == put_double(rs1, rs2),
{
    let v = vec![
        get_base(),
        load_x(rs1),
        WasmInst::I32WrapI64,
        get_base(),
        load_x(rs2),
        WasmInst::I64Store { offset: 0 },
    ];
    assert(ops(v@) =~= put_double(rs1, rs2));
    v
}

fn update_word_code(rs1: u32, rs2: u32, op: WasmInst) -> (v: Vec<WasmInst>)
    requires
        rs1 <= 255,
        rs2 <= 255,
    ensures
        ops(v@) == update_word(rs1, rs2, op@),
{
    let v = vec![
        get_base(),
        load_x(rs1),
        WasmInst::I32WrapI64,
        get_base(),
        load_x(rs1),
        WasmInst::I32WrapI64,
        WasmInst::I32Load { offset: 0 },
        get_base(),
        load_x(rs2),
        WasmInst::I32WrapI64,
        op,
        WasmInst::I32Store { offset: 0 },
    ];
    assert(ops(v@) =~= update_word(rs1, rs2, op@));
    v
}

fn update_double_code(rs1: u32, rs2: u32, op: WasmInst) -> (v: Vec<WasmInst>)
    requires
        rs1 <= 255,
        rs2 <= 255,
    ensures
        ops(v@) == update_double(rs1, rs2, op@),
{
    let v = vec![
        get_base(),
        load_x(rs1),
        WasmInst::I32WrapI64,
        get_base(),
        load_x(rs1),
        WasmInst::I32WrapI64,
        WasmInst::I64Load { offset: 0 },
        get_base(),
        load_x(rs2),
        op,
        WasmInst::I64Store { offset: 0 },
    ];
    assert(ops(v@) =~= update_double(rs1, rs2, op@));
    v
}

fn select_word_code(rs1: u32, rs2: u32, test: WasmInst) -> (v: Vec<WasmInst>)
    requires
        rs1 <= 255,
        rs2 <= 255,
    ensures
        ops(v@) == select_word(rs1, rs2, test@),
{
    let v = vec![
        get_base(),
        load_x(rs1),
        WasmInst::I32WrapI64,
        get_base(),
        load_x(rs1),
        WasmInst::I32WrapI64,
        WasmInst::I32Load { offset: 0 },
        get_base(),
        load_x(rs2),
        WasmInst::I32WrapI64,
        get_base(),
        load_x(rs1),
        WasmInst::I32WrapI64,
        WasmInst::I32Load { offset: 0 },
        get_base(),
        load_x(rs2),
        WasmInst::I32WrapI64,
        test,
        WasmInst::Select,
        WasmInst::I32Store { offset: 0 },
    ];
    assert(ops(v@) =~= select_word(rs1, rs2, test@));
    v
}

fn select_double_code(rs1: u32, rs2: u32, test: WasmInst) -> (v: Vec<WasmInst>)
    requires
        rs1 <= 255,
        rs2 <= 255,
    ensures
        ops(v@) == select_double(rs1, rs2, test@),
{
    let v = vec![
        get_base(),
        load_x(rs1),
        WasmInst::I32WrapI64,
        get_base(),
        load_x(rs1),
        WasmInst::I32WrapI64,
        WasmInst::I64Load { offset: 0 },
        get_base(),
        load_x(rs2),
        get_base(),
        load_x(rs1),
        WasmInst::I32WrapI64,
        WasmInst::I64Load { offset: 0 },
        get_base(),
        load_x(rs2),
        test,
        WasmInst::Select,
        WasmInst::I64Store { offset: 0 },
    ];
    assert(ops(v@) =~= select_double(rs1, rs2, test@));
    v
}

fn read_modify_write_code(rd: u32, old_value: Vec<WasmInst>, write: Vec<WasmInst>) -> (v: Vec<
    WasmInst,
>)
    requires
        rd <= 255,
    ensures
        ops(v@) == read_modify_write(rd, ops(old_value@), ops(write@)),
{
    if rd != 0 {
        let mut v = join(old_value, write);
        emit(&mut v, store_x(rd));
        v
    } else {
        write
    }
}

fn store_conditional_code(rd: u32, write: Vec<WasmInst>) -> (v: Vec<WasmInst>)
    requires
        rd <= 255,
    ensures
        ops(v@) == store_conditional(rd, ops(write@)),
{
    if rd != 0 {
        join(write, constant_code(0, store_x(rd)))
    } else {
        write
    }
}

fn unsupported_code(code: Opcode) -> (v: Vec<WasmInst>)
    ensures
        ops(v@) == unsupported(code),
{
    let name = mnemonic(code);
    let text = String::from_str("UNSUPPORTED: ").concat(name.as_str());
    let v = vec![WasmInst::Comment { text }, WasmInst::I32Const { value: HALT }, WasmInst::Return];
    assert(ops(v@) =~= unsupported(code));
    v
}


fn with_store(code: Vec<WasmInst>, st: WasmInst) -> (v: Vec<WasmInst>)
    ensures
        ops(v@) == ops(code@) + seq![st@],
{
    let mut v = code;
    emit(&mut v, st);
    assert(ops(v@) =~= ops(code@) + seq![st@]);
    v
}

// ---------------------------------------------------------------------------
// One instruction
// ---------------------------------------------------------------------------

/// The Wasm operations that stand for one instruction. Terminators lower to
/// nothing here: their code is the block's return.
pub open spec fn lowered(inst: Instruction) -> Seq<WasmOp> {
    let rd = reg(inst.rd);
    let rs1 = reg(inst.rs1);
    let rs2 = reg(inst.rs2);
    let rs3 = rs3_of(inst.bytes);
    let imm = imm_of(inst.imm);
    match inst.opcode {
        Opcode::ADD | Opcode::C_ADD => unless_x0(rd, binary(xl(rs1), xl(rs2), WasmOp::I64Add, xs(rd))),
        Opcode::SUB | Opcode::C_SUB => unless_x0(rd, binary(xl(rs1), xl(rs2), WasmOp::I64Sub, xs(rd))),
        Opcode::AND | Opcode::C_AND => unless_x0(rd, binary(xl(rs1), xl(rs2), WasmOp::I64And, xs(rd))),
        Opcode::OR | Opcode::C_OR => unless_x0(rd, binary(xl(rs1), xl(rs2), WasmOp::I64Or, xs(rd))),
        Opcode::XOR | Opcode::C_XOR => unless_x0(rd, binary(xl(rs1), xl(rs2), WasmOp::I64Xor, xs(rd))),
        Opcode::SLL => unless_x0(rd, binary(xl(rs1), xl(rs2), WasmOp::I64Shl, xs(rd))),
        Opcode::SRL => unless_x0(rd, binary(xl(rs1), xl(rs2), WasmOp::I64ShrU, xs(rd))),
        Opcode::SRA => unless_x0(rd, binary(xl(rs1), xl(rs2), WasmOp::I64ShrS, xs(rd))),
        Opcode::MUL => unless_x0(rd, binary(xl(rs1), xl(rs2), WasmOp::I64Mul, xs(rd))),
        Opcode::DIV => unless_x0(rd, binary(xl(rs1), xl(rs2), WasmOp::I64DivS, xs(rd))),
        Opcode::DIVU => unless_x0(rd, binary(xl(rs1), xl(rs2), WasmOp::I64DivU, xs(rd))),
        Opcode::REM => unless_x0(rd, binary(xl(rs1), xl(rs2), WasmOp::I64RemS, xs(rd))),
        Opcode::REMU => unless_x0(rd, binary(xl(rs1), xl(rs2), WasmOp::I64RemU, xs(rd))),
        Opcode::SLT => unless_x0(rd, binary_flag(xl(rs1), xl(rs2), WasmOp::I64LtS, xs(rd))),
        Opcode::SLTU => unless_x0(rd, binary_flag(xl(rs1), xl(rs2), WasmOp::I64LtU, xs(rd))),
        Opcode::ADDI | Opcode::C_ADDI | Opcode::C_LI => unless_x0(rd, with_const(xl(rs1), imm, WasmOp::I64Add, xs(rd))),
        Opcode::ANDI | Opcode::C_ANDI => unless_x0(rd, with_const(xl(rs1), imm, WasmOp::I64And, xs(rd))),
        Opcode::ORI => unless_x0(rd, with_const(xl(rs1), imm, WasmOp::I64Or, xs(rd))),
        Opcode::XORI => unless_x0(rd, with_const(xl(rs1), imm, WasmOp::I64Xor, xs(rd))),
        Opcode::SLLI | Opcode::C_SLLI => unless_x0(rd, with_const(xl(rs1), imm & 0x3f, WasmOp::I64Shl, xs(rd))),
        Opcode::SRLI | Opcode::C_SRLI => unless_x0(rd, with_const(xl(rs1), imm & 0x3f, WasmOp::I64ShrU, xs(rd))),
        Opcode::SRAI | Opcode::C_SRAI => unless_x0(rd, with_const(xl(rs1), imm & 0x3f, WasmOp::I64ShrS, xs(rd))),
        Opcode::SLTI => unless_x0(rd, with_const_flag(xl(rs1), imm, WasmOp::I64LtS, xs(rd))),
        Opcode::SLTIU => unless_x0(rd, with_const_flag(xl(rs1), imm, WasmOp::I64LtU, xs(rd))),
        Opcode::LUI | Opcode::C_LUI => unless_x0(rd, constant(imm, xs(rd))),
        Opcode::AUIPC => unless_x0(rd, constant(target_of(inst.addr, imm) as i64, xs(rd))),
        Opcode::LB => unless_x0(rd, load_mem(rs1, imm, WasmOp::I64Load8S { offset: 0 }, xs(rd))),
        Opcode::LBU => unless_x0(rd, load_mem(rs1, imm, WasmOp::I64Load8U { offset: 0 }, xs(rd))),
        Opcode::LH => unless_x0(rd, load_mem(rs1, imm, WasmOp::I64Load16S { offset: 0 }, xs(rd))),
        Opcode::LHU => unless_x0(rd, load_mem(rs1, imm, WasmOp::I64Load16U { offset: 0 }, xs(rd))),
        Opcode::LW | Opcode::C_LW | Opcode::C_LWSP => unless_x0(rd, load_mem(rs1, imm, WasmOp::I64Load32S { offset: 0 }, xs(rd))),
        Opcode::LWU => unless_x0(rd, load_mem(rs1, imm, WasmOp::I64Load32U { offset: 0 }, xs(rd))),
        Opcode::LD | Opcode::C_LD | Opcode::C_LDSP => unless_x0(rd, load_mem(rs1, imm, WasmOp::I64Load { offset: 0 }, xs(rd))),
        Opcode::SB => store_mem(rs1, imm, rs2, WasmOp::I64Store8 { offset: 0 }),
        Opcode::SH => store_mem(rs1, imm, rs2, WasmOp::I64Store16 { offset: 0 }),
        Opcode::SW | Opcode::C_SW | Opcode::C_SWSP => store_mem(rs1, imm, rs2, WasmOp::I64Store32 { offset: 0 }),
        Opcode::SD | Opcode::C_SD | Opcode::C_SDSP => store_mem(rs1, imm, rs2, WasmOp::I64Store { offset: 0 }),
        Opcode::C_MV => unless_x0(rd, unary0(xl(rs2), xs(rd))),
        Opcode::C_ADDI4SPN => unless_x0(rd, with_const(xl(2), imm, WasmOp::I64Add, xs(rd))),
        Opcode::C_ADDI16SP => with_const(xl(2), imm, WasmOp::I64Add, xs(2)),
        Opcode::FLW => fp_load_mem(rs1, imm, WasmOp::F32Load { offset: 0 }, ss(rd)),
        Opcode::FSW => fp_store_mem(rs1, imm, sl(rs2), WasmOp::F32Store { offset: 0 }),
        Opcode::FLD => fp_load_mem(rs1, imm, WasmOp::F64Load { offset: 0 }, ds(rd)),
        Opcode::FSD => fp_store_mem(rs1, imm, dl(rs2), WasmOp::F64Store { offset: 0 }),
        Opcode::FADD_S => binary(sl(rs1), sl(rs2), WasmOp::F32Add, ss(rd)),
        Opcode::FSUB_S => binary(sl(rs1), sl(rs2), WasmOp::F32Sub, ss(rd)),
        Opcode::FMUL_S => binary(sl(rs1), sl(rs2), WasmOp::F32Mul, ss(rd)),
        Opcode::FDIV_S => binary(sl(rs1), sl(rs2), WasmOp::F32Div, ss(rd)),
        Opcode::FMIN_S => binary(sl(rs1), sl(rs2), WasmOp::F32Min, ss(rd)),
        Opcode::FMAX_S => binary(sl(rs1), sl(rs2), WasmOp::F32Max, ss(rd)),
        Opcode::FSQRT_S => unary1(sl(rs1), WasmOp::F32Sqrt, ss(rd)),
        Opcode::FMADD_S => fused(sl(rs1), sl(rs2), WasmOp::F32Mul, sl(rs3), WasmOp::F32Add, ss(rd)),
        Opcode::FMSUB_S => fused(sl(rs1), sl(rs2), WasmOp::F32Mul, sl(rs3), WasmOp::F32Sub, ss(rd)),
        Opcode::FNMSUB_S => fused_neg(sl(rs1), sl(rs2), WasmOp::F32Mul, WasmOp::F32Neg, sl(rs3), WasmOp::F32Add, ss(rd)),
        Opcode::FNMADD_S => fused_neg(sl(rs1), sl(rs2), WasmOp::F32Mul, WasmOp::F32Neg, sl(rs3), WasmOp::F32Sub, ss(rd)),
        Opcode::FSGNJ_S => sign_inject_s(sl(rs1), sl(rs2), false, ss(rd)),
        Opcode::FSGNJN_S => sign_inject_s(sl(rs1), sl(rs2), true, ss(rd)),
        Opcode::FSGNJX_S => sign_xor_s(sl(rs1), sl(rs2), ss(rd)),
        Opcode::FEQ_S => unless_x0(rd, binary_flag(sl(rs1), sl(rs2), WasmOp::F32Eq, xs(rd))),
        Opcode::FLT_S => unless_x0(rd, binary_flag(sl(rs1), sl(rs2), WasmOp::F32Lt, xs(rd))),
        Opcode::FLE_S => unless_x0(rd, binary_flag(sl(rs1), sl(rs2), WasmOp::F32Le, xs(rd))),
        Opcode::FCVT_W_S => unless_x0(rd, unary2(sl(rs1), WasmOp::I32TruncF32S, WasmOp::I64ExtendI32S, xs(rd))),
        Opcode::FCVT_WU_S => unless_x0(rd, unary2(sl(rs1), WasmOp::I32TruncF32U, WasmOp::I64ExtendI32S, xs(rd))),
        Opcode::FCVT_L_S => unless_x0(rd, unary1(sl(rs1), WasmOp::I64TruncF32S, xs(rd))),
        Opcode::FCVT_LU_S => unless_x0(rd, unary1(sl(rs1), WasmOp::I64TruncF32U, xs(rd))),
        Opcode::FCVT_S_W => unary2(xl(rs1), WasmOp::I32WrapI64, WasmOp::F32ConvertI32S, ss(rd)),
        Opcode::FCVT_S_WU => unary2(xl(rs1), WasmOp::I32WrapI64, WasmOp::F32ConvertI32U, ss(rd)),
        Opcode::FCVT_S_L => unary1(xl(rs1), WasmOp::F32ConvertI64S, ss(rd)),
        Opcode::FCVT_S_LU => unary1(xl(rs1), WasmOp::F32ConvertI64U, ss(rd)),
        Opcode::FADD_D => binary(dl(rs1), dl(rs2), WasmOp::F64Add, ds(rd)),
        Opcode::FSUB_D => binary(dl(rs1), dl(rs2), WasmOp::F64Sub, ds(rd)),
        Opcode::FMUL_D => binary(dl(rs1), dl(rs2), WasmOp::F64Mul, ds(rd)),
        Opcode::FDIV_D => binary(dl(rs1), dl(rs2), WasmOp::F64Div, ds(rd)),
        Opcode::FMIN_D => binary(dl(rs1), dl(rs2), WasmOp::F64Min, ds(rd)),
        Opcode::FMAX_D => binary(dl(rs1), dl(rs2), WasmOp::F64Max, ds(rd)),
        Opcode::FSQRT_D => unary1(dl(rs1), WasmOp::F64Sqrt, ds(rd)),
        Opcode::FMADD_D => fused(dl(rs1), dl(rs2), WasmOp::F64Mul, dl(rs3), WasmOp::F64Add, ds(rd)),
        Opcode::FMSUB_D => fused(dl(rs1), dl(rs2), WasmOp::F64Mul, dl(rs3), WasmOp::F64Sub, ds(rd)),
        Opcode::FNMSUB_D => fused_neg(dl(rs1), dl(rs2), WasmOp::F64Mul, WasmOp::F64Neg, dl(rs3), WasmOp::F64Add, ds(rd)),
        Opcode::FNMADD_D => fused_neg(dl(rs1), dl(rs2), WasmOp::F64Mul, WasmOp::F64Neg, dl(rs3), WasmOp::F64Sub, ds(rd)),
        Opcode::FSGNJ_D => sign_inject_d(dl(rs1), dl(rs2), false, ds(rd)),
        Opcode::FSGNJN_D => sign_inject_d(dl(rs1), dl(rs2), true, ds(rd)),
        Opcode::FSGNJX_D => sign_xor_d(dl(rs1), dl(rs2), ds(rd)),
        Opcode::FEQ_D => unless_x0(rd, binary_flag(dl(rs1), dl(rs2), WasmOp::F64Eq, xs(rd))),
        Opcode::FLT_D => unless_x0(rd, binary_flag(dl(rs1), dl(rs2), WasmOp::F64Lt, xs(rd))),
        Opcode::FLE_D => unless_x0(rd, binary_flag(dl(rs1), dl(rs2), WasmOp::F64Le, xs(rd))),
        Opcode::FCVT_W_D => unless_x0(rd, unary2(dl(rs1), WasmOp::I32TruncF64S, WasmOp::I64ExtendI32S, xs(rd))),
        Opcode::FCVT_WU_D => unless_x0(rd, unary2(dl(rs1), WasmOp::I32TruncF64U, WasmOp::I64ExtendI32S, xs(rd))),
        Opcode::FCVT_L_D => unless_x0(rd, unary1(dl(rs1), WasmOp::I64TruncF64S, xs(rd))),
        Opcode::FCVT_LU_D => unless_x0(rd, unary1(dl(rs1), WasmOp::I64TruncF64U, xs(rd))),
        Opcode::FCVT_D_W => unary2(xl(rs1), WasmOp::I32WrapI64, WasmOp::F64ConvertI32S, ds(rd)),
        Opcode::FCVT_D_WU => unary2(xl(rs1), WasmOp::I32WrapI64, WasmOp::F64ConvertI32U, ds(rd)),
        Opcode::FCVT_D_L => unary1(xl(rs1), WasmOp::F64ConvertI64S, ds(rd)),
        Opcode::FCVT_D_LU => unary1(xl(rs1), WasmOp::F64ConvertI64U, ds(rd)),
        Opcode::FCVT_S_D => unary1(dl(rs1), WasmOp::F32DemoteF64, ss(rd)),
        Opcode::FCVT_D_S => unary1(sl(rs1), WasmOp::F64PromoteF32, ds(rd)),
        Opcode::FMV_X_W => unless_x0(rd, unary2(sl(rs1), WasmOp::I32ReinterpretF32, WasmOp::I64ExtendI32S, xs(rd))),
        Opcode::FMV_W_X => unary2(xl(rs1), WasmOp::I32WrapI64, WasmOp::F32ReinterpretI32, ss(rd)),
        Opcode::FMV_X_D => unless_x0(rd, unary1(dl(rs1), WasmOp::I64ReinterpretF64, xs(rd))),
        Opcode::FMV_D_X => unary1(xl(rs1), WasmOp::F64ReinterpretI64, ds(rd)),
        Opcode::FCLASS_S | Opcode::FCLASS_D => unless_x0(rd, constant(0x40, xs(rd))),
        Opcode::LR_W => unless_x0(rd, old_word(rs1) + seq![xs(rd)]),
        Opcode::LR_D => unless_x0(rd, old_double(rs1) + seq![xs(rd)]),
        Opcode::SC_W => store_conditional(rd, put_word(rs1, rs2)),
        Opcode::SC_D => store_conditional(rd, put_double(rs1, rs2)),
        Opcode::AMOSWAP_W => read_modify_write(rd, old_word(rs1), put_word(rs1, rs2)),
        Opcode::AMOSWAP_D => read_modify_write(rd, old_double(rs1), put_double(rs1, rs2)),
        Opcode::AMOADD_W => read_modify_write(rd, old_word(rs1), update_word(rs1, rs2, WasmOp::I32Add)),
        Opcode::AMOADD_D => read_modify_write(rd, old_double(rs1), update_double(rs1, rs2, WasmOp::I64Add)),
        Opcode::AMOXOR_W => read_modify_write(rd, old_word(rs1), update_word(rs1, rs2, WasmOp::I32Xor)),
        Opcode::AMOXOR_D => read_modify_write(rd, old_double(rs1), update_double(rs1, rs2, WasmOp::I64Xor)),
        Opcode::AMOAND_W => read_modify_write(rd, old_word(rs1), update_word(rs1, rs2, WasmOp::I32And)),
        Opcode::AMOAND_D => read_modify_write(rd, old_double(rs1), update_double(rs1, rs2, WasmOp::I64And)),
        Opcode::AMOOR_W => read_modify_write(rd, old_word(rs1), update_word(rs1, rs2, WasmOp::I32Or)),
        Opcode::AMOOR_D => read_modify_write(rd, old_double(rs1), update_double(rs1, rs2, WasmOp::I64Or)),
        Opcode::AMOMIN_W => read_modify_write(rd, old_word(rs1), select_word(rs1, rs2, WasmOp::I32LtS)),
        Opcode::AMOMIN_D => read_modify_write(rd, old_double(rs1), select_double(rs1, rs2, WasmOp::I64LtS)),
        Opcode::AMOMAX_W => read_modify_write(rd, old_word(rs1), select_word(rs1, rs2, WasmOp::I32GtS)),
        Opcode::AMOMAX_D => read_modify_write(rd, old_double(rs1), select_double(rs1, rs2, WasmOp::I64GtS)),
        Opcode::AMOMINU_W => read_modify_write(rd, old_word(rs1), select_word(rs1, rs2, WasmOp::I32LtU)),
        Opcode::AMOMINU_D => read_modify_write(rd, old_double(rs1), select_double(rs1, rs2, WasmOp::I64LtU)),
        Opcode::AMOMAXU_W => read_modify_write(rd, old_word(rs1), select_word(rs1, rs2, WasmOp::I32GtU)),
        Opcode::AMOMAXU_D => read_modify_write(rd, old_double(rs1), select_double(rs1, rs2, WasmOp::I64GtU)),
        Opcode::ADDIW | Opcode::C_ADDIW => unless_x0(rd, word_add_imm(rs1, imm, rd)),
        Opcode::SLLIW => unless_x0(rd, word_imm(rs1, (imm & 0x1f) as i32, WasmOp::I32Shl, rd)),
        Opcode::SRLIW => unless_x0(rd, word_imm(rs1, (imm & 0x1f) as i32, WasmOp::I32ShrU, rd)),
        Opcode::SRAIW => unless_x0(rd, word_imm(rs1, (imm & 0x1f) as i32, WasmOp::I32ShrS, rd)),
        Opcode::ADDW | Opcode::C_ADDW => unless_x0(rd, word_binary(rs1, rs2, WasmOp::I32Add, rd)),
        Opcode::SUBW | Opcode::C_SUBW => unless_x0(rd, word_binary(rs1, rs2, WasmOp::I32Sub, rd)),
        Opcode::SLLW => unless_x0(rd, word_binary(rs1, rs2, WasmOp::I32Shl, rd)),
        Opcode::SRLW => unless_x0(rd, word_binary(rs1, rs2, WasmOp::I32ShrU, rd)),
        Opcode::SRAW => unless_x0(rd, word_binary(rs1, rs2, WasmOp::I32ShrS, rd)),
        Opcode::MULW => unless_x0(rd, word_binary(rs1, rs2, WasmOp::I32Mul, rd)),
        Opcode::DIVW => unless_x0(rd, word_binary(rs1, rs2, WasmOp::I32DivS, rd)),
        Opcode::DIVUW => unless_x0(rd, word_binary(rs1, rs2, WasmOp::I32DivU, rd)),
        Opcode::REMW => unless_x0(rd, word_binary(rs1, rs2, WasmOp::I32RemS, rd)),
        Opcode::REMUW => unless_x0(rd, word_binary(rs1, rs2, WasmOp::I32RemU, rd)),
        Opcode::MULH | Opcode::MULHU | Opcode::MULHSU => unless_x0(rd, constant(0, xs(rd))),
        Opcode::FENCE | Opcode::C_NOP => Seq::<WasmOp>::empty(),
        Opcode::BEQ | Opcode::BNE | Opcode::BLT | Opcode::BGE | Opcode::BLTU | Opcode::BGEU | Opcode::C_BEQZ | Opcode::C_BNEZ | Opcode::JAL | Opcode::JALR | Opcode::C_J | Opcode::C_JAL | Opcode::C_JR | Opcode::C_JALR | Opcode::ECALL | Opcode::EBREAK | Opcode::C_EBREAK => Seq::<WasmOp>::empty(),
        Opcode::Unknown => unsupported(inst.opcode),
    }
}

/// Lowers one instruction.
pub fn lower(inst: &Instruction) -> (code: Vec<WasmInst>)
    ensures
        ops(code@) == lowered(*inst),
{
    let rd: u32 = reg_of(inst.rd);
    let rs1: u32 = reg_of(inst.rs1);
    let rs2: u32 = reg_of(inst.rs2);
    let rs3: u32 = take(inst.bytes, 27, 0x1f);
    let imm: i64 = imm_or_zero(inst.imm);
    match inst.opcode {
        Opcode::ADD | Opcode::C_ADD => unless_zero(rd, binary_code(load_x(rs1), load_x(rs2), WasmInst::I64Add, store_x(rd))),
        Opcode::SUB | Opcode::C_SUB => unless_zero(rd, binary_code(load_x(rs1), load_x(rs2), WasmInst::I64Sub, store_x(rd))),
        Opcode::AND | Opcode::C_AND => unless_zero(rd, binary_code(load_x(rs1), load_x(rs2), WasmInst::I64And, store_x(rd))),
        Opcode::OR | Opcode::C_OR => unless_zero(rd, binary_code(load_x(rs1), load_x(rs2), WasmInst::I64Or, store_x(rd))),
        Opcode::XOR | Opcode::C_XOR => unless_zero(rd, binary_code(load_x(rs1), load_x(rs2), WasmInst::I64Xor, store_x(rd))),
        Opcode::SLL => unless_zero(rd, binary_code(load_x(rs1), load_x(rs2), WasmInst::I64Shl, store_x(rd))),
        Opcode::SRL => unless_zero(rd, binary_code(load_x(rs1), load_x(rs2), WasmInst::I64ShrU, store_x(rd))),
        Opcode::SRA => unless_zero(rd, binary_code(load_x(rs1), load_x(rs2), WasmInst::I64ShrS, store_x(rd))),
        Opcode::MUL => unless_zero(rd, binary_code(load_x(rs1), load_x(rs2), WasmInst::I64Mul, store_x(rd))),
        Opcode::DIV => unless_zero(rd, binary_code(load_x(rs1), load_x(rs2), WasmInst::I64DivS, store_x(rd))),
        Opcode::DIVU => unless_zero(rd, binary_code(load_x(rs1), load_x(rs2), WasmInst::I64DivU, store_x(rd))),
        Opcode::REM => unless_zero(rd, binary_code(load_x(rs1), load_x(rs2), WasmInst::I64RemS, store_x(rd))),
        Opcode::REMU => unless_zero(rd, binary_code(load_x(rs1), load_x(rs2), WasmInst::I64RemU, store_x(rd))),
        Opcode::SLT => unless_zero(rd, binary_flag_code(load_x(rs1), load_x(rs2), WasmInst::I64LtS, store_x(rd))),
        Opcode::SLTU => unless_zero(rd, binary_flag_code(load_x(rs1), load_x(rs2), WasmInst::I64LtU, store_x(rd))),
        Opcode::ADDI | Opcode::C_ADDI | Opcode::C_LI => unless_zero(rd, with_const_code(load_x(rs1), imm, WasmInst::I64Add, store_x(rd))),
        Opcode::ANDI | Opcode::C_ANDI => unless_zero(rd, with_const_code(load_x(rs1), imm, WasmInst::I64And, store_x(rd))),
        Opcode::ORI => unless_zero(rd, with_const_code(load_x(rs1), imm, WasmInst::I64Or, store_x(rd))),
        Opcode::XORI => unless_zero(rd, with_const_code(load_x(rs1), imm, WasmInst::I64Xor, store_x(rd))),
        Opcode::SLLI | Opcode::C_SLLI => unless_zero(rd, with_const_code(load_x(rs1), imm & 0x3f, WasmInst::I64Shl, store_x(rd))),
        Opcode::SRLI | Opcode::C_SRLI => unless_zero(rd, with_const_code(load_x(rs1), imm & 0x3f, WasmInst::I64ShrU, store_x(rd))),
        Opcode::SRAI | Opcode::C_SRAI => unless_zero(rd, with_const_code(load_x(rs1), imm & 0x3f, WasmInst::I64ShrS, store_x(rd))),
        Opcode::SLTI => unless_zero(rd, with_const_flag_code(load_x(rs1), imm, WasmInst::I64LtS, store_x(rd))),
        Opcode::SLTIU => unless_zero(rd, with_const_flag_code(load_x(rs1), imm, WasmInst::I64LtU, store_x(rd))),
        Opcode::LUI | Opcode::C_LUI => unless_zero(rd, constant_code(imm, store_x(rd))),
        Opcode::AUIPC => unless_zero(rd, constant_code(inst.addr.wrapping_add_signed(imm) as i64, store_x(rd))),
        Opcode::LB => unless_zero(rd, load_mem_code(rs1, imm, WasmInst::I64Load8S { offset: 0 }, store_x(rd))),
        Opcode::LBU => unless_zero(rd, load_mem_code(rs1, imm, WasmInst::I64Load8U { offset: 0 }, store_x(rd))),
        Opcode::LH => unless_zero(rd, load_mem_code(rs1, imm, WasmInst::I64Load16S { offset: 0 }, store_x(rd))),
        Opcode::LHU => unless_zero(rd, load_mem_code(rs1, imm, WasmInst::I64Load16U { offset: 0 }, store_x(rd))),
        Opcode::LW | Opcode::C_LW | Opcode::C_LWSP => unless_zero(rd, load_mem_code(rs1, imm, WasmInst::I64Load32S { offset: 0 }, store_x(rd))),
        Opcode::LWU => unless_zero(rd, load_mem_code(rs1, imm, WasmInst::I64Load32U { offset: 0 }, store_x(rd))),
        Opcode::LD | Opcode::C_LD | Opcode::C_LDSP => unless_zero(rd, load_mem_code(rs1, imm, WasmInst::I64Load { offset: 0 }, store_x(rd))),
        Opcode::SB => store_mem_code(rs1, imm, rs2, WasmInst::I64Store8 { offset: 0 }),
        Opcode::SH => store_mem_code(rs1, imm, rs2, WasmInst::I64Store16 { offset: 0 }),
        Opcode::SW | Opcode::C_SW | Opcode::C_SWSP => store_mem_code(rs1, imm, rs2, WasmInst::I64Store32 { offset: 0 }),
        Opcode::SD | Opcode::C_SD | Opcode::C_SDSP => store_mem_code(rs1, imm, rs2, WasmInst::I64Store { offset: 0 }),
        Opcode::C_MV => unless_zero(rd, unary0_code(load_x(rs2), store_x(rd))),
        Opcode::C_ADDI4SPN => unless_zero(rd, with_const_code(load_x(2), imm, WasmInst::I64Add, store_x(rd))),
        Opcode::C_ADDI16SP => with_const_code(load_x(2), imm, WasmInst::I64Add, store_x(2)),
        Opcode::FLW => fp_load_mem_code(rs1, imm, WasmInst::F32Load { offset: 0 }, store_s(rd)),
        Opcode::FSW => fp_store_mem_code(rs1, imm, load_s(rs2), WasmInst::F32Store { offset: 0 }),
        Opcode::FLD => fp_load_mem_code(rs1, imm, WasmInst::F64Load { offset: 0 }, store_d(rd)),
        Opcode::FSD => fp_store_mem_code(rs1, imm, load_d(rs2), WasmInst::F64Store { offset: 0 }),
        Opcode::FADD_S => binary_code(load_s(rs1), load_s(rs2), WasmInst::F32Add, store_s(rd)),
        Opcode::FSUB_S => binary_code(load_s(rs1), load_s(rs2), WasmInst::F32Sub, store_s(rd)),
        Opcode::FMUL_S => binary_code(load_s(rs1), load_s(rs2), WasmInst::F32Mul, store_s(rd)),
        Opcode::FDIV_S => binary_code(load_s(rs1), load_s(rs2), WasmInst::F32Div, store_s(rd)),
        Opcode::FMIN_S => binary_code(load_s(rs1), load_s(rs2), WasmInst::F32Min, store_s(rd)),
        Opcode::FMAX_S => binary_code(load_s(rs1), load_s(rs2), WasmInst::F32Max, store_s(rd)),
        Opcode::FSQRT_S => unary1_code(load_s(rs1), WasmInst::F32Sqrt, store_s(rd)),
        Opcode::FMADD_S => fused_code(load_s(rs1), load_s(rs2), WasmInst::F32Mul, load_s(rs3), WasmInst::F32Add, store_s(rd)),
        Opcode::FMSUB_S => fused_code(load_s(rs1), load_s(rs2), WasmInst::F32Mul, load_s(rs3), WasmInst::F32Sub, store_s(rd)),
        Opcode::FNMSUB_S => fused_neg_code(load_s(rs1), load_s(rs2), WasmInst::F32Mul, WasmInst::F32Neg, load_s(rs3), WasmInst::F32Add, store_s(rd)),
        Opcode::FNMADD_S => fused_neg_code(load_s(rs1), load_s(rs2), WasmInst::F32Mul, WasmInst::F32Neg, load_s(rs3), WasmInst::F32Sub, store_s(rd)),
        Opcode::FSGNJ_S => sign_inject_s_code(load_s(rs1), load_s(rs2), false, store_s(rd)),
        Opcode::FSGNJN_S => sign_inject_s_code(load_s(rs1), load_s(rs2), true, store_s(rd)),
        Opcode::FSGNJX_S => sign_xor_s_code(load_s(rs1), load_s(rs2), store_s(rd)),
        Opcode::FEQ_S => unless_zero(rd, binary_flag_code(load_s(rs1), load_s(rs2), WasmInst::F32Eq, store_x(rd))),
        Opcode::FLT_S => unless_zero(rd, binary_flag_code(load_s(rs1), load_s(rs2), WasmInst::F32Lt, store_x(rd))),
        Opcode::FLE_S => unless_zero(rd, binary_flag_code(load_s(rs1), load_s(rs2), WasmInst::F32Le, store_x(rd))),
        Opcode::FCVT_W_S => unless_zero(rd, unary2_code(load_s(rs1), WasmInst::I32TruncF32S, WasmInst::I64ExtendI32S, store_x(rd))),
        Opcode::FCVT_WU_S => unless_zero(rd, unary2_code(load_s(rs1), WasmInst::I32TruncF32U, WasmInst::I64ExtendI32S, store_x(rd))),
        Opcode::FCVT_L_S => unless_zero(rd, unary1_code(load_s(rs1), WasmInst::I64TruncF32S, store_x(rd))),
        Opcode::FCVT_LU_S => unless_zero(rd, unary1_code(load_s(rs1), WasmInst::I64TruncF32U, store_x(rd))),
        Opcode::FCVT_S_W => unary2_code(load_x(rs1), WasmInst::I32WrapI64, WasmInst::F32ConvertI32S, store_s(rd)),
        Opcode::FCVT_S_WU => unary2_code(load_x(rs1), WasmInst::I32WrapI64, WasmInst::F32ConvertI32U, store_s(rd)),
        Opcode::FCVT_S_L => unary1_code(load_x(rs1), WasmInst::F32ConvertI64S, store_s(rd)),
        Opcode::FCVT_S_LU => unary1_code(load_x(rs1), WasmInst::F32ConvertI64U, store_s(rd)),
        Opcode::FADD_D => binary_code(load_d(rs1), load_d(rs2), WasmInst::F64Add, store_d(rd)),
        Opcode::FSUB_D => binary_code(load_d(rs1), load_d(rs2), WasmInst::F64Sub, store_d(rd)),
        Opcode::FMUL_D => binary_code(load_d(rs1), load_d(rs2), WasmInst::F64Mul, store_d(rd)),
        Opcode::FDIV_D => binary_code(load_d(rs1), load_d(rs2), WasmInst::F64Div, store_d(rd)),
        Opcode::FMIN_D => binary_code(load_d(rs1), load_d(rs2), WasmInst::F64Min, store_d(rd)),
        Opcode::FMAX_D => binary_code(load_d(rs1), load_d(rs2), WasmInst::F64Max, store_d(rd)),
        Opcode::FSQRT_D => unary1_code(load_d(rs1), WasmInst::F64Sqrt, store_d(rd)),
        Opcode::FMADD_D => fused_code(load_d(rs1), load_d(rs2), WasmInst::F64Mul, load_d(rs3), WasmInst::F64Add, store_d(rd)),
        Opcode::FMSUB_D => fused_code(load_d(rs1), load_d(rs2), WasmInst::F64Mul, load_d(rs3), WasmInst::F64Sub, store_d(rd)),
        Opcode::FNMSUB_D => fused_neg_code(load_d(rs1), load_d(rs2), WasmInst::F64Mul, WasmInst::F64Neg, load_d(rs3), WasmInst::F64Add, store_d(rd)),
        Opcode::FNMADD_D => fused_neg_code(load_d(rs1), load_d(rs2), WasmInst::F64Mul, WasmInst::F64Neg, load_d(rs3), WasmInst::F64Sub, store_d(rd)),
        Opcode::FSGNJ_D => sign_inject_d_code(load_d(rs1), load_d(rs2), false, store_d(rd)),
        Opcode::FSGNJN_D => sign_inject_d_code(load_d(rs1), load_d(rs2), true, store_d(rd)),
        Opcode::FSGNJX_D => sign_xor_d_code(load_d(rs1), load_d(rs2), store_d(rd)),
        Opcode::FEQ_D => unless_zero(rd, binary_flag_code(load_d(rs1), load_d(rs2), WasmInst::F64Eq, store_x(rd))),
        Opcode::FLT_D => unless_zero(rd, binary_flag_code(load_d(rs1), load_d(rs2), WasmInst::F64Lt, store_x(rd))),
        Opcode::FLE_D => unless_zero(rd, binary_flag_code(load_d(rs1), load_d(rs2), WasmInst::F64Le, store_x(rd))),
        Opcode::FCVT_W_D => unless_zero(rd, unary2_code(load_d(rs1), WasmInst::I32TruncF64S, WasmInst::I64ExtendI32S, store_x(rd))),
        Opcode::FCVT_WU_D => unless_zero(rd, unary2_code(load_d(rs1), WasmInst::I32TruncF64U, WasmInst::I64ExtendI32S, store_x(rd))),
        Opcode::FCVT_L_D => unless_zero(rd, unary1_code(load_d(rs1), WasmInst::I64TruncF64S, store_x(rd))),
        Opcode::FCVT_LU_D => unless_zero(rd, unary1_code(load_d(rs1), WasmInst::I64TruncF64U, store_x(rd))),
        Opcode::FCVT_D_W => unary2_code(load_x(rs1), WasmInst::I32WrapI64, WasmInst::F64ConvertI32S, store_d(rd)),
        Opcode::FCVT_D_WU => unary2_code(load_x(rs1), WasmInst::I32WrapI64, WasmInst::F64ConvertI32U, store_d(rd)),
        Opcode::FCVT_D_L => unary1_code(load_x(rs1), WasmInst::F64ConvertI64S, store_d(rd)),
        Opcode::FCVT_D_LU => unary1_code(load_x(rs1), WasmInst::F64ConvertI64U, store_d(rd)),
        Opcode::FCVT_S_D => unary1_code(load_d(rs1), WasmInst::F32DemoteF64, store_s(rd)),
        Opcode::FCVT_D_S => unary1_code(load_s(rs1), WasmInst::F64PromoteF32, store_d(rd)),
        Opcode::FMV_X_W => unless_zero(rd, unary2_code(load_s(rs1), WasmInst::I32ReinterpretF32, WasmInst::I64ExtendI32S, store_x(rd))),
        Opcode::FMV_W_X => unary2_code(load_x(rs1), WasmInst::I32WrapI64, WasmInst::F32ReinterpretI32, store_s(rd)),
        Opcode::FMV_X_D => unless_zero(rd, unary1_code(load_d(rs1), WasmInst::I64ReinterpretF64, store_x(rd))),
        Opcode::FMV_D_X => unary1_code(load_x(rs1), WasmInst::F64ReinterpretI64, store_d(rd)),
        Opcode::FCLASS_S | Opcode::FCLASS_D => unless_zero(rd, constant_code(0x40, store_x(rd))),
        Opcode::LR_W => unless_zero(rd, with_store(old_word_code(rs1), store_x(rd))),
        Opcode::LR_D => unless_zero(rd, with_store(old_double_code(rs1), store_x(rd))),
        Opcode::SC_W => store_conditional_code(rd, put_word_code(rs1, rs2)),
        Opcode::SC_D => store_conditional_code(rd, put_double_code(rs1, rs2)),
        Opcode::AMOSWAP_W => read_modify_write_code(rd, old_word_code(rs1), put_word_code(rs1, rs2)),
        Opcode::AMOSWAP_D => read_modify_write_code(rd, old_double_code(rs1), put_double_code(rs1, rs2)),
        Opcode::AMOADD_W => read_modify_write_code(rd, old_word_code(rs1), update_word_code(rs1, rs2, WasmInst::I32Add)),
        Opcode::AMOADD_D => read_modify_write_code(rd, old_double_code(rs1), update_double_code(rs1, rs2, WasmInst::I64Add)),
        Opcode::AMOXOR_W => read_modify_write_code(rd, old_word_code(rs1), update_word_code(rs1, rs2, WasmInst::I32Xor)),
        Opcode::AMOXOR_D => read_modify_write_code(rd, old_double_code(rs1), update_double_code(rs1, rs2, WasmInst::I64Xor)),
        Opcode::AMOAND_W => read_modify_write_code(rd, old_word_code(rs1), update_word_code(rs1, rs2, WasmInst::I32And)),
        Opcode::AMOAND_D => read_modify_write_code(rd, old_double_code(rs1), update_double_code(rs1, rs2, WasmInst::I64And)),
        Opcode::AMOOR_W => read_modify_write_code(rd, old_word_code(rs1), update_word_code(rs1, rs2, WasmInst::I32Or)),
        Opcode::AMOOR_D => read_modify_write_code(rd, old_double_code(rs1), update_double_code(rs1, rs2, WasmInst::I64Or)),
        Opcode::AMOMIN_W => read_modify_write_code(rd, old_word_code(rs1), select_word_code(rs1, rs2, WasmInst::I32LtS)),
        Opcode::AMOMIN_D => read_modify_write_code(rd, old_double_code(rs1), select_double_code(rs1, rs2, WasmInst::I64LtS)),
        Opcode::AMOMAX_W => read_modify_write_code(rd, old_word_code(rs1), select_word_code(rs1, rs2, WasmInst::I32GtS)),
        Opcode::AMOMAX_D => read_modify_write_code(rd, old_double_code(rs1), select_double_code(rs1, rs2, WasmInst::I64GtS)),
        Opcode::AMOMINU_W => read_modify_write_code(rd, old_word_code(rs1), select_word_code(rs1, rs2, WasmInst::I32LtU)),
        Opcode::AMOMINU_D => read_modify_write_code(rd, old_double_code(rs1), select_double_code(rs1, rs2, WasmInst::I64LtU)),
        Opcode::AMOMAXU_W => read_modify_write_code(rd, old_word_code(rs1), select_word_code(rs1, rs2, WasmInst::I32GtU)),
        Opcode::AMOMAXU_D => read_modify_write_code(rd, old_double_code(rs1), select_double_code(rs1, rs2, WasmInst::I64GtU)),
        Opcode::ADDIW | Opcode::C_ADDIW => unless_zero(rd, word_add_imm_code(rs1, imm, rd)),
        Opcode::SLLIW => unless_zero(rd, word_imm_code(rs1, (imm & 0x1f) as i32, WasmInst::I32Shl, rd)),
        Opcode::SRLIW => unless_zero(rd, word_imm_code(rs1, (imm & 0x1f) as i32, WasmInst::I32ShrU, rd)),
        Opcode::SRAIW => unless_zero(rd, word_imm_code(rs1, (imm & 0x1f) as i32, WasmInst::I32ShrS, rd)),
        Opcode::ADDW | Opcode::C_ADDW => unless_zero(rd, word_binary_code(rs1, rs2, WasmInst::I32Add, rd)),
        Opcode::SUBW | Opcode::C_SUBW => unless_zero(rd, word_binary_code(rs1, rs2, WasmInst::I32Sub, rd)),
        Opcode::SLLW => unless_zero(rd, word_binary_code(rs1, rs2, WasmInst::I32Shl, rd)),
        Opcode::SRLW => unless_zero(rd, word_binary_code(rs1, rs2, WasmInst::I32ShrU, rd)),
        Opcode::SRAW => unless_zero(rd, word_binary_code(rs1, rs2, WasmInst::I32ShrS, rd)),
        Opcode::MULW => unless_zero(rd, word_binary_code(rs1, rs2, WasmInst::I32Mul, rd)),
        Opcode::DIVW => unless_zero(rd, word_binary_code(rs1, rs2, WasmInst::I32DivS, rd)),
        Opcode::DIVUW => unless_zero(rd, word_binary_code(rs1, rs2, WasmInst::I32DivU, rd)),
        Opcode::REMW => unless_zero(rd, word_binary_code(rs1, rs2, WasmInst::I32RemS, rd)),
        Opcode::REMUW => unless_zero(rd, word_binary_code(rs1, rs2, WasmInst::I32RemU, rd)),
        Opcode::MULH | Opcode::MULHU | Opcode::MULHSU => unless_zero(rd, constant_code(0, store_x(rd))),
        Opcode::FENCE | Opcode::C_NOP => nothing(),
        Opcode::BEQ | Opcode::BNE | Opcode::BLT | Opcode::BGE | Opcode::BLTU | Opcode::BGEU | Opcode::C_BEQZ | Opcode::C_BNEZ | Opcode::JAL | Opcode::JALR | Opcode::C_J | Opcode::C_JAL | Opcode::C_JR | Opcode::C_JALR | Opcode::ECALL | Opcode::EBREAK | Opcode::C_EBREAK => nothing(),
        Opcode::Unknown => unsupported_code(inst.opcode),
    }
}

/// Translates a single RISC-V instruction, appending its code to `body`.
pub fn translate_instruction(inst: &Instruction, body: &mut Vec<WasmInst>) -> (r: Result<
    (),
    CompileError,
>)
    ensures
        r is Ok,
        ops(final(body)@) == ops(old(body)@) + lowered(*inst),
{
    append_code(body, lower(inst));
    Ok(())
}


// ---------------------------------------------------------------------------
// What lowering leaves alone
// ---------------------------------------------------------------------------

/// The offset of a store, of whatever width and type.
pub open spec fn store_offset(op: WasmOp) -> Option<u32> {
    match op {
        WasmOp::I32Store { offset } => Some(offset),
        WasmOp::I64Store { offset } => Some(offset),
        WasmOp::I32Store8 { offset } => Some(offset),
        WasmOp::I32Store16 { offset } => Some(offset),
        WasmOp::I64Store8 { offset } => Some(offset),
        WasmOp::I64Store16 { offset } => Some(offset),
        WasmOp::I64Store32 { offset } => Some(offset),
        WasmOp::F32Store { offset } => Some(offset),
        WasmOp::F64Store { offset } => Some(offset),
        _ => None,
    }
}

/// Does the operation store at an offset of the integer register file:
/// below 256, where the floating-point registers begin?
pub open spec fn stores_to_integer_file(op: WasmOp) -> bool {
    store_offset(op) is Some && store_offset(op)->Some_0 < 256
}

/// Does the operation store at the offset of one of x1..x31? Offset 0 is
/// the slot of x0, and also the displacement of every store to guest
/// memory.
pub open spec fn stores_to_register(op: WasmOp) -> bool {
    stores_to_integer_file(op) && store_offset(op)->Some_0 != 0
}

/// Does the instruction write guest memory?
pub open spec fn writes_memory(op: Opcode) -> bool {
    op == Opcode::SB || op == Opcode::SH || op == Opcode::SW || op == Opcode::SD || op
        == Opcode::C_SW || op == Opcode::C_SWSP || op == Opcode::C_SD || op == Opcode::C_SDSP || op
        == Opcode::FSW || op == Opcode::FSD || op == Opcode::SC_W || op == Opcode::SC_D || op
        == Opcode::AMOSWAP_W || op == Opcode::AMOADD_W || op == Opcode::AMOXOR_W || op
        == Opcode::AMOAND_W || op == Opcode::AMOOR_W || op == Opcode::AMOMIN_W || op
        == Opcode::AMOMAX_W || op == Opcode::AMOMINU_W || op == Opcode::AMOMAXU_W || op
        == Opcode::AMOSWAP_D || op == Opcode::AMOADD_D || op == Opcode::AMOXOR_D || op
        == Opcode::AMOAND_D || op == Opcode::AMOOR_D || op == Opcode::AMOMIN_D || op
        == Opcode::AMOMAX_D || op == Opcode::AMOMINU_D || op == Opcode::AMOMAXU_D
}

/// An instruction whose destination is x0 writes no integer register: its
/// code holds no store at the offset of x1..x31, and, unless the
/// instruction writes guest memory, no store into the integer register
/// file at all. C.ADDI16SP is left out: its destination is always x2.
pub proof fn lemma_x0_is_never_written(inst: Instruction, i: int)
    requires
        reg(inst.rd) == 0,
        inst.opcode != Opcode::C_ADDI16SP,
        0 <= i < lowered(inst).len(),
    ensures
        !stores_to_register(lowered(inst)[i]),
        !writes_memory(inst.opcode) ==> !stores_to_integer_file(lowered(inst)[i]),
{
    let rd = reg(inst.rd);
    let rs1 = reg(inst.rs1);
    let rs2 = reg(inst.rs2);
    let rs3 = rs3_of(inst.bytes);
    let imm = imm_of(inst.imm);
    match inst.opcode {
        Opcode::ADD | Opcode::C_ADD => {
            assert(lowered(inst) == unless_x0(rd, binary(xl(rs1), xl(rs2), WasmOp::I64Add, xs(rd))));
        },
        Opcode::SUB | Opcode::C_SUB => {
            assert(lowered(inst) == unless_x0(rd, binary(xl(rs1), xl(rs2), WasmOp::I64Sub, xs(rd))));
        },
        Opcode::AND | Opcode::C_AND => {
            assert(lowered(inst) == unless_x0(rd, binary(xl(rs1), xl(rs2), WasmOp::I64And, xs(rd))));
        },
        Opcode::OR | Opcode::C_OR => {
            assert(lowered(inst) == unless_x0(rd, binary(xl(rs1), xl(rs2), WasmOp::I64Or, xs(rd))));
        },
        Opcode::XOR | Opcode::C_XOR => {
            assert(lowered(inst) == unless_x0(rd, binary(xl(rs1), xl(rs2), WasmOp::I64Xor, xs(rd))));
        },
        Opcode::SLL => {
            assert(lowered(inst) == unless_x0(rd, binary(xl(rs1), xl(rs2), WasmOp::I64Shl, xs(rd))));
        },
        Opcode::SRL => {
            assert(lowered(inst) == unless_x0(rd, binary(xl(rs1), xl(rs2), WasmOp::I64ShrU, xs(rd))));
        },
        Opcode::SRA => {
            assert(lowered(inst) == unless_x0(rd, binary(xl(rs1), xl(rs2), WasmOp::I64ShrS, xs(rd))));
        },
        Opcode::MUL => {
            assert(lowered(inst) == unless_x0(rd, binary(xl(rs1), xl(rs2), WasmOp::I64Mul, xs(rd))));
        },
        Opcode::DIV => {
            assert(lowered(inst) == unless_x0(rd, binary(xl(rs1), xl(rs2), WasmOp::I64DivS, xs(rd))));
        },
        Opcode::DIVU => {
            assert(lowered(inst) == unless_x0(rd, binary(xl(rs1), xl(rs2), WasmOp::I64DivU, xs(rd))));
        },
        Opcode::REM => {
            assert(lowered(inst) == unless_x0(rd, binary(xl(rs1), xl(rs2), WasmOp::I64RemS, xs(rd))));
        },
        Opcode::REMU => {
            assert(lowered(inst) == unless_x0(rd, binary(xl(rs1), xl(rs2), WasmOp::I64RemU, xs(rd))));
        },
        Opcode::SLT => {
            assert(lowered(inst) == unless_x0(rd, binary_flag(xl(rs1), xl(rs2), WasmOp::I64LtS, xs(rd))));
        },
        Opcode::SLTU => {
            assert(lowered(inst) == unless_x0(rd, binary_flag(xl(rs1), xl(rs2), WasmOp::I64LtU, xs(rd))));
        },
        Opcode::ADDI | Opcode::C_ADDI | Opcode::C_LI => {
            assert(lowered(inst) == unless_x0(rd, with_const(xl(rs1), imm, WasmOp::I64Add, xs(rd))));
        },
        Opcode::ANDI | Opcode::C_ANDI => {
            assert(lowered(inst) == unless_x0(rd, with_const(xl(rs1), imm, WasmOp::I64And, xs(rd))));
        },
        Opcode::ORI => {
            assert(lowered(inst) == unless_x0(rd, with_const(xl(rs1), imm, WasmOp::I64Or, xs(rd))));
        },
        Opcode::XORI => {
            assert(lowered(inst) == unless_x0(rd, with_const(xl(rs1), imm, WasmOp::I64Xor, xs(rd))));
        },
        Opcode::SLLI | Opcode::C_SLLI => {
            assert(lowered(inst) == unless_x0(rd, with_const(xl(rs1), imm & 0x3f, WasmOp::I64Shl, xs(rd))));
        },
        Opcode::SRLI | Opcode::C_SRLI => {
            assert(lowered(inst) == unless_x0(rd, with_const(xl(rs1), imm & 0x3f, WasmOp::I64ShrU, xs(rd))));
        },
        Opcode::SRAI | Opcode::C_SRAI => {
            assert(lowered(inst) == unless_x0(rd, with_const(xl(rs1), imm & 0x3f, WasmOp::I64ShrS, xs(rd))));
        },
        Opcode::SLTI => {
            assert(lowered(inst) == unless_x0(rd, with_const_flag(xl(rs1), imm, WasmOp::I64LtS, xs(rd))));
        },
        Opcode::SLTIU => {
            assert(lowered(inst) == unless_x0(rd, with_const_flag(xl(rs1), imm, WasmOp::I64LtU, xs(rd))));
        },
        Opcode::LUI | Opcode::C_LUI => {
            assert(lowered(inst) == unless_x0(rd, constant(imm, xs(rd))));
        },
        Opcode::AUIPC => {
            assert(lowered(inst) == unless_x0(rd, constant(target_of(inst.addr, imm) as i64, xs(rd))));
        },
        Opcode::LB => {
            assert(lowered(inst) == unless_x0(rd, load_mem(rs1, imm, WasmOp::I64Load8S { offset: 0 }, xs(rd))));
        },
        Opcode::LBU => {
            assert(lowered(inst) == unless_x0(rd, load_mem(rs1, imm, WasmOp::I64Load8U { offset: 0 }, xs(rd))));
        },
        Opcode::LH => {
            assert(lowered(inst) == unless_x0(rd, load_mem(rs1, imm, WasmOp::I64Load16S { offset: 0 }, xs(rd))));
        },
        Opcode::LHU => {
            assert(lowered(inst) == unless_x0(rd, load_mem(rs1, imm, WasmOp::I64Load16U { offset: 0 }, xs(rd))));
        },
        Opcode::LW | Opcode::C_LW | Opcode::C_LWSP => {
            assert(lowered(inst) == unless_x0(rd, load_mem(rs1, imm, WasmOp::I64Load32S { offset: 0 }, xs(rd))));
        },
        Opcode::LWU => {
            assert(lowered(inst) == unless_x0(rd, load_mem(rs1, imm, WasmOp::I64Load32U { offset: 0 }, xs(rd))));
        },
        Opcode::LD | Opcode::C_LD | Opcode::C_LDSP => {
            assert(lowered(inst) == unless_x0(rd, load_mem(rs1, imm, WasmOp::I64Load { offset: 0 }, xs(rd))));
        },
        Opcode::SB => {
            assert(lowered(inst) == store_mem(rs1, imm, rs2, WasmOp::I64Store8 { offset: 0 }));
        },
        Opcode::SH => {
            assert(lowered(inst) == store_mem(rs1, imm, rs2, WasmOp::I64Store16 { offset: 0 }));
        },
        Opcode::SW | Opcode::C_SW | Opcode::C_SWSP => {
            assert(lowered(inst) == store_mem(rs1, imm, rs2, WasmOp::I64Store32 { offset: 0 }));
        },
        Opcode::SD | Opcode::C_SD | Opcode::C_SDSP => {
            assert(lowered(inst) == store_mem(rs1, imm, rs2, WasmOp::I64Store { offset: 0 }));
        },
        Opcode::C_MV => {
            assert(lowered(inst) == unless_x0(rd, unary0(xl(rs2), xs(rd))));
        },
        Opcode::C_ADDI4SPN => {
            assert(lowered(inst) == unless_x0(rd, with_const(xl(2), imm, WasmOp::I64Add, xs(rd))));
        },
        Opcode::C_ADDI16SP => {},
        Opcode::FLW => {
            assert(lowered(inst) == fp_load_mem(rs1, imm, WasmOp::F32Load { offset: 0 }, ss(rd)));
        },
        Opcode::FSW => {
            assert(lowered(inst) == fp_store_mem(rs1, imm, sl(rs2), WasmOp::F32Store { offset: 0 }));
        },
        Opcode::FLD => {
            assert(lowered(inst) == fp_load_mem(rs1, imm, WasmOp::F64Load { offset: 0 }, ds(rd)));
        },
        Opcode::FSD => {
            assert(lowered(inst) == fp_store_mem(rs1, imm, dl(rs2), WasmOp::F64Store { offset: 0 }));
        },
        Opcode::FADD_S => {
            assert(lowered(inst) == binary(sl(rs1), sl(rs2), WasmOp::F32Add, ss(rd)));
        },
        Opcode::FSUB_S => {
            assert(lowered(inst) == binary(sl(rs1), sl(rs2), WasmOp::F32Sub, ss(rd)));
        },
        Opcode::FMUL_S => {
            assert(lowered(inst) == binary(sl(rs1), sl(rs2), WasmOp::F32Mul, ss(rd)));
        },
        Opcode::FDIV_S => {
            assert(lowered(inst) == binary(sl(rs1), sl(rs2), WasmOp::F32Div, ss(rd)));
        },
        Opcode::FMIN_S => {
            assert(lowered(inst) == binary(sl(rs1), sl(rs2), WasmOp::F32Min, ss(rd)));
        },
        Opcode::FMAX_S => {
            assert(lowered(inst) == binary(sl(rs1), sl(rs2), WasmOp::F32Max, ss(rd)));
        },
        Opcode::FSQRT_S => {
            assert(lowered(inst) == unary1(sl(rs1), WasmOp::F32Sqrt, ss(rd)));
        },
        Opcode::FMADD_S => {
            assert(lowered(inst) == fused(sl(rs1), sl(rs2), WasmOp::F32Mul, sl(rs3), WasmOp::F32Add, ss(rd)));
        },
        Opcode::FMSUB_S => {
            assert(lowered(inst) == fused(sl(rs1), sl(rs2), WasmOp::F32Mul, sl(rs3), WasmOp::F32Sub, ss(rd)));
        },
        Opcode::FNMSUB_S => {
            assert(lowered(inst) == fused_neg(sl(rs1), sl(rs2), WasmOp::F32Mul, WasmOp::F32Neg, sl(rs3), WasmOp::F32Add, ss(rd)));
        },
        Opcode::FNMADD_S => {
            assert(lowered(inst) == fused_neg(sl(rs1), sl(rs2), WasmOp::F32Mul, WasmOp::F32Neg, sl(rs3), WasmOp::F32Sub, ss(rd)));
        },
        Opcode::FSGNJ_S => {
            assert(lowered(inst) == sign_inject_s(sl(rs1), sl(rs2), false, ss(rd)));
        },
        Opcode::FSGNJN_S => {
            assert(lowered(inst) == sign_inject_s(sl(rs1), sl(rs2), true, ss(rd)));
        },
        Opcode::FSGNJX_S => {
            assert(lowered(inst) == sign_xor_s(sl(rs1), sl(rs2), ss(rd)));
        },
        Opcode::FEQ_S => {
            assert(lowered(inst) == unless_x0(rd, binary_flag(sl(rs1), sl(rs2), WasmOp::F32Eq, xs(rd))));
        },
        Opcode::FLT_S => {
            assert(lowered(inst) == unless_x0(rd, binary_flag(sl(rs1), sl(rs2), WasmOp::F32Lt, xs(rd))));
        },
        Opcode::FLE_S => {
            assert(lowered(inst) == unless_x0(rd, binary_flag(sl(rs1), sl(rs2), WasmOp::F32Le, xs(rd))));
        },
        Opcode::FCVT_W_S => {
            assert(lowered(inst) == unless_x0(rd, unary2(sl(rs1), WasmOp::I32TruncF32S, WasmOp::I64ExtendI32S, xs(rd))));
        },
        Opcode::FCVT_WU_S => {
            assert(lowered(inst) == unless_x0(rd, unary2(sl(rs1), WasmOp::I32TruncF32U, WasmOp::I64ExtendI32S, xs(rd))));
        },
        Opcode::FCVT_L_S => {
            assert(lowered(inst) == unless_x0(rd, unary1(sl(rs1), WasmOp::I64TruncF32S, xs(rd))));
        },
        Opcode::FCVT_LU_S => {
            assert(lowered(inst) == unless_x0(rd, unary1(sl(rs1), WasmOp::I64TruncF32U, xs(rd))));
        },
        Opcode::FCVT_S_W => {
            assert(lowered(inst) == unary2(xl(rs1), WasmOp::I32WrapI64, WasmOp::F32ConvertI32S, ss(rd)));
        },
        Opcode::FCVT_S_WU => {
            assert(lowered(inst) == unary2(xl(rs1), WasmOp::I32WrapI64, WasmOp::F32ConvertI32U, ss(rd)));
        },
        Opcode::FCVT_S_L => {
            assert(lowered(inst) == unary1(xl(rs1), WasmOp::F32ConvertI64S, ss(rd)));
        },
        Opcode::FCVT_S_LU => {
            assert(lowered(inst) == unary1(xl(rs1), WasmOp::F32ConvertI64U, ss(rd)));
        },
        Opcode::FADD_D => {
            assert(lowered(inst) == binary(dl(rs1), dl(rs2), WasmOp::F64Add, ds(rd)));
        },
        Opcode::FSUB_D => {
            assert(lowered(inst) == binary(dl(rs1), dl(rs2), WasmOp::F64Sub, ds(rd)));
        },
        Opcode::FMUL_D => {
            assert(lowered(inst) == binary(dl(rs1), dl(rs2), WasmOp::F64Mul, ds(rd)));
        },
        Opcode::FDIV_D => {
            assert(lowered(inst) == binary(dl(rs1), dl(rs2), WasmOp::F64Div, ds(rd)));
        },
        Opcode::FMIN_D => {
            assert(lowered(inst) == binary(dl(rs1), dl(rs2), WasmOp::F64Min, ds(rd)));
        },
        Opcode::FMAX_D => {
            assert(lowered(inst) == binary(dl(rs1), dl(rs2), WasmOp::F64Max, ds(rd)));
        },
        Opcode::FSQRT_D => {
            assert(lowered(inst) == unary1(dl(rs1), WasmOp::F64Sqrt, ds(rd)));
        },
        Opcode::FMADD_D => {
            assert(lowered(inst) == fused(dl(rs1), dl(rs2), WasmOp::F64Mul, dl(rs3), WasmOp::F64Add, ds(rd)));
        },
        Opcode::FMSUB_D => {
            assert(lowered(inst) == fused(dl(rs1), dl(rs2), WasmOp::F64Mul, dl(rs3), WasmOp::F64Sub, ds(rd)));
        },
        Opcode::FNMSUB_D => {
            assert(lowered(inst) == fused_neg(dl(rs1), dl(rs2), WasmOp::F64Mul, WasmOp::F64Neg, dl(rs3), WasmOp::F64Add, ds(rd)));
        },
        Opcode::FNMADD_D => {
            assert(lowered(inst) == fused_neg(dl(rs1), dl(rs2), WasmOp::F64Mul, WasmOp::F64Neg, dl(rs3), WasmOp::F64Sub, ds(rd)));
        },
        Opcode::FSGNJ_D => {
            assert(lowered(inst) == sign_inject_d(dl(rs1), dl(rs2), false, ds(rd)));
        },
        Opcode::FSGNJN_D => {
            assert(lowered(inst) == sign_inject_d(dl(rs1), dl(rs2), true, ds(rd)));
        },
        Opcode::FSGNJX_D => {
            assert(lowered(inst) == sign_xor_d(dl(rs1), dl(rs2), ds(rd)));
        },
        Opcode::FEQ_D => {
            assert(lowered(inst) == unless_x0(rd, binary_flag(dl(rs1), dl(rs2), WasmOp::F64Eq, xs(rd))));
        },
        Opcode::FLT_D => {
            assert(lowered(inst) == unless_x0(rd, binary_flag(dl(rs1), dl(rs2), WasmOp::F64Lt, xs(rd))));
        },
        Opcode::FLE_D => {
            assert(lowered(inst) == unless_x0(rd, binary_flag(dl(rs1), dl(rs2), WasmOp::F64Le, xs(rd))));
        },
        Opcode::FCVT_W_D => {
            assert(lowered(inst) == unless_x0(rd, unary2(dl(rs1), WasmOp::I32TruncF64S, WasmOp::I64ExtendI32S, xs(rd))));
        },
        Opcode::FCVT_WU_D => {
            assert(lowered(inst) == unless_x0(rd, unary2(dl(rs1), WasmOp::I32TruncF64U, WasmOp::I64ExtendI32S, xs(rd))));
        },
        Opcode::FCVT_L_D => {
            assert(lowered(inst) == unless_x0(rd, unary1(dl(rs1), WasmOp::I64TruncF64S, xs(rd))));
        },
        Opcode::FCVT_LU_D => {
            assert(lowered(inst) == unless_x0(rd, unary1(dl(rs1), WasmOp::I64TruncF64U, xs(rd))));
        },
        Opcode::FCVT_D_W => {
            assert(lowered(inst) == unary2(xl(rs1), WasmOp::I32WrapI64, WasmOp::F64ConvertI32S, ds(rd)));
        },
        Opcode::FCVT_D_WU => {
            assert(lowered(inst) == unary2(xl(rs1), WasmOp::I32WrapI64, WasmOp::F64ConvertI32U, ds(rd)));
        },
        Opcode::FCVT_D_L => {
            assert(lowered(inst) == unary1(xl(rs1), WasmOp::F64ConvertI64S, ds(rd)));
        },
        Opcode::FCVT_D_LU => {
            assert(lowered(inst) == unary1(xl(rs1), WasmOp::F64ConvertI64U, ds(rd)));
        },
        Opcode::FCVT_S_D => {
            assert(lowered(inst) == unary1(dl(rs1), WasmOp::F32DemoteF64, ss(rd)));
        },
        Opcode::FCVT_D_S => {
            assert(lowered(inst) == unary1(sl(rs1), WasmOp::F64PromoteF32, ds(rd)));
        },
        Opcode::FMV_X_W => {
            assert(lowered(inst) == unless_x0(rd, unary2(sl(rs1), WasmOp::I32ReinterpretF32, WasmOp::I64ExtendI32S, xs(rd))));
        },
        Opcode::FMV_W_X => {
            assert(lowered(inst) == unary2(xl(rs1), WasmOp::I32WrapI64, WasmOp::F32ReinterpretI32, ss(rd)));
        },
        Opcode::FMV_X_D => {
            assert(lowered(inst) == unless_x0(rd, unary1(dl(rs1), WasmOp::I64ReinterpretF64, xs(rd))));
        },
        Opcode::FMV_D_X => {
            assert(lowered(inst) == unary1(xl(rs1), WasmOp::F64ReinterpretI64, ds(rd)));
        },
        Opcode::FCLASS_S | Opcode::FCLASS_D => {
            assert(lowered(inst) == unless_x0(rd, constant(0x40, xs(rd))));
        },
        Opcode::LR_W => {
            assert(lowered(inst) == unless_x0(rd, old_word(rs1) + seq![xs(rd)]));
        },
        Opcode::LR_D => {
            assert(lowered(inst) == unless_x0(rd, old_double(rs1) + seq![xs(rd)]));
        },
        Opcode::SC_W => {
            assert(lowered(inst) == store_conditional(rd, put_word(rs1, rs2)));
        },
        Opcode::SC_D => {
            assert(lowered(inst) == store_conditional(rd, put_double(rs1, rs2)));
        },
        Opcode::AMOSWAP_W => {
            assert(lowered(inst) == read_modify_write(rd, old_word(rs1), put_word(rs1, rs2)));
        },
        Opcode::AMOSWAP_D => {
            assert(lowered(inst) == read_modify_write(rd, old_double(rs1), put_double(rs1, rs2)));
        },
        Opcode::AMOADD_W => {
            assert(lowered(inst) == read_modify_write(rd, old_word(rs1), update_word(rs1, rs2, WasmOp::I32Add)));
        },
        Opcode::AMOADD_D => {
            assert(lowered(inst) == read_modify_write(rd, old_double(rs1), update_double(rs1, rs2, WasmOp::I64Add)));
        },
        Opcode::AMOXOR_W => {
            assert(lowered(inst) == read_modify_write(rd, old_word(rs1), update_word(rs1, rs2, WasmOp::I32Xor)));
        },
        Opcode::AMOXOR_D => {
            assert(lowered(inst) == read_modify_write(rd, old_double(rs1), update_double(rs1, rs2, WasmOp::I64Xor)));
        },
        Opcode::AMOAND_W => {
            assert(lowered(inst) == read_modify_write(rd, old_word(rs1), update_word(rs1, rs2, WasmOp::I32And)));
        },
        Opcode::AMOAND_D => {
            assert(lowered(inst) == read_modify_write(rd, old_double(rs1), update_double(rs1, rs2, WasmOp::I64And)));
        },
        Opcode::AMOOR_W => {
            assert(lowered(inst) == read_modify_write(rd, old_word(rs1), update_word(rs1, rs2, WasmOp::I32Or)));
        },
        Opcode::AMOOR_D => {
            assert(lowered(inst) == read_modify_write(rd, old_double(rs1), update_double(rs1, rs2, WasmOp::I64Or)));
        },
        Opcode::AMOMIN_W => {
            assert(lowered(inst) == read_modify_write(rd, old_word(rs1), select_word(rs1, rs2, WasmOp::I32LtS)));
        },
        Opcode::AMOMIN_D => {
            assert(lowered(inst) == read_modify_write(rd, old_double(rs1), select_double(rs1, rs2, WasmOp::I64LtS)));
        },
        Opcode::AMOMAX_W => {
            assert(lowered(inst) == read_modify_write(rd, old_word(rs1), select_word(rs1, rs2, WasmOp::I32GtS)));
        },
        Opcode::AMOMAX_D => {
            assert(lowered(inst) == read_modify_write(rd, old_double(rs1), select_double(rs1, rs2, WasmOp::I64GtS)));
        },
        Opcode::AMOMINU_W => {
            assert(lowered(inst) == read_modify_write(rd, old_word(rs1), select_word(rs1, rs2, WasmOp::I32LtU)));
        },
        Opcode::AMOMINU_D => {
            assert(lowered(inst) == read_modify_write(rd, old_double(rs1), select_double(rs1, rs2, WasmOp::I64LtU)));
        },
        Opcode::AMOMAXU_W => {
            assert(lowered(inst) == read_modify_write(rd, old_word(rs1), select_word(rs1, rs2, WasmOp::I32GtU)));
        },
        Opcode::AMOMAXU_D => {
            assert(lowered(inst) == read_modify_write(rd, old_double(rs1), select_double(rs1, rs2, WasmOp::I64GtU)));
        },
        Opcode::ADDIW | Opcode::C_ADDIW => {
            assert(lowered(inst) == unless_x0(rd, word_add_imm(rs1, imm, rd)));
        },
        Opcode::SLLIW => {
            assert(lowered(inst) == unless_x0(rd, word_imm(rs1, (imm & 0x1f) as i32, WasmOp::I32Shl, rd)));
        },
        Opcode::SRLIW => {
            assert(lowered(inst) == unless_x0(rd, word_imm(rs1, (imm & 0x1f) as i32, WasmOp::I32ShrU, rd)));
        },
        Opcode::SRAIW => {
            assert(lowered(inst) == unless_x0(rd, word_imm(rs1, (imm & 0x1f) as i32, WasmOp::I32ShrS, rd)));
        },
        Opcode::ADDW | Opcode::C_ADDW => {
            assert(lowered(inst) == unless_x0(rd, word_binary(rs1, rs2, WasmOp::I32Add, rd)));
        },
        Opcode::SUBW | Opcode::C_SUBW => {
            assert(lowered(inst) == unless_x0(rd, word_binary(rs1, rs2, WasmOp::I32Sub, rd)));
        },
        Opcode::SLLW => {
            assert(lowered(inst) == unless_x0(rd, word_binary(rs1, rs2, WasmOp::I32Shl, rd)));
        },
        Opcode::SRLW => {
            assert(lowered(inst) == unless_x0(rd, word_binary(rs1, rs2, WasmOp::I32ShrU, rd)));
        },
        Opcode::SRAW => {
            assert(lowered(inst) == unless_x0(rd, word_binary(rs1, rs2, WasmOp::I32ShrS, rd)));
        },
        Opcode::MULW => {
            assert(lowered(inst) == unless_x0(rd, word_binary(rs1, rs2, WasmOp::I32Mul, rd)));
        },
        Opcode::DIVW => {
            assert(lowered(inst) == unless_x0(rd, word_binary(rs1, rs2, WasmOp::I32DivS, rd)));
        },
        Opcode::DIVUW => {
            assert(lowered(inst) == unless_x0(rd, word_binary(rs1, rs2, WasmOp::I32DivU, rd)));
        },
        Opcode::REMW => {
            assert(lowered(inst) == unless_x0(rd, word_binary(rs1, rs2, WasmOp::I32RemS, rd)));
        },
        Opcode::REMUW => {
            assert(lowered(inst) == unless_x0(rd, word_binary(rs1, rs2, WasmOp::I32RemU, rd)));
        },
        Opcode::MULH | Opcode::MULHU | Opcode::MULHSU => {
            assert(lowered(inst) == unless_x0(rd, constant(0, xs(rd))));
        },
        Opcode::FENCE | Opcode::C_NOP => {
            assert(lowered(inst) == Seq::<WasmOp>::empty());
        },
        Opcode::BEQ | Opcode::BNE | Opcode::BLT | Opcode::BGE | Opcode::BLTU | Opcode::BGEU | Opcode::C_BEQZ | Opcode::C_BNEZ | Opcode::JAL | Opcode::JALR | Opcode::C_J | Opcode::C_JAL | Opcode::C_JR | Opcode::C_JALR | Opcode::ECALL | Opcode::EBREAK | Opcode::C_EBREAK => {
            assert(lowered(inst) == Seq::<WasmOp>::empty());
        },
        Opcode::Unknown => {
            assert(lowered(inst) == unsupported(inst.opcode));
        },
    }
}

/// The canonical no-operation `addi x0, x0, 0`, like every ADDI to x0,
/// lowers to no operation at all.
pub proof fn lemma_nop_lowers_to_nothing(inst: Instruction)
    requires
        inst.opcode == Opcode::ADDI || inst.opcode == Opcode::C_NOP,
        reg(inst.rd) == 0,
    ensures
        lowered(inst) == Seq::<WasmOp>::empty(),
{
}


// ---------------------------------------------------------------------------
// The block's return
// ---------------------------------------------------------------------------

/// Tag of a system-call request: bit 31.
pub const SYSCALL_TAG: i32 = i32::MIN;

/// Tag of a breakpoint report: bits 31 and 30.
pub const BREAK_TAG: i32 = -0x4000_0000;

/// Mask that clears bit 0 of a jump target.
pub const EVEN_MASK: i64 = -2;

/// At most this many inline-cache probes guard an indirect call.
pub const MAX_PROBES: usize = 2;

/// A guest PC as the i32 constant that a block returns.
pub open spec fn pc_const(pc: u64) -> WasmOp {
    WasmOp::I32Const { value: pc as i32 }
}

/// A conditional branch: `select(target, fallthrough, x[rs1] test x[rs2])`.
pub open spec fn branch_compare(rs1: u32, rs2: u32, target: u64, fallthrough: u64, test: WasmOp) -> Seq<
    WasmOp,
> {
    seq![
        pc_const(target),
        pc_const(fallthrough),
        base(),
        xl(rs1),
        base(),
        xl(rs2),
        test,
        WasmOp::Select,
        WasmOp::Return,
    ]
}

/// A branch on zero (`on_zero`) or on nonzero: the test is `x[rs1] == 0`,
/// and the two constants change places for the branch on nonzero.
pub open spec fn branch_zero(rs1: u32, target: u64, fallthrough: u64, on_zero: bool) -> Seq<WasmOp> {
    seq![
        pc_const(if on_zero { target } else { fallthrough }),
        pc_const(if on_zero { fallthrough } else { target }),
        base(),
        xl(rs1),
        WasmOp::I64Eqz,
        WasmOp::Select,
        WasmOp::Return,
    ]
}

/// The link write of a jump: `x[rd] = link_addr`, unless `rd` is x0.
pub open spec fn link(rd: u32, link_addr: u64) -> Seq<WasmOp> {
    unless_x0(rd, constant(link_addr as i64, xs(rd)))
}

/// Return of a constant PC.
pub open spec fn return_pc(pc: u64) -> Seq<WasmOp> {
    seq![pc_const(pc), WasmOp::Return]
}

/// The 64-bit target of an indirect jump: `(x[rs1] + imm) & !1`. It is
/// computed before the link is written, so that a jump through its own
/// link register reads the old value.
pub open spec fn indirect_target(rs1: u32, imm: i64) -> Seq<WasmOp> {
    seq![base(), xl(rs1)] + (if imm != 0 {
        seq![WasmOp::I64Const { value: imm }, WasmOp::I64Add]
    } else {
        Seq::<WasmOp>::empty()
    }) + seq![WasmOp::I64Const { value: EVEN_MASK }, WasmOp::I64And]
}

/// One inline-cache probe: if the computed target, kept in local 1, equals
/// `pc`, the block returns `pc` as a constant.
pub open spec fn probe(pc: u64) -> Seq<WasmOp> {
    seq![
        WasmOp::Block { label: 0 },
        WasmOp::LocalGet { idx: 1 },
        WasmOp::I32WrapI64,
        pc_const(pc),
        WasmOp::I32Ne,
        WasmOp::BrIf { label: 0 },
        pc_const(pc),
        WasmOp::Return,
        WasmOp::End,
    ]
}

/// A chain of probes, in order.
pub open spec fn probe_chain(pcs: Seq<u64>) -> Seq<WasmOp>
    decreases pcs.len(),
{
    if pcs.len() == 0 {
        Seq::<WasmOp>::empty()
    } else {
        probe_chain(pcs.drop_last()) + probe(pcs.last())
    }
}

/// The end of an indirect jump whose 64-bit target is on the stack: without
/// probes the target is narrowed and returned; with probes it is kept in
/// local 1, tested against each probe, and returned if none matches.
pub open spec fn indirect_return(probes: Seq<u64>) -> Seq<WasmOp> {
    if probes.len() == 0 {
        seq![WasmOp::I32WrapI64, WasmOp::Return]
    } else {
        seq![WasmOp::LocalSet { idx: 1 }] + probe_chain(probes) + seq![
            WasmOp::LocalGet { idx: 1 },
            WasmOp::I32WrapI64,
            WasmOp::Return,
        ]
    }
}

/// The first `limit` successors that are known block addresses.
pub open spec fn known_successors(successors: Seq<u64>, known: Seq<u64>, limit: nat) -> Seq<u64>
    decreases successors.len(),
{
    if successors.len() == 0 || limit == 0 {
        Seq::<u64>::empty()
    } else if known.contains(successors[0]) {
        seq![successors[0]] + known_successors(successors.drop_first(), known, (limit - 1) as nat)
    } else {
        known_successors(successors.drop_first(), known, limit)
    }
}

/// The probes of an indirect jump: none unless it links, and then the first
/// two successors of its block that are known block addresses.
pub open spec fn probes_of(rd: u32, successors: Seq<u64>, known: Seq<u64>) -> Seq<u64> {
    if rd != 0 {
        known_successors(successors, known, MAX_PROBES as nat)
    } else {
        Seq::<u64>::empty()
    }
}

/// The code that ends a block whose last instruction is `inst`: it returns
/// the next guest PC, or an escape code.
pub open spec fn block_return(inst: Instruction, end_addr: u64, successors: Seq<u64>, known: Seq<u64>) -> Seq<
    WasmOp,
> {
    let rd = reg(inst.rd);
    let rs1 = reg(inst.rs1);
    let rs2 = reg(inst.rs2);
    let imm = imm_of(inst.imm);
    let target = target_of(inst.addr, imm);
    let link_addr = next_of(inst.addr, inst.len);
    match inst.opcode {
        Opcode::BEQ => branch_compare(rs1, rs2, target, end_addr, WasmOp::I64Eq),
        Opcode::BNE => branch_compare(rs1, rs2, target, end_addr, WasmOp::I64Ne),
        Opcode::BLT => branch_compare(rs1, rs2, target, end_addr, WasmOp::I64LtS),
        Opcode::BGE => branch_compare(rs1, rs2, target, end_addr, WasmOp::I64GeS),
        Opcode::BLTU => branch_compare(rs1, rs2, target, end_addr, WasmOp::I64LtU),
        Opcode::BGEU => branch_compare(rs1, rs2, target, end_addr, WasmOp::I64GeU),
        Opcode::C_BEQZ => branch_zero(rs1, target, end_addr, true),
        Opcode::C_BNEZ => branch_zero(rs1, target, end_addr, false),
        Opcode::JAL | Opcode::C_JAL => link(rd, link_addr) + return_pc(target),
        Opcode::C_J => return_pc(target),
        Opcode::JALR | Opcode::C_JALR => indirect_target(rs1, imm) + link(rd, link_addr)
            + indirect_return(probes_of(rd, successors, known)),
        Opcode::C_JR => seq![base(), xl(rs1), WasmOp::I32WrapI64, WasmOp::Return],
        Opcode::ECALL => seq![
            WasmOp::I32Const { value: SYSCALL_TAG | (inst.addr as i32) },
            WasmOp::Return,
        ],
        Opcode::EBREAK | Opcode::C_EBREAK => seq![
            WasmOp::I32Const { value: BREAK_TAG | (inst.addr as i32) },
            WasmOp::Return,
        ],
        _ => return_pc(end_addr),
    }
}

/// A link to x0 is no write: a jump or call whose destination is x0 ends
/// its block without a store into the integer register file.
pub proof fn lemma_x0_is_never_linked(
    inst: Instruction,
    end_addr: u64,
    successors: Seq<u64>,
    known: Seq<u64>,
    i: int,
)
    requires
        reg(inst.rd) == 0,
        0 <= i < block_return(inst, end_addr, successors, known).len(),
    ensures
        !stores_to_integer_file(block_return(inst, end_addr, successors, known)[i]),
{
}

fn const_pc(pc: u64) -> (i: WasmInst)
    ensures
        i@ == pc_const(pc),
{
    WasmInst::I32Const { value: pc as i32 }
}

fn branch_compare_code(rs1: u32, rs2: u32, target: u64, fallthrough: u64, test: WasmInst) -> (v: Vec<
    WasmInst,
>)
    requires
        rs1 <= 255,
        rs2 <= 255,
    ensures
        ops(v@) == branch_compare(rs1, rs2, target, fallthrough, test@),
{
    let v = vec![
        const_pc(target),
        const_pc(fallthrough),
        get_base(),
        load_x(rs1),
        get_base(),
        load_x(rs2),
        test,
        WasmInst::Select,
        WasmInst::Return,
    ];
    assert(ops(v@) =~= branch_compare(rs1, rs2, target, fallthrough, test@));
    v
}

fn branch_zero_code(rs1: u32, target: u64, fallthrough: u64, on_zero: bool) -> (v: Vec<WasmInst>)
    requires
        rs1 <= 255,
    ensures
        ops(v@) == branch_zero(rs1, target, fallthrough, on_zero),
{
    let v = vec![
        const_pc(if on_zero { target } else { fallthrough }),
        const_pc(if on_zero { fallthrough } else { target }),
        get_base(),
        load_x(rs1),
        WasmInst::I64Eqz,
        WasmInst::Select,
        WasmInst::Return,
    ];
    assert(ops(v@) =~= branch_zero(rs1, target, fallthrough, on_zero));
    v
}

fn link_code(rd: u32, link_addr: u64) -> (v: Vec<WasmInst>)
    requires
        rd <= 255,
    ensures
        ops(v@) == link(rd, link_addr),
{
    unless_zero(rd, constant_code(link_addr as i64, store_x(rd)))
}

fn return_pc_code(pc: u64) -> (v: Vec<WasmInst>)
    ensures
        ops(v@) == return_pc(pc),
{
    let v = vec![const_pc(pc), WasmInst::Return];
    assert(ops(v@) =~= return_pc(pc));
    v
}

fn indirect_target_code(rs1: u32, imm: i64) -> (v: Vec<WasmInst>)
    requires
        rs1 <= 255,
    ensures
        ops(v@) == indirect_target(rs1, imm),
{
    if imm != 0 {
        let v = vec![
            get_base(),
            load_x(rs1),
            WasmInst::I64Const { value: imm },
            WasmInst::I64Add,
            WasmInst::I64Const { value: EVEN_MASK },
            WasmInst::I64And,
        ];
        assert(ops(v@) =~= indirect_target(rs1, imm));
        v
    } else {
        let v = vec![get_base(), load_x(rs1), WasmInst::I64Const { value: EVEN_MASK }, WasmInst::I64And];
        assert(ops(v@) =~= indirect_target(rs1, imm));
        v
    }
}

fn probe_code(pc: u64) -> (v: Vec<WasmInst>)
    ensures
        ops(v@) == probe(pc),
{
    let v = vec![
        WasmInst::Block { label: 0 },
        WasmInst::LocalGet { idx: 1 },
        WasmInst::I32WrapI64,
        const_pc(pc),
        WasmInst::I32Ne,
        WasmInst::BrIf { label: 0 },
        const_pc(pc),
        WasmInst::Return,
        WasmInst::End,
    ];
    assert(ops(v@) =~= probe(pc));
    v
}

fn indirect_return_code(probes: &Vec<u64>) -> (v: Vec<WasmInst>)
    ensures
        ops(v@) == indirect_return(probes@),
{
    if probes.len() == 0 {
        let v = vec![WasmInst::I32WrapI64, WasmInst::Return];
        assert(ops(v@) =~= indirect_return(probes@));
        v
    } else {
        let mut v = vec![WasmInst::LocalSet { idx: 1 }];
        assert(ops(v@) =~= seq![WasmOp::LocalSet { idx: 1 }]);
        let mut i: usize = 0;
        while i < probes.len()
            invariant
                i <= probes.len(),
                ops(v@) == seq![WasmOp::LocalSet { idx: 1 }] + probe_chain(probes@.take(i as int)),
            decreases probes.len() - i,
        {
            proof {
                assert(probes@.take(i + 1).drop_last() =~= probes@.take(i as int));
                assert(probes@.take(i + 1).last() == probes@[i as int]);
            }
            let ghost before = ops(v@);
            append_code(&mut v, probe_code(probes[i]));
            assert(ops(v@) =~= seq![WasmOp::LocalSet { idx: 1 }] + probe_chain(
                probes@.take(i + 1),
            ));
            i += 1;
        }
        assert(probes@.take(i as int) =~= probes@);
        let tail = vec![WasmInst::LocalGet { idx: 1 }, WasmInst::I32WrapI64, WasmInst::Return];
        assert(ops(tail@) =~= seq![
            WasmOp::LocalGet { idx: 1 },
            WasmOp::I32WrapI64,
            WasmOp::Return,
        ]);
        append_code(&mut v, tail);
        v
    }
}

/// Is `x` an element of `v`?
pub fn contains_addr(v: &Vec<u64>, x: u64) -> (found: bool)
    ensures
        found == v@.contains(x),
{
    let mut i: usize = 0;
    while i < v.len()
        invariant
            i <= v.len(),
            forall|j: int| 0 <= j < i ==> v@[j] != x,
        decreases v.len() - i,
    {
        if v[i] == x {
            return true;
        }
        i += 1;
    }
    false
}

fn find_probes(rd: u32, successors: &Vec<u64>, known: &Vec<u64>) -> (found: Vec<u64>)
    ensures
        found@ == probes_of(rd, successors@, known@),
{
    let mut found: Vec<u64> = Vec::new();
    if rd == 0 {
        return found;
    }
    let mut i: usize = 0;
    proof {
        assert(successors@.skip(0) =~= successors@);
        assert(found@ + known_successors(successors@, known@, MAX_PROBES as nat)
            =~= known_successors(successors@, known@, MAX_PROBES as nat));
    }
    while i < successors.len() && found.len() < MAX_PROBES
        invariant
            i <= successors.len(),
            found.len() <= MAX_PROBES,
            known_successors(successors@, known@, MAX_PROBES as nat) == found@ + known_successors(
                successors@.skip(i as int),
                known@,
                (MAX_PROBES - found.len()) as nat,
            ),
        decreases successors.len() - i,
    {
        let s = successors[i];
        proof {
            assert(successors@.skip(i as int).drop_first() =~= successors@.skip(i + 1));
            assert(successors@.skip(i as int)[0] == s);
        }
        if contains_addr(known, s) {
            proof {
                let rest = known_successors(
                    successors@.skip(i + 1),
                    known@,
                    (MAX_PROBES - found.len() - 1) as nat,
                );
                assert(found@.push(s) + rest =~= found@ + (seq![s] + rest));
            }
            found.push(s);
        }
        i += 1;
    }
    proof {
        assert(known_successors(
            successors@.skip(i as int),
            known@,
            (MAX_PROBES - found.len()) as nat,
        ) =~= Seq::<u64>::empty());
        assert(found@ + Seq::<u64>::empty() =~= found@);
    }
    found
}

/// The code that ends a block whose last instruction is `inst`.
pub fn terminator_code(inst: &Instruction, end_addr: u64, successors: &Vec<u64>, ic_targets: &Vec<u64>) -> (code:
    Vec<WasmInst>)
    ensures
        ops(code@) == block_return(*inst, end_addr, successors@, ic_targets@),
{
    let rd: u32 = reg_of(inst.rd);
    let rs1: u32 = reg_of(inst.rs1);
    let rs2: u32 = reg_of(inst.rs2);
    let imm: i64 = imm_or_zero(inst.imm);
    let target: u64 = inst.addr.wrapping_add_signed(imm);
    let link_addr: u64 = inst.next_addr();
    match inst.opcode {
        Opcode::BEQ => branch_compare_code(rs1, rs2, target, end_addr, WasmInst::I64Eq),
        Opcode::BNE => branch_compare_code(rs1, rs2, target, end_addr, WasmInst::I64Ne),
        Opcode::BLT => branch_compare_code(rs1, rs2, target, end_addr, WasmInst::I64LtS),
        Opcode::BGE => branch_compare_code(rs1, rs2, target, end_addr, WasmInst::I64GeS),
        Opcode::BLTU => branch_compare_code(rs1, rs2, target, end_addr, WasmInst::I64LtU),
        Opcode::BGEU => branch_compare_code(rs1, rs2, target, end_addr, WasmInst::I64GeU),
        Opcode::C_BEQZ => branch_zero_code(rs1, target, end_addr, true),
        Opcode::C_BNEZ => branch_zero_code(rs1, target, end_addr, false),
        Opcode::JAL | Opcode::C_JAL => join(link_code(rd, link_addr), return_pc_code(target)),
        Opcode::C_J => return_pc_code(target),
        Opcode::JALR | Opcode::C_JALR => {
            let probes = find_probes(rd, successors, ic_targets);
            join(
                join(indirect_target_code(rs1, imm), link_code(rd, link_addr)),
                indirect_return_code(&probes),
            )
        },
        Opcode::C_JR => {
            let v = vec![get_base(), load_x(rs1), WasmInst::I32WrapI64, WasmInst::Return];
            assert(ops(v@) =~= seq![base(), xl(rs1), WasmOp::I32WrapI64, WasmOp::Return]);
            v
        },
        Opcode::ECALL => {
            let v = vec![
                WasmInst::I32Const { value: SYSCALL_TAG | (inst.addr as i32) },
                WasmInst::Return,
            ];
            assert(ops(v@) =~= seq![
                WasmOp::I32Const { value: SYSCALL_TAG | (inst.addr as i32) },
                WasmOp::Return,
            ]);
            v
        },
        Opcode::EBREAK | Opcode::C_EBREAK => {
            let v = vec![
                WasmInst::I32Const { value: BREAK_TAG | (inst.addr as i32) },
                WasmInst::Return,
            ];
            assert(ops(v@) =~= seq![
                WasmOp::I32Const { value: BREAK_TAG | (inst.addr as i32) },
                WasmOp::Return,
            ]);
            v
        },
        _ => return_pc_code(end_addr),
    }
}

/// Appends the return of the next PC for the terminator `inst` of `block`.
/// `ic_targets` holds the known block addresses, for the inline cache of an
/// indirect call.
pub fn add_terminator_return(
    inst: &Instruction,
    block: &BasicBlock,
    body: &mut Vec<WasmInst>,
    ic_targets: &Vec<u64>,
) -> (r: Result<(), CompileError>)
    ensures
        r is Ok,
        ops(final(body)@) == ops(old(body)@) + block_return(
            *inst,
            block.end_addr,
            block.successors@,
            ic_targets@,
        ),
{
    append_code(body, terminator_code(inst, block.end_addr, &block.successors, ic_targets));
    Ok(())
}


// ---------------------------------------------------------------------------
// A whole block
// ---------------------------------------------------------------------------

/// Number of scratch locals that every block function starts with.
pub const SCRATCH_LOCALS: u32 = 4;

/// Text of the annotation at the head of a block.
pub open spec fn block_note(addr: u64) -> Seq<char> {
    "Block 0x"@ + hex_text_padded(addr as nat, 8)
}

/// Text of the annotation in front of an instruction.
pub open spec fn inst_note(inst: Instruction) -> Seq<char> {
    "  "@ + hex_text_padded(inst.addr as nat, 8) + ": "@ + mnemonic_text(inst.opcode)
}

/// An annotation, which is emitted in debug mode only.
pub open spec fn noted(debug: bool, text: Seq<char>) -> Seq<WasmOp> {
    if debug {
        seq![WasmOp::Comment { text }]
    } else {
        Seq::<WasmOp>::empty()
    }
}

/// The code of a run of instructions, each behind its annotation.
pub open spec fn lowered_all(insts: Seq<Instruction>, debug: bool) -> Seq<WasmOp>
    decreases insts.len(),
{
    if insts.len() == 0 {
        Seq::<WasmOp>::empty()
    } else {
        lowered_all(insts.drop_last(), debug) + noted(debug, inst_note(insts.last())) + lowered(
            insts.last(),
        )
    }
}

/// The return of a block: that of its last instruction, or a fall through
/// to its end address if the block is empty.
pub open spec fn block_end(block: BasicBlock, known: Seq<u64>) -> Seq<WasmOp> {
    if block.instructions@.len() > 0 {
        block_return(block.instructions@.last(), block.end_addr, block.successors@, known)
    } else {
        return_pc(block.end_addr)
    }
}

/// The operations of the function made from a block.
pub open spec fn block_ops(block: BasicBlock, debug: bool, known: Seq<u64>) -> Seq<WasmOp> {
    noted(debug, block_note(block.start_addr)) + lowered_all(block.instructions@, debug)
        + block_end(block, known)
}

/// The exported name of the function made from the block at `addr`.
pub open spec fn block_name(addr: u64) -> Seq<char> {
    "block_"@ + hex_text(addr as nat)
}

fn note_code(debug: bool, text: String) -> (v: Vec<WasmInst>)
    ensures
        ops(v@) == noted(debug, text@),
{
    if debug {
        let v = vec![WasmInst::Comment { text }];
        assert(ops(v@) =~= noted(debug, text@));
        v
    } else {
        nothing()
    }
}

fn inst_note_text(inst: &Instruction) -> (s: String)
    ensures
        s@ == inst_note(*inst),
{
    let name = mnemonic(inst.opcode);
    let s = hex_name_padded("  ", inst.addr).concat(": ").concat(name.as_str());
    s
}

/// Translates a single basic block to a Wasm function. `ic_targets` holds
/// the known block addresses, for the inline cache of an indirect call.
pub fn translate_block(block: &BasicBlock, _func_idx: usize, debug: bool, ic_targets: &Vec<u64>) -> (r:
    Result<WasmFunction, CompileError>)
    ensures
        r is Ok,
        ops(r->Ok_0.body@) == block_ops(*block, debug, ic_targets@),
        r->Ok_0.name@ == block_name(block.start_addr),
        r->Ok_0.block_addr == block.start_addr,
        r->Ok_0.num_locals == SCRATCH_LOCALS,
{
    let mut body: Vec<WasmInst> = Vec::new();
    if debug {
        append_code(&mut body, note_code(debug, hex_name_padded("Block 0x", block.start_addr)));
    }
    let ghost head = noted(debug, block_note(block.start_addr));
    let ghost insts = block.instructions@;
    proof {
        assert(ops(body@) =~= head + lowered_all(insts.take(0), debug));
    }
    let mut i: usize = 0;
    while i < block.instructions.len()
        invariant
            i <= block.instructions.len(),
            insts == block.instructions@,
            ops(body@) == head + lowered_all(insts.take(i as int), debug),
        decreases block.instructions.len() - i,
    {
        let inst = &block.instructions[i];
        let ghost before = ops(body@);
        proof {
            assert(insts.take(i + 1).drop_last() =~= insts.take(i as int));
            assert(insts.take(i + 1).last() == insts[i as int]);
        }
        if debug {
            append_code(&mut body, note_code(debug, inst_note_text(inst)));
        }
        let _ = translate_instruction(inst, &mut body);
        proof {
            assert(ops(body@) =~= head + lowered_all(insts.take(i + 1), debug));
        }
        i += 1;
    }
    proof {
        assert(insts.take(i as int) =~= insts);
    }
    match block.terminator() {
        Some(term) => {
            let _ = add_terminator_return(term, block, &mut body, ic_targets);
        },
        None => {
            append_code(&mut body, return_pc_code(block.end_addr));
        },
    }
    Ok(
        WasmFunction {
            name: hex_name("block_", block.start_addr),
            block_addr: block.start_addr,
            body,
            num_locals: SCRATCH_LOCALS,
        },
    )
}

/// Does the block end in a direct jump, whose target is known when the
/// block is translated?
pub open spec fn ends_in_direct_jump(block: BasicBlock) -> bool {
    block.instructions@.len() > 0 && ({
        let op = block.instructions@.last().opcode;
        op == Opcode::JAL || op == Opcode::C_JAL || op == Opcode::C_J
    })
}

/// The code of a block ends by returning an i32: its last operation is
/// `return`. Where the block ends in a direct jump, what is returned is the
/// constant of the jump target.
pub proof fn lemma_block_returns_pc(block: BasicBlock, debug: bool, known: Seq<u64>)
    ensures
        ends_in_return(block_ops(block, debug, known)),
        ends_in_direct_jump(block) ==> returns_constant(
            block_ops(block, debug, known),
            block.instructions@.last().target_pc() as i32,
        ),
{
    let tail = block_end(block, known);
    if block.instructions@.len() > 0 {
        let inst = block.instructions@.last();
        let rd = reg(inst.rd);
        if inst.opcode == Opcode::JALR || inst.opcode == Opcode::C_JALR {
            let probes = probes_of(rd, block.successors@, known);
            assert(indirect_return(probes).len() >= 2);
            assert(indirect_return(probes).last() == WasmOp::Return);
        }
    }
    assert(tail.len() >= 2);
    assert(tail.last() == WasmOp::Return);
}

// ---------------------------------------------------------------------------
// A whole program
// ---------------------------------------------------------------------------

/// The end of the highest loaded segment; 0 without segments.
pub open spec fn extent(segments: Seq<Segment>) -> nat
    decreases segments.len(),
{
    if segments.len() == 0 {
        0
    } else {
        let rest = extent(segments.drop_last());
        let end = (segments.last().vaddr + segments.last().memsz) as nat;
        if end > rest {
            end
        } else {
            rest
        }
    }
}

/// Fewest pages that an ahead-of-time module asks for: 512 KiB.
pub const MIN_PAGES: u32 = 8;

/// The minimum memory size, in pages of 64 KiB, that covers the loaded
/// segments.
pub open spec fn memory_pages_for(segments: Seq<Segment>) -> u32 {
    let pages = ((extent(segments) + 0xFFFF) / 0x1_0000) as u32;
    if pages < MIN_PAGES {
        MIN_PAGES
    } else {
        pages
    }
}

fn pages_for(segments: &Vec<Segment>) -> (pages: u32)
    ensures
        pages == memory_pages_for(segments@),
{
    let mut max_addr: u128 = 0;
    let mut i: usize = 0;
    while i < segments.len()
        invariant
            i <= segments.len(),
            max_addr == extent(segments@.take(i as int)),
            max_addr <= 2 * 0xFFFF_FFFF_FFFF_FFFF,
        decreases segments.len() - i,
    {
        proof {
            assert(segments@.take(i + 1).drop_last() =~= segments@.take(i as int));
            assert(segments@.take(i + 1).last() == segments@[i as int]);
        }
        let end: u128 = segments[i].vaddr as u128 + segments[i].memsz as u128;
        if end > max_addr {
            max_addr = end;
        }
        i += 1;
    }
    proof {
        assert(segments@.take(i as int) =~= segments@);
    }
    let pages: u32 = ((max_addr + 0xFFFF) / 0x1_0000) as u32;
    if pages < MIN_PAGES {
        MIN_PAGES
    } else {
        pages
    }
}

/// Is `func` the function made from `block`: optimized, with the known
/// block addresses as inline-cache targets, or plain?
pub open spec fn translation_of(func: WasmFunction, block: BasicBlock, debug: bool, known: Seq<u64>, optimize: bool) -> bool {
    &&& func.block_addr == block.start_addr
    &&& func.name@ == block_name(block.start_addr)
    &&& if optimize {
        let plain = block_ops(block, debug, known);
        &&& ops(func.body@) == optimized(plain, SCRATCH_LOCALS).0
        &&& func.num_locals == optimized(plain, SCRATCH_LOCALS).1
    } else {
        &&& ops(func.body@) == block_ops(block, debug, known)
        &&& func.num_locals == SCRATCH_LOCALS
    }
}

/// Every block function ends by returning an i32, optimized or not; the
/// function of a block that ends in a direct jump returns the constant of
/// the jump target.
pub proof fn lemma_function_returns_pc(
    func: WasmFunction,
    block: BasicBlock,
    debug: bool,
    known: Seq<u64>,
    optimize: bool,
)
    requires
        translation_of(func, block, debug, known, optimize),
    ensures
        ends_in_return(ops(func.body@)),
        ends_in_direct_jump(block) ==> returns_constant(
            ops(func.body@),
            block.instructions@.last().target_pc() as i32,
        ),
{
    lemma_block_returns_pc(block, debug, known);
    if optimize {
        lemma_optimized_keeps_return(block_ops(block, debug, known), SCRATCH_LOCALS);
    }
}

/// Is the plain code of a block too long to optimize? The optimizer needs
/// room for one new local for each operation.
pub open spec fn oversized(block: BasicBlock, debug: bool, known: Seq<u64>) -> bool {
    SCRATCH_LOCALS + block_ops(block, debug, known).len() > u32::MAX
}

/// The functions of a module stand for the blocks of a graph: one function
/// for each block, in increasing order of block address, each indexed by
/// its block address.
pub open spec fn functions_of(
    functions: Seq<WasmFunction>,
    index: Map<u64, usize>,
    blocks: Map<u64, BasicBlock>,
    order: Seq<u64>,
    debug: bool,
    known: Seq<u64>,
    optimize: bool,
) -> bool {
    &&& functions.len() == order.len()
    &&& index.dom() == order.to_set()
    &&& forall|i: int|
        0 <= i < order.len() ==> blocks.contains_key(#[trigger] order[i]) && translation_of(
            functions[i],
            blocks[order[i]],
            debug,
            known,
            optimize,
        ) && index[order[i]] == i
}

/// Are `functions` and `index` what translation makes of the blocks of a
/// graph? In optimized translation the known block addresses are the
/// inline-cache targets.
pub open spec fn translated_blocks(
    functions: Seq<WasmFunction>,
    index: Map<u64, usize>,
    blocks: Map<u64, BasicBlock>,
    debug: bool,
    optimize: bool,
) -> bool {
    let order = ascending(blocks.dom());
    functions_of(
        functions,
        index,
        blocks,
        order,
        debug,
        if optimize {
            order
        } else {
            Seq::<u64>::empty()
        },
        optimize,
    )
}

/// Is some block of the graph too long to optimize?
pub open spec fn some_oversized(blocks: Map<u64, BasicBlock>, debug: bool) -> bool {
    exists|addr: u64|
        blocks.contains_key(addr) && oversized(blocks[addr], debug, ascending(blocks.dom()))
}

fn translate_blocks(cfg: &ControlFlowGraph, debug: bool, optimize: bool) -> (r: Result<
    (Vec<WasmFunction>, HashMap<u64, usize>),
    CompileError,
>)
    ensures
        r is Ok ==> translated_blocks(r->Ok_0.0@, r->Ok_0.1@, cfg.blocks@, debug, optimize),
        r is Ok && optimize ==> !some_oversized(cfg.blocks@, debug),
        r is Err ==> r->Err_0 == CompileError::ModuleTooLarge && optimize && some_oversized(
            cfg.blocks@,
            debug,
        ),
{
    let block_addrs = sorted_keys(&cfg.blocks);
    let no_targets: Vec<u64> = Vec::new();
    let ghost order = block_addrs@;
    let ghost known = if optimize {
        order
    } else {
        Seq::<u64>::empty()
    };
    let mut functions: Vec<WasmFunction> = Vec::new();
    let mut block_to_func: HashMap<u64, usize> = HashMap::new();
    let mut i: usize = 0;
    proof {
        crate::ordered::lemma_ascending(order, cfg.blocks@.dom());
        assert(order.take(0).to_set() =~= Set::<u64>::empty());
        assert(block_to_func@.dom() =~= Set::<u64>::empty());
    }
    while i < block_addrs.len()
        invariant
            i <= block_addrs.len(),
            order == block_addrs@,
            order == ascending(cfg.blocks@.dom()),
            known == (if optimize {
                order
            } else {
                Seq::<u64>::empty()
            }),
            no_targets@ == Seq::<u64>::empty(),
            lists(order, cfg.blocks@.dom()),
            functions_of(
                functions@,
                block_to_func@,
                cfg.blocks@,
                order.take(i as int),
                debug,
                known,
                optimize,
            ),
            optimize ==> forall|j: int|
                0 <= j < i ==> !oversized(cfg.blocks@[#[trigger] order[j]], debug, order),
        decreases block_addrs.len() - i,
    {
        let addr = block_addrs[i];
        proof {
            assert(order.to_set().contains(order[i as int]));
            assert(cfg.blocks@.contains_key(addr));
        }
        let found = cfg.blocks.get(&addr);
        let block = match found {
            Some(b) => b,
            None => {
                proof {
                    assert(false);
                }
                return Err(CompileError::ModuleTooLarge);
            },
        };
        let translated = translate_block(
            block,
            i,
            debug,
            if optimize {
                &block_addrs
            } else {
                &no_targets
            },
        );
        let mut func = match translated {
            Ok(f) => f,
            Err(e) => {
                return Err(e);
            },
        };
        if optimize {
            if func.body.len() > (u32::MAX - SCRATCH_LOCALS) as usize {
                proof {
                    assert(ops(func.body@).len() == func.body@.len());
                    assert(oversized(cfg.blocks@[addr], debug, order));
                }
                return Err(CompileError::ModuleTooLarge);
            }
            proof {
                assert(ops(func.body@).len() == func.body@.len());
            }
            optimize_function(&mut func);
        }
        let ghost old_functions = functions@;
        let ghost old_index = block_to_func@;
        block_to_func.insert(addr, functions.len());
        functions.push(func);
        proof {
            let prefix = order.take(i as int);
            let next = order.take(i + 1);
            assert(next =~= prefix.push(addr));
            lemma_push_to_set(prefix, addr);
            assert forall|j: int| 0 <= j < next.len() implies cfg.blocks@.contains_key(
                #[trigger] next[j],
            ) && translation_of(functions@[j], cfg.blocks@[next[j]], debug, known, optimize)
                && block_to_func@[next[j]] == j by {
                if j < i {
                    assert(next[j] == prefix[j]);
                    assert(order[j] < order[i as int]);
                    assert(functions@[j] == old_functions[j]);
                }
            }
        }
        i += 1;
    }
    proof {
        assert(order.take(i as int) =~= order);
        if optimize {
            assert forall|addr: u64| cfg.blocks@.contains_key(addr) implies !oversized(
                cfg.blocks@[addr],
                debug,
                order,
            ) by {
                assert(order.to_set().contains(addr));
                let j = choose|j: int| 0 <= j < order.len() && order[j] == addr;
                assert(!oversized(cfg.blocks@[order[j]], debug, order));
            }
        }
    }
    Ok((functions, block_to_func))
}

/// Is `module` the ahead-of-time translation of `cfg`? From optimization
/// level 2 on its functions are optimized and indirect calls have inline
/// caches; its minimum memory covers the loaded segments.
pub open spec fn translated(
    module: WasmModule,
    cfg: ControlFlowGraph,
    segments: Seq<Segment>,
    opt_level: u8,
    debug: bool,
) -> bool {
    &&& module.entry == cfg.entry
    &&& module.memory_pages == memory_pages_for(segments)
    &&& translated_blocks(
        module.functions@,
        module.block_to_func@,
        cfg.blocks@,
        debug,
        opt_level >= 2,
    )
}

/// Translates a control-flow graph to a Wasm module, ahead of time. It
/// fails only where a block is too long to optimize.
pub fn translate(cfg: &ControlFlowGraph, elf_info: &ElfInfo, opt_level: u8, debug: bool) -> (r: Result<
    WasmModule,
    CompileError,
>)
    ensures
        r is Err <==> opt_level >= 2 && some_oversized(cfg.blocks@, debug),
        r is Ok ==> translated(r->Ok_0, *cfg, elf_info.segments@, opt_level, debug),
        r is Err ==> r->Err_0 == CompileError::ModuleTooLarge,
{
    let memory_pages = pages_for(&elf_info.segments);
    match translate_blocks(cfg, debug, opt_level >= 2) {
        Ok((functions, block_to_func)) => Ok(
            WasmModule { functions, memory_pages, entry: cfg.entry, block_to_func },
        ),
        Err(e) => Err(e),
    }
}

/// Is `module` the run-time translation of `cfg`? Its functions are those
/// of optimized translation without annotations; it asks for no memory of
/// its own, since the host supplies it, and its entry is `base_addr`.
pub open spec fn translated_jit(module: WasmModule, cfg: ControlFlowGraph, base_addr: u64) -> bool {
    &&& module.entry == base_addr
    &&& module.memory_pages == 0
    &&& translated_blocks(module.functions@, module.block_to_func@, cfg.blocks@, false, true)
}

/// Translates a control-flow graph to a Wasm module at run time. It fails
/// only where a block is too long to optimize.
pub fn translate_jit(cfg: &ControlFlowGraph, base_addr: u64) -> (r: Result<WasmModule, CompileError>)
    ensures
        r is Err <==> some_oversized(cfg.blocks@, false),
        r is Ok ==> translated_jit(r->Ok_0, *cfg, base_addr),
        r is Err ==> r->Err_0 == CompileError::ModuleTooLarge,
{
    match translate_blocks(cfg, false, true) {
        Ok((functions, block_to_func)) => Ok(
            WasmModule { functions, memory_pages: 0, entry: base_addr, block_to_func },
        ),
        Err(e) => Err(e),
    }
}

} // verus!
