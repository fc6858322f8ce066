//! The trusted boundary to the `wasm-encoder` crate.
//!
//! Every function here makes one call into the encoder and states, as its
//! contract, which bytes that call appends. Nothing here is proved: the
//! contracts restate the encoder's source.

use vstd::prelude::*;

verus! {

/// A function body under construction: a `wasm_encoder::Function`.
#[verifier::external_body]
pub struct FunctionBody {
    inner: wasm_encoder::Function,
}

/// The bytes that a function body under construction holds: its local
/// declarations followed by the instructions written so far.
pub uninterp spec fn function_code(f: FunctionBody) -> Seq<u8>;

/// Unsigned LEB128: seven bits per byte, least significant group first, the
/// top bit set on every byte but the last.
pub open spec fn leb_unsigned(v: nat) -> Seq<u8>
    decreases v,
{
    if v < 128 {
        seq![v as u8]
    } else {
        seq![(v % 128 + 128) as u8] + leb_unsigned(v / 128)
    }
}

/// Signed LEB128: as the unsigned form on the two's-complement value, ending
/// with the first group whose bit 6 agrees with the sign of what is left.
pub open spec fn leb_signed(v: int) -> Seq<u8>
    decreases (if v >= 0 { v } else { -v }),
{
    if -64 <= v < 64 {
        seq![(v % 128) as u8]
    } else {
        seq![(v % 128 + 128) as u8] + leb_signed(v / 128)
    }
}

/// A memory instruction on memory 0: opcode, alignment exponent, offset.
pub open spec fn mem_code(opcode: u8, align: u32, offset: u32) -> Seq<u8> {
    seq![opcode] + leb_unsigned(align as nat) + leb_unsigned(offset as nat)
}

/// Each label of a list as unsigned LEB128, in order.
pub open spec fn label_codes(labels: Seq<u32>) -> Seq<u8>
    decreases labels.len(),
{
    if labels.len() == 0 {
        Seq::<u8>::empty()
    } else {
        leb_unsigned(labels[0] as nat) + label_codes(labels.drop_first())
    }
}

/// A `br_table`: opcode, label count, labels, default label.
pub open spec fn br_table_code(labels: Seq<u32>, default: u32) -> Seq<u8> {
    seq![0x0Eu8] + leb_unsigned(labels.len()) + label_codes(labels) + leb_unsigned(default as nat)
}

/// `Function::new` with one run of `count` locals of type i64: the body
/// starts with the number of runs (1), the run's length, and the type byte
/// 0x7E.
#[verifier::external_body]
pub(crate) fn new_function_i64(count: u32) -> (func: FunctionBody)
    ensures
        function_code(func) == leb_unsigned(1) + leb_unsigned(count as nat) + seq![0x7Eu8],
{
    FunctionBody { inner: wasm_encoder::Function::new(vec![(count, wasm_encoder::ValType::I64)]) }
}

/// `Function::new` with one run of `count` locals of type i32: the body
/// starts with the number of runs (1), the run's length, and the type byte
/// 0x7F.
#[verifier::external_body]
pub(crate) fn new_function_i32(count: u32) -> (func: FunctionBody)
    ensures
        function_code(func) == leb_unsigned(1) + leb_unsigned(count as nat) + seq![0x7Fu8],
{
    FunctionBody { inner: wasm_encoder::Function::new(vec![(count, wasm_encoder::ValType::I32)]) }
}

/// `Function::byte_len`: the number of bytes that the body holds.
#[verifier::external_body]
pub(crate) fn function_len(func: &FunctionBody) -> (n: usize)
    ensures
        n == function_code(*func).len(),
{
    func.inner.byte_len()
}

/// `Function::instruction` with `Instruction::Block`: appends the opcode byte 0x02 and the byte 0x40 of the empty block type.
#[verifier::external_body]
pub(crate) fn put_block(func: &mut FunctionBody)
    ensures
        function_code(*final(func)) == function_code(*old(func)) + seq![0x02u8, 0x40u8],
{
    func.inner.instruction(&wasm_encoder::Instruction::Block(wasm_encoder::BlockType::Empty));
}

/// `Function::instruction` with `Instruction::Loop`: appends the opcode byte 0x03 and the byte 0x40 of the empty block type.
#[verifier::external_body]
pub(crate) fn put_loop(func: &mut FunctionBody)
    ensures
        function_code(*final(func)) == function_code(*old(func)) + seq![0x03u8, 0x40u8],
{
    func.inner.instruction(&wasm_encoder::Instruction::Loop(wasm_encoder::BlockType::Empty));
}

/// `Function::instruction` with `Instruction::If`: appends the opcode byte 0x04 and the byte 0x40 of the empty block type.
#[verifier::external_body]
pub(crate) fn put_if(func: &mut FunctionBody)
    ensures
        function_code(*final(func)) == function_code(*old(func)) + seq![0x04u8, 0x40u8],
{
    func.inner.instruction(&wasm_encoder::Instruction::If(wasm_encoder::BlockType::Empty));
}

/// `Function::instruction` with `Instruction::End`: appends the opcode byte 0x0B.
#[verifier::external_body]
pub(crate) fn put_end(func: &mut FunctionBody)
    ensures
        function_code(*final(func)) == function_code(*old(func)) + seq![0x0Bu8],
{
    func.inner.instruction(&wasm_encoder::Instruction::End);
}

/// `Function::instruction` with `Instruction::Br`: appends the opcode byte 0x0C and the index as unsigned LEB128.
#[verifier::external_body]
pub(crate) fn put_br(func: &mut FunctionBody, index: u32)
    ensures
        function_code(*final(func)) == function_code(*old(func)) + seq![0x0Cu8] + leb_unsigned(index as nat),
{
    func.inner.instruction(&wasm_encoder::Instruction::Br(index));
}

/// `Function::instruction` with `Instruction::BrIf`: appends the opcode byte 0x0D and the index as unsigned LEB128.
#[verifier::external_body]
pub(crate) fn put_br_if(func: &mut FunctionBody, index: u32)
    ensures
        function_code(*final(func)) == function_code(*old(func)) + seq![0x0Du8] + leb_unsigned(index as nat),
{
    func.inner.instruction(&wasm_encoder::Instruction::BrIf(index));
}

/// `Function::instruction` with `Instruction::BrTable`: appends the opcode
/// byte 0x0E, the number of labels, each label, and the default label.
/// The encoder panics on more than `u32::MAX` labels.
#[verifier::external_body]
pub(crate) fn put_br_table(func: &mut FunctionBody, labels: &Vec<u32>, default: u32)
    requires
        labels@.len() <= u32::MAX,
    ensures
        function_code(*final(func)) == function_code(*old(func)) + br_table_code(labels@, default),
{
    func.inner.instruction(&wasm_encoder::Instruction::BrTable(labels.as_slice().into(), default));
}

/// `Function::instruction` with `Instruction::Return`: appends the opcode byte 0x0F.
#[verifier::external_body]
pub(crate) fn put_return(func: &mut FunctionBody)
    ensures
        function_code(*final(func)) == function_code(*old(func)) + seq![0x0Fu8],
{
    func.inner.instruction(&wasm_encoder::Instruction::Return);
}

/// `Function::instruction` with `Instruction::Call`: appends the opcode byte 0x10 and the index as unsigned LEB128.
#[verifier::external_body]
pub(crate) fn put_call(func: &mut FunctionBody, index: u32)
    ensures
        function_code(*final(func)) == function_code(*old(func)) + seq![0x10u8] + leb_unsigned(index as nat),
{
    func.inner.instruction(&wasm_encoder::Instruction::Call(index));
}

/// `Function::instruction` with `Instruction::CallIndirect`: appends the opcode byte 0x11, the type index and the table index.
#[verifier::external_body]
pub(crate) fn put_call_indirect(func: &mut FunctionBody, ty: u32, table: u32)
    ensures
        function_code(*final(func)) == function_code(*old(func)) + seq![0x11u8] + leb_unsigned(ty as nat) + leb_unsigned(table as nat),
{
    func.inner.instruction(&wasm_encoder::Instruction::CallIndirect { ty, table });
}

/// `Function::instruction` with `Instruction::LocalGet`: appends the opcode byte 0x20 and the index as unsigned LEB128.
#[verifier::external_body]
pub(crate) fn put_local_get(func: &mut FunctionBody, index: u32)
    ensures
        function_code(*final(func)) == function_code(*old(func)) + seq![0x20u8] + leb_unsigned(index as nat),
{
    func.inner.instruction(&wasm_encoder::Instruction::LocalGet(index));
}

/// `Function::instruction` with `Instruction::LocalSet`: appends the opcode byte 0x21 and the index as unsigned LEB128.
#[verifier::external_body]
pub(crate) fn put_local_set(func: &mut FunctionBody, index: u32)
    ensures
        function_code(*final(func)) == function_code(*old(func)) + seq![0x21u8] + leb_unsigned(index as nat),
{
    func.inner.instruction(&wasm_encoder::Instruction::LocalSet(index));
}

/// `Function::instruction` with `Instruction::LocalTee`: appends the opcode byte 0x22 and the index as unsigned LEB128.
#[verifier::external_body]
pub(crate) fn put_local_tee(func: &mut FunctionBody, index: u32)
    ensures
        function_code(*final(func)) == function_code(*old(func)) + seq![0x22u8] + leb_unsigned(index as nat),
{
    func.inner.instruction(&wasm_encoder::Instruction::LocalTee(index));
}

/// `Function::instruction` with `Instruction::I32Const`: appends the opcode byte 0x41 and the value as signed LEB128.
#[verifier::external_body]
pub(crate) fn put_i32_const(func: &mut FunctionBody, value: i32)
    ensures
        function_code(*final(func)) == function_code(*old(func)) + seq![0x41u8] + leb_signed(value as int),
{
    func.inner.instruction(&wasm_encoder::Instruction::I32Const(value));
}

/// `Function::instruction` with `Instruction::I64Const`: appends the opcode byte 0x42 and the value as signed LEB128.
#[verifier::external_body]
pub(crate) fn put_i64_const(func: &mut FunctionBody, value: i64)
    ensures
        function_code(*final(func)) == function_code(*old(func)) + seq![0x42u8] + leb_signed(value as int),
{
    func.inner.instruction(&wasm_encoder::Instruction::I64Const(value));
}

/// `Function::instruction` with `Instruction::I32Load`: appends the opcode byte 0x28, then the alignment exponent and the offset of a `MemArg` on memory 0.
#[verifier::external_body]
pub(crate) fn put_i32_load(func: &mut FunctionBody, offset: u32, align: u32)
    ensures
        function_code(*final(func)) == function_code(*old(func)) + mem_code(0x28u8, align, offset),
{
    func.inner.instruction(&wasm_encoder::Instruction::I32Load(wasm_encoder::MemArg { offset: offset as u64, align, memory_index: 0 }));
}

/// `Function::instruction` with `Instruction::I64Load`: appends the opcode byte 0x29, then the alignment exponent and the offset of a `MemArg` on memory 0.
#[verifier::external_body]
pub(crate) fn put_i64_load(func: &mut FunctionBody, offset: u32, align: u32)
    ensures
        function_code(*final(func)) == function_code(*old(func)) + mem_code(0x29u8, align, offset),
{
    func.inner.instruction(&wasm_encoder::Instruction::I64Load(wasm_encoder::MemArg { offset: offset as u64, align, memory_index: 0 }));
}

/// `Function::instruction` with `Instruction::I32Load8S`: appends the opcode byte 0x2C, then the alignment exponent and the offset of a `MemArg` on memory 0.
#[verifier::external_body]
pub(crate) fn put_i32_load8_s(func: &mut FunctionBody, offset: u32, align: u32)
    ensures
        function_code(*final(func)) == function_code(*old(func)) + mem_code(0x2Cu8, align, offset),
{
    func.inner.instruction(&wasm_encoder::Instruction::I32Load8S(wasm_encoder::MemArg { offset: offset as u64, align, memory_index: 0 }));
}

/// `Function::instruction` with `Instruction::I32Load8U`: appends the opcode byte 0x2D, then the alignment exponent and the offset of a `MemArg` on memory 0.
#[verifier::external_body]
pub(crate) fn put_i32_load8_u(func: &mut FunctionBody, offset: u32, align: u32)
    ensures
        function_code(*final(func)) == function_code(*old(func)) + mem_code(0x2Du8, align, offset),
{
    func.inner.instruction(&wasm_encoder::Instruction::I32Load8U(wasm_encoder::MemArg { offset: offset as u64, align, memory_index: 0 }));
}

/// `Function::instruction` with `Instruction::I32Load16S`: appends the opcode byte 0x2E, then the alignment exponent and the offset of a `MemArg` on memory 0.
#[verifier::external_body]
pub(crate) fn put_i32_load16_s(func: &mut FunctionBody, offset: u32, align: u32)
    ensures
        function_code(*final(func)) == function_code(*old(func)) + mem_code(0x2Eu8, align, offset),
{
    func.inner.instruction(&wasm_encoder::Instruction::I32Load16S(wasm_encoder::MemArg { offset: offset as u64, align, memory_index: 0 }));
}

/// `Function::instruction` with `Instruction::I32Load16U`: appends the opcode byte 0x2F, then the alignment exponent and the offset of a `MemArg` on memory 0.
#[verifier::external_body]
pub(crate) fn put_i32_load16_u(func: &mut FunctionBody, offset: u32, align: u32)
    ensures
        function_code(*final(func)) == function_code(*old(func)) + mem_code(0x2Fu8, align, offset),
{
    func.inner.instruction(&wasm_encoder::Instruction::I32Load16U(wasm_encoder::MemArg { offset: offset as u64, align, memory_index: 0 }));
}

/// `Function::instruction` with `Instruction::I64Load8S`: appends the opcode byte 0x30, then the alignment exponent and the offset of a `MemArg` on memory 0.
#[verifier::external_body]
pub(crate) fn put_i64_load8_s(func: &mut FunctionBody, offset: u32, align: u32)
    ensures
        function_code(*final(func)) == function_code(*old(func)) + mem_code(0x30u8, align, offset),
{
    func.inner.instruction(&wasm_encoder::Instruction::I64Load8S(wasm_encoder::MemArg { offset: offset as u64, align, memory_index: 0 }));
}

/// `Function::instruction` with `Instruction::I64Load8U`: appends the opcode byte 0x31, then the alignment exponent and the offset of a `MemArg` on memory 0.
#[verifier::external_body]
pub(crate) fn put_i64_load8_u(func: &mut FunctionBody, offset: u32, align: u32)
    ensures
        function_code(*final(func)) == function_code(*old(func)) + mem_code(0x31u8, align, offset),
{
    func.inner.instruction(&wasm_encoder::Instruction::I64Load8U(wasm_encoder::MemArg { offset: offset as u64, align, memory_index: 0 }));
}

/// `Function::instruction` with `Instruction::I64Load16S`: appends the opcode byte 0x32, then the alignment exponent and the offset of a `MemArg` on memory 0.
#[verifier::external_body]
pub(crate) fn put_i64_load16_s(func: &mut FunctionBody, offset: u32, align: u32)
    ensures
        function_code(*final(func)) == function_code(*old(func)) + mem_code(0x32u8, align, offset),
{
    func.inner.instruction(&wasm_encoder::Instruction::I64Load16S(wasm_encoder::MemArg { offset: offset as u64, align, memory_index: 0 }));
}

/// `Function::instruction` with `Instruction::I64Load16U`: appends the opcode byte 0x33, then the alignment exponent and the offset of a `MemArg` on memory 0.
#[verifier::external_body]
pub(crate) fn put_i64_load16_u(func: &mut FunctionBody, offset: u32, align: u32)
    ensures
        function_code(*final(func)) == function_code(*old(func)) + mem_code(0x33u8, align, offset),
{
    func.inner.instruction(&wasm_encoder::Instruction::I64Load16U(wasm_encoder::MemArg { offset: offset as u64, align, memory_index: 0 }));
}

/// `Function::instruction` with `Instruction::I64Load32S`: appends the opcode byte 0x34, then the alignment exponent and the offset of a `MemArg` on memory 0.
#[verifier::external_body]
pub(crate) fn put_i64_load32_s(func: &mut FunctionBody, offset: u32, align: u32)
    ensures
        function_code(*final(func)) == function_code(*old(func)) + mem_code(0x34u8, align, offset),
{
    func.inner.instruction(&wasm_encoder::Instruction::I64Load32S(wasm_encoder::MemArg { offset: offset as u64, align, memory_index: 0 }));
}

/// `Function::instruction` with `Instruction::I64Load32U`: appends the opcode byte 0x35, then the alignment exponent and the offset of a `MemArg` on memory 0.
#[verifier::external_body]
pub(crate) fn put_i64_load32_u(func: &mut FunctionBody, offset: u32, align: u32)
    ensures
        function_code(*final(func)) == function_code(*old(func)) + mem_code(0x35u8, align, offset),
{
    func.inner.instruction(&wasm_encoder::Instruction::I64Load32U(wasm_encoder::MemArg { offset: offset as u64, align, memory_index: 0 }));
}

/// `Function::instruction` with `Instruction::I32Store`: appends the opcode byte 0x36, then the alignment exponent and the offset of a `MemArg` on memory 0.
#[verifier::external_body]
pub(crate) fn put_i32_store(func: &mut FunctionBody, offset: u32, align: u32)
    ensures
        function_code(*final(func)) == function_code(*old(func)) + mem_code(0x36u8, align, offset),
{
    func.inner.instruction(&wasm_encoder::Instruction::I32Store(wasm_encoder::MemArg { offset: offset as u64, align, memory_index: 0 }));
}

/// `Function::instruction` with `Instruction::I64Store`: appends the opcode byte 0x37, then the alignment exponent and the offset of a `MemArg` on memory 0.
#[verifier::external_body]
pub(crate) fn put_i64_store(func: &mut FunctionBody, offset: u32, align: u32)
    ensures
        function_code(*final(func)) == function_code(*old(func)) + mem_code(0x37u8, align, offset),
{
    func.inner.instruction(&wasm_encoder::Instruction::I64Store(wasm_encoder::MemArg { offset: offset as u64, align, memory_index: 0 }));
}

/// `Function::instruction` with `Instruction::I32Store8`: appends the opcode byte 0x3A, then the alignment exponent and the offset of a `MemArg` on memory 0.
#[verifier::external_body]
pub(crate) fn put_i32_store8(func: &mut FunctionBody, offset: u32, align: u32)
    ensures
        function_code(*final(func)) == function_code(*old(func)) + mem_code(0x3Au8, align, offset),
{
    func.inner.instruction(&wasm_encoder::Instruction::I32Store8(wasm_encoder::MemArg { offset: offset as u64, align, memory_index: 0 }));
}

/// `Function::instruction` with `Instruction::I32Store16`: appends the opcode byte 0x3B, then the alignment exponent and the offset of a `MemArg` on memory 0.
#[verifier::external_body]
pub(crate) fn put_i32_store16(func: &mut FunctionBody, offset: u32, align: u32)
    ensures
        function_code(*final(func)) == function_code(*old(func)) + mem_code(0x3Bu8, align, offset),
{
    func.inner.instruction(&wasm_encoder::Instruction::I32Store16(wasm_encoder::MemArg { offset: offset as u64, align, memory_index: 0 }));
}

/// `Function::instruction` with `Instruction::I64Store8`: appends the opcode byte 0x3C, then the alignment exponent and the offset of a `MemArg` on memory 0.
#[verifier::external_body]
pub(crate) fn put_i64_store8(func: &mut FunctionBody, offset: u32, align: u32)
    ensures
        function_code(*final(func)) == function_code(*old(func)) + mem_code(0x3Cu8, align, offset),
{
    func.inner.instruction(&wasm_encoder::Instruction::I64Store8(wasm_encoder::MemArg { offset: offset as u64, align, memory_index: 0 }));
}

/// `Function::instruction` with `Instruction::I64Store16`: appends the opcode byte 0x3D, then the alignment exponent and the offset of a `MemArg` on memory 0.
#[verifier::external_body]
pub(crate) fn put_i64_store16(func: &mut FunctionBody, offset: u32, align: u32)
    ensures
        function_code(*final(func)) == function_code(*old(func)) + mem_code(0x3Du8, align, offset),
{
    func.inner.instruction(&wasm_encoder::Instruction::I64Store16(wasm_encoder::MemArg { offset: offset as u64, align, memory_index: 0 }));
}

/// `Function::instruction` with `Instruction::I64Store32`: appends the opcode byte 0x3E, then the alignment exponent and the offset of a `MemArg` on memory 0.
#[verifier::external_body]
pub(crate) fn put_i64_store32(func: &mut FunctionBody, offset: u32, align: u32)
    ensures
        function_code(*final(func)) == function_code(*old(func)) + mem_code(0x3Eu8, align, offset),
{
    func.inner.instruction(&wasm_encoder::Instruction::I64Store32(wasm_encoder::MemArg { offset: offset as u64, align, memory_index: 0 }));
}

/// `Function::instruction` with `Instruction::I64Add`: appends the opcode byte 0x7C.
#[verifier::external_body]
pub(crate) fn put_i64_add(func: &mut FunctionBody)
    ensures
        function_code(*final(func)) == function_code(*old(func)) + seq![0x7Cu8],
{
    func.inner.instruction(&wasm_encoder::Instruction::I64Add);
}

/// `Function::instruction` with `Instruction::I64Sub`: appends the opcode byte 0x7D.
#[verifier::external_body]
pub(crate) fn put_i64_sub(func: &mut FunctionBody)
    ensures
        function_code(*final(func)) == function_code(*old(func)) + seq![0x7Du8],
{
    func.inner.instruction(&wasm_encoder::Instruction::I64Sub);
}

/// `Function::instruction` with `Instruction::I64Mul`: appends the opcode byte 0x7E.
#[verifier::external_body]
pub(crate) fn put_i64_mul(func: &mut FunctionBody)
    ensures
        function_code(*final(func)) == function_code(*old(func)) + seq![0x7Eu8],
{
    func.inner.instruction(&wasm_encoder::Instruction::I64Mul);
}

/// `Function::instruction` with `Instruction::I64DivS`: appends the opcode byte 0x7F.
#[verifier::external_body]
pub(crate) fn put_i64_div_s(func: &mut FunctionBody)
    ensures
        function_code(*final(func)) == function_code(*old(func)) + seq![0x7Fu8],
{
    func.inner.instruction(&wasm_encoder::Instruction::I64DivS);
}

/// `Function::instruction` with `Instruction::I64DivU`: appends the opcode byte 0x80.
#[verifier::external_body]
pub(crate) fn put_i64_div_u(func: &mut FunctionBody)
    ensures
        function_code(*final(func)) == function_code(*old(func)) + seq![0x80u8],
{
    func.inner.instruction(&wasm_encoder::Instruction::I64DivU);
}

/// `Function::instruction` with `Instruction::I64RemS`: appends the opcode byte 0x81.
#[verifier::external_body]
pub(crate) fn put_i64_rem_s(func: &mut FunctionBody)
    ensures
        function_code(*final(func)) == function_code(*old(func)) + seq![0x81u8],
{
    func.inner.instruction(&wasm_encoder::Instruction::I64RemS);
}

/// `Function::instruction` with `Instruction::I64RemU`: appends the opcode byte 0x82.
#[verifier::external_body]
pub(crate) fn put_i64_rem_u(func: &mut FunctionBody)
    ensures
        function_code(*final(func)) == function_code(*old(func)) + seq![0x82u8],
{
    func.inner.instruction(&wasm_encoder::Instruction::I64RemU);
}

/// `Function::instruction` with `Instruction::I64And`: appends the opcode byte 0x83.
#[verifier::external_body]
pub(crate) fn put_i64_and(func: &mut FunctionBody)
    ensures
        function_code(*final(func)) == function_code(*old(func)) + seq![0x83u8],
{
    func.inner.instruction(&wasm_encoder::Instruction::I64And);
}

/// `Function::instruction` with `Instruction::I64Or`: appends the opcode byte 0x84.
#[verifier::external_body]
pub(crate) fn put_i64_or(func: &mut FunctionBody)
    ensures
        function_code(*final(func)) == function_code(*old(func)) + seq![0x84u8],
{
    func.inner.instruction(&wasm_encoder::Instruction::I64Or);
}

/// `Function::instruction` with `Instruction::I64Xor`: appends the opcode byte 0x85.
#[verifier::external_body]
pub(crate) fn put_i64_xor(func: &mut FunctionBody)
    ensures
        function_code(*final(func)) == function_code(*old(func)) + seq![0x85u8],
{
    func.inner.instruction(&wasm_encoder::Instruction::I64Xor);
}

/// `Function::instruction` with `Instruction::I64Shl`: appends the opcode byte 0x86.
#[verifier::external_body]
pub(crate) fn put_i64_shl(func: &mut FunctionBody)
    ensures
        function_code(*final(func)) == function_code(*old(func)) + seq![0x86u8],
{
    func.inner.instruction(&wasm_encoder::Instruction::I64Shl);
}

/// `Function::instruction` with `Instruction::I64ShrS`: appends the opcode byte 0x87.
#[verifier::external_body]
pub(crate) fn put_i64_shr_s(func: &mut FunctionBody)
    ensures
        function_code(*final(func)) == function_code(*old(func)) + seq![0x87u8],
{
    func.inner.instruction(&wasm_encoder::Instruction::I64ShrS);
}

/// `Function::instruction` with `Instruction::I64ShrU`: appends the opcode byte 0x88.
#[verifier::external_body]
pub(crate) fn put_i64_shr_u(func: &mut FunctionBody)
    ensures
        function_code(*final(func)) == function_code(*old(func)) + seq![0x88u8],
{
    func.inner.instruction(&wasm_encoder::Instruction::I64ShrU);
}

/// `Function::instruction` with `Instruction::I64Rotl`: appends the opcode byte 0x89.
#[verifier::external_body]
pub(crate) fn put_i64_rotl(func: &mut FunctionBody)
    ensures
        function_code(*final(func)) == function_code(*old(func)) + seq![0x89u8],
{
    func.inner.instruction(&wasm_encoder::Instruction::I64Rotl);
}

/// `Function::instruction` with `Instruction::I64Rotr`: appends the opcode byte 0x8A.
#[verifier::external_body]
pub(crate) fn put_i64_rotr(func: &mut FunctionBody)
    ensures
        function_code(*final(func)) == function_code(*old(func)) + seq![0x8Au8],
{
    func.inner.instruction(&wasm_encoder::Instruction::I64Rotr);
}

/// `Function::instruction` with `Instruction::I64Clz`: appends the opcode byte 0x79.
#[verifier::external_body]
pub(crate) fn put_i64_clz(func: &mut FunctionBody)
    ensures
        function_code(*final(func)) == function_code(*old(func)) + seq![0x79u8],
{
    func.inner.instruction(&wasm_encoder::Instruction::I64Clz);
}

/// `Function::instruction` with `Instruction::I64Ctz`: appends the opcode byte 0x7A.
#[verifier::external_body]
pub(crate) fn put_i64_ctz(func: &mut FunctionBody)
    ensures
        function_code(*final(func)) == function_code(*old(func)) + seq![0x7Au8],
{
    func.inner.instruction(&wasm_encoder::Instruction::I64Ctz);
}

/// `Function::instruction` with `Instruction::I64Popcnt`: appends the opcode byte 0x7B.
#[verifier::external_body]
pub(crate) fn put_i64_popcnt(func: &mut FunctionBody)
    ensures
        function_code(*final(func)) == function_code(*old(func)) + seq![0x7Bu8],
{
    func.inner.instruction(&wasm_encoder::Instruction::I64Popcnt);
}

/// `Function::instruction` with `Instruction::I64Eqz`: appends the opcode byte 0x50.
#[verifier::external_body]
pub(crate) fn put_i64_eqz(func: &mut FunctionBody)
    ensures
        function_code(*final(func)) == function_code(*old(func)) + seq![0x50u8],
{
    func.inner.instruction(&wasm_encoder::Instruction::I64Eqz);
}

/// `Function::instruction` with `Instruction::I64Eq`: appends the opcode byte 0x51.
#[verifier::external_body]
pub(crate) fn put_i64_eq(func: &mut FunctionBody)
    ensures
        function_code(*final(func)) == function_code(*old(func)) + seq![0x51u8],
{
    func.inner.instruction(&wasm_encoder::Instruction::I64Eq);
}

/// `Function::instruction` with `Instruction::I64Ne`: appends the opcode byte 0x52.
#[verifier::external_body]
pub(crate) fn put_i64_ne(func: &mut FunctionBody)
    ensures
        function_code(*final(func)) == function_code(*old(func)) + seq![0x52u8],
{
    func.inner.instruction(&wasm_encoder::Instruction::I64Ne);
}

/// `Function::instruction` with `Instruction::I64LtS`: appends the opcode byte 0x53.
#[verifier::external_body]
pub(crate) fn put_i64_lt_s(func: &mut FunctionBody)
    ensures
        function_code(*final(func)) == function_code(*old(func)) + seq![0x53u8],
{
    func.inner.instruction(&wasm_encoder::Instruction::I64LtS);
}

/// `Function::instruction` with `Instruction::I64LtU`: appends the opcode byte 0x54.
#[verifier::external_body]
pub(crate) fn put_i64_lt_u(func: &mut FunctionBody)
    ensures
        function_code(*final(func)) == function_code(*old(func)) + seq![0x54u8],
{
    func.inner.instruction(&wasm_encoder::Instruction::I64LtU);
}

/// `Function::instruction` with `Instruction::I64GtS`: appends the opcode byte 0x55.
#[verifier::external_body]
pub(crate) fn put_i64_gt_s(func: &mut FunctionBody)
    ensures
        function_code(*final(func)) == function_code(*old(func)) + seq![0x55u8],
{
    func.inner.instruction(&wasm_encoder::Instruction::I64GtS);
}

/// `Function::instruction` with `Instruction::I64GtU`: appends the opcode byte 0x56.
#[verifier::external_body]
pub(crate) fn put_i64_gt_u(func: &mut FunctionBody)
    ensures
        function_code(*final(func)) == function_code(*old(func)) + seq![0x56u8],
{
    func.inner.instruction(&wasm_encoder::Instruction::I64GtU);
}

/// `Function::instruction` with `Instruction::I64LeS`: appends the opcode byte 0x57.
#[verifier::external_body]
pub(crate) fn put_i64_le_s(func: &mut FunctionBody)
    ensures
        function_code(*final(func)) == function_code(*old(func)) + seq![0x57u8],
{
    func.inner.instruction(&wasm_encoder::Instruction::I64LeS);
}

/// `Function::instruction` with `Instruction::I64LeU`: appends the opcode byte 0x58.
#[verifier::external_body]
pub(crate) fn put_i64_le_u(func: &mut FunctionBody)
    ensures
        function_code(*final(func)) == function_code(*old(func)) + seq![0x58u8],
{
    func.inner.instruction(&wasm_encoder::Instruction::I64LeU);
}

/// `Function::instruction` with `Instruction::I64GeS`: appends the opcode byte 0x59.
#[verifier::external_body]
pub(crate) fn put_i64_ge_s(func: &mut FunctionBody)
    ensures
        function_code(*final(func)) == function_code(*old(func)) + seq![0x59u8],
{
    func.inner.instruction(&wasm_encoder::Instruction::I64GeS);
}

/// `Function::instruction` with `Instruction::I64GeU`: appends the opcode byte 0x5A.
#[verifier::external_body]
pub(crate) fn put_i64_ge_u(func: &mut FunctionBody)
    ensures
        function_code(*final(func)) == function_code(*old(func)) + seq![0x5Au8],
{
    func.inner.instruction(&wasm_encoder::Instruction::I64GeU);
}

/// `Function::instruction` with `Instruction::I32Add`: appends the opcode byte 0x6A.
#[verifier::external_body]
pub(crate) fn put_i32_add(func: &mut FunctionBody)
    ensures
        function_code(*final(func)) == function_code(*old(func)) + seq![0x6Au8],
{
    func.inner.instruction(&wasm_encoder::Instruction::I32Add);
}

/// `Function::instruction` with `Instruction::I32Sub`: appends the opcode byte 0x6B.
#[verifier::external_body]
pub(crate) fn put_i32_sub(func: &mut FunctionBody)
    ensures
        function_code(*final(func)) == function_code(*old(func)) + seq![0x6Bu8],
{
    func.inner.instruction(&wasm_encoder::Instruction::I32Sub);
}

/// `Function::instruction` with `Instruction::I32Mul`: appends the opcode byte 0x6C.
#[verifier::external_body]
pub(crate) fn put_i32_mul(func: &mut FunctionBody)
    ensures
        function_code(*final(func)) == function_code(*old(func)) + seq![0x6Cu8],
{
    func.inner.instruction(&wasm_encoder::Instruction::I32Mul);
}

/// `Function::instruction` with `Instruction::I32DivS`: appends the opcode byte 0x6D.
#[verifier::external_body]
pub(crate) fn put_i32_div_s(func: &mut FunctionBody)
    ensures
        function_code(*final(func)) == function_code(*old(func)) + seq![0x6Du8],
{
    func.inner.instruction(&wasm_encoder::Instruction::I32DivS);
}

/// `Function::instruction` with `Instruction::I32DivU`: appends the opcode byte 0x6E.
#[verifier::external_body]
pub(crate) fn put_i32_div_u(func: &mut FunctionBody)
    ensures
        function_code(*final(func)) == function_code(*old(func)) + seq![0x6Eu8],
{
    func.inner.instruction(&wasm_encoder::Instruction::I32DivU);
}

/// `Function::instruction` with `Instruction::I32RemS`: appends the opcode byte 0x6F.
#[verifier::external_body]
pub(crate) fn put_i32_rem_s(func: &mut FunctionBody)
    ensures
        function_code(*final(func)) == function_code(*old(func)) + seq![0x6Fu8],
{
    func.inner.instruction(&wasm_encoder::Instruction::I32RemS);
}

/// `Function::instruction` with `Instruction::I32RemU`: appends the opcode byte 0x70.
#[verifier::external_body]
pub(crate) fn put_i32_rem_u(func: &mut FunctionBody)
    ensures
        function_code(*final(func)) == function_code(*old(func)) + seq![0x70u8],
{
    func.inner.instruction(&wasm_encoder::Instruction::I32RemU);
}

/// `Function::instruction` with `Instruction::I32And`: appends the opcode byte 0x71.
#[verifier::external_body]
pub(crate) fn put_i32_and(func: &mut FunctionBody)
    ensures
        function_code(*final(func)) == function_code(*old(func)) + seq![0x71u8],
{
    func.inner.instruction(&wasm_encoder::Instruction::I32And);
}

/// `Function::instruction` with `Instruction::I32Or`: appends the opcode byte 0x72.
#[verifier::external_body]
pub(crate) fn put_i32_or(func: &mut FunctionBody)
    ensures
        function_code(*final(func)) == function_code(*old(func)) + seq![0x72u8],
{
    func.inner.instruction(&wasm_encoder::Instruction::I32Or);
}

/// `Function::instruction` with `Instruction::I32Xor`: appends the opcode byte 0x73.
#[verifier::external_body]
pub(crate) fn put_i32_xor(func: &mut FunctionBody)
    ensures
        function_code(*final(func)) == function_code(*old(func)) + seq![0x73u8],
{
    func.inner.instruction(&wasm_encoder::Instruction::I32Xor);
}

/// `Function::instruction` with `Instruction::I32Shl`: appends the opcode byte 0x74.
#[verifier::external_body]
pub(crate) fn put_i32_shl(func: &mut FunctionBody)
    ensures
        function_code(*final(func)) == function_code(*old(func)) + seq![0x74u8],
{
    func.inner.instruction(&wasm_encoder::Instruction::I32Shl);
}

/// `Function::instruction` with `Instruction::I32ShrS`: appends the opcode byte 0x75.
#[verifier::external_body]
pub(crate) fn put_i32_shr_s(func: &mut FunctionBody)
    ensures
        function_code(*final(func)) == function_code(*old(func)) + seq![0x75u8],
{
    func.inner.instruction(&wasm_encoder::Instruction::I32ShrS);
}

/// `Function::instruction` with `Instruction::I32ShrU`: appends the opcode byte 0x76.
#[verifier::external_body]
pub(crate) fn put_i32_shr_u(func: &mut FunctionBody)
    ensures
        function_code(*final(func)) == function_code(*old(func)) + seq![0x76u8],
{
    func.inner.instruction(&wasm_encoder::Instruction::I32ShrU);
}

/// `Function::instruction` with `Instruction::I32Eqz`: appends the opcode byte 0x45.
#[verifier::external_body]
pub(crate) fn put_i32_eqz(func: &mut FunctionBody)
    ensures
        function_code(*final(func)) == function_code(*old(func)) + seq![0x45u8],
{
    func.inner.instruction(&wasm_encoder::Instruction::I32Eqz);
}

/// `Function::instruction` with `Instruction::I32Eq`: appends the opcode byte 0x46.
#[verifier::external_body]
pub(crate) fn put_i32_eq(func: &mut FunctionBody)
    ensures
        function_code(*final(func)) == function_code(*old(func)) + seq![0x46u8],
{
    func.inner.instruction(&wasm_encoder::Instruction::I32Eq);
}

/// `Function::instruction` with `Instruction::I32Ne`: appends the opcode byte 0x47.
#[verifier::external_body]
pub(crate) fn put_i32_ne(func: &mut FunctionBody)
    ensures
        function_code(*final(func)) == function_code(*old(func)) + seq![0x47u8],
{
    func.inner.instruction(&wasm_encoder::Instruction::I32Ne);
}

/// `Function::instruction` with `Instruction::I32LtS`: appends the opcode byte 0x48.
#[verifier::external_body]
pub(crate) fn put_i32_lt_s(func: &mut FunctionBody)
    ensures
        function_code(*final(func)) == function_code(*old(func)) + seq![0x48u8],
{
    func.inner.instruction(&wasm_encoder::Instruction::I32LtS);
}

/// `Function::instruction` with `Instruction::I32LtU`: appends the opcode byte 0x49.
#[verifier::external_body]
pub(crate) fn put_i32_lt_u(func: &mut FunctionBody)
    ensures
        function_code(*final(func)) == function_code(*old(func)) + seq![0x49u8],
{
    func.inner.instruction(&wasm_encoder::Instruction::I32LtU);
}

/// `Function::instruction` with `Instruction::I32GtS`: appends the opcode byte 0x4A.
#[verifier::external_body]
pub(crate) fn put_i32_gt_s(func: &mut FunctionBody)
    ensures
        function_code(*final(func)) == function_code(*old(func)) + seq![0x4Au8],
{
    func.inner.instruction(&wasm_encoder::Instruction::I32GtS);
}

/// `Function::instruction` with `Instruction::I32GtU`: appends the opcode byte 0x4B.
#[verifier::external_body]
pub(crate) fn put_i32_gt_u(func: &mut FunctionBody)
    ensures
        function_code(*final(func)) == function_code(*old(func)) + seq![0x4Bu8],
{
    func.inner.instruction(&wasm_encoder::Instruction::I32GtU);
}

/// `Function::instruction` with `Instruction::I32LeS`: appends the opcode byte 0x4C.
#[verifier::external_body]
pub(crate) fn put_i32_le_s(func: &mut FunctionBody)
    ensures
        function_code(*final(func)) == function_code(*old(func)) + seq![0x4Cu8],
{
    func.inner.instruction(&wasm_encoder::Instruction::I32LeS);
}

/// `Function::instruction` with `Instruction::I32LeU`: appends the opcode byte 0x4D.
#[verifier::external_body]
pub(crate) fn put_i32_le_u(func: &mut FunctionBody)
    ensures
        function_code(*final(func)) == function_code(*old(func)) + seq![0x4Du8],
{
    func.inner.instruction(&wasm_encoder::Instruction::I32LeU);
}

/// `Function::instruction` with `Instruction::I32GeS`: appends the opcode byte 0x4E.
#[verifier::external_body]
pub(crate) fn put_i32_ge_s(func: &mut FunctionBody)
    ensures
        function_code(*final(func)) == function_code(*old(func)) + seq![0x4Eu8],
{
    func.inner.instruction(&wasm_encoder::Instruction::I32GeS);
}

/// `Function::instruction` with `Instruction::I32GeU`: appends the opcode byte 0x4F.
#[verifier::external_body]
pub(crate) fn put_i32_ge_u(func: &mut FunctionBody)
    ensures
        function_code(*final(func)) == function_code(*old(func)) + seq![0x4Fu8],
{
    func.inner.instruction(&wasm_encoder::Instruction::I32GeU);
}

/// `Function::instruction` with `Instruction::I32WrapI64`: appends the opcode byte 0xA7.
#[verifier::external_body]
pub(crate) fn put_i32_wrap_i64(func: &mut FunctionBody)
    ensures
        function_code(*final(func)) == function_code(*old(func)) + seq![0xA7u8],
{
    func.inner.instruction(&wasm_encoder::Instruction::I32WrapI64);
}

/// `Function::instruction` with `Instruction::I64ExtendI32S`: appends the opcode byte 0xAC.
#[verifier::external_body]
pub(crate) fn put_i64_extend_i32_s(func: &mut FunctionBody)
    ensures
        function_code(*final(func)) == function_code(*old(func)) + seq![0xACu8],
{
    func.inner.instruction(&wasm_encoder::Instruction::I64ExtendI32S);
}

/// `Function::instruction` with `Instruction::I64ExtendI32U`: appends the opcode byte 0xAD.
#[verifier::external_body]
pub(crate) fn put_i64_extend_i32_u(func: &mut FunctionBody)
    ensures
        function_code(*final(func)) == function_code(*old(func)) + seq![0xADu8],
{
    func.inner.instruction(&wasm_encoder::Instruction::I64ExtendI32U);
}

/// `Function::instruction` with `Instruction::F32Load`: appends the opcode byte 0x2A, then the alignment exponent and the offset of a `MemArg` on memory 0.
#[verifier::external_body]
pub(crate) fn put_f32_load(func: &mut FunctionBody, offset: u32, align: u32)
    ensures
        function_code(*final(func)) == function_code(*old(func)) + mem_code(0x2Au8, align, offset),
{
    func.inner.instruction(&wasm_encoder::Instruction::F32Load(wasm_encoder::MemArg { offset: offset as u64, align, memory_index: 0 }));
}

/// `Function::instruction` with `Instruction::F32Store`: appends the opcode byte 0x38, then the alignment exponent and the offset of a `MemArg` on memory 0.
#[verifier::external_body]
pub(crate) fn put_f32_store(func: &mut FunctionBody, offset: u32, align: u32)
    ensures
        function_code(*final(func)) == function_code(*old(func)) + mem_code(0x38u8, align, offset),
{
    func.inner.instruction(&wasm_encoder::Instruction::F32Store(wasm_encoder::MemArg { offset: offset as u64, align, memory_index: 0 }));
}

/// `Function::instruction` with `Instruction::F32Add`: appends the opcode byte 0x92.
#[verifier::external_body]
pub(crate) fn put_f32_add(func: &mut FunctionBody)
    ensures
        function_code(*final(func)) == function_code(*old(func)) + seq![0x92u8],
{
    func.inner.instruction(&wasm_encoder::Instruction::F32Add);
}

/// `Function::instruction` with `Instruction::F32Sub`: appends the opcode byte 0x93.
#[verifier::external_body]
pub(crate) fn put_f32_sub(func: &mut FunctionBody)
    ensures
        function_code(*final(func)) == function_code(*old(func)) + seq![0x93u8],
{
    func.inner.instruction(&wasm_encoder::Instruction::F32Sub);
}

/// `Function::instruction` with `Instruction::F32Mul`: appends the opcode byte 0x94.
#[verifier::external_body]
pub(crate) fn put_f32_mul(func: &mut FunctionBody)
    ensures
        function_code(*final(func)) == function_code(*old(func)) + seq![0x94u8],
{
    func.inner.instruction(&wasm_encoder::Instruction::F32Mul);
}

/// `Function::instruction` with `Instruction::F32Div`: appends the opcode byte 0x95.
#[verifier::external_body]
pub(crate) fn put_f32_div(func: &mut FunctionBody)
    ensures
        function_code(*final(func)) == function_code(*old(func)) + seq![0x95u8],
{
    func.inner.instruction(&wasm_encoder::Instruction::F32Div);
}

/// `Function::instruction` with `Instruction::F32Sqrt`: appends the opcode byte 0x91.
#[verifier::external_body]
pub(crate) fn put_f32_sqrt(func: &mut FunctionBody)
    ensures
        function_code(*final(func)) == function_code(*old(func)) + seq![0x91u8],
{
    func.inner.instruction(&wasm_encoder::Instruction::F32Sqrt);
}

/// `Function::instruction` with `Instruction::F32Neg`: appends the opcode byte 0x8C.
#[verifier::external_body]
pub(crate) fn put_f32_neg(func: &mut FunctionBody)
    ensures
        function_code(*final(func)) == function_code(*old(func)) + seq![0x8Cu8],
{
    func.inner.instruction(&wasm_encoder::Instruction::F32Neg);
}

/// `Function::instruction` with `Instruction::F32Abs`: appends the opcode byte 0x8B.
#[verifier::external_body]
pub(crate) fn put_f32_abs(func: &mut FunctionBody)
    ensures
        function_code(*final(func)) == function_code(*old(func)) + seq![0x8Bu8],
{
    func.inner.instruction(&wasm_encoder::Instruction::F32Abs);
}

/// `Function::instruction` with `Instruction::F32Ceil`: appends the opcode byte 0x8D.
#[verifier::external_body]
pub(crate) fn put_f32_ceil(func: &mut FunctionBody)
    ensures
        function_code(*final(func)) == function_code(*old(func)) + seq![0x8Du8],
{
    func.inner.instruction(&wasm_encoder::Instruction::F32Ceil);
}

/// `Function::instruction` with `Instruction::F32Floor`: appends the opcode byte 0x8E.
#[verifier::external_body]
pub(crate) fn put_f32_floor(func: &mut FunctionBody)
    ensures
        function_code(*final(func)) == function_code(*old(func)) + seq![0x8Eu8],
{
    func.inner.instruction(&wasm_encoder::Instruction::F32Floor);
}

/// `Function::instruction` with `Instruction::F32Trunc`: appends the opcode byte 0x8F.
#[verifier::external_body]
pub(crate) fn put_f32_trunc(func: &mut FunctionBody)
    ensures
        function_code(*final(func)) == function_code(*old(func)) + seq![0x8Fu8],
{
    func.inner.instruction(&wasm_encoder::Instruction::F32Trunc);
}

/// `Function::instruction` with `Instruction::F32Nearest`: appends the opcode byte 0x90.
#[verifier::external_body]
pub(crate) fn put_f32_nearest(func: &mut FunctionBody)
    ensures
        function_code(*final(func)) == function_code(*old(func)) + seq![0x90u8],
{
    func.inner.instruction(&wasm_encoder::Instruction::F32Nearest);
}

/// `Function::instruction` with `Instruction::F32Eq`: appends the opcode byte 0x5B.
#[verifier::external_body]
pub(crate) fn put_f32_eq(func: &mut FunctionBody)
    ensures
        function_code(*final(func)) == function_code(*old(func)) + seq![0x5Bu8],
{
    func.inner.instruction(&wasm_encoder::Instruction::F32Eq);
}

/// `Function::instruction` with `Instruction::F32Ne`: appends the opcode byte 0x5C.
#[verifier::external_body]
pub(crate) fn put_f32_ne(func: &mut FunctionBody)
    ensures
        function_code(*final(func)) == function_code(*old(func)) + seq![0x5Cu8],
{
    func.inner.instruction(&wasm_encoder::Instruction::F32Ne);
}

/// `Function::instruction` with `Instruction::F32Lt`: appends the opcode byte 0x5D.
#[verifier::external_body]
pub(crate) fn put_f32_lt(func: &mut FunctionBody)
    ensures
        function_code(*final(func)) == function_code(*old(func)) + seq![0x5Du8],
{
    func.inner.instruction(&wasm_encoder::Instruction::F32Lt);
}

/// `Function::instruction` with `Instruction::F32Gt`: appends the opcode byte 0x5E.
#[verifier::external_body]
pub(crate) fn put_f32_gt(func: &mut FunctionBody)
    ensures
        function_code(*final(func)) == function_code(*old(func)) + seq![0x5Eu8],
{
    func.inner.instruction(&wasm_encoder::Instruction::F32Gt);
}

/// `Function::instruction` with `Instruction::F32Le`: appends the opcode byte 0x5F.
#[verifier::external_body]
pub(crate) fn put_f32_le(func: &mut FunctionBody)
    ensures
        function_code(*final(func)) == function_code(*old(func)) + seq![0x5Fu8],
{
    func.inner.instruction(&wasm_encoder::Instruction::F32Le);
}

/// `Function::instruction` with `Instruction::F32Ge`: appends the opcode byte 0x60.
#[verifier::external_body]
pub(crate) fn put_f32_ge(func: &mut FunctionBody)
    ensures
        function_code(*final(func)) == function_code(*old(func)) + seq![0x60u8],
{
    func.inner.instruction(&wasm_encoder::Instruction::F32Ge);
}

/// `Function::instruction` with `Instruction::F32Min`: appends the opcode byte 0x96.
#[verifier::external_body]
pub(crate) fn put_f32_min(func: &mut FunctionBody)
    ensures
        function_code(*final(func)) == function_code(*old(func)) + seq![0x96u8],
{
    func.inner.instruction(&wasm_encoder::Instruction::F32Min);
}

/// `Function::instruction` with `Instruction::F32Max`: appends the opcode byte 0x97.
#[verifier::external_body]
pub(crate) fn put_f32_max(func: &mut FunctionBody)
    ensures
        function_code(*final(func)) == function_code(*old(func)) + seq![0x97u8],
{
    func.inner.instruction(&wasm_encoder::Instruction::F32Max);
}

/// `Function::instruction` with `Instruction::F32Copysign`: appends the opcode byte 0x98.
#[verifier::external_body]
pub(crate) fn put_f32_copysign(func: &mut FunctionBody)
    ensures
        function_code(*final(func)) == function_code(*old(func)) + seq![0x98u8],
{
    func.inner.instruction(&wasm_encoder::Instruction::F32Copysign);
}

/// `Function::instruction` with `Instruction::F64Load`: appends the opcode byte 0x2B, then the alignment exponent and the offset of a `MemArg` on memory 0.
#[verifier::external_body]
pub(crate) fn put_f64_load(func: &mut FunctionBody, offset: u32, align: u32)
    ensures
        function_code(*final(func)) == function_code(*old(func)) + mem_code(0x2Bu8, align, offset),
{
    func.inner.instruction(&wasm_encoder::Instruction::F64Load(wasm_encoder::MemArg { offset: offset as u64, align, memory_index: 0 }));
}

/// `Function::instruction` with `Instruction::F64Store`: appends the opcode byte 0x39, then the alignment exponent and the offset of a `MemArg` on memory 0.
#[verifier::external_body]
pub(crate) fn put_f64_store(func: &mut FunctionBody, offset: u32, align: u32)
    ensures
        function_code(*final(func)) == function_code(*old(func)) + mem_code(0x39u8, align, offset),
{
    func.inner.instruction(&wasm_encoder::Instruction::F64Store(wasm_encoder::MemArg { offset: offset as u64, align, memory_index: 0 }));
}

/// `Function::instruction` with `Instruction::F64Add`: appends the opcode byte 0xA0.
#[verifier::external_body]
pub(crate) fn put_f64_add(func: &mut FunctionBody)
    ensures
        function_code(*final(func)) == function_code(*old(func)) + seq![0xA0u8],
{
    func.inner.instruction(&wasm_encoder::Instruction::F64Add);
}

/// `Function::instruction` with `Instruction::F64Sub`: appends the opcode byte 0xA1.
#[verifier::external_body]
pub(crate) fn put_f64_sub(func: &mut FunctionBody)
    ensures
        function_code(*final(func)) == function_code(*old(func)) + seq![0xA1u8],
{
    func.inner.instruction(&wasm_encoder::Instruction::F64Sub);
}

/// `Function::instruction` with `Instruction::F64Mul`: appends the opcode byte 0xA2.
#[verifier::external_body]
pub(crate) fn put_f64_mul(func: &mut FunctionBody)
    ensures
        function_code(*final(func)) == function_code(*old(func)) + seq![0xA2u8],
{
    func.inner.instruction(&wasm_encoder::Instruction::F64Mul);
}

/// `Function::instruction` with `Instruction::F64Div`: appends the opcode byte 0xA3.
#[verifier::external_body]
pub(crate) fn put_f64_div(func: &mut FunctionBody)
    ensures
        function_code(*final(func)) == function_code(*old(func)) + seq![0xA3u8],
{
    func.inner.instruction(&wasm_encoder::Instruction::F64Div);
}

/// `Function::instruction` with `Instruction::F64Sqrt`: appends the opcode byte 0x9F.
#[verifier::external_body]
pub(crate) fn put_f64_sqrt(func: &mut FunctionBody)
    ensures
        function_code(*final(func)) == function_code(*old(func)) + seq![0x9Fu8],
{
    func.inner.instruction(&wasm_encoder::Instruction::F64Sqrt);
}

/// `Function::instruction` with `Instruction::F64Neg`: appends the opcode byte 0x9A.
#[verifier::external_body]
pub(crate) fn put_f64_neg(func: &mut FunctionBody)
    ensures
        function_code(*final(func)) == function_code(*old(func)) + seq![0x9Au8],
{
    func.inner.instruction(&wasm_encoder::Instruction::F64Neg);
}

/// `Function::instruction` with `Instruction::F64Abs`: appends the opcode byte 0x99.
#[verifier::external_body]
pub(crate) fn put_f64_abs(func: &mut FunctionBody)
    ensures
        function_code(*final(func)) == function_code(*old(func)) + seq![0x99u8],
{
    func.inner.instruction(&wasm_encoder::Instruction::F64Abs);
}

/// `Function::instruction` with `Instruction::F64Ceil`: appends the opcode byte 0x9B.
#[verifier::external_body]
pub(crate) fn put_f64_ceil(func: &mut FunctionBody)
    ensures
        function_code(*final(func)) == function_code(*old(func)) + seq![0x9Bu8],
{
    func.inner.instruction(&wasm_encoder::Instruction::F64Ceil);
}

/// `Function::instruction` with `Instruction::F64Floor`: appends the opcode byte 0x9C.
#[verifier::external_body]
pub(crate) fn put_f64_floor(func: &mut FunctionBody)
    ensures
        function_code(*final(func)) == function_code(*old(func)) + seq![0x9Cu8],
{
    func.inner.instruction(&wasm_encoder::Instruction::F64Floor);
}

/// `Function::instruction` with `Instruction::F64Trunc`: appends the opcode byte 0x9D.
#[verifier::external_body]
pub(crate) fn put_f64_trunc(func: &mut FunctionBody)
    ensures
        function_code(*final(func)) == function_code(*old(func)) + seq![0x9Du8],
{
    func.inner.instruction(&wasm_encoder::Instruction::F64Trunc);
}

/// `Function::instruction` with `Instruction::F64Nearest`: appends the opcode byte 0x9E.
#[verifier::external_body]
pub(crate) fn put_f64_nearest(func: &mut FunctionBody)
    ensures
        function_code(*final(func)) == function_code(*old(func)) + seq![0x9Eu8],
{
    func.inner.instruction(&wasm_encoder::Instruction::F64Nearest);
}

/// `Function::instruction` with `Instruction::F64Eq`: appends the opcode byte 0x61.
#[verifier::external_body]
pub(crate) fn put_f64_eq(func: &mut FunctionBody)
    ensures
        function_code(*final(func)) == function_code(*old(func)) + seq![0x61u8],
{
    func.inner.instruction(&wasm_encoder::Instruction::F64Eq);
}

/// `Function::instruction` with `Instruction::F64Ne`: appends the opcode byte 0x62.
#[verifier::external_body]
pub(crate) fn put_f64_ne(func: &mut FunctionBody)
    ensures
        function_code(*final(func)) == function_code(*old(func)) + seq![0x62u8],
{
    func.inner.instruction(&wasm_encoder::Instruction::F64Ne);
}

/// `Function::instruction` with `Instruction::F64Lt`: appends the opcode byte 0x63.
#[verifier::external_body]
pub(crate) fn put_f64_lt(func: &mut FunctionBody)
    ensures
        function_code(*final(func)) == function_code(*old(func)) + seq![0x63u8],
{
    func.inner.instruction(&wasm_encoder::Instruction::F64Lt);
}

/// `Function::instruction` with `Instruction::F64Gt`: appends the opcode byte 0x64.
#[verifier::external_body]
pub(crate) fn put_f64_gt(func: &mut FunctionBody)
    ensures
        function_code(*final(func)) == function_code(*old(func)) + seq![0x64u8],
{
    func.inner.instruction(&wasm_encoder::Instruction::F64Gt);
}

/// `Function::instruction` with `Instruction::F64Le`: appends the opcode byte 0x65.
#[verifier::external_body]
pub(crate) fn put_f64_le(func: &mut FunctionBody)
    ensures
        function_code(*final(func)) == function_code(*old(func)) + seq![0x65u8],
{
    func.inner.instruction(&wasm_encoder::Instruction::F64Le);
}

/// `Function::instruction` with `Instruction::F64Ge`: appends the opcode byte 0x66.
#[verifier::external_body]
pub(crate) fn put_f64_ge(func: &mut FunctionBody)
    ensures
        function_code(*final(func)) == function_code(*old(func)) + seq![0x66u8],
{
    func.inner.instruction(&wasm_encoder::Instruction::F64Ge);
}

/// `Function::instruction` with `Instruction::F64Min`: appends the opcode byte 0xA4.
#[verifier::external_body]
pub(crate) fn put_f64_min(func: &mut FunctionBody)
    ensures
        function_code(*final(func)) == function_code(*old(func)) + seq![0xA4u8],
{
    func.inner.instruction(&wasm_encoder::Instruction::F64Min);
}

/// `Function::instruction` with `Instruction::F64Max`: appends the opcode byte 0xA5.
#[verifier::external_body]
pub(crate) fn put_f64_max(func: &mut FunctionBody)
    ensures
        function_code(*final(func)) == function_code(*old(func)) + seq![0xA5u8],
{
    func.inner.instruction(&wasm_encoder::Instruction::F64Max);
}

/// `Function::instruction` with `Instruction::F64Copysign`: appends the opcode byte 0xA6.
#[verifier::external_body]
pub(crate) fn put_f64_copysign(func: &mut FunctionBody)
    ensures
        function_code(*final(func)) == function_code(*old(func)) + seq![0xA6u8],
{
    func.inner.instruction(&wasm_encoder::Instruction::F64Copysign);
}

/// `Function::instruction` with `Instruction::F32ConvertI32S`: appends the opcode byte 0xB2.
#[verifier::external_body]
pub(crate) fn put_f32_convert_i32_s(func: &mut FunctionBody)
    ensures
        function_code(*final(func)) == function_code(*old(func)) + seq![0xB2u8],
{
    func.inner.instruction(&wasm_encoder::Instruction::F32ConvertI32S);
}

/// `Function::instruction` with `Instruction::F32ConvertI32U`: appends the opcode byte 0xB3.
#[verifier::external_body]
pub(crate) fn put_f32_convert_i32_u(func: &mut FunctionBody)
    ensures
        function_code(*final(func)) == function_code(*old(func)) + seq![0xB3u8],
{
    func.inner.instruction(&wasm_encoder::Instruction::F32ConvertI32U);
}

/// `Function::instruction` with `Instruction::F32ConvertI64S`: appends the opcode byte 0xB4.
#[verifier::external_body]
pub(crate) fn put_f32_convert_i64_s(func: &mut FunctionBody)
    ensures
        function_code(*final(func)) == function_code(*old(func)) + seq![0xB4u8],
{
    func.inner.instruction(&wasm_encoder::Instruction::F32ConvertI64S);
}

/// `Function::instruction` with `Instruction::F32ConvertI64U`: appends the opcode byte 0xB5.
#[verifier::external_body]
pub(crate) fn put_f32_convert_i64_u(func: &mut FunctionBody)
    ensures
        function_code(*final(func)) == function_code(*old(func)) + seq![0xB5u8],
{
    func.inner.instruction(&wasm_encoder::Instruction::F32ConvertI64U);
}

/// `Function::instruction` with `Instruction::F64ConvertI32S`: appends the opcode byte 0xB7.
#[verifier::external_body]
pub(crate) fn put_f64_convert_i32_s(func: &mut FunctionBody)
    ensures
        function_code(*final(func)) == function_code(*old(func)) + seq![0xB7u8],
{
    func.inner.instruction(&wasm_encoder::Instruction::F64ConvertI32S);
}

/// `Function::instruction` with `Instruction::F64ConvertI32U`: appends the opcode byte 0xB8.
#[verifier::external_body]
pub(crate) fn put_f64_convert_i32_u(func: &mut FunctionBody)
    ensures
        function_code(*final(func)) == function_code(*old(func)) + seq![0xB8u8],
{
    func.inner.instruction(&wasm_encoder::Instruction::F64ConvertI32U);
}

/// `Function::instruction` with `Instruction::F64ConvertI64S`: appends the opcode byte 0xB9.
#[verifier::external_body]
pub(crate) fn put_f64_convert_i64_s(func: &mut FunctionBody)
    ensures
        function_code(*final(func)) == function_code(*old(func)) + seq![0xB9u8],
{
    func.inner.instruction(&wasm_encoder::Instruction::F64ConvertI64S);
}

/// `Function::instruction` with `Instruction::F64ConvertI64U`: appends the opcode byte 0xBA.
#[verifier::external_body]
pub(crate) fn put_f64_convert_i64_u(func: &mut FunctionBody)
    ensures
        function_code(*final(func)) == function_code(*old(func)) + seq![0xBAu8],
{
    func.inner.instruction(&wasm_encoder::Instruction::F64ConvertI64U);
}

/// `Function::instruction` with `Instruction::I32TruncF32S`: appends the opcode byte 0xA8.
#[verifier::external_body]
pub(crate) fn put_i32_trunc_f32_s(func: &mut FunctionBody)
    ensures
        function_code(*final(func)) == function_code(*old(func)) + seq![0xA8u8],
{
    func.inner.instruction(&wasm_encoder::Instruction::I32TruncF32S);
}

/// `Function::instruction` with `Instruction::I32TruncF32U`: appends the opcode byte 0xA9.
#[verifier::external_body]
pub(crate) fn put_i32_trunc_f32_u(func: &mut FunctionBody)
    ensures
        function_code(*final(func)) == function_code(*old(func)) + seq![0xA9u8],
{
    func.inner.instruction(&wasm_encoder::Instruction::I32TruncF32U);
}

/// `Function::instruction` with `Instruction::I32TruncF64S`: appends the opcode byte 0xAA.
#[verifier::external_body]
pub(crate) fn put_i32_trunc_f64_s(func: &mut FunctionBody)
    ensures
        function_code(*final(func)) == function_code(*old(func)) + seq![0xAAu8],
{
    func.inner.instruction(&wasm_encoder::Instruction::I32TruncF64S);
}

/// `Function::instruction` with `Instruction::I32TruncF64U`: appends the opcode byte 0xAB.
#[verifier::external_body]
pub(crate) fn put_i32_trunc_f64_u(func: &mut FunctionBody)
    ensures
        function_code(*final(func)) == function_code(*old(func)) + seq![0xABu8],
{
    func.inner.instruction(&wasm_encoder::Instruction::I32TruncF64U);
}

/// `Function::instruction` with `Instruction::I64TruncF32S`: appends the opcode byte 0xAE.
#[verifier::external_body]
pub(crate) fn put_i64_trunc_f32_s(func: &mut FunctionBody)
    ensures
        function_code(*final(func)) == function_code(*old(func)) + seq![0xAEu8],
{
    func.inner.instruction(&wasm_encoder::Instruction::I64TruncF32S);
}

/// `Function::instruction` with `Instruction::I64TruncF32U`: appends the opcode byte 0xAF.
#[verifier::external_body]
pub(crate) fn put_i64_trunc_f32_u(func: &mut FunctionBody)
    ensures
        function_code(*final(func)) == function_code(*old(func)) + seq![0xAFu8],
{
    func.inner.instruction(&wasm_encoder::Instruction::I64TruncF32U);
}

/// `Function::instruction` with `Instruction::I64TruncF64S`: appends the opcode byte 0xB0.
#[verifier::external_body]
pub(crate) fn put_i64_trunc_f64_s(func: &mut FunctionBody)
    ensures
        function_code(*final(func)) == function_code(*old(func)) + seq![0xB0u8],
{
    func.inner.instruction(&wasm_encoder::Instruction::I64TruncF64S);
}

/// `Function::instruction` with `Instruction::I64TruncF64U`: appends the opcode byte 0xB1.
#[verifier::external_body]
pub(crate) fn put_i64_trunc_f64_u(func: &mut FunctionBody)
    ensures
        function_code(*final(func)) == function_code(*old(func)) + seq![0xB1u8],
{
    func.inner.instruction(&wasm_encoder::Instruction::I64TruncF64U);
}

/// `Function::instruction` with `Instruction::F32DemoteF64`: appends the opcode byte 0xB6.
#[verifier::external_body]
pub(crate) fn put_f32_demote_f64(func: &mut FunctionBody)
    ensures
        function_code(*final(func)) == function_code(*old(func)) + seq![0xB6u8],
{
    func.inner.instruction(&wasm_encoder::Instruction::F32DemoteF64);
}

/// `Function::instruction` with `Instruction::F64PromoteF32`: appends the opcode byte 0xBB.
#[verifier::external_body]
pub(crate) fn put_f64_promote_f32(func: &mut FunctionBody)
    ensures
        function_code(*final(func)) == function_code(*old(func)) + seq![0xBBu8],
{
    func.inner.instruction(&wasm_encoder::Instruction::F64PromoteF32);
}

/// `Function::instruction` with `Instruction::F32ReinterpretI32`: appends the opcode byte 0xBE.
#[verifier::external_body]
pub(crate) fn put_f32_reinterpret_i32(func: &mut FunctionBody)
    ensures
        function_code(*final(func)) == function_code(*old(func)) + seq![0xBEu8],
{
    func.inner.instruction(&wasm_encoder::Instruction::F32ReinterpretI32);
}

/// `Function::instruction` with `Instruction::F64ReinterpretI64`: appends the opcode byte 0xBF.
#[verifier::external_body]
pub(crate) fn put_f64_reinterpret_i64(func: &mut FunctionBody)
    ensures
        function_code(*final(func)) == function_code(*old(func)) + seq![0xBFu8],
{
    func.inner.instruction(&wasm_encoder::Instruction::F64ReinterpretI64);
}

/// `Function::instruction` with `Instruction::I32ReinterpretF32`: appends the opcode byte 0xBC.
#[verifier::external_body]
pub(crate) fn put_i32_reinterpret_f32(func: &mut FunctionBody)
    ensures
        function_code(*final(func)) == function_code(*old(func)) + seq![0xBCu8],
{
    func.inner.instruction(&wasm_encoder::Instruction::I32ReinterpretF32);
}

/// `Function::instruction` with `Instruction::I64ReinterpretF64`: appends the opcode byte 0xBD.
#[verifier::external_body]
pub(crate) fn put_i64_reinterpret_f64(func: &mut FunctionBody)
    ensures
        function_code(*final(func)) == function_code(*old(func)) + seq![0xBDu8],
{
    func.inner.instruction(&wasm_encoder::Instruction::I64ReinterpretF64);
}

/// `Function::instruction` with `Instruction::Drop`: appends the opcode byte 0x1A.
#[verifier::external_body]
pub(crate) fn put_drop(func: &mut FunctionBody)
    ensures
        function_code(*final(func)) == function_code(*old(func)) + seq![0x1Au8],
{
    func.inner.instruction(&wasm_encoder::Instruction::Drop);
}

/// `Function::instruction` with `Instruction::Select`: appends the opcode byte 0x1B.
#[verifier::external_body]
pub(crate) fn put_select(func: &mut FunctionBody)
    ensures
        function_code(*final(func)) == function_code(*old(func)) + seq![0x1Bu8],
{
    func.inner.instruction(&wasm_encoder::Instruction::Select);
}

/// `Function::instruction` with `Instruction::Unreachable`: appends the opcode byte 0x00.
#[verifier::external_body]
pub(crate) fn put_unreachable(func: &mut FunctionBody)
    ensures
        function_code(*final(func)) == function_code(*old(func)) + seq![0x00u8],
{
    func.inner.instruction(&wasm_encoder::Instruction::Unreachable);
}

// ---------------------------------------------------------------------------
// Sections and the module
// ---------------------------------------------------------------------------

/// A section as the module holds it: the section id, the byte length of
/// what follows, the number of entries, and the entries.
pub open spec fn section_code(id: u8, count: nat, entries: Seq<u8>) -> Seq<u8> {
    seq![id] + leb_unsigned(leb_unsigned(count).len() + entries.len()) + leb_unsigned(count)
        + entries
}

/// A name: the byte length of its UTF-8 form, then the bytes.
pub open spec fn name_code(text: Seq<char>) -> Seq<u8> {
    leb_unsigned(vstd::utf8::encode_utf8(text).len()) + vstd::utf8::encode_utf8(text)
}

/// `count` times the type byte 0x7F of i32.
pub open spec fn i32_types(count: nat) -> Seq<u8> {
    Seq::new(count, |i: int| 0x7Fu8)
}

/// A function type over i32 alone: 0x60, the parameter types, the result
/// types, each list behind its length.
pub open spec fn function_type_code(params: nat, results: nat) -> Seq<u8> {
    seq![0x60u8] + leb_unsigned(params) + i32_types(params) + leb_unsigned(results) + i32_types(
        results,
    )
}

/// The import of a memory with a minimum and a maximum, neither shared nor
/// 64-bit: the two names, the kind byte 0x02, the flag byte 0x01, the two
/// limits.
pub open spec fn memory_import_code(module: Seq<char>, field: Seq<char>, minimum: u64, maximum: u64) -> Seq<
    u8,
> {
    name_code(module) + name_code(field) + seq![0x02u8, 0x01u8] + leb_unsigned(minimum as nat)
        + leb_unsigned(maximum as nat)
}

/// The import of a memory with a minimum and no maximum, neither shared
/// nor 64-bit: the two names, the kind byte 0x02, the flag byte 0x00, the
/// minimum.
pub open spec fn open_memory_import_code(module: Seq<char>, field: Seq<char>, minimum: u64) -> Seq<
    u8,
> {
    name_code(module) + name_code(field) + seq![0x02u8, 0x00u8] + leb_unsigned(minimum as nat)
}

/// The import of a function: the two names, the kind byte 0x00, the type
/// index.
pub open spec fn function_import_code(module: Seq<char>, field: Seq<char>, type_index: u32) -> Seq<
    u8,
> {
    name_code(module) + name_code(field) + seq![0x00u8] + leb_unsigned(type_index as nat)
}

/// A table of function references with a minimum and a maximum: the type
/// byte 0x70, the flag byte 0x01, the two limits.
pub open spec fn funcref_table_code(minimum: u32, maximum: u32) -> Seq<u8> {
    seq![0x70u8, 0x01u8] + leb_unsigned(minimum as nat) + leb_unsigned(maximum as nat)
}

/// An active element segment of function indices for an explicit table: the
/// flag 0x02, the table index, the offset expression `i32.const offset;
/// end`, the element kind 0x00, the number of indices, the indices.
pub open spec fn active_segment_code(table: u32, offset: i32, indices: Seq<u32>) -> Seq<u8> {
    seq![0x02u8] + leb_unsigned(table as nat) + seq![0x41u8] + leb_signed(offset as int) + seq![
        0x0Bu8,
        0x00u8,
    ] + leb_unsigned(indices.len()) + label_codes(indices)
}

/// The export of a function: its name, the kind byte 0x00, its index.
pub open spec fn function_export_code(name: Seq<char>, index: u32) -> Seq<u8> {
    name_code(name) + seq![0x00u8] + leb_unsigned(index as nat)
}

/// A function body in the code section: its byte length, then its bytes.
pub open spec fn code_entry(body: Seq<u8>) -> Seq<u8> {
    leb_unsigned(body.len()) + body
}

/// The eight bytes at the head of every module: the magic `\0asm` and
/// version 1.
pub open spec fn module_header() -> Seq<u8> {
    seq![0x00u8, 0x61u8, 0x73u8, 0x6Du8, 0x01u8, 0x00u8, 0x00u8, 0x00u8]
}

#[verifier::external_type_specification]
#[verifier::external_body]
pub struct ExModule(wasm_encoder::Module);

/// The bytes of a module under construction.
pub uninterp spec fn module_code(m: wasm_encoder::Module) -> Seq<u8>;

/// `Module::new`: a module that holds the header alone.
#[verifier::external_body]
pub(crate) fn new_module() -> (module: wasm_encoder::Module)
    ensures
        module_code(module) == module_header(),
{
    wasm_encoder::Module::new()
}

/// `Module::finish`: the bytes of the module.
#[verifier::external_body]
pub(crate) fn finish_module(module: wasm_encoder::Module) -> (bytes: Vec<u8>)
    ensures
        bytes@ == module_code(module),
{
    module.finish()
}

#[verifier::external_type_specification]
#[verifier::external_body]
pub struct ExTypeSection(wasm_encoder::TypeSection);

/// The bytes of the entries that a type section holds.
pub uninterp spec fn type_entries(s: wasm_encoder::TypeSection) -> Seq<u8>;

/// The number of entries that a type section holds.
pub uninterp spec fn type_count(s: wasm_encoder::TypeSection) -> nat;

/// `TypeSection::new`: an empty type section.
#[verifier::external_body]
pub(crate) fn new_type_section() -> (section: wasm_encoder::TypeSection)
    ensures
        type_entries(section) == Seq::<u8>::empty(),
        type_count(section) == 0,
{
    wasm_encoder::TypeSection::new()
}

/// `Module::section` with a type section: appends the section under id
/// 1. The encoder panics where the section is longer than `u32::MAX`.
#[verifier::external_body]
pub(crate) fn push_type_section(module: &mut wasm_encoder::Module, section: &wasm_encoder::TypeSection)
    requires
        leb_unsigned(type_count(*section)).len() + type_entries(*section).len() <= u32::MAX,
    ensures
        module_code(*final(module)) == module_code(*old(module)) + section_code(
            1,
            type_count(*section),
            type_entries(*section),
        ),
{
    module.section(section);
}

#[verifier::external_type_specification]
#[verifier::external_body]
pub struct ExImportSection(wasm_encoder::ImportSection);

/// The bytes of the entries that a import section holds.
pub uninterp spec fn import_entries(s: wasm_encoder::ImportSection) -> Seq<u8>;

/// The number of entries that a import section holds.
pub uninterp spec fn import_count(s: wasm_encoder::ImportSection) -> nat;

/// `ImportSection::new`: an empty import section.
#[verifier::external_body]
pub(crate) fn new_import_section() -> (section: wasm_encoder::ImportSection)
    ensures
        import_entries(section) == Seq::<u8>::empty(),
        import_count(section) == 0,
{
    wasm_encoder::ImportSection::new()
}

/// `Module::section` with a import section: appends the section under id
/// 2. The encoder panics where the section is longer than `u32::MAX`.
#[verifier::external_body]
pub(crate) fn push_import_section(module: &mut wasm_encoder::Module, section: &wasm_encoder::ImportSection)
    requires
        leb_unsigned(import_count(*section)).len() + import_entries(*section).len() <= u32::MAX,
    ensures
        module_code(*final(module)) == module_code(*old(module)) + section_code(
            2,
            import_count(*section),
            import_entries(*section),
        ),
{
    module.section(section);
}

#[verifier::external_type_specification]
#[verifier::external_body]
pub struct ExFunctionSection(wasm_encoder::FunctionSection);

/// The bytes of the entries that a function section holds.
pub uninterp spec fn function_entries(s: wasm_encoder::FunctionSection) -> Seq<u8>;

/// The number of entries that a function section holds.
pub uninterp spec fn function_count(s: wasm_encoder::FunctionSection) -> nat;

/// `FunctionSection::new`: an empty function section.
#[verifier::external_body]
pub(crate) fn new_function_section() -> (section: wasm_encoder::FunctionSection)
    ensures
        function_entries(section) == Seq::<u8>::empty(),
        function_count(section) == 0,
{
    wasm_encoder::FunctionSection::new()
}

/// `Module::section` with a function section: appends the section under id
/// 3. The encoder panics where the section is longer than `u32::MAX`.
#[verifier::external_body]
pub(crate) fn push_function_section(module: &mut wasm_encoder::Module, section: &wasm_encoder::FunctionSection)
    requires
        leb_unsigned(function_count(*section)).len() + function_entries(*section).len() <= u32::MAX,
    ensures
        module_code(*final(module)) == module_code(*old(module)) + section_code(
            3,
            function_count(*section),
            function_entries(*section),
        ),
{
    module.section(section);
}

#[verifier::external_type_specification]
#[verifier::external_body]
pub struct ExTableSection(wasm_encoder::TableSection);

/// The bytes of the entries that a table section holds.
pub uninterp spec fn table_entries(s: wasm_encoder::TableSection) -> Seq<u8>;

/// The number of entries that a table section holds.
pub uninterp spec fn table_count(s: wasm_encoder::TableSection) -> nat;

/// `TableSection::new`: an empty table section.
#[verifier::external_body]
pub(crate) fn new_table_section() -> (section: wasm_encoder::TableSection)
    ensures
        table_entries(section) == Seq::<u8>::empty(),
        table_count(section) == 0,
{
    wasm_encoder::TableSection::new()
}

/// `Module::section` with a table section: appends the section under id
/// 4. The encoder panics where the section is longer than `u32::MAX`.
#[verifier::external_body]
pub(crate) fn push_table_section(module: &mut wasm_encoder::Module, section: &wasm_encoder::TableSection)
    requires
        leb_unsigned(table_count(*section)).len() + table_entries(*section).len() <= u32::MAX,
    ensures
        module_code(*final(module)) == module_code(*old(module)) + section_code(
            4,
            table_count(*section),
            table_entries(*section),
        ),
{
    module.section(section);
}

#[verifier::external_type_specification]
#[verifier::external_body]
pub struct ExExportSection(wasm_encoder::ExportSection);

/// The bytes of the entries that a export section holds.
pub uninterp spec fn export_entries(s: wasm_encoder::ExportSection) -> Seq<u8>;

/// The number of entries that a export section holds.
pub uninterp spec fn export_count(s: wasm_encoder::ExportSection) -> nat;

/// `ExportSection::new`: an empty export section.
#[verifier::external_body]
pub(crate) fn new_export_section() -> (section: wasm_encoder::ExportSection)
    ensures
        export_entries(section) == Seq::<u8>::empty(),
        export_count(section) == 0,
{
    wasm_encoder::ExportSection::new()
}

/// `Module::section` with a export section: appends the section under id
/// 7. The encoder panics where the section is longer than `u32::MAX`.
#[verifier::external_body]
pub(crate) fn push_export_section(module: &mut wasm_encoder::Module, section: &wasm_encoder::ExportSection)
    requires
        leb_unsigned(export_count(*section)).len() + export_entries(*section).len() <= u32::MAX,
    ensures
        module_code(*final(module)) == module_code(*old(module)) + section_code(
            7,
            export_count(*section),
            export_entries(*section),
        ),
{
    module.section(section);
}

#[verifier::external_type_specification]
#[verifier::external_body]
pub struct ExElementSection(wasm_encoder::ElementSection);

/// The bytes of the entries that a element section holds.
pub uninterp spec fn element_entries(s: wasm_encoder::ElementSection) -> Seq<u8>;

/// The number of entries that a element section holds.
pub uninterp spec fn element_count(s: wasm_encoder::ElementSection) -> nat;

/// `ElementSection::new`: an empty element section.
#[verifier::external_body]
pub(crate) fn new_element_section() -> (section: wasm_encoder::ElementSection)
    ensures
        element_entries(section) == Seq::<u8>::empty(),
        element_count(section) == 0,
{
    wasm_encoder::ElementSection::new()
}

/// `Module::section` with a element section: appends the section under id
/// 9. The encoder panics where the section is longer than `u32::MAX`.
#[verifier::external_body]
pub(crate) fn push_element_section(module: &mut wasm_encoder::Module, section: &wasm_encoder::ElementSection)
    requires
        leb_unsigned(element_count(*section)).len() + element_entries(*section).len() <= u32::MAX,
    ensures
        module_code(*final(module)) == module_code(*old(module)) + section_code(
            9,
            element_count(*section),
            element_entries(*section),
        ),
{
    module.section(section);
}

/// `TypeSection::function` with `params` parameters and `results` results,
/// all of type i32: appends the function type. The encoder panics on more
/// than `u32::MAX` types of either kind, and counts its entries with 32
/// bits.
#[verifier::external_body]
pub(crate) fn add_function_type(section: &mut wasm_encoder::TypeSection, params: usize, results: usize)
    requires
        params <= u32::MAX,
        results <= u32::MAX,
        type_count(*old(section)) < u32::MAX,
    ensures
        type_entries(*final(section)) == type_entries(*old(section)) + function_type_code(
            params as nat,
            results as nat,
        ),
        type_count(*final(section)) == type_count(*old(section)) + 1,
{
    section.function(
        vec![wasm_encoder::ValType::I32; params],
        vec![wasm_encoder::ValType::I32; results],
    );
}

/// `ImportSection::import` with a `MemoryType` that has a maximum and is
/// neither shared nor 64-bit. The encoder panics on a name of more than
/// `u32::MAX` bytes, and counts its entries with 32 bits.
#[verifier::external_body]
pub(crate) fn import_memory(
    section: &mut wasm_encoder::ImportSection,
    module: &str,
    field: &str,
    minimum: u64,
    maximum: u64,
)
    requires
        vstd::utf8::encode_utf8(module@).len() <= u32::MAX,
        vstd::utf8::encode_utf8(field@).len() <= u32::MAX,
        import_count(*old(section)) < u32::MAX,
    ensures
        import_entries(*final(section)) == import_entries(*old(section)) + memory_import_code(
            module@,
            field@,
            minimum,
            maximum,
        ),
        import_count(*final(section)) == import_count(*old(section)) + 1,
{
    let ty = wasm_encoder::MemoryType {
        minimum,
        maximum: Some(maximum),
        memory64: false,
        shared: false,
    };
    section.import(module, field, ty);
}

/// `ImportSection::import` with a `MemoryType` that has no maximum and is
/// neither shared nor 64-bit. The encoder panics on a name of more than
/// `u32::MAX` bytes, and counts its entries with 32 bits.
#[verifier::external_body]
pub(crate) fn import_open_memory(
    section: &mut wasm_encoder::ImportSection,
    module: &str,
    field: &str,
    minimum: u64,
)
    requires
        vstd::utf8::encode_utf8(module@).len() <= u32::MAX,
        vstd::utf8::encode_utf8(field@).len() <= u32::MAX,
        import_count(*old(section)) < u32::MAX,
    ensures
        import_entries(*final(section)) == import_entries(*old(section)) + open_memory_import_code(
            module@,
            field@,
            minimum,
        ),
        import_count(*final(section)) == import_count(*old(section)) + 1,
{
    let ty = wasm_encoder::MemoryType { minimum, maximum: None, memory64: false, shared: false };
    section.import(module, field, ty);
}

/// `ImportSection::import` with `EntityType::Function`. The encoder panics
/// on a name of more than `u32::MAX` bytes, and counts its entries with 32
/// bits.
#[verifier::external_body]
pub(crate) fn import_function(
    section: &mut wasm_encoder::ImportSection,
    module: &str,
    field: &str,
    type_index: u32,
)
    requires
        vstd::utf8::encode_utf8(module@).len() <= u32::MAX,
        vstd::utf8::encode_utf8(field@).len() <= u32::MAX,
        import_count(*old(section)) < u32::MAX,
    ensures
        import_entries(*final(section)) == import_entries(*old(section)) + function_import_code(
            module@,
            field@,
            type_index,
        ),
        import_count(*final(section)) == import_count(*old(section)) + 1,
{
    section.import(module, field, wasm_encoder::EntityType::Function(type_index));
}

/// `FunctionSection::function`: appends the type index of one more
/// function. The encoder counts its entries with 32 bits.
#[verifier::external_body]
pub(crate) fn declare_function(section: &mut wasm_encoder::FunctionSection, type_index: u32)
    requires
        function_count(*old(section)) < u32::MAX,
    ensures
        function_entries(*final(section)) == function_entries(*old(section)) + leb_unsigned(
            type_index as nat,
        ),
        function_count(*final(section)) == function_count(*old(section)) + 1,
{
    section.function(type_index);
}

/// `TableSection::table` with a `TableType` of `RefType::FUNCREF` that has
/// a maximum. The encoder counts its entries with 32 bits.
#[verifier::external_body]
pub(crate) fn add_funcref_table(section: &mut wasm_encoder::TableSection, minimum: u32, maximum: u32)
    requires
        table_count(*old(section)) < u32::MAX,
    ensures
        table_entries(*final(section)) == table_entries(*old(section)) + funcref_table_code(
            minimum,
            maximum,
        ),
        table_count(*final(section)) == table_count(*old(section)) + 1,
{
    section.table(
        wasm_encoder::TableType {
            element_type: wasm_encoder::RefType::FUNCREF,
            minimum,
            maximum: Some(maximum),
        },
    );
}

/// `ElementSection::active` with an explicit table, the offset
/// `ConstExpr::i32_const(offset)` and `Elements::Functions`. The encoder
/// panics on more than `u32::MAX` indices, and counts its entries with 32
/// bits.
#[verifier::external_body]
pub(crate) fn add_active_functions(
    section: &mut wasm_encoder::ElementSection,
    table: u32,
    offset: i32,
    indices: &Vec<u32>,
)
    requires
        indices@.len() <= u32::MAX,
        element_count(*old(section)) < u32::MAX,
    ensures
        element_entries(*final(section)) == element_entries(*old(section)) + active_segment_code(
            table,
            offset,
            indices@,
        ),
        element_count(*final(section)) == element_count(*old(section)) + 1,
{
    section.active(
        Some(table),
        &wasm_encoder::ConstExpr::i32_const(offset),
        wasm_encoder::Elements::Functions(indices.as_slice()),
    );
}

/// `ExportSection::export` with `ExportKind::Func`. The encoder panics on a
/// name of more than `u32::MAX` bytes, and counts its entries with 32 bits.
#[verifier::external_body]
pub(crate) fn export_function(section: &mut wasm_encoder::ExportSection, name: &str, index: u32)
    requires
        vstd::utf8::encode_utf8(name@).len() <= u32::MAX,
        export_count(*old(section)) < u32::MAX,
    ensures
        export_entries(*final(section)) == export_entries(*old(section)) + function_export_code(
            name@,
            index,
        ),
        export_count(*final(section)) == export_count(*old(section)) + 1,
{
    section.export(name, wasm_encoder::ExportKind::Func, index);
}

/// The code section under construction: a `wasm_encoder::CodeSection`.
#[verifier::external_body]
pub struct CodeBodies {
    inner: wasm_encoder::CodeSection,
}

/// The bytes of the function bodies that a code section holds.
pub uninterp spec fn code_entries(s: CodeBodies) -> Seq<u8>;

/// The number of function bodies that a code section holds.
pub uninterp spec fn code_count(s: CodeBodies) -> nat;

/// `CodeSection::new`: an empty code section.
#[verifier::external_body]
pub(crate) fn new_code_section() -> (section: CodeBodies)
    ensures
        code_entries(section) == Seq::<u8>::empty(),
        code_count(section) == 0,
{
    CodeBodies { inner: wasm_encoder::CodeSection::new() }
}

/// `CodeSection::function`: appends a function body behind its byte length.
/// The encoder panics on a body of more than `u32::MAX` bytes, and counts
/// its entries with 32 bits.
#[verifier::external_body]
pub(crate) fn add_function_body(section: &mut CodeBodies, func: &FunctionBody)
    requires
        function_code(*func).len() <= u32::MAX,
        code_count(*old(section)) < u32::MAX,
    ensures
        code_entries(*final(section)) == code_entries(*old(section)) + code_entry(
            function_code(*func),
        ),
        code_count(*final(section)) == code_count(*old(section)) + 1,
{
    section.inner.function(&func.inner);
}

/// `CodeSection::byte_len`: the number of bytes of the bodies held.
#[verifier::external_body]
pub(crate) fn code_section_len(section: &CodeBodies) -> (n: usize)
    ensures
        n == code_entries(*section).len(),
{
    section.inner.byte_len()
}

/// `Module::section` with a code section: appends the section under id 10.
/// The encoder panics where the section is longer than `u32::MAX`.
#[verifier::external_body]
pub(crate) fn push_code_section(module: &mut wasm_encoder::Module, section: &CodeBodies)
    requires
        leb_unsigned(code_count(*section)).len() + code_entries(*section).len() <= u32::MAX,
    ensures
        module_code(*final(module)) == module_code(*old(module)) + section_code(
            10,
            code_count(*section),
            code_entries(*section),
        ),
{
    module.section(&section.inner);
}

} // verus!
