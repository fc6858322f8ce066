//! Assembly of the Wasm module.
//!
//! Transcribes the intermediate representation to the binary encoding and
//! composes the block functions with the dispatch loop, the imported memory
//! and the imported system-call callback.

use crate::encoder::{
    active_segment_code, add_active_functions, add_function_body, add_function_type,
    add_funcref_table, code_count, code_entries, code_entry, code_section_len, declare_function,
    element_entries, export_count, export_entries, export_function, finish_module,
    function_count, function_entries, function_export_code, function_import_code, function_len,
    function_type_code, funcref_table_code, import_entries, import_function, import_memory, import_open_memory, open_memory_import_code,
    label_codes, memory_import_code, module_code, module_header, new_code_section,
    new_element_section, new_export_section, new_function_section, new_import_section,
    new_module, new_table_section, new_type_section, push_code_section, push_element_section,
    push_export_section, push_function_section, push_import_section, push_table_section,
    push_type_section, section_code, table_entries, type_entries,
    br_table_code, function_code, leb_signed, leb_unsigned, mem_code, new_function_i32, new_function_i64,
    FunctionBody, put_block, put_br, put_br_if, put_br_table, put_call, put_call_indirect, put_drop, put_end, put_f32_abs, put_f32_add, put_f32_ceil, put_f32_convert_i32_s, put_f32_convert_i32_u, put_f32_convert_i64_s, put_f32_convert_i64_u, put_f32_copysign, put_f32_demote_f64, put_f32_div, put_f32_eq, put_f32_floor, put_f32_ge, put_f32_gt, put_f32_le, put_f32_load, put_f32_lt, put_f32_max, put_f32_min, put_f32_mul, put_f32_ne, put_f32_nearest, put_f32_neg, put_f32_reinterpret_i32, put_f32_sqrt, put_f32_store, put_f32_sub, put_f32_trunc, put_f64_abs, put_f64_add, put_f64_ceil, put_f64_convert_i32_s, put_f64_convert_i32_u, put_f64_convert_i64_s, put_f64_convert_i64_u, put_f64_copysign, put_f64_div, put_f64_eq, put_f64_floor, put_f64_ge, put_f64_gt, put_f64_le, put_f64_load, put_f64_lt, put_f64_max, put_f64_min, put_f64_mul, put_f64_ne, put_f64_nearest, put_f64_neg, put_f64_promote_f32, put_f64_reinterpret_i64, put_f64_sqrt, put_f64_store, put_f64_sub, put_f64_trunc, put_i32_add, put_i32_and, put_i32_const, put_i32_div_s, put_i32_div_u, put_i32_eq, put_i32_eqz, put_i32_ge_s, put_i32_ge_u, put_i32_gt_s, put_i32_gt_u, put_i32_le_s, put_i32_le_u, put_i32_load, put_i32_load16_s, put_i32_load16_u, put_i32_load8_s, put_i32_load8_u, put_i32_lt_s, put_i32_lt_u, put_i32_mul, put_i32_ne, put_i32_or, put_i32_reinterpret_f32, put_i32_rem_s, put_i32_rem_u, put_i32_shl, put_i32_shr_s, put_i32_shr_u, put_i32_store, put_i32_store16, put_i32_store8, put_i32_sub, put_i32_trunc_f32_s, put_i32_trunc_f32_u, put_i32_trunc_f64_s, put_i32_trunc_f64_u, put_i32_wrap_i64, put_i32_xor, put_i64_add, put_i64_and, put_i64_clz, put_i64_const, put_i64_ctz, put_i64_div_s, put_i64_div_u, put_i64_eq, put_i64_eqz, put_i64_extend_i32_s, put_i64_extend_i32_u, put_i64_ge_s, put_i64_ge_u, put_i64_gt_s, put_i64_gt_u, put_i64_le_s, put_i64_le_u, put_i64_load, put_i64_load16_s, put_i64_load16_u, put_i64_load32_s, put_i64_load32_u, put_i64_load8_s, put_i64_load8_u, put_i64_lt_s, put_i64_lt_u, put_i64_mul, put_i64_ne, put_i64_or, put_i64_popcnt, put_i64_reinterpret_f64, put_i64_rem_s, put_i64_rem_u, put_i64_rotl, put_i64_rotr, put_i64_shl, put_i64_shr_s, put_i64_shr_u, put_i64_store, put_i64_store16, put_i64_store32, put_i64_store8, put_i64_sub, put_i64_trunc_f32_s, put_i64_trunc_f32_u, put_i64_trunc_f64_s, put_i64_trunc_f64_u, put_i64_xor, put_if, put_local_get, put_local_set, put_local_tee, put_loop, put_return, put_select, put_unreachable,
};
use crate::error::CompileError;
use crate::ir::{emit, ops, WasmFunction, WasmInst, WasmModule, WasmOp};
use crate::ordered::{ascending, increasing, lists, map_get, map_insert, sorted_keys};
use std::collections::BTreeMap;
use vstd::string::StringSliceAdditionalSpecFns;
use vstd::prelude::*;

verus! {

broadcast use vstd::std_specs::btree::group_btree_axioms;

// ---------------------------------------------------------------------------
// Block functions
// ---------------------------------------------------------------------------

/// The binary encoding of one operation. Typed memory operations carry
/// their natural alignment: 0 for a byte, 1 for a half, 2 for a word and 3
/// for a doubleword. Indirect calls go through table 0. Annotations encode
/// to nothing.
pub open spec fn encoding(op: WasmOp) -> Seq<u8> {
    match op {
        WasmOp::Block { label } => seq![0x02u8, 0x40u8],
        WasmOp::Loop { label } => seq![0x03u8, 0x40u8],
        WasmOp::If { label } => seq![0x04u8, 0x40u8],
        WasmOp::End => seq![0x0Bu8],
        WasmOp::Br { label } => seq![0x0Cu8] + leb_unsigned(label as nat),
        WasmOp::BrIf { label } => seq![0x0Du8] + leb_unsigned(label as nat),
        WasmOp::BrTable { labels, default } => br_table_code(labels, default),
        WasmOp::Return => seq![0x0Fu8],
        WasmOp::Call { func_idx } => seq![0x10u8] + leb_unsigned(func_idx as nat),
        WasmOp::CallIndirect { type_idx } => seq![0x11u8] + leb_unsigned(type_idx as nat) + leb_unsigned(0),
        WasmOp::LocalGet { idx } => seq![0x20u8] + leb_unsigned(idx as nat),
        WasmOp::LocalSet { idx } => seq![0x21u8] + leb_unsigned(idx as nat),
        WasmOp::LocalTee { idx } => seq![0x22u8] + leb_unsigned(idx as nat),
        WasmOp::I32Const { value } => seq![0x41u8] + leb_signed(value as int),
        WasmOp::I64Const { value } => seq![0x42u8] + leb_signed(value as int),
        WasmOp::I32Load { offset } => mem_code(0x28u8, 2, offset),
        WasmOp::I64Load { offset } => mem_code(0x29u8, 3, offset),
        WasmOp::I32Load8S { offset } => mem_code(0x2Cu8, 0, offset),
        WasmOp::I32Load8U { offset } => mem_code(0x2Du8, 0, offset),
        WasmOp::I32Load16S { offset } => mem_code(0x2Eu8, 1, offset),
        WasmOp::I32Load16U { offset } => mem_code(0x2Fu8, 1, offset),
        WasmOp::I64Load8S { offset } => mem_code(0x30u8, 0, offset),
        WasmOp::I64Load8U { offset } => mem_code(0x31u8, 0, offset),
        WasmOp::I64Load16S { offset } => mem_code(0x32u8, 1, offset),
        WasmOp::I64Load16U { offset } => mem_code(0x33u8, 1, offset),
        WasmOp::I64Load32S { offset } => mem_code(0x34u8, 2, offset),
        WasmOp::I64Load32U { offset } => mem_code(0x35u8, 2, offset),
        WasmOp::I32Store { offset } => mem_code(0x36u8, 2, offset),
        WasmOp::I64Store { offset } => mem_code(0x37u8, 3, offset),
        WasmOp::I32Store8 { offset } => mem_code(0x3Au8, 0, offset),
        WasmOp::I32Store16 { offset } => mem_code(0x3Bu8, 1, offset),
        WasmOp::I64Store8 { offset } => mem_code(0x3Cu8, 0, offset),
        WasmOp::I64Store16 { offset } => mem_code(0x3Du8, 1, offset),
        WasmOp::I64Store32 { offset } => mem_code(0x3Eu8, 2, offset),
        WasmOp::I64Add => seq![0x7Cu8],
        WasmOp::I64Sub => seq![0x7Du8],
        WasmOp::I64Mul => seq![0x7Eu8],
        WasmOp::I64DivS => seq![0x7Fu8],
        WasmOp::I64DivU => seq![0x80u8],
        WasmOp::I64RemS => seq![0x81u8],
        WasmOp::I64RemU => seq![0x82u8],
        WasmOp::I64And => seq![0x83u8],
        WasmOp::I64Or => seq![0x84u8],
        WasmOp::I64Xor => seq![0x85u8],
        WasmOp::I64Shl => seq![0x86u8],
        WasmOp::I64ShrS => seq![0x87u8],
        WasmOp::I64ShrU => seq![0x88u8],
        WasmOp::I64Rotl => seq![0x89u8],
        WasmOp::I64Rotr => seq![0x8Au8],
        WasmOp::I64Clz => seq![0x79u8],
        WasmOp::I64Ctz => seq![0x7Au8],
        WasmOp::I64Popcnt => seq![0x7Bu8],
        WasmOp::I64Eqz => seq![0x50u8],
        WasmOp::I64Eq => seq![0x51u8],
        WasmOp::I64Ne => seq![0x52u8],
        WasmOp::I64LtS => seq![0x53u8],
        WasmOp::I64LtU => seq![0x54u8],
        WasmOp::I64GtS => seq![0x55u8],
        WasmOp::I64GtU => seq![0x56u8],
        WasmOp::I64LeS => seq![0x57u8],
        WasmOp::I64LeU => seq![0x58u8],
        WasmOp::I64GeS => seq![0x59u8],
        WasmOp::I64GeU => seq![0x5Au8],
        WasmOp::I32Add => seq![0x6Au8],
        WasmOp::I32Sub => seq![0x6Bu8],
        WasmOp::I32Mul => seq![0x6Cu8],
        WasmOp::I32DivS => seq![0x6Du8],
        WasmOp::I32DivU => seq![0x6Eu8],
        WasmOp::I32RemS => seq![0x6Fu8],
        WasmOp::I32RemU => seq![0x70u8],
        WasmOp::I32And => seq![0x71u8],
        WasmOp::I32Or => seq![0x72u8],
        WasmOp::I32Xor => seq![0x73u8],
        WasmOp::I32Shl => seq![0x74u8],
        WasmOp::I32ShrS => seq![0x75u8],
        WasmOp::I32ShrU => seq![0x76u8],
        WasmOp::I32Eqz => seq![0x45u8],
        WasmOp::I32Eq => seq![0x46u8],
        WasmOp::I32Ne => seq![0x47u8],
        WasmOp::I32LtS => seq![0x48u8],
        WasmOp::I32LtU => seq![0x49u8],
        WasmOp::I32GtS => seq![0x4Au8],
        WasmOp::I32GtU => seq![0x4Bu8],
        WasmOp::I32LeS => seq![0x4Cu8],
        WasmOp::I32LeU => seq![0x4Du8],
        WasmOp::I32GeS => seq![0x4Eu8],
        WasmOp::I32GeU => seq![0x4Fu8],
        WasmOp::I32WrapI64 => seq![0xA7u8],
        WasmOp::I64ExtendI32S => seq![0xACu8],
        WasmOp::I64ExtendI32U => seq![0xADu8],
        WasmOp::F32Load { offset } => mem_code(0x2Au8, 2, offset),
        WasmOp::F32Store { offset } => mem_code(0x38u8, 2, offset),
        WasmOp::F32Add => seq![0x92u8],
        WasmOp::F32Sub => seq![0x93u8],
        WasmOp::F32Mul => seq![0x94u8],
        WasmOp::F32Div => seq![0x95u8],
        WasmOp::F32Sqrt => seq![0x91u8],
        WasmOp::F32Neg => seq![0x8Cu8],
        WasmOp::F32Abs => seq![0x8Bu8],
        WasmOp::F32Ceil => seq![0x8Du8],
        WasmOp::F32Floor => seq![0x8Eu8],
        WasmOp::F32Trunc => seq![0x8Fu8],
        WasmOp::F32Nearest => seq![0x90u8],
        WasmOp::F32Eq => seq![0x5Bu8],
        WasmOp::F32Ne => seq![0x5Cu8],
        WasmOp::F32Lt => seq![0x5Du8],
        WasmOp::F32Gt => seq![0x5Eu8],
        WasmOp::F32Le => seq![0x5Fu8],
        WasmOp::F32Ge => seq![0x60u8],
        WasmOp::F32Min => seq![0x96u8],
        WasmOp::F32Max => seq![0x97u8],
        WasmOp::F32Copysign => seq![0x98u8],
        WasmOp::F64Load { offset } => mem_code(0x2Bu8, 3, offset),
        WasmOp::F64Store { offset } => mem_code(0x39u8, 3, offset),
        WasmOp::F64Add => seq![0xA0u8],
        WasmOp::F64Sub => seq![0xA1u8],
        WasmOp::F64Mul => seq![0xA2u8],
        WasmOp::F64Div => seq![0xA3u8],
        WasmOp::F64Sqrt => seq![0x9Fu8],
        WasmOp::F64Neg => seq![0x9Au8],
        WasmOp::F64Abs => seq![0x99u8],
        WasmOp::F64Ceil => seq![0x9Bu8],
        WasmOp::F64Floor => seq![0x9Cu8],
        WasmOp::F64Trunc => seq![0x9Du8],
        WasmOp::F64Nearest => seq![0x9Eu8],
        WasmOp::F64Eq => seq![0x61u8],
        WasmOp::F64Ne => seq![0x62u8],
        WasmOp::F64Lt => seq![0x63u8],
        WasmOp::F64Gt => seq![0x64u8],
        WasmOp::F64Le => seq![0x65u8],
        WasmOp::F64Ge => seq![0x66u8],
        WasmOp::F64Min => seq![0xA4u8],
        WasmOp::F64Max => seq![0xA5u8],
        WasmOp::F64Copysign => seq![0xA6u8],
        WasmOp::F32ConvertI32S => seq![0xB2u8],
        WasmOp::F32ConvertI32U => seq![0xB3u8],
        WasmOp::F32ConvertI64S => seq![0xB4u8],
        WasmOp::F32ConvertI64U => seq![0xB5u8],
        WasmOp::F64ConvertI32S => seq![0xB7u8],
        WasmOp::F64ConvertI32U => seq![0xB8u8],
        WasmOp::F64ConvertI64S => seq![0xB9u8],
        WasmOp::F64ConvertI64U => seq![0xBAu8],
        WasmOp::I32TruncF32S => seq![0xA8u8],
        WasmOp::I32TruncF32U => seq![0xA9u8],
        WasmOp::I32TruncF64S => seq![0xAAu8],
        WasmOp::I32TruncF64U => seq![0xABu8],
        WasmOp::I64TruncF32S => seq![0xAEu8],
        WasmOp::I64TruncF32U => seq![0xAFu8],
        WasmOp::I64TruncF64S => seq![0xB0u8],
        WasmOp::I64TruncF64U => seq![0xB1u8],
        WasmOp::F32DemoteF64 => seq![0xB6u8],
        WasmOp::F64PromoteF32 => seq![0xBBu8],
        WasmOp::F32ReinterpretI32 => seq![0xBEu8],
        WasmOp::F64ReinterpretI64 => seq![0xBFu8],
        WasmOp::I32ReinterpretF32 => seq![0xBCu8],
        WasmOp::I64ReinterpretF64 => seq![0xBDu8],
        WasmOp::Drop => seq![0x1Au8],
        WasmOp::Select => seq![0x1Bu8],
        WasmOp::Unreachable => seq![0x00u8],
        WasmOp::Comment { text } => Seq::<u8>::empty(),
    }
}

/// Does the operation fit the binary format, which counts with 32 bits?
pub open spec fn encodable(op: WasmOp) -> bool {
    match op {
        WasmOp::BrTable { labels, default } => labels.len() <= u32::MAX,
        _ => true,
    }
}

/// Emits a single operation.
#[verifier::rlimit(60)]
pub fn emit_instruction(func: &mut FunctionBody, inst: &WasmInst) -> (r: Result<
    (),
    CompileError,
>)
    ensures
        encodable(inst@) ==> r is Ok,
        r is Ok ==> encodable(inst@) && function_code(*final(func)) == function_code(*old(func))
            + encoding(inst@),
        r is Err ==> r == Err::<(), CompileError>(CompileError::ModuleTooLarge) && function_code(
            *final(func),
        ) == function_code(*old(func)),
{
    proof {
        assert(function_code(*func) + Seq::<u8>::empty() =~= function_code(*func));
    }
    match inst {
        WasmInst::Block { label } => put_block(func),
        WasmInst::Loop { label } => put_loop(func),
        WasmInst::If { label } => put_if(func),
        WasmInst::End => put_end(func),
        WasmInst::Br { label } => put_br(func, *label),
        WasmInst::BrIf { label } => put_br_if(func, *label),
        WasmInst::BrTable { labels, default } => {
            if labels.len() > u32::MAX as usize {
                return Err(CompileError::ModuleTooLarge);
            }
            put_br_table(func, labels, *default)
        },
        WasmInst::Return => put_return(func),
        WasmInst::Call { func_idx } => put_call(func, *func_idx),
        WasmInst::CallIndirect { type_idx } => put_call_indirect(func, *type_idx, 0),
        WasmInst::LocalGet { idx } => put_local_get(func, *idx),
        WasmInst::LocalSet { idx } => put_local_set(func, *idx),
        WasmInst::LocalTee { idx } => put_local_tee(func, *idx),
        WasmInst::I32Const { value } => put_i32_const(func, *value),
        WasmInst::I64Const { value } => put_i64_const(func, *value),
        WasmInst::I32Load { offset } => put_i32_load(func, *offset, 2),
        WasmInst::I64Load { offset } => put_i64_load(func, *offset, 3),
        WasmInst::I32Load8S { offset } => put_i32_load8_s(func, *offset, 0),
        WasmInst::I32Load8U { offset } => put_i32_load8_u(func, *offset, 0),
        WasmInst::I32Load16S { offset } => put_i32_load16_s(func, *offset, 1),
        WasmInst::I32Load16U { offset } => put_i32_load16_u(func, *offset, 1),
        WasmInst::I64Load8S { offset } => put_i64_load8_s(func, *offset, 0),
        WasmInst::I64Load8U { offset } => put_i64_load8_u(func, *offset, 0),
        WasmInst::I64Load16S { offset } => put_i64_load16_s(func, *offset, 1),
        WasmInst::I64Load16U { offset } => put_i64_load16_u(func, *offset, 1),
        WasmInst::I64Load32S { offset } => put_i64_load32_s(func, *offset, 2),
        WasmInst::I64Load32U { offset } => put_i64_load32_u(func, *offset, 2),
        WasmInst::I32Store { offset } => put_i32_store(func, *offset, 2),
        WasmInst::I64Store { offset } => put_i64_store(func, *offset, 3),
        WasmInst::I32Store8 { offset } => put_i32_store8(func, *offset, 0),
        WasmInst::I32Store16 { offset } => put_i32_store16(func, *offset, 1),
        WasmInst::I64Store8 { offset } => put_i64_store8(func, *offset, 0),
        WasmInst::I64Store16 { offset } => put_i64_store16(func, *offset, 1),
        WasmInst::I64Store32 { offset } => put_i64_store32(func, *offset, 2),
        WasmInst::I64Add => put_i64_add(func),
        WasmInst::I64Sub => put_i64_sub(func),
        WasmInst::I64Mul => put_i64_mul(func),
        WasmInst::I64DivS => put_i64_div_s(func),
        WasmInst::I64DivU => put_i64_div_u(func),
        WasmInst::I64RemS => put_i64_rem_s(func),
        WasmInst::I64RemU => put_i64_rem_u(func),
        WasmInst::I64And => put_i64_and(func),
        WasmInst::I64Or => put_i64_or(func),
        WasmInst::I64Xor => put_i64_xor(func),
        WasmInst::I64Shl => put_i64_shl(func),
        WasmInst::I64ShrS => put_i64_shr_s(func),
        WasmInst::I64ShrU => put_i64_shr_u(func),
        WasmInst::I64Rotl => put_i64_rotl(func),
        WasmInst::I64Rotr => put_i64_rotr(func),
        WasmInst::I64Clz => put_i64_clz(func),
        WasmInst::I64Ctz => put_i64_ctz(func),
        WasmInst::I64Popcnt => put_i64_popcnt(func),
        WasmInst::I64Eqz => put_i64_eqz(func),
        WasmInst::I64Eq => put_i64_eq(func),
        WasmInst::I64Ne => put_i64_ne(func),
        WasmInst::I64LtS => put_i64_lt_s(func),
        WasmInst::I64LtU => put_i64_lt_u(func),
        WasmInst::I64GtS => put_i64_gt_s(func),
        WasmInst::I64GtU => put_i64_gt_u(func),
        WasmInst::I64LeS => put_i64_le_s(func),
        WasmInst::I64LeU => put_i64_le_u(func),
        WasmInst::I64GeS => put_i64_ge_s(func),
        WasmInst::I64GeU => put_i64_ge_u(func),
        WasmInst::I32Add => put_i32_add(func),
        WasmInst::I32Sub => put_i32_sub(func),
        WasmInst::I32Mul => put_i32_mul(func),
        WasmInst::I32DivS => put_i32_div_s(func),
        WasmInst::I32DivU => put_i32_div_u(func),
        WasmInst::I32RemS => put_i32_rem_s(func),
        WasmInst::I32RemU => put_i32_rem_u(func),
        WasmInst::I32And => put_i32_and(func),
        WasmInst::I32Or => put_i32_or(func),
        WasmInst::I32Xor => put_i32_xor(func),
        WasmInst::I32Shl => put_i32_shl(func),
        WasmInst::I32ShrS => put_i32_shr_s(func),
        WasmInst::I32ShrU => put_i32_shr_u(func),
        WasmInst::I32Eqz => put_i32_eqz(func),
        WasmInst::I32Eq => put_i32_eq(func),
        WasmInst::I32Ne => put_i32_ne(func),
        WasmInst::I32LtS => put_i32_lt_s(func),
        WasmInst::I32LtU => put_i32_lt_u(func),
        WasmInst::I32GtS => put_i32_gt_s(func),
        WasmInst::I32GtU => put_i32_gt_u(func),
        WasmInst::I32LeS => put_i32_le_s(func),
        WasmInst::I32LeU => put_i32_le_u(func),
        WasmInst::I32GeS => put_i32_ge_s(func),
        WasmInst::I32GeU => put_i32_ge_u(func),
        WasmInst::I32WrapI64 => put_i32_wrap_i64(func),
        WasmInst::I64ExtendI32S => put_i64_extend_i32_s(func),
        WasmInst::I64ExtendI32U => put_i64_extend_i32_u(func),
        WasmInst::F32Load { offset } => put_f32_load(func, *offset, 2),
        WasmInst::F32Store { offset } => put_f32_store(func, *offset, 2),
        WasmInst::F32Add => put_f32_add(func),
        WasmInst::F32Sub => put_f32_sub(func),
        WasmInst::F32Mul => put_f32_mul(func),
        WasmInst::F32Div => put_f32_div(func),
        WasmInst::F32Sqrt => put_f32_sqrt(func),
        WasmInst::F32Neg => put_f32_neg(func),
        WasmInst::F32Abs => put_f32_abs(func),
        WasmInst::F32Ceil => put_f32_ceil(func),
        WasmInst::F32Floor => put_f32_floor(func),
        WasmInst::F32Trunc => put_f32_trunc(func),
        WasmInst::F32Nearest => put_f32_nearest(func),
        WasmInst::F32Eq => put_f32_eq(func),
        WasmInst::F32Ne => put_f32_ne(func),
        WasmInst::F32Lt => put_f32_lt(func),
        WasmInst::F32Gt => put_f32_gt(func),
        WasmInst::F32Le => put_f32_le(func),
        WasmInst::F32Ge => put_f32_ge(func),
        WasmInst::F32Min => put_f32_min(func),
        WasmInst::F32Max => put_f32_max(func),
        WasmInst::F32Copysign => put_f32_copysign(func),
        WasmInst::F64Load { offset } => put_f64_load(func, *offset, 3),
        WasmInst::F64Store { offset } => put_f64_store(func, *offset, 3),
        WasmInst::F64Add => put_f64_add(func),
        WasmInst::F64Sub => put_f64_sub(func),
        WasmInst::F64Mul => put_f64_mul(func),
        WasmInst::F64Div => put_f64_div(func),
        WasmInst::F64Sqrt => put_f64_sqrt(func),
        WasmInst::F64Neg => put_f64_neg(func),
        WasmInst::F64Abs => put_f64_abs(func),
        WasmInst::F64Ceil => put_f64_ceil(func),
        WasmInst::F64Floor => put_f64_floor(func),
        WasmInst::F64Trunc => put_f64_trunc(func),
        WasmInst::F64Nearest => put_f64_nearest(func),
        WasmInst::F64Eq => put_f64_eq(func),
        WasmInst::F64Ne => put_f64_ne(func),
        WasmInst::F64Lt => put_f64_lt(func),
        WasmInst::F64Gt => put_f64_gt(func),
        WasmInst::F64Le => put_f64_le(func),
        WasmInst::F64Ge => put_f64_ge(func),
        WasmInst::F64Min => put_f64_min(func),
        WasmInst::F64Max => put_f64_max(func),
        WasmInst::F64Copysign => put_f64_copysign(func),
        WasmInst::F32ConvertI32S => put_f32_convert_i32_s(func),
        WasmInst::F32ConvertI32U => put_f32_convert_i32_u(func),
        WasmInst::F32ConvertI64S => put_f32_convert_i64_s(func),
        WasmInst::F32ConvertI64U => put_f32_convert_i64_u(func),
        WasmInst::F64ConvertI32S => put_f64_convert_i32_s(func),
        WasmInst::F64ConvertI32U => put_f64_convert_i32_u(func),
        WasmInst::F64ConvertI64S => put_f64_convert_i64_s(func),
        WasmInst::F64ConvertI64U => put_f64_convert_i64_u(func),
        WasmInst::I32TruncF32S => put_i32_trunc_f32_s(func),
        WasmInst::I32TruncF32U => put_i32_trunc_f32_u(func),
        WasmInst::I32TruncF64S => put_i32_trunc_f64_s(func),
        WasmInst::I32TruncF64U => put_i32_trunc_f64_u(func),
        WasmInst::I64TruncF32S => put_i64_trunc_f32_s(func),
        WasmInst::I64TruncF32U => put_i64_trunc_f32_u(func),
        WasmInst::I64TruncF64S => put_i64_trunc_f64_s(func),
        WasmInst::I64TruncF64U => put_i64_trunc_f64_u(func),
        WasmInst::F32DemoteF64 => put_f32_demote_f64(func),
        WasmInst::F64PromoteF32 => put_f64_promote_f32(func),
        WasmInst::F32ReinterpretI32 => put_f32_reinterpret_i32(func),
        WasmInst::F64ReinterpretI64 => put_f64_reinterpret_i64(func),
        WasmInst::I32ReinterpretF32 => put_i32_reinterpret_f32(func),
        WasmInst::I64ReinterpretF64 => put_i64_reinterpret_f64(func),
        WasmInst::Drop => put_drop(func),
        WasmInst::Select => put_select(func),
        WasmInst::Unreachable => put_unreachable(func),
        WasmInst::Comment { text } => {},
    }
    Ok(())
}

/// The encodings of a sequence of operations, in order.
pub open spec fn body_code(body: Seq<WasmOp>) -> Seq<u8>
    decreases body.len(),
{
    if body.len() == 0 {
        Seq::<u8>::empty()
    } else {
        body_code(body.drop_last()) + encoding(body.last())
    }
}

/// Is every operation of the body encodable?
pub open spec fn body_encodable(body: Seq<WasmOp>) -> bool {
    forall|i: int| 0 <= i < body.len() ==> encodable(#[trigger] body[i])
}

/// The code of a block function: the declaration of its extra locals, all
/// of type i64, its operations, and the closing `end`.
pub open spec fn block_code(num_locals: u32, body: Seq<WasmOp>) -> Seq<u8> {
    leb_unsigned(1) + leb_unsigned(num_locals as nat) + seq![0x7Eu8] + body_code(body) + seq![
        0x0Bu8,
    ]
}

/// Builds the code of a block function.
pub fn build_block_function(func: &WasmFunction) -> (r: Result<FunctionBody, CompileError>)
    ensures
        r is Ok <==> body_encodable(ops(func.body@)),
        r is Ok ==> function_code(r->Ok_0) == block_code(func.num_locals, ops(func.body@)),
        r is Err ==> r->Err_0 == CompileError::ModuleTooLarge,
{
    let mut wasm_func = new_function_i64(func.num_locals);
    let ghost head = function_code(wasm_func);
    let mut i: usize = 0;
    while i < func.body.len()
        invariant
            i <= func.body.len(),
            function_code(wasm_func) == head + body_code(ops(func.body@).take(i as int)),
            body_encodable(ops(func.body@).take(i as int)),
        decreases func.body.len() - i,
    {
        let ghost all = ops(func.body@);
        proof {
            assert(all.take(i + 1).drop_last() =~= all.take(i as int));
            assert(all.take(i + 1).last() == func.body@[i as int]@);
        }
        match emit_instruction(&mut wasm_func, &func.body[i]) {
            Ok(()) => {},
            Err(e) => {
                assert(!encodable(all[i as int]));
                return Err(e);
            },
        }
        proof {
            assert(head + body_code(all.take(i as int)) + encoding(all[i as int]) =~= head + (
            body_code(all.take(i as int)) + encoding(all[i as int])));
            assert forall|j: int| 0 <= j < i + 1 implies encodable(#[trigger] all.take(i + 1)[j]) by {
                if j < i {
                    assert(all.take(i + 1)[j] == all.take(i as int)[j]);
                }
            }
        }
        i += 1;
    }
    proof {
        assert(ops(func.body@).take(i as int) =~= ops(func.body@));
    }
    put_end(&mut wasm_func);
    Ok(wasm_func)
}


// ---------------------------------------------------------------------------
// Choice of the dispatch strategy
// ---------------------------------------------------------------------------

/// The greatest common divisor, by Euclid's algorithm; `gcd(a, 0)` is `a`.
pub open spec fn gcd(a: nat, b: nat) -> nat
    decreases b,
{
    if b == 0 {
        a
    } else {
        gcd(b, a % b)
    }
}

/// The greatest common divisor of two numbers.
pub fn gcd_u64(a: u64, b: u64) -> (g: u64)
    ensures
        g == gcd(a as nat, b as nat),
    decreases b,
{
    if b == 0 {
        a
    } else {
        gcd_u64(b, a % b)
    }
}

/// The greatest common divisor of the offsets of the addresses after the
/// first from the first; 0 if there is none.
pub open spec fn offsets_gcd(addrs: Seq<(u64, u32)>) -> nat
    decreases addrs.len(),
{
    if addrs.len() <= 1 {
        0
    } else {
        gcd(offsets_gcd(addrs.drop_last()), (addrs.last().0 - addrs[0].0) as nat)
    }
}

/// The alignment of a list of block addresses: the greatest common divisor
/// of their offsets from the first, and 2, the alignment of a compressed
/// instruction, where that is undefined.
pub open spec fn alignment_of(addrs: Seq<(u64, u32)>) -> nat {
    if addrs.len() <= 1 || offsets_gcd(addrs) == 0 {
        2
    } else {
        offsets_gcd(addrs)
    }
}

/// Is no address below the first?
pub open spec fn based(addrs: Seq<(u64, u32)>) -> bool {
    forall|i: int| 0 <= i < addrs.len() ==> addrs[0].0 <= (#[trigger] addrs[i]).0
}

proof fn lemma_gcd_bound(a: nat, b: nat)
    ensures
        gcd(a, b) <= (if a >= b {
            a
        } else {
            b
        }),
        b > 0 ==> 0 < gcd(a, b) <= b,
    decreases b,
{
    if b != 0 {
        lemma_gcd_bound(b, a % b);
    }
}

/// The alignment of block addresses for dense indexing of a `br_table`.
/// The addresses are those of a block map: none lies below the first.
pub fn compute_addr_alignment(addrs: &[(u64, u32)]) -> (alignment: u64)
    requires
        based(addrs@),
    ensures
        alignment == alignment_of(addrs@),
        alignment > 0,
{
    if addrs.len() <= 1 {
        return 2;
    }
    let base = addrs[0].0;
    let mut g: u64 = 0;
    let mut i: usize = 1;
    proof {
        assert(addrs@.take(1).len() == 1);
    }
    while i < addrs.len()
        invariant
            1 <= i <= addrs.len(),
            based(addrs@),
            base == addrs@[0].0,
            g == offsets_gcd(addrs@.take(i as int)),
        decreases addrs.len() - i,
    {
        proof {
            assert(addrs@.take(i + 1).drop_last() =~= addrs@.take(i as int));
            assert(addrs@.take(i + 1).last() == addrs@[i as int]);
            assert(addrs@.take(i + 1)[0] == addrs@[0]);
            lemma_gcd_bound(g as nat, (addrs@[i as int].0 - base) as nat);
        }
        g = gcd_u64(g, addrs[i].0 - base);
        i += 1;
    }
    proof {
        assert(addrs@.take(i as int) =~= addrs@);
    }
    if g == 0 {
        2
    } else {
        g
    }
}

/// The block addresses of the functions, in function order.
pub open spec fn addresses(functions: Seq<WasmFunction>) -> Seq<u64> {
    functions.map_values(|f: WasmFunction| f.block_addr)
}

/// Do the addresses step from the first one by `stride`?
pub open spec fn strided(addrs: Seq<u64>, stride: nat) -> bool {
    forall|i: int| 0 <= i < addrs.len() ==> (#[trigger] addrs[i]) == addrs[0] + i * stride
}

/// The stride that dense dispatch divides by: the step from the first
/// address to the second, and 4 where there is no second.
pub open spec fn dense_stride(addrs: Seq<u64>) -> nat {
    if addrs.len() >= 2 && addrs[1] > addrs[0] {
        (addrs[1] - addrs[0]) as nat
    } else {
        4
    }
}

/// Are the block addresses dense enough for indexing by `(pc - base) /
/// stride`? They are if there is at most one, or if they step by a common
/// stride, fill at least half of the 4-byte slots of the range they span,
/// and span less than 4 GiB.
pub open spec fn dense(addrs: Seq<u64>) -> bool {
    addrs.len() <= 1 || (addrs[1] > addrs[0] && strided(addrs, dense_stride(addrs)) && (
    addrs.last() - addrs[0]) / 4 + 1 <= 2 * addrs.len() && addrs.last() - addrs[0] <= u32::MAX)
}

/// Checks whether the block addresses are dense enough for indexing by
/// `(pc - base) / stride`.
pub fn can_use_dense_table(module: &WasmModule) -> (r: bool)
    ensures
        r == dense(addresses(module.functions@)),
{
    let n = module.functions.len();
    let ghost addrs = addresses(module.functions@);
    if n <= 1 {
        return true;
    }
    let base = module.functions[0].block_addr;
    let second = module.functions[1].block_addr;
    if second <= base {
        return false;
    }
    let stride: u64 = second - base;
    let mut i: usize = 1;
    while i < n
        invariant
            n == module.functions.len(),
            n >= 2,
            addrs == addresses(module.functions@),
            base == addrs[0],
            stride == dense_stride(addrs),
            stride > 0,
            1 <= i <= n,
            forall|j: int| 0 <= j < i ==> (#[trigger] addrs[j]) == base + j * stride,
        decreases n - i,
    {
        let prev = module.functions[i - 1].block_addr;
        let cur = module.functions[i].block_addr;
        proof {
            assert(addrs[i - 1] == prev);
            assert(addrs[i as int] == cur);
            assert(i * stride == (i - 1) * stride + stride) by (nonlinear_arith);
        }
        if cur <= prev || cur - prev != stride {
            proof {
                if strided(addrs, stride as nat) {
                    assert(addrs[i as int] == addrs[0] + i * stride);
                }
            }
            return false;
        }
        i += 1;
    }
    proof {
        assert(strided(addrs, stride as nat));
        assert(addrs.last() == addrs[n - 1]);
        assert((n - 1) * stride >= 0) by (nonlinear_arith)
            requires
                n >= 1,
                stride > 0,
        ;
    }
    let span: u64 = module.functions[n - 1].block_addr - base;
    span <= 0xFFFF_FFFF && (n >= 0x4000_0000 || span / 4 + 1 <= (n as u64) * 2)
}


/// How the dispatcher finds the block function of a PC.
#[derive(Debug, Clone, Copy, PartialEq, Eq, Structural)]
pub enum DispatchStrategy {
    /// The module has no block: every PC halts.
    Halt,
    /// The index of the function is `(pc - base) / stride`.
    Dense { base: u64, stride: u64 },
    /// A `br_table` over `(pc - base) / alignment`, with `table_size` slots.
    BrTable { base: u64, alignment: u64, table_size: u64 },
    /// A chain of comparisons, one for each block address.
    IfChain,
}

/// Largest `br_table` that the dispatcher uses.
pub const MAX_TABLE: u64 = 65536;

/// Largest number of block functions of a module: each has a function
/// index, behind the system-call callback and the dispatcher.
pub const MAX_BLOCKS: usize = 0xFFFF_FFFD;

/// The table slot of each block address: the index of the last function
/// made from a block at that address.
pub open spec fn slot_map(addrs: Seq<u64>) -> Map<u64, u32>
    decreases addrs.len(),
{
    if addrs.len() == 0 {
        Map::<u64, u32>::empty()
    } else {
        slot_map(addrs.drop_last()).insert(addrs.last(), (addrs.len() - 1) as u32)
    }
}

/// The block addresses in increasing order, each with its table slot.
pub open spec fn entries_of(addrs: Seq<u64>) -> Seq<(u64, u32)> {
    let order = ascending(slot_map(addrs).dom());
    Seq::new(order.len(), |i: int| (order[i], slot_map(addrs)[order[i]]))
}

/// The addresses of a list of entries.
pub open spec fn keys_of(entries: Seq<(u64, u32)>) -> Seq<u64> {
    entries.map_values(|e: (u64, u32)| e.0)
}

/// The number of slots of the `br_table` for entries in increasing order.
pub open spec fn table_size_of(entries: Seq<(u64, u32)>) -> nat {
    if entries.len() == 0 || entries.last().0 == entries[0].0 {
        1
    } else {
        ((entries.last().0 - entries[0].0) / alignment_of(entries) as int + 1) as nat
    }
}

/// The strategy for a module with the given block addresses: dense
/// indexing where the addresses are dense, else a `br_table` where it has
/// at most 65536 slots, else a chain of comparisons.
pub open spec fn strategy_of(addrs: Seq<u64>) -> DispatchStrategy {
    if addrs.len() == 0 {
        DispatchStrategy::Halt
    } else if dense(addrs) {
        DispatchStrategy::Dense { base: addrs[0], stride: dense_stride(addrs) as u64 }
    } else {
        let entries = entries_of(addrs);
        if table_size_of(entries) <= MAX_TABLE {
            DispatchStrategy::BrTable {
                base: entries[0].0,
                alignment: alignment_of(entries) as u64,
                table_size: table_size_of(entries) as u64,
            }
        } else {
            DispatchStrategy::IfChain
        }
    }
}

proof fn lemma_slot_map_dom(addrs: Seq<u64>)
    ensures
        slot_map(addrs).dom() == addrs.to_set(),
        slot_map(addrs).dom().finite(),
    decreases addrs.len(),
{
    if addrs.len() == 0 {
        assert(slot_map(addrs).dom() =~= addrs.to_set());
    } else {
        lemma_slot_map_dom(addrs.drop_last());
        assert(addrs =~= addrs.drop_last().push(addrs.last()));
        crate::ordered::lemma_push_to_set(addrs.drop_last(), addrs.last());
        assert(slot_map(addrs).dom() =~= slot_map(addrs.drop_last()).dom().insert(addrs.last()));
    }
    vstd::seq_lib::seq_to_set_is_finite(addrs);
}

/// The block addresses of a module in increasing order, each with its
/// table slot.
pub fn dispatch_entries(module: &WasmModule) -> (entries: Vec<(u64, u32)>)
    requires
        module.functions@.len() <= MAX_BLOCKS,
    ensures
        entries@ == entries_of(addresses(module.functions@)),
        increasing(keys_of(entries@)),
        based(entries@),
        entries@.len() <= module.functions@.len(),
        module.functions@.len() > 0 ==> entries@.len() > 0,
{
    let ghost addrs = addresses(module.functions@);
    let mut slots: BTreeMap<u64, u32> = BTreeMap::new();
    let mut i: usize = 0;
    proof {
        assert(addrs.take(0) =~= Seq::<u64>::empty());
    }
    while i < module.functions.len()
        invariant
            i <= module.functions.len(),
            module.functions@.len() <= MAX_BLOCKS,
            addrs == addresses(module.functions@),
            slots@ == slot_map(addrs.take(i as int)),
        decreases module.functions.len() - i,
    {
        proof {
            assert(addrs.take(i + 1).drop_last() =~= addrs.take(i as int));
            assert(addrs.take(i + 1).last() == addrs[i as int]);
        }
        map_insert(&mut slots, module.functions[i].block_addr, i as u32);
        i += 1;
    }
    proof {
        assert(addrs.take(i as int) =~= addrs);
        lemma_slot_map_dom(addrs);
    }
    let order = sorted_keys(&slots);
    proof {
        crate::ordered::lemma_ascending(order@, slots@.dom());
        vstd::seq_lib::seq_to_set_is_finite(addrs);
        if addrs.len() > 0 {
            assert(addrs.to_set().contains(addrs[0]));
        }
        lemma_to_set_len(addrs);
    }
    let mut entries: Vec<(u64, u32)> = Vec::new();
    let mut k: usize = 0;
    while k < order.len()
        invariant
            k <= order.len(),
            lists(order@, slots@.dom()),
            slots@ == slot_map(addrs),
            entries@.len() == k,
            forall|j: int| 0 <= j < k ==> (#[trigger] entries@[j]) == (order@[j], slots@[order@[j]]),
        decreases order.len() - k,
    {
        let addr = order[k];
        proof {
            assert(order@.to_set().contains(order@[k as int]));
        }
        match map_get(&slots, addr) {
            Some(slot) => {
                entries.push((addr, *slot));
            },
            None => {
                proof {
                    assert(false);
                }
            },
        }
        k += 1;
    }
    proof {
        assert(entries@ =~= entries_of(addrs));
        assert forall|a: int, b: int| 0 <= a < b < keys_of(entries@).len() implies keys_of(
            entries@,
        )[a] < keys_of(entries@)[b] by {
            assert(keys_of(entries@)[a] == order@[a]);
            assert(keys_of(entries@)[b] == order@[b]);
        }
        assert forall|j: int| 0 <= j < entries@.len() implies entries@[0].0 <= (
        #[trigger] entries@[j]).0 by {
            if j > 0 {
                assert(order@[0] < order@[j]);
            }
        }
    }
    entries
}

proof fn lemma_to_set_len(s: Seq<u64>)
    ensures
        s.to_set().len() <= s.len(),
    decreases s.len(),
{
    if s.len() == 0 {
        assert(s.to_set() =~= Set::<u64>::empty());
    } else {
        lemma_to_set_len(s.drop_last());
        assert(s =~= s.drop_last().push(s.last()));
        crate::ordered::lemma_push_to_set(s.drop_last(), s.last());
        vstd::seq_lib::seq_to_set_is_finite(s.drop_last());
        vstd::set::axiom_set_insert_len(s.drop_last().to_set(), s.last());
    }
}

fn table_size(entries: &Vec<(u64, u32)>, alignment: u64) -> (size: u64)
    requires
        entries@.len() > 0,
        increasing(keys_of(entries@)),
        alignment == alignment_of(entries@),
        alignment > 0,
    ensures
        size == table_size_of(entries@) || (size == u64::MAX && table_size_of(entries@) > MAX_TABLE),
        size >= 1,
{
    let n = entries.len();
    let base = entries[0].0;
    let max_addr = entries[n - 1].0;
    proof {
        assert(keys_of(entries@)[0] == base);
        assert(keys_of(entries@)[n - 1] == max_addr);
        assert(entries@.last() == entries@[n - 1]);
    }
    if max_addr == base {
        1
    } else {
        let quotient = (max_addr - base) / alignment;
        if quotient == u64::MAX {
            u64::MAX
        } else {
            quotient + 1
        }
    }
}

/// Chooses the dispatch strategy from the block addresses of the module.
/// The choice depends on the addresses alone.
pub fn dispatch_strategy(module: &WasmModule) -> (strategy: DispatchStrategy)
    requires
        module.functions@.len() <= MAX_BLOCKS,
    ensures
        strategy == strategy_of(addresses(module.functions@)),
{
    let ghost addrs = addresses(module.functions@);
    if module.functions.len() == 0 {
        DispatchStrategy::Halt
    } else if can_use_dense_table(module) {
        let base = module.functions[0].block_addr;
        let stride: u64 = if module.functions.len() >= 2 {
            proof {
                assert(addrs[0] == module.functions@[0].block_addr);
                assert(addrs[1] == module.functions@[1].block_addr);
            }
            module.functions[1].block_addr - base
        } else {
            4
        };
        proof {
            assert(addrs[0] == module.functions@[0].block_addr);
        }
        DispatchStrategy::Dense { base, stride }
    } else {
        let entries = dispatch_entries(module);
        let alignment = compute_addr_alignment(entries.as_slice());
        let size = table_size(&entries, alignment);
        if size <= MAX_TABLE {
            DispatchStrategy::BrTable { base: entries[0].0, alignment, table_size: size }
        } else {
            DispatchStrategy::IfChain
        }
    }
}


// ---------------------------------------------------------------------------
// The dispatcher
// ---------------------------------------------------------------------------

/// The head of the dispatch loop. Parameter 0 is the machine-state base,
/// parameter 1 the start PC, local 2 the current PC. A PC of -1 ends the
/// run with result 0. A PC with bit 31 set goes to the system-call
/// callback, whose result is the next PC.
pub open spec fn loop_head() -> Seq<WasmOp> {
    seq![
        WasmOp::LocalGet { idx: 1 },
        WasmOp::LocalSet { idx: 2 },
        WasmOp::Loop { label: 0 },
        WasmOp::LocalGet { idx: 2 },
        WasmOp::I32Const { value: -1i32 },
        WasmOp::I32Eq,
        WasmOp::If { label: 0 },
        WasmOp::I32Const { value: 0 },
        WasmOp::Return,
        WasmOp::End,
        WasmOp::LocalGet { idx: 2 },
        WasmOp::I32Const { value: i32::MIN },
        WasmOp::I32And,
        WasmOp::If { label: 0 },
        WasmOp::LocalGet { idx: 0 },
        WasmOp::LocalGet { idx: 2 },
        WasmOp::Call { func_idx: 0 },
        WasmOp::LocalSet { idx: 2 },
        WasmOp::Br { label: 1 },
        WasmOp::End,
    ]
}

/// The end of the dispatch loop.
pub open spec fn loop_tail() -> Seq<WasmOp> {
    seq![WasmOp::Br { label: 0 }, WasmOp::End, WasmOp::I32Const { value: 0 }, WasmOp::End]
}

/// `pc - base`, in 32 bits.
pub open spec fn offset_ops(base: u64) -> Seq<WasmOp> {
    seq![WasmOp::LocalGet { idx: 2 }, WasmOp::I32Const { value: base as i32 }, WasmOp::I32Sub]
}

/// The call of the block function in table slot `slot`, whose result is
/// the next PC, and the jump back to the head of the loop from `depth`
/// blocks inside it.
pub open spec fn call_slot(slot: u32, depth: u32) -> Seq<WasmOp> {
    seq![
        WasmOp::LocalGet { idx: 0 },
        WasmOp::I32Const { value: slot as i32 },
        WasmOp::CallIndirect { type_idx: 0 },
        WasmOp::LocalSet { idx: 2 },
        WasmOp::Br { label: depth },
    ]
}

/// An unknown PC halts: the next PC is -1.
pub open spec fn halt_ops() -> Seq<WasmOp> {
    seq![WasmOp::I32Const { value: -1i32 }, WasmOp::LocalSet { idx: 2 }]
}

/// Dense dispatch over `count` functions: where `pc - base` is a multiple
/// of `stride` and `(pc - base) / stride` is below `count`, that quotient
/// is the table slot to call; every other PC halts.
pub open spec fn dense_ops(base: u64, stride: u64, count: u32) -> Seq<WasmOp> {
    offset_ops(base) + seq![
        WasmOp::I32Const { value: stride as i32 },
        WasmOp::I32RemU,
        WasmOp::I32Eqz,
    ] + offset_ops(base) + seq![
        WasmOp::I32Const { value: stride as i32 },
        WasmOp::I32DivU,
        WasmOp::I32Const { value: count as i32 },
        WasmOp::I32LtU,
        WasmOp::I32And,
        WasmOp::If { label: 0 },
        WasmOp::LocalGet { idx: 0 },
    ] + offset_ops(base) + seq![
        WasmOp::I32Const { value: stride as i32 },
        WasmOp::I32DivU,
        WasmOp::CallIndirect { type_idx: 0 },
        WasmOp::LocalSet { idx: 2 },
        WasmOp::Br { label: 1 },
        WasmOp::End,
    ] + halt_ops()
}

/// The chain of comparisons: each block address in turn calls its slot;
/// a PC that matches none halts.
pub open spec fn chain_ops(entries: Seq<(u64, u32)>) -> Seq<WasmOp>
    decreases entries.len(),
{
    if entries.len() == 0 {
        halt_ops()
    } else {
        seq![
            WasmOp::LocalGet { idx: 2 },
            WasmOp::I32Const { value: entries[0].0 as i32 },
            WasmOp::I32Eq,
            WasmOp::If { label: 0 },
        ] + call_slot(entries[0].1, 1) + seq![WasmOp::End] + chain_ops(entries.drop_first())
    }
}

/// The label of the `br_table` slot for address `addr`: one more than the
/// position of `addr` among the block addresses, or 0, the default, if it
/// is none of them.
pub open spec fn label_at(keys: Seq<u64>, addr: int) -> u32 {
    if exists|j: int| 0 <= j < keys.len() && keys[j] == addr {
        ((choose|j: int| 0 <= j < keys.len() && keys[j] == addr) + 1) as u32
    } else {
        0
    }
}

/// The labels of the `br_table`: slot `i` stands for the address `base + i
/// * alignment`.
pub open spec fn table_labels(keys: Seq<u64>, base: u64, alignment: u64, size: nat) -> Seq<u32> {
    Seq::new(size, |i: int| label_at(keys, base + i * alignment))
}

/// `count` block openers.
pub open spec fn openers(count: nat) -> Seq<WasmOp> {
    Seq::new(count, |i: int| WasmOp::Block { label: 0 })
}

/// The landing pads of the `br_table`, innermost first: pad `j` closes its
/// block, calls the slot of entry `j`, and leaves the outermost block.
pub open spec fn pads(entries: Seq<(u64, u32)>, count: nat) -> Seq<WasmOp>
    decreases entries.len(),
{
    if entries.len() == 0 {
        Seq::<WasmOp>::empty()
    } else {
        pads(entries.drop_last(), count) + seq![WasmOp::End] + call_slot(
            entries.last().1,
            (count - entries.len()) as u32,
        )
    }
}

/// Dispatch by `br_table`: one block for each entry inside an outer block
/// and around a default block; a PC that is no multiple of the alignment
/// away from the base takes the default; the table maps `(pc - base) /
/// alignment` to the pad of its entry or to the default, which halts.
pub open spec fn table_ops(entries: Seq<(u64, u32)>, base: u64, alignment: u64, size: nat) -> Seq<
    WasmOp,
> {
    openers(entries.len() + 2) + (if alignment > 1 {
        offset_ops(base) + seq![
            WasmOp::I32Const { value: alignment as i32 },
            WasmOp::I32RemU,
            WasmOp::BrIf { label: 0 },
        ] + offset_ops(base) + seq![
            WasmOp::I32Const { value: alignment as i32 },
            WasmOp::I32DivU,
        ]
    } else {
        offset_ops(base)
    }) + seq![
        WasmOp::BrTable { labels: table_labels(keys_of(entries), base, alignment, size), default: 0 },
        WasmOp::End,
    ] + halt_ops() + seq![WasmOp::Br { label: entries.len() as u32 }] + pads(entries, entries.len())
        + seq![WasmOp::End]
}

/// The part of the loop that finds and calls the block function.
pub open spec fn select_ops(addrs: Seq<u64>) -> Seq<WasmOp> {
    match strategy_of(addrs) {
        DispatchStrategy::Halt => seq![WasmOp::I32Const { value: 0 }, WasmOp::Return],
        DispatchStrategy::Dense { base, stride } => dense_ops(base, stride, addrs.len() as u32),
        DispatchStrategy::BrTable { base, alignment, table_size } => table_ops(
            entries_of(addrs),
            base,
            alignment,
            table_size as nat,
        ),
        DispatchStrategy::IfChain => chain_ops(entries_of(addrs)),
    }
}

/// The operations of the dispatcher for a module with the given block
/// addresses.
pub open spec fn dispatch_ops(addrs: Seq<u64>) -> Seq<WasmOp> {
    loop_head() + select_ops(addrs) + loop_tail()
}

fn head_code() -> (v: Vec<WasmInst>)
    ensures
        ops(v@) == loop_head(),
{
    let v = vec![
        WasmInst::LocalGet { idx: 1 },
        WasmInst::LocalSet { idx: 2 },
        WasmInst::Loop { label: 0 },
        WasmInst::LocalGet { idx: 2 },
        WasmInst::I32Const { value: -1 },
        WasmInst::I32Eq,
        WasmInst::If { label: 0 },
        WasmInst::I32Const { value: 0 },
        WasmInst::Return,
        WasmInst::End,
        WasmInst::LocalGet { idx: 2 },
        WasmInst::I32Const { value: i32::MIN },
        WasmInst::I32And,
        WasmInst::If { label: 0 },
        WasmInst::LocalGet { idx: 0 },
        WasmInst::LocalGet { idx: 2 },
        WasmInst::Call { func_idx: 0 },
        WasmInst::LocalSet { idx: 2 },
        WasmInst::Br { label: 1 },
        WasmInst::End,
    ];
    assert(ops(v@) =~= loop_head());
    v
}

fn tail_code() -> (v: Vec<WasmInst>)
    ensures
        ops(v@) == loop_tail(),
{
    let v = vec![
        WasmInst::Br { label: 0 },
        WasmInst::End,
        WasmInst::I32Const { value: 0 },
        WasmInst::End,
    ];
    assert(ops(v@) =~= loop_tail());
    v
}

fn offset_code(base: u64) -> (v: Vec<WasmInst>)
    ensures
        ops(v@) == offset_ops(base),
{
    let v = vec![
        WasmInst::LocalGet { idx: 2 },
        WasmInst::I32Const { value: base as i32 },
        WasmInst::I32Sub,
    ];
    assert(ops(v@) =~= offset_ops(base));
    v
}

fn call_slot_code(slot: u32, depth: u32) -> (v: Vec<WasmInst>)
    ensures
        ops(v@) == call_slot(slot, depth),
{
    let v = vec![
        WasmInst::LocalGet { idx: 0 },
        WasmInst::I32Const { value: slot as i32 },
        WasmInst::CallIndirect { type_idx: 0 },
        WasmInst::LocalSet { idx: 2 },
        WasmInst::Br { label: depth },
    ];
    assert(ops(v@) =~= call_slot(slot, depth));
    v
}

fn halt_code() -> (v: Vec<WasmInst>)
    ensures
        ops(v@) == halt_ops(),
{
    let v = vec![WasmInst::I32Const { value: -1 }, WasmInst::LocalSet { idx: 2 }];
    assert(ops(v@) =~= halt_ops());
    v
}

fn extend(body: &mut Vec<WasmInst>, code: Vec<WasmInst>)
    ensures
        ops(final(body)@) == ops(old(body)@) + ops(code@),
{
    crate::translate::append_code(body, code);
}

fn dense_code(base: u64, stride: u64, count: u32) -> (v: Vec<WasmInst>)
    ensures
        ops(v@) == dense_ops(base, stride, count),
{
    let mut v = offset_code(base);
    let a = vec![
        WasmInst::I32Const { value: stride as i32 },
        WasmInst::I32RemU,
        WasmInst::I32Eqz,
    ];
    assert(ops(a@) =~= seq![
        WasmOp::I32Const { value: stride as i32 },
        WasmOp::I32RemU,
        WasmOp::I32Eqz,
    ]);
    extend(&mut v, a);
    extend(&mut v, offset_code(base));
    let b = vec![
        WasmInst::I32Const { value: stride as i32 },
        WasmInst::I32DivU,
        WasmInst::I32Const { value: count as i32 },
        WasmInst::I32LtU,
        WasmInst::I32And,
        WasmInst::If { label: 0 },
        WasmInst::LocalGet { idx: 0 },
    ];
    assert(ops(b@) =~= seq![
        WasmOp::I32Const { value: stride as i32 },
        WasmOp::I32DivU,
        WasmOp::I32Const { value: count as i32 },
        WasmOp::I32LtU,
        WasmOp::I32And,
        WasmOp::If { label: 0 },
        WasmOp::LocalGet { idx: 0 },
    ]);
    extend(&mut v, b);
    extend(&mut v, offset_code(base));
    let c = vec![
        WasmInst::I32Const { value: stride as i32 },
        WasmInst::I32DivU,
        WasmInst::CallIndirect { type_idx: 0 },
        WasmInst::LocalSet { idx: 2 },
        WasmInst::Br { label: 1 },
        WasmInst::End,
    ];
    assert(ops(c@) =~= seq![
        WasmOp::I32Const { value: stride as i32 },
        WasmOp::I32DivU,
        WasmOp::CallIndirect { type_idx: 0 },
        WasmOp::LocalSet { idx: 2 },
        WasmOp::Br { label: 1 },
        WasmOp::End,
    ]);
    extend(&mut v, c);
    extend(&mut v, halt_code());
    v
}

proof fn lemma_chain_ends_in_halt(entries: Seq<(u64, u32)>)
    ensures
        chain_ops(entries) == chain_without_halt(entries) + halt_ops(),
    decreases entries.len(),
{
    if entries.len() == 0 {
        assert(chain_ops(entries) =~= chain_without_halt(entries) + halt_ops());
    } else {
        lemma_chain_ends_in_halt(entries.drop_first());
        let first = seq![
            WasmOp::LocalGet { idx: 2 },
            WasmOp::I32Const { value: entries[0].0 as i32 },
            WasmOp::I32Eq,
            WasmOp::If { label: 0 },
        ] + call_slot(entries[0].1, 1) + seq![WasmOp::End];
        let rest = chain_without_halt(entries.drop_first());
        assert(chain_ops(entries) == first + chain_ops(entries.drop_first()));
        assert(chain_without_halt(entries) == first + rest);
        assert(first + (rest + halt_ops()) =~= (first + rest) + halt_ops());
    }
}

/// The comparisons of the chain, without the halt at its end.
pub open spec fn chain_without_halt(entries: Seq<(u64, u32)>) -> Seq<WasmOp>
    decreases entries.len(),
{
    if entries.len() == 0 {
        Seq::<WasmOp>::empty()
    } else {
        seq![
            WasmOp::LocalGet { idx: 2 },
            WasmOp::I32Const { value: entries[0].0 as i32 },
            WasmOp::I32Eq,
            WasmOp::If { label: 0 },
        ] + call_slot(entries[0].1, 1) + seq![WasmOp::End] + chain_without_halt(
            entries.drop_first(),
        )
    }
}

proof fn lemma_chain_without_halt_snoc(entries: Seq<(u64, u32)>, last: (u64, u32))
    ensures
        chain_without_halt(entries.push(last)) == chain_without_halt(entries) + (seq![
            WasmOp::LocalGet { idx: 2 },
            WasmOp::I32Const { value: last.0 as i32 },
            WasmOp::I32Eq,
            WasmOp::If { label: 0 },
        ] + call_slot(last.1, 1) + seq![WasmOp::End]),
    decreases entries.len(),
{
    let step = seq![
        WasmOp::LocalGet { idx: 2 },
        WasmOp::I32Const { value: last.0 as i32 },
        WasmOp::I32Eq,
        WasmOp::If { label: 0 },
    ] + call_slot(last.1, 1) + seq![WasmOp::End];
    let all = entries.push(last);
    if entries.len() == 0 {
        assert(all[0] == last);
        assert(all.drop_first() =~= entries);
        assert(chain_without_halt(all.drop_first()) =~= Seq::<WasmOp>::empty());
        assert(chain_without_halt(all) == step + chain_without_halt(all.drop_first()));
        assert(chain_without_halt(all) =~= chain_without_halt(entries) + step);
    } else {
        lemma_chain_without_halt_snoc(entries.drop_first(), last);
        assert(all.drop_first() =~= entries.drop_first().push(last));
        assert(all[0] == entries[0]);
        let first = seq![
            WasmOp::LocalGet { idx: 2 },
            WasmOp::I32Const { value: entries[0].0 as i32 },
            WasmOp::I32Eq,
            WasmOp::If { label: 0 },
        ] + call_slot(entries[0].1, 1) + seq![WasmOp::End];
        let rest = chain_without_halt(entries.drop_first());
        assert(chain_without_halt(all) == first + chain_without_halt(all.drop_first()));
        assert(chain_without_halt(entries) == first + rest);
        assert(first + (rest + step) =~= (first + rest) + step);
    }
}

/// Emits the fallback dispatch: a chain of comparisons.
pub fn emit_if_else_dispatch(body: &mut Vec<WasmInst>, sorted_addrs: &Vec<(u64, u32)>)
    ensures
        ops(final(body)@) == ops(old(body)@) + chain_ops(sorted_addrs@),
{
    let ghost start = ops(body@);
    let mut i: usize = 0;
    proof {
        assert(sorted_addrs@.take(0) =~= Seq::<(u64, u32)>::empty());
        assert(start + chain_without_halt(sorted_addrs@.take(0)) =~= start);
    }
    while i < sorted_addrs.len()
        invariant
            i <= sorted_addrs.len(),
            ops(body@) == start + chain_without_halt(sorted_addrs@.take(i as int)),
        decreases sorted_addrs.len() - i,
    {
        let (addr, table_idx) = sorted_addrs[i];
        proof {
            assert(sorted_addrs@.take(i + 1) =~= sorted_addrs@.take(i as int).push((addr, table_idx)));
            lemma_chain_without_halt_snoc(sorted_addrs@.take(i as int), (addr, table_idx));
        }
        let test = vec![
            WasmInst::LocalGet { idx: 2 },
            WasmInst::I32Const { value: addr as i32 },
            WasmInst::I32Eq,
            WasmInst::If { label: 0 },
        ];
        assert(ops(test@) =~= seq![
            WasmOp::LocalGet { idx: 2 },
            WasmOp::I32Const { value: addr as i32 },
            WasmOp::I32Eq,
            WasmOp::If { label: 0 },
        ]);
        let ghost before = ops(body@);
        extend(body, test);
        extend(body, call_slot_code(table_idx, 1));
        emit(body, WasmInst::End);
        proof {
            let step = seq![
                WasmOp::LocalGet { idx: 2 },
                WasmOp::I32Const { value: addr as i32 },
                WasmOp::I32Eq,
                WasmOp::If { label: 0 },
            ] + call_slot(table_idx, 1) + seq![WasmOp::End];
            assert(ops(body@) =~= before + step);
            assert(before + step =~= start + (chain_without_halt(sorted_addrs@.take(i as int))
                + step));
        }
        i += 1;
    }
    proof {
        assert(sorted_addrs@.take(i as int) =~= sorted_addrs@);
        lemma_chain_ends_in_halt(sorted_addrs@);
    }
    extend(body, halt_code());
    proof {
        assert(ops(body@) =~= start + chain_ops(sorted_addrs@));
    }
}


proof fn lemma_label_found(keys: Seq<u64>, j: int)
    requires
        increasing(keys),
        0 <= j < keys.len(),
    ensures
        label_at(keys, keys[j] as int) == (j + 1) as u32,
{
    let found = choose|k: int| 0 <= k < keys.len() && keys[k] == keys[j] as int;
    if found < j {
        assert(keys[found] < keys[j]);
    }
    if j < found {
        assert(keys[j] < keys[found]);
    }
}

proof fn lemma_label_missing(keys: Seq<u64>, j: int, addr: int)
    requires
        increasing(keys),
        0 <= j <= keys.len(),
        forall|k: int| 0 <= k < j ==> keys[k] < addr,
        j < keys.len() ==> keys[j] > addr,
    ensures
        label_at(keys, addr) == 0,
{
    if exists|k: int| 0 <= k < keys.len() && keys[k] == addr {
        let k = choose|k: int| 0 <= k < keys.len() && keys[k] == addr;
        if k > j {
            assert(keys[j] < keys[k]);
        }
    }
}

fn build_labels(sorted_addrs: &Vec<(u64, u32)>, base: u64, alignment: u64, size: u64) -> (labels: Vec<
    u32,
>)
    requires
        sorted_addrs@.len() > 0,
        sorted_addrs@.len() <= MAX_BLOCKS,
        increasing(keys_of(sorted_addrs@)),
        base == sorted_addrs@[0].0,
        alignment > 0,
        1 <= size <= MAX_TABLE,
        base + (size - 1) * alignment <= u64::MAX,
    ensures
        labels@ == table_labels(keys_of(sorted_addrs@), base, alignment, size as nat),
{
    let ghost keys = keys_of(sorted_addrs@);
    let n = sorted_addrs.len();
    let mut labels: Vec<u32> = Vec::new();
    let mut i: u64 = 0;
    let mut j: usize = 0;
    let mut addr: u64 = base;
    while i < size
        invariant
            i <= size,
            size <= MAX_TABLE,
            n == sorted_addrs@.len(),
            n <= MAX_BLOCKS,
            keys == keys_of(sorted_addrs@),
            increasing(keys),
            alignment > 0,
            base + (size - 1) * alignment <= u64::MAX,
            j <= n,
            i < size ==> addr == base + i * alignment,
            forall|k: int| 0 <= k < j ==> keys[k] < base + i * alignment,
            labels@.len() == i,
            forall|k: int|
                0 <= k < i ==> (#[trigger] labels@[k]) == label_at(keys, base + k * alignment),
        decreases size - i,
    {
        while j < n && sorted_addrs[j].0 < addr
            invariant
                j <= n,
                n == sorted_addrs@.len(),
                keys == keys_of(sorted_addrs@),
                forall|k: int| 0 <= k < j ==> keys[k] < addr,
            decreases n - j,
        {
            proof {
                assert(keys[j as int] == sorted_addrs@[j as int].0);
            }
            j += 1;
        }
        if j < n && sorted_addrs[j].0 == addr {
            proof {
                assert(keys[j as int] == addr);
                lemma_label_found(keys, j as int);
            }
            labels.push((j + 1) as u32);
        } else {
            proof {
                if j < n {
                    assert(keys[j as int] == sorted_addrs@[j as int].0);
                }
                lemma_label_missing(keys, j as int, addr as int);
            }
            labels.push(0);
        }
        proof {
            assert((i + 1) * alignment == i * alignment + alignment) by (nonlinear_arith);
            if i + 1 < size {
                assert((i + 1) * alignment <= (size - 1) * alignment) by (nonlinear_arith)
                    requires
                        i + 1 <= size - 1,
                        alignment > 0,
                ;
            }
        }
        i += 1;
        if i < size {
            addr = addr + alignment;
        }
    }
    proof {
        assert(labels@ =~= table_labels(keys, base, alignment, size as nat));
    }
    labels
}

proof fn lemma_table_extent(entries: Seq<(u64, u32)>)
    requires
        entries.len() > 0,
        increasing(keys_of(entries)),
        alignment_of(entries) > 0,
    ensures
        entries[0].0 + (table_size_of(entries) - 1) * alignment_of(entries) <= entries.last().0,
        table_size_of(entries) >= 1,
{
    let base = entries[0].0 as int;
    let max = entries.last().0 as int;
    let a = alignment_of(entries) as int;
    assert(keys_of(entries)[0] == entries[0].0);
    assert(keys_of(entries)[entries.len() - 1] == entries.last().0);
    if max != base {
        assert(((max - base) / a) * a <= max - base && (max - base) / a >= 0)
            by (nonlinear_arith)
            requires
                a > 0,
                max - base >= 0,
        ;
    } else {
        assert((table_size_of(entries) - 1) * a == 0) by (nonlinear_arith)
            requires
                table_size_of(entries) == 1,
        ;
    }
}

/// Emits dispatch by `br_table` over `table_size` slots for `n` entries.
pub fn emit_br_table_dispatch(
    body: &mut Vec<WasmInst>,
    sorted_addrs: &Vec<(u64, u32)>,
    base_addr: u64,
    alignment: u64,
    table_size: u64,
    n: usize,
)
    requires
        n == sorted_addrs@.len(),
        0 < n <= MAX_BLOCKS,
        increasing(keys_of(sorted_addrs@)),
        base_addr == sorted_addrs@[0].0,
        alignment == alignment_of(sorted_addrs@),
        alignment > 0,
        table_size == table_size_of(sorted_addrs@),
        table_size <= MAX_TABLE,
    ensures
        ops(final(body)@) == ops(old(body)@) + table_ops(
            sorted_addrs@,
            base_addr,
            alignment,
            table_size as nat,
        ),
{
    let ghost start = ops(body@);
    let ghost entries = sorted_addrs@;
    let mut code: Vec<WasmInst> = Vec::new();
    let mut k: usize = 0;
    proof {
        assert(ops(code@) =~= openers(0));
    }
    while k < n + 2
        invariant
            k <= n + 2,
            n <= MAX_BLOCKS,
            ops(code@) == openers(k as nat),
        decreases n + 2 - k,
    {
        emit(&mut code, WasmInst::Block { label: 0 });
        proof {
            assert(ops(code@) =~= openers((k + 1) as nat));
        }
        k += 1;
    }
    if alignment > 1 {
        extend(&mut code, offset_code(base_addr));
        let guard = vec![
            WasmInst::I32Const { value: alignment as i32 },
            WasmInst::I32RemU,
            WasmInst::BrIf { label: 0 },
        ];
        assert(ops(guard@) =~= seq![
            WasmOp::I32Const { value: alignment as i32 },
            WasmOp::I32RemU,
            WasmOp::BrIf { label: 0 },
        ]);
        extend(&mut code, guard);
        extend(&mut code, offset_code(base_addr));
        let scale = vec![WasmInst::I32Const { value: alignment as i32 }, WasmInst::I32DivU];
        assert(ops(scale@) =~= seq![
            WasmOp::I32Const { value: alignment as i32 },
            WasmOp::I32DivU,
        ]);
        extend(&mut code, scale);
    } else {
        extend(&mut code, offset_code(base_addr));
    }
    proof {
        lemma_table_extent(entries);
    }
    let labels = build_labels(sorted_addrs, base_addr, alignment, table_size);
    let table = vec![WasmInst::BrTable { labels, default: 0 }, WasmInst::End];
    assert(ops(table@) =~= seq![
        WasmOp::BrTable {
            labels: table_labels(keys_of(entries), base_addr, alignment, table_size as nat),
            default: 0,
        },
        WasmOp::End,
    ]);
    extend(&mut code, table);
    extend(&mut code, halt_code());
    emit(&mut code, WasmInst::Br { label: n as u32 });
    let ghost front = ops(code@);
    let mut j: usize = 0;
    proof {
        assert(entries.take(0) =~= Seq::<(u64, u32)>::empty());
        assert(front + pads(entries.take(0), n as nat) =~= front);
    }
    while j < n
        invariant
            j <= n,
            n == sorted_addrs@.len(),
            n <= MAX_BLOCKS,
            entries == sorted_addrs@,
            ops(code@) == front + pads(entries.take(j as int), n as nat),
        decreases n - j,
    {
        let (_addr, table_idx) = sorted_addrs[j];
        proof {
            assert(entries.take(j + 1).drop_last() =~= entries.take(j as int));
            assert(entries.take(j + 1).last() == entries[j as int]);
        }
        emit(&mut code, WasmInst::End);
        extend(&mut code, call_slot_code(table_idx, (n - 1 - j) as u32));
        proof {
            assert(ops(code@) =~= front + pads(entries.take(j + 1), n as nat));
        }
        j += 1;
    }
    proof {
        assert(entries.take(j as int) =~= entries);
    }
    emit(&mut code, WasmInst::End);
    proof {
        assert(ops(code@) =~= table_ops(entries, base_addr, alignment, table_size as nat));
    }
    extend(body, code);
}

/// Emits dispatch for addresses that are not dense: by `br_table` where
/// the table has at most 65536 slots, else by a chain of comparisons.
pub fn emit_sparse_dispatch(body: &mut Vec<WasmInst>, module: &WasmModule)
    requires
        0 < module.functions@.len() <= MAX_BLOCKS,
        !dense(addresses(module.functions@)),
    ensures
        ops(final(body)@) == ops(old(body)@) + select_ops(addresses(module.functions@)),
{
    let sorted_addrs = dispatch_entries(module);
    let n = sorted_addrs.len();
    let alignment = compute_addr_alignment(sorted_addrs.as_slice());
    let size = table_size(&sorted_addrs, alignment);
    if size <= MAX_TABLE {
        emit_br_table_dispatch(body, &sorted_addrs, sorted_addrs[0].0, alignment, size, n);
    } else {
        emit_if_else_dispatch(body, &sorted_addrs);
    }
}

/// The operations of the dispatcher of a module.
pub fn dispatch_body(module: &WasmModule) -> (body: Vec<WasmInst>)
    requires
        module.functions@.len() <= MAX_BLOCKS,
    ensures
        ops(body@) == dispatch_ops(addresses(module.functions@)),
{
    let ghost addrs = addresses(module.functions@);
    let mut body = head_code();
    if module.functions.len() == 0 {
        let stop = vec![WasmInst::I32Const { value: 0 }, WasmInst::Return];
        assert(ops(stop@) =~= seq![WasmOp::I32Const { value: 0 }, WasmOp::Return]);
        extend(&mut body, stop);
    } else if can_use_dense_table(module) {
        let base = module.functions[0].block_addr;
        let stride: u64 = if module.functions.len() >= 2 {
            proof {
                assert(addrs[0] == module.functions@[0].block_addr);
                assert(addrs[1] == module.functions@[1].block_addr);
            }
            module.functions[1].block_addr - base
        } else {
            4
        };
        proof {
            assert(addrs[0] == module.functions@[0].block_addr);
        }
        extend(&mut body, dense_code(base, stride, module.functions.len() as u32));
    } else {
        emit_sparse_dispatch(&mut body, module);
    }
    extend(&mut body, tail_code());
    body
}

/// Transcribes operations to the binary encoding, in order. Fails on the
/// first operation that the binary format cannot hold.
pub fn transcribe(func: &mut FunctionBody, body: &Vec<WasmInst>) -> (r: Result<(), CompileError>)
    ensures
        r is Ok <==> body_encodable(ops(body@)),
        r is Ok ==> function_code(*final(func)) == function_code(*old(func)) + body_code(
            ops(body@),
        ),
        r is Err ==> r->Err_0 == CompileError::ModuleTooLarge,
{
    let ghost head = function_code(*func);
    let ghost all = ops(body@);
    let mut i: usize = 0;
    proof {
        assert(head + body_code(all.take(0)) =~= head);
    }
    while i < body.len()
        invariant
            i <= body.len(),
            all == ops(body@),
            function_code(*func) == head + body_code(all.take(i as int)),
            body_encodable(all.take(i as int)),
        decreases body.len() - i,
    {
        proof {
            assert(all.take(i + 1).drop_last() =~= all.take(i as int));
            assert(all.take(i + 1).last() == body@[i as int]@);
        }
        match emit_instruction(func, &body[i]) {
            Ok(()) => {},
            Err(e) => {
                assert(!encodable(all[i as int]));
                return Err(e);
            },
        }
        proof {
            assert(head + body_code(all.take(i as int)) + encoding(all[i as int]) =~= head + (
            body_code(all.take(i as int)) + encoding(all[i as int])));
            assert forall|j: int| 0 <= j < i + 1 implies encodable(#[trigger] all.take(i + 1)[j]) by {
                if j < i {
                    assert(all.take(i + 1)[j] == all.take(i as int)[j]);
                }
            }
        }
        i += 1;
    }
    proof {
        assert(all.take(i as int) =~= all);
    }
    Ok(())
}

/// The code of the dispatcher: one extra local of type i32, the current
/// PC, and the operations of the dispatch loop.
pub open spec fn dispatcher_code(addrs: Seq<u64>) -> Seq<u8> {
    leb_unsigned(1) + leb_unsigned(1) + seq![0x7Fu8] + body_code(dispatch_ops(addrs))
}

/// Builds the dispatcher, which is exported as `run`.
pub fn build_dispatch_function(module: &WasmModule) -> (r: Result<FunctionBody, CompileError>)
    requires
        module.functions@.len() <= MAX_BLOCKS,
    ensures
        r is Ok <==> body_encodable(dispatch_ops(addresses(module.functions@))),
        r is Ok ==> function_code(r->Ok_0) == dispatcher_code(addresses(module.functions@)),
        r is Err ==> r->Err_0 == CompileError::ModuleTooLarge,
{
    let body = dispatch_body(module);
    let mut func = new_function_i32(1);
    match transcribe(&mut func, &body) {
        Ok(()) => Ok(func),
        Err(e) => Err(e),
    }
}


// ---------------------------------------------------------------------------
// The module
// ---------------------------------------------------------------------------

/// Type index of the block functions: `(i32) -> i32`.
pub const TYPE_BLOCK: u32 = 0;

/// Type index of the dispatcher: `(i32, i32) -> i32`.
pub const TYPE_DISPATCH: u32 = 1;

/// Type index of the system-call callback: `(i32, i32) -> i32`.
pub const TYPE_SYSCALL: u32 = 2;

/// Function index of the dispatcher, behind the imported callback.
pub const FUNC_DISPATCH: u32 = 1;

/// The memory ceiling is this many times the minimum.
pub const MEMORY_CEILING: u64 = 4;

/// The three function types.
pub open spec fn type_entries_of() -> Seq<u8> {
    function_type_code(1, 1) + function_type_code(2, 1) + function_type_code(2, 1)
}

/// The two imports: the memory `env.memory` with the given minimum and
/// four times that as its maximum, and the callback `env.syscall`. A module
/// that asks for no memory of its own takes whatever memory the host has:
/// its import has no maximum.
pub open spec fn import_entries_of(pages: u32) -> Seq<u8> {
    (if pages == 0 {
        open_memory_import_code("env"@, "memory"@, 0)
    } else {
        memory_import_code("env"@, "memory"@, pages as u64, (pages * MEMORY_CEILING) as u64)
    }) + function_import_code("env"@, "syscall"@, TYPE_SYSCALL)
}

/// The type indices of the dispatcher and of `count` block functions.
pub open spec fn function_entries_of(count: nat) -> Seq<u8>
    decreases count,
{
    if count == 0 {
        leb_unsigned(TYPE_DISPATCH as nat)
    } else {
        function_entries_of((count - 1) as nat) + leb_unsigned(TYPE_BLOCK as nat)
    }
}

/// The function indices of `count` block functions: 2, 3, ...
pub open spec fn block_indices(count: nat) -> Seq<u32> {
    Seq::new(count, |i: int| (i + 2) as u32)
}

/// The exports: the dispatcher as `run`, then each block function under
/// its name.
pub open spec fn export_entries_of(functions: Seq<WasmFunction>) -> Seq<u8>
    decreases functions.len(),
{
    if functions.len() == 0 {
        function_export_code("run"@, FUNC_DISPATCH)
    } else {
        export_entries_of(functions.drop_last()) + function_export_code(
            functions.last().name@,
            (functions.len() + 1) as u32,
        )
    }
}

/// The code of the dispatcher for `addrs`, then the code of each function.
pub open spec fn code_entries_of(addrs: Seq<u64>, functions: Seq<WasmFunction>) -> Seq<u8>
    decreases functions.len(),
{
    if functions.len() == 0 {
        code_entry(dispatcher_code(addrs))
    } else {
        code_entries_of(addrs, functions.drop_last()) + code_entry(
            block_code(functions.last().num_locals, ops(functions.last().body@)),
        )
    }
}

/// Does a section fit the binary format, which records its byte length
/// with 32 bits?
pub open spec fn section_fits(count: nat, entries: Seq<u8>) -> bool {
    leb_unsigned(count).len() + entries.len() <= u32::MAX
}

/// Does the module fit the binary format? It does if every function has
/// an index, every name, every function body and every section can be
/// recorded with a 32-bit length, and every operation is encodable.
pub open spec fn fits(module: WasmModule) -> bool {
    let functions = module.functions@;
    let n = functions.len();
    let addrs = addresses(functions);
    &&& n <= MAX_BLOCKS
    &&& section_fits(n + 1, function_entries_of(n))
    &&& forall|i: int|
        0 <= i < n ==> vstd::utf8::encode_utf8((#[trigger] functions[i]).name@).len() <= u32::MAX
    &&& section_fits(n + 1, export_entries_of(functions))
    &&& section_fits(1, active_segment_code(0, 0, block_indices(n)))
    &&& body_encodable(dispatch_ops(addrs))
    &&& dispatcher_code(addrs).len() <= u32::MAX
    &&& forall|i: int|
        0 <= i < n ==> body_encodable(ops((#[trigger] functions[i]).body@)) && block_code(
            functions[i].num_locals,
            ops(functions[i].body@),
        ).len() <= u32::MAX
    &&& section_fits(n + 1, code_entries_of(addrs, functions))
}

/// The bytes of the module: the header, then the type, import, function,
/// table, export, element and code sections, in the order of their ids.
pub open spec fn module_bytes(module: WasmModule) -> Seq<u8> {
    let functions = module.functions@;
    let n = functions.len();
    module_header() + section_code(1, 3, type_entries_of()) + section_code(
        2,
        2,
        import_entries_of(module.memory_pages),
    ) + section_code(3, n + 1, function_entries_of(n)) + section_code(
        4,
        1,
        funcref_table_code(n as u32, n as u32),
    ) + section_code(7, n + 1, export_entries_of(functions)) + section_code(
        9,
        1,
        active_segment_code(0, 0, block_indices(n)),
    ) + section_code(10, n + 1, code_entries_of(addresses(functions), functions))
}

proof fn lemma_leb_len(v: nat)
    ensures
        leb_unsigned(v).len() >= 1,
        v < 128 ==> leb_unsigned(v).len() == 1,
        v <= u32::MAX ==> leb_unsigned(v).len() <= 5,
        v <= u64::MAX ==> leb_unsigned(v).len() <= 10,
{
    reveal_with_fuel(leb_unsigned, 11);
}

proof fn lemma_signed_zero()
    ensures
        leb_signed(0).len() == 1,
{
}

/// The number of bytes of `v` as unsigned LEB128.
pub fn leb_size(v: u64) -> (n: u64)
    ensures
        n == leb_unsigned(v as nat).len(),
        1 <= n <= 10,
    decreases v,
{
    proof {
        lemma_leb_len(v as nat);
    }
    if v < 128 {
        1
    } else {
        proof {
            lemma_leb_len((v / 128) as nat);
        }
        1 + leb_size(v / 128)
    }
}

proof fn lemma_utf8_len(chars: Seq<char>)
    ensures
        vstd::utf8::encode_utf8(chars).len() <= 4 * chars.len(),
    decreases chars.len(),
{
    if chars.len() > 0 {
        lemma_utf8_len(chars.drop_first());
    }
}

proof fn lemma_label_codes_push(labels: Seq<u32>, last: u32)
    ensures
        label_codes(labels.push(last)) == label_codes(labels) + leb_unsigned(last as nat),
    decreases labels.len(),
{
    if labels.len() == 0 {
        assert(labels.push(last).drop_first() =~= labels);
        assert(label_codes(labels.push(last)) =~= label_codes(labels) + leb_unsigned(last as nat));
    } else {
        lemma_label_codes_push(labels.drop_first(), last);
        assert(labels.push(last).drop_first() =~= labels.drop_first().push(last));
        assert(label_codes(labels.push(last)) =~= label_codes(labels) + leb_unsigned(last as nat));
    }
}

proof fn lemma_export_prefix(functions: Seq<WasmFunction>, k: int)
    requires
        0 <= k <= functions.len(),
    ensures
        export_entries_of(functions.take(k)).len() <= export_entries_of(functions).len(),
    decreases functions.len() - k,
{
    if k < functions.len() {
        lemma_export_prefix(functions, k + 1);
        assert(functions.take(k + 1).drop_last() =~= functions.take(k));
    } else {
        assert(functions.take(k) =~= functions);
    }
}

proof fn lemma_code_prefix(addrs: Seq<u64>, functions: Seq<WasmFunction>, k: int)
    requires
        0 <= k <= functions.len(),
    ensures
        code_entries_of(addrs, functions.take(k)).len() <= code_entries_of(addrs, functions).len(),
    decreases functions.len() - k,
{
    if k < functions.len() {
        lemma_code_prefix(addrs, functions, k + 1);
        assert(functions.take(k + 1).drop_last() =~= functions.take(k));
    } else {
        assert(functions.take(k) =~= functions);
    }
}

fn build_type_section(wasm: &mut wasm_encoder::Module)
    ensures
        module_code(*final(wasm)) == module_code(*old(wasm)) + section_code(1, 3, type_entries_of()),
{
    let mut types = new_type_section();
    add_function_type(&mut types, 1, 1);
    add_function_type(&mut types, 2, 1);
    add_function_type(&mut types, 2, 1);
    proof {
        lemma_leb_len(1);
        lemma_leb_len(2);
        lemma_leb_len(3);
        assert(type_entries(types) =~= type_entries_of());
        assert(type_entries_of().len() <= 100);
    }
    push_type_section(wasm, &types);
}

fn build_import_section(wasm: &mut wasm_encoder::Module, pages: u32)
    ensures
        module_code(*final(wasm)) == module_code(*old(wasm)) + section_code(
            2,
            2,
            import_entries_of(pages),
        ),
{
    let mut imports = new_import_section();
    proof {
        reveal_strlit("env");
        reveal_strlit("memory");
        reveal_strlit("syscall");
        lemma_utf8_len("env"@);
        lemma_utf8_len("memory"@);
        lemma_utf8_len("syscall"@);
    }
    let maximum: u64 = (pages as u64) * MEMORY_CEILING;
    if pages == 0 {
        import_open_memory(&mut imports, "env", "memory", 0);
    } else {
        import_memory(&mut imports, "env", "memory", pages as u64, maximum);
    }
    import_function(&mut imports, "env", "syscall", TYPE_SYSCALL);
    proof {
        lemma_leb_len(2);
        lemma_leb_len(pages as nat);
        lemma_leb_len(maximum as nat);
        lemma_leb_len(vstd::utf8::encode_utf8("env"@).len());
        lemma_leb_len(vstd::utf8::encode_utf8("memory"@).len());
        lemma_leb_len(vstd::utf8::encode_utf8("syscall"@).len());
        assert(import_entries(imports) =~= import_entries_of(pages));
        assert(import_entries_of(pages).len() <= 200);
    }
    push_import_section(wasm, &imports);
}

fn build_function_section(wasm: &mut wasm_encoder::Module, n: usize) -> (r: Result<(), CompileError>)
    requires
        n <= MAX_BLOCKS,
    ensures
        r is Ok <==> section_fits((n + 1) as nat, function_entries_of(n as nat)),
        r is Ok ==> module_code(*final(wasm)) == module_code(*old(wasm)) + section_code(
            3,
            (n + 1) as nat,
            function_entries_of(n as nat),
        ),
        r is Err ==> r->Err_0 == CompileError::ModuleTooLarge,
{
    let mut functions = new_function_section();
    declare_function(&mut functions, TYPE_DISPATCH);
    proof {
        lemma_leb_len(0);
        lemma_leb_len(1);
        assert(function_entries(functions) =~= function_entries_of(0));
    }
    let mut i: usize = 0;
    while i < n
        invariant
            i <= n,
            n <= MAX_BLOCKS,
            function_count(functions) == i + 1,
            function_entries(functions) == function_entries_of(i as nat),
            function_entries(functions).len() == i + 1,
        decreases n - i,
    {
        declare_function(&mut functions, TYPE_BLOCK);
        proof {
            lemma_leb_len(0);
        }
        i += 1;
    }
    if leb_size((n + 1) as u64) + (n as u64) + 1 > 0xFFFF_FFFF {
        return Err(CompileError::ModuleTooLarge);
    }
    push_function_section(wasm, &functions);
    Ok(())
}

fn build_table_section(wasm: &mut wasm_encoder::Module, n: u32)
    ensures
        module_code(*final(wasm)) == module_code(*old(wasm)) + section_code(
            4,
            1,
            funcref_table_code(n, n),
        ),
{
    let mut tables = new_table_section();
    add_funcref_table(&mut tables, n, n);
    proof {
        lemma_leb_len(1);
        lemma_leb_len(n as nat);
        assert(table_entries(tables) =~= funcref_table_code(n, n));
    }
    push_table_section(wasm, &tables);
}

fn build_export_section(wasm: &mut wasm_encoder::Module, module: &WasmModule) -> (r: Result<
    (),
    CompileError,
>)
    requires
        module.functions@.len() <= MAX_BLOCKS,
    ensures
        r is Ok <==> (forall|i: int|
            0 <= i < module.functions@.len() ==> vstd::utf8::encode_utf8(
                (#[trigger] module.functions@[i]).name@,
            ).len() <= u32::MAX) && section_fits(
            module.functions@.len() + 1,
            export_entries_of(module.functions@),
        ),
        r is Ok ==> module_code(*final(wasm)) == module_code(*old(wasm)) + section_code(
            7,
            module.functions@.len() + 1,
            export_entries_of(module.functions@),
        ),
        r is Err ==> r->Err_0 == CompileError::ModuleTooLarge,
{
    let ghost functions = module.functions@;
    let n = module.functions.len();
    let mut exports = new_export_section();
    proof {
        reveal_strlit("run");
        lemma_utf8_len("run"@);
        lemma_leb_len(1);
        lemma_leb_len(vstd::utf8::encode_utf8("run"@).len());
    }
    export_function(&mut exports, "run", FUNC_DISPATCH);
    let run_len = "run".as_bytes().len();
    proof {
        assert("run".spec_bytes() == vstd::utf8::encode_utf8("run"@));
    }
    let mut size: u64 = leb_size(run_len as u64) + (run_len as u64) + 1 + leb_size(
        FUNC_DISPATCH as u64,
    );
    proof {
        assert(functions.take(0) =~= Seq::<WasmFunction>::empty());
        assert(export_entries(exports) =~= export_entries_of(functions.take(0)));
    }
    let mut i: usize = 0;
    while i < n
        invariant
            i <= n,
            n == module.functions@.len(),
            n <= MAX_BLOCKS,
            functions == module.functions@,
            export_count(exports) == i + 1,
            export_entries(exports) == export_entries_of(functions.take(i as int)),
            size == export_entries(exports).len(),
            size <= u32::MAX,
            forall|j: int|
                0 <= j < i ==> vstd::utf8::encode_utf8((#[trigger] functions[j]).name@).len()
                    <= u32::MAX,
        decreases n - i,
    {
        let name = module.functions[i].name.as_str();
        let name_len = name.as_bytes().len();
        proof {
            assert(name@ == functions[i as int].name@);
            assert(name.spec_bytes() == vstd::utf8::encode_utf8(name@));
            assert(name_len == vstd::utf8::encode_utf8(name@).len());
            assert(functions.take(i + 1).drop_last() =~= functions.take(i as int));
            assert(functions.take(i + 1).last() == functions[i as int]);
            lemma_export_prefix(functions, i + 1);
            lemma_leb_len((n + 1) as nat);
        }
        if name_len > 0xFFFF_FFFF {
            return Err(CompileError::ModuleTooLarge);
        }
        let index: u32 = (i + 2) as u32;
        let step: u64 = leb_size(name_len as u64) + (name_len as u64) + 1 + leb_size(index as u64);
        if size + step > 0xFFFF_FFFF {
            proof {
                assert(export_entries_of(functions.take(i + 1)).len() == size + step);
            }
            return Err(CompileError::ModuleTooLarge);
        }
        export_function(&mut exports, name, index);
        size = size + step;
        i += 1;
    }
    proof {
        assert(functions.take(i as int) =~= functions);
    }
    if leb_size((n + 1) as u64) + size > 0xFFFF_FFFF {
        return Err(CompileError::ModuleTooLarge);
    }
    push_export_section(wasm, &exports);
    Ok(())
}

fn build_element_section(wasm: &mut wasm_encoder::Module, n: usize) -> (r: Result<(), CompileError>)
    requires
        n <= MAX_BLOCKS,
    ensures
        r is Ok <==> section_fits(1, active_segment_code(0, 0, block_indices(n as nat))),
        r is Ok ==> module_code(*final(wasm)) == module_code(*old(wasm)) + section_code(
            9,
            1,
            active_segment_code(0, 0, block_indices(n as nat)),
        ),
        r is Err ==> r->Err_0 == CompileError::ModuleTooLarge,
{
    let mut func_indices: Vec<u32> = Vec::new();
    let mut size: u64 = 0;
    let mut i: usize = 0;
    let mut too_long = false;
    proof {
        assert(func_indices@ =~= block_indices(0));
    }
    while i < n
        invariant
            i <= n,
            n <= MAX_BLOCKS,
            func_indices@ == block_indices(i as nat),
            !too_long ==> size == label_codes(func_indices@).len() && size <= u32::MAX,
            too_long ==> label_codes(func_indices@).len() > u32::MAX,
        decreases n - i,
    {
        let index: u32 = (i + 2) as u32;
        proof {
            lemma_label_codes_push(func_indices@, index);
            assert(block_indices((i + 1) as nat) =~= block_indices(i as nat).push(index));
        }
        let step = leb_size(index as u64);
        func_indices.push(index);
        if !too_long {
            if size + step > 0xFFFF_FFFF {
                too_long = true;
            } else {
                size = size + step;
            }
        }
        i += 1;
    }
    proof {
        lemma_leb_len(0);
        lemma_leb_len(1);
        lemma_leb_len(n as nat);
        lemma_signed_zero();
    }
    if too_long || 6 + leb_size(n as u64) + size + 1 > 0xFFFF_FFFF {
        return Err(CompileError::ModuleTooLarge);
    }
    let mut elements = new_element_section();
    add_active_functions(&mut elements, 0, 0, &func_indices);
    proof {
        assert(element_entries(elements) =~= active_segment_code(0, 0, block_indices(n as nat)));
    }
    push_element_section(wasm, &elements);
    Ok(())
}


fn build_code_section(wasm: &mut wasm_encoder::Module, module: &WasmModule) -> (r: Result<
    (),
    CompileError,
>)
    requires
        module.functions@.len() <= MAX_BLOCKS,
    ensures
        r is Ok <==> ({
            let functions = module.functions@;
            let addrs = addresses(functions);
            &&& body_encodable(dispatch_ops(addrs))
            &&& dispatcher_code(addrs).len() <= u32::MAX
            &&& forall|i: int|
                0 <= i < functions.len() ==> body_encodable(ops((#[trigger] functions[i]).body@))
                    && block_code(functions[i].num_locals, ops(functions[i].body@)).len()
                    <= u32::MAX
            &&& section_fits(functions.len() + 1, code_entries_of(addrs, functions))
        }),
        r is Ok ==> module_code(*final(wasm)) == module_code(*old(wasm)) + section_code(
            10,
            module.functions@.len() + 1,
            code_entries_of(addresses(module.functions@), module.functions@),
        ),
        r is Err ==> r->Err_0 == CompileError::ModuleTooLarge,
{
    let ghost functions = module.functions@;
    let ghost addrs = addresses(functions);
    let n = module.functions.len();
    let mut codes = new_code_section();
    let dispatch_func = match build_dispatch_function(module) {
        Ok(f) => f,
        Err(e) => {
            return Err(e);
        },
    };
    if function_len(&dispatch_func) > 0xFFFF_FFFF {
        return Err(CompileError::ModuleTooLarge);
    }
    add_function_body(&mut codes, &dispatch_func);
    proof {
        assert(functions.take(0) =~= Seq::<WasmFunction>::empty());
        assert(code_entries(codes) =~= code_entries_of(addrs, functions.take(0)));
    }
    let mut i: usize = 0;
    while i < n
        invariant
            i <= n,
            n == module.functions@.len(),
            n <= MAX_BLOCKS,
            functions == module.functions@,
            addrs == addresses(functions),
            code_count(codes) == i + 1,
            code_entries(codes) == code_entries_of(addrs, functions.take(i as int)),
            body_encodable(dispatch_ops(addrs)),
            dispatcher_code(addrs).len() <= u32::MAX,
            forall|j: int|
                0 <= j < i ==> body_encodable(ops((#[trigger] functions[j]).body@)) && block_code(
                    functions[j].num_locals,
                    ops(functions[j].body@),
                ).len() <= u32::MAX,
        decreases n - i,
    {
        proof {
            assert(functions.take(i + 1).drop_last() =~= functions.take(i as int));
            assert(functions.take(i + 1).last() == functions[i as int]);
        }
        let wasm_func = match build_block_function(&module.functions[i]) {
            Ok(f) => f,
            Err(e) => {
                return Err(e);
            },
        };
        if function_len(&wasm_func) > 0xFFFF_FFFF {
            return Err(CompileError::ModuleTooLarge);
        }
        add_function_body(&mut codes, &wasm_func);
        i += 1;
    }
    proof {
        assert(functions.take(i as int) =~= functions);
    }
    let total = code_section_len(&codes);
    if total > 0xFFFF_FFFF || leb_size((n + 1) as u64) + (total as u64) > 0xFFFF_FFFF {
        return Err(CompileError::ModuleTooLarge);
    }
    push_code_section(wasm, &codes);
    Ok(())
}

/// Builds the final Wasm binary: the block functions, the dispatcher
/// exported as `run`, the imported memory `env.memory` and the imported
/// system-call callback `env.syscall`, a table of the block functions,
/// and an export of every block function under its name.
pub fn build(module: &WasmModule) -> (r: Result<Vec<u8>, CompileError>)
    ensures
        r is Ok <==> fits(*module),
        r is Ok ==> r->Ok_0@ == module_bytes(*module),
        r is Err ==> r->Err_0 == CompileError::ModuleTooLarge,
{
    let n = module.functions.len();
    if n > MAX_BLOCKS {
        return Err(CompileError::ModuleTooLarge);
    }
    let mut wasm = new_module();
    build_type_section(&mut wasm);
    build_import_section(&mut wasm, module.memory_pages);
    match build_function_section(&mut wasm, n) {
        Ok(()) => {},
        Err(e) => {
            return Err(e);
        },
    }
    build_table_section(&mut wasm, n as u32);
    match build_export_section(&mut wasm, module) {
        Ok(()) => {},
        Err(e) => {
            return Err(e);
        },
    }
    match build_element_section(&mut wasm, n) {
        Ok(()) => {},
        Err(e) => {
            return Err(e);
        },
    }
    match build_code_section(&mut wasm, module) {
        Ok(()) => {},
        Err(e) => {
            return Err(e);
        },
    }
    Ok(finish_module(wasm))
}


// ---------------------------------------------------------------------------
// What the dispatcher finds
// ---------------------------------------------------------------------------

proof fn lemma_multiple(g: int, h: int, x: int)
    requires
        g > 0,
        h % g == 0,
    ensures
        (h * x) % g == 0,
{
    vstd::arithmetic::div_mod::lemma_mul_mod_noop(h, x, g);
    assert((h % g) * (x % g) == 0) by (nonlinear_arith)
        requires
            h % g == 0,
    ;
    vstd::arithmetic::div_mod::lemma_small_mod(0, g as nat);
}

proof fn lemma_divides_sum(g: int, a: int, b: int)
    requires
        g > 0,
        a % g == 0,
        b % g == 0,
    ensures
        (a + b) % g == 0,
{
    vstd::arithmetic::div_mod::lemma_add_mod_noop(a, b, g);
    vstd::arithmetic::div_mod::lemma_small_mod(0, g as nat);
}

proof fn lemma_divides_chain(g: int, h: int, x: int)
    requires
        g > 0,
        h > 0,
        h % g == 0,
        x % h == 0,
    ensures
        x % g == 0,
{
    vstd::arithmetic::div_mod::lemma_fundamental_div_mod(x, h);
    lemma_multiple(g, h, x / h);
}

/// The greatest common divisor divides both numbers.
pub proof fn lemma_gcd_divides(a: nat, b: nat)
    ensures
        gcd(a, b) > 0 ==> a % gcd(a, b) == 0 && b % gcd(a, b) == 0,
        gcd(a, b) == 0 ==> a == 0 && b == 0,
    decreases b,
{
    if b != 0 {
        lemma_gcd_divides(b, a % b);
        let g = gcd(a, b) as int;
        lemma_gcd_bound(a, b);
        vstd::arithmetic::div_mod::lemma_fundamental_div_mod(a as int, b as int);
        lemma_multiple(g, b as int, a as int / b as int);
        lemma_divides_sum(g, b as int * (a as int / b as int), a as int % b as int);
    } else if a > 0 {
        vstd::arithmetic::div_mod::lemma_mod_self_0(a as int);
    }
}

/// The alignment divides the offset of every block address from the first.
pub proof fn lemma_alignment_divides(addrs: Seq<(u64, u32)>, j: int)
    requires
        based(addrs),
        0 <= j < addrs.len(),
    ensures
        alignment_of(addrs) > 0,
        (addrs[j].0 - addrs[0].0) % (alignment_of(addrs) as int) == 0,
    decreases addrs.len(),
{
    let g = offsets_gcd(addrs);
    if addrs.len() <= 1 {
    } else {
        let before = addrs.drop_last();
        let off = (addrs.last().0 - addrs[0].0) as nat;
        assert(before[0] == addrs[0]);
        assert forall|i: int| 0 <= i < before.len() implies before[0].0 <= (#[trigger] before[i]).0 by {
            assert(before[i] == addrs[i]);
        }
        lemma_gcd_divides(offsets_gcd(before), off);
        if g == 0 {
            if j < addrs.len() - 1 {
                lemma_alignment_divides(before, j);
                assert(before[j] == addrs[j]);
                lemma_offsets_zero(before, j);
            }
        } else if j == addrs.len() - 1 {
        } else {
            assert(before[j] == addrs[j]);
            let h = offsets_gcd(before);
            if h == 0 {
                lemma_offsets_zero(before, j);
            } else {
                lemma_alignment_divides(before, j);
                assert(alignment_of(before) == h) by {
                    if before.len() <= 1 {
                        assert(h == 0);
                    }
                }
                lemma_divides_chain(g as int, h as int, addrs[j].0 - addrs[0].0);
            }
        }
    }
}

proof fn lemma_offsets_zero(addrs: Seq<(u64, u32)>, j: int)
    requires
        based(addrs),
        offsets_gcd(addrs) == 0,
        0 <= j < addrs.len(),
    ensures
        addrs[j].0 == addrs[0].0,
    decreases addrs.len(),
{
    if addrs.len() > 1 {
        let before = addrs.drop_last();
        let off = (addrs.last().0 - addrs[0].0) as nat;
        assert(before[0] == addrs[0]);
        assert forall|i: int| 0 <= i < before.len() implies before[0].0 <= (#[trigger] before[i]).0 by {
            assert(before[i] == addrs[i]);
        }
        lemma_gcd_divides(offsets_gcd(before), off);
        if j < addrs.len() - 1 {
            lemma_offsets_zero(before, j);
            assert(before[j] == addrs[j]);
        }
    }
}

proof fn lemma_alignment_fits(addrs: Seq<(u64, u32)>)
    requires
        based(addrs),
    ensures
        offsets_gcd(addrs) <= u64::MAX,
        alignment_of(addrs) <= u64::MAX,
    decreases addrs.len(),
{
    if addrs.len() > 1 {
        let before = addrs.drop_last();
        assert(before[0] == addrs[0]);
        assert forall|i: int| 0 <= i < before.len() implies before[0].0 <= (#[trigger] before[i]).0 by {
            assert(before[i] == addrs[i]);
        }
        lemma_alignment_fits(before);
        lemma_gcd_bound(offsets_gcd(before), (addrs.last().0 - addrs[0].0) as nat);
    }
}

/// Dense dispatch finds every block: the offset of the `j`-th block
/// address from the first fits 32 bits, is a multiple of the stride, and
/// divided by the stride gives `j`, the table slot of the block.
pub proof fn lemma_dense_finds_every_block(addrs: Seq<u64>, j: int)
    requires
        addrs.len() > 0,
        dense(addrs),
        0 <= j < addrs.len(),
    ensures
        ({
            let stride = dense_stride(addrs) as int;
            let offset = addrs[j] - addrs[0];
            &&& stride > 0
            &&& 0 <= offset <= u32::MAX
            &&& offset % stride == 0
            &&& offset / stride == j
        }),
{
    let stride = dense_stride(addrs) as int;
    if addrs.len() > 1 {
        let n = addrs.len() as int;
        assert(addrs[j] == addrs[0] + j * stride);
        assert(addrs.last() == addrs[0] + (n - 1) * stride);
        assert(0 <= j * stride <= (n - 1) * stride) by (nonlinear_arith)
            requires
                0 <= j <= n - 1,
                stride > 0,
        ;
        vstd::arithmetic::div_mod::lemma_mod_multiples_basic(j, stride);
        vstd::arithmetic::div_mod::lemma_div_multiples_vanish(j, stride);
        assert(stride * j == j * stride) by (nonlinear_arith);
    }
}

/// Dispatch by table finds every block: the offset of the `j`-th address
/// in increasing order from the first is a multiple of the alignment, and
/// the table slot at the quotient holds the label of the pad of entry `j`.
pub proof fn lemma_table_finds_every_block(entries: Seq<(u64, u32)>, j: int)
    requires
        0 < entries.len() <= MAX_BLOCKS,
        increasing(keys_of(entries)),
        0 <= j < entries.len(),
    ensures
        ({
            let alignment = alignment_of(entries) as int;
            let offset = entries[j].0 - entries[0].0;
            let labels = table_labels(
                keys_of(entries),
                entries[0].0,
                alignment as u64,
                table_size_of(entries),
            );
            &&& alignment > 0
            &&& offset % alignment == 0
            &&& 0 <= offset / alignment < labels.len()
            &&& labels[offset / alignment] == j + 1
        }),
{
    let keys = keys_of(entries);
    let alignment = alignment_of(entries) as int;
    let base = entries[0].0 as int;
    let offset = entries[j].0 - base;
    assert forall|i: int| 0 <= i < entries.len() implies entries[0].0 <= (#[trigger] entries[i]).0 by {
        assert(keys[0] == entries[0].0);
        assert(keys[i] == entries[i].0);
        if i > 0 {
            assert(keys[0] < keys[i]);
        }
    }
    lemma_alignment_divides(entries, j);
    lemma_alignment_fits(entries);
    assert(keys[j] == entries[j].0);
    assert(keys[entries.len() - 1] == entries.last().0);
    if j < entries.len() - 1 {
        assert(keys[j] < keys[entries.len() - 1]);
    }
    let span = entries.last().0 - base;
    let size = table_size_of(entries);
    let labels = table_labels(keys, entries[0].0, alignment as u64, size);
    let k = offset / alignment;
    assert(labels.len() == size);
    vstd::arithmetic::div_mod::lemma_div_is_ordered(offset, span, alignment);
    vstd::arithmetic::div_mod::lemma_fundamental_div_mod(offset, alignment);
    assert(k >= 0) by (nonlinear_arith)
        requires
            offset >= 0,
            alignment > 0,
            k == offset / alignment,
    ;
    if span == 0 {
        assert(offset == 0);
        assert(k == 0) by (nonlinear_arith)
            requires
                offset == 0,
                alignment > 0,
                k == offset / alignment,
        ;
    } else {
        assert(size == span / alignment + 1);
    }
    assert(k < size);
    assert(base + k * alignment == keys[j]) by (nonlinear_arith)
        requires
            offset == alignment * k + offset % alignment,
            offset % alignment == 0,
            offset == keys[j] - base,
    ;
    lemma_label_found(keys, j);
    assert(labels[k] == label_at(keys, entries[0].0 + k * (alignment as u64)));
}

} // verus!
