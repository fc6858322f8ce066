//! The Wasm intermediate representation that the lowerer produces, the
//! optimizer rewrites and the assembler reads.

use std::collections::HashMap;
use vstd::prelude::*;

verus! {

/// One typed Wasm operation. Memory operations carry the byte offset that is
/// added to their address operand.
#[derive(Debug, Clone)]
pub enum WasmInst {
    // Control flow
    Block { label: u32 },
    Loop { label: u32 },
    If { label: u32 },
    End,
    Br { label: u32 },
    BrIf { label: u32 },
    BrTable { labels: Vec<u32>, default: u32 },
    Return,
    Call { func_idx: u32 },
    CallIndirect { type_idx: u32 },
    // Locals
    LocalGet { idx: u32 },
    LocalSet { idx: u32 },
    LocalTee { idx: u32 },
    // Constants
    I32Const { value: i32 },
    I64Const { value: i64 },
    // Memory
    I32Load { offset: u32 },
    I64Load { offset: u32 },
    I32Load8S { offset: u32 },
    I32Load8U { offset: u32 },
    I32Load16S { offset: u32 },
    I32Load16U { offset: u32 },
    I64Load8S { offset: u32 },
    I64Load8U { offset: u32 },
    I64Load16S { offset: u32 },
    I64Load16U { offset: u32 },
    I64Load32S { offset: u32 },
    I64Load32U { offset: u32 },
    I32Store { offset: u32 },
    I64Store { offset: u32 },
    I32Store8 { offset: u32 },
    I32Store16 { offset: u32 },
    I64Store8 { offset: u32 },
    I64Store16 { offset: u32 },
    I64Store32 { offset: u32 },
    // Arithmetic (i64)
    I64Add,
    I64Sub,
    I64Mul,
    I64DivS,
    I64DivU,
    I64RemS,
    I64RemU,
    I64And,
    I64Or,
    I64Xor,
    I64Shl,
    I64ShrS,
    I64ShrU,
    I64Rotl,
    I64Rotr,
    I64Clz,
    I64Ctz,
    I64Popcnt,
    I64Eqz,
    I64Eq,
    I64Ne,
    I64LtS,
    I64LtU,
    I64GtS,
    I64GtU,
    I64LeS,
    I64LeU,
    I64GeS,
    I64GeU,
    // Arithmetic (i32)
    I32Add,
    I32Sub,
    I32Mul,
    I32DivS,
    I32DivU,
    I32RemS,
    I32RemU,
    I32And,
    I32Or,
    I32Xor,
    I32Shl,
    I32ShrS,
    I32ShrU,
    I32Eqz,
    I32Eq,
    I32Ne,
    I32LtS,
    I32LtU,
    I32GtS,
    I32GtU,
    I32LeS,
    I32LeU,
    I32GeS,
    I32GeU,
    // Conversions
    I32WrapI64,
    I64ExtendI32S,
    I64ExtendI32U,
    // Single precision
    F32Load { offset: u32 },
    F32Store { offset: u32 },
    F32Add,
    F32Sub,
    F32Mul,
    F32Div,
    F32Sqrt,
    F32Neg,
    F32Abs,
    F32Ceil,
    F32Floor,
    F32Trunc,
    F32Nearest,
    F32Eq,
    F32Ne,
    F32Lt,
    F32Gt,
    F32Le,
    F32Ge,
    F32Min,
    F32Max,
    F32Copysign,
    // Double precision
    F64Load { offset: u32 },
    F64Store { offset: u32 },
    F64Add,
    F64Sub,
    F64Mul,
    F64Div,
    F64Sqrt,
    F64Neg,
    F64Abs,
    F64Ceil,
    F64Floor,
    F64Trunc,
    F64Nearest,
    F64Eq,
    F64Ne,
    F64Lt,
    F64Gt,
    F64Le,
    F64Ge,
    F64Min,
    F64Max,
    F64Copysign,
    // Conversions between integers and floating point
    F32ConvertI32S,
    F32ConvertI32U,
    F32ConvertI64S,
    F32ConvertI64U,
    F64ConvertI32S,
    F64ConvertI32U,
    F64ConvertI64S,
    F64ConvertI64U,
    I32TruncF32S,
    I32TruncF32U,
    I32TruncF64S,
    I32TruncF64U,
    I64TruncF32S,
    I64TruncF32U,
    I64TruncF64S,
    I64TruncF64U,
    F32DemoteF64,
    F64PromoteF32,
    F32ReinterpretI32,
    F64ReinterpretI64,
    I32ReinterpretF32,
    I64ReinterpretF64,
    // Stack manipulation
    Drop,
    Select,
    // Trap
    Unreachable,
    // Annotations, which encode to nothing
    Comment { text: String },
}

/// The mathematical value of a [`WasmInst`]: the same variants, with
/// sequences in place of heap data.
pub enum WasmOp {
    // Control flow
    Block { label: u32 },
    Loop { label: u32 },
    If { label: u32 },
    End,
    Br { label: u32 },
    BrIf { label: u32 },
    BrTable { labels: Seq<u32>, default: u32 },
    Return,
    Call { func_idx: u32 },
    CallIndirect { type_idx: u32 },
    // Locals
    LocalGet { idx: u32 },
    LocalSet { idx: u32 },
    LocalTee { idx: u32 },
    // Constants
    I32Const { value: i32 },
    I64Const { value: i64 },
    // Memory
    I32Load { offset: u32 },
    I64Load { offset: u32 },
    I32Load8S { offset: u32 },
    I32Load8U { offset: u32 },
    I32Load16S { offset: u32 },
    I32Load16U { offset: u32 },
    I64Load8S { offset: u32 },
    I64Load8U { offset: u32 },
    I64Load16S { offset: u32 },
    I64Load16U { offset: u32 },
    I64Load32S { offset: u32 },
    I64Load32U { offset: u32 },
    I32Store { offset: u32 },
    I64Store { offset: u32 },
    I32Store8 { offset: u32 },
    I32Store16 { offset: u32 },
    I64Store8 { offset: u32 },
    I64Store16 { offset: u32 },
    I64Store32 { offset: u32 },
    // Arithmetic (i64)
    I64Add,
    I64Sub,
    I64Mul,
    I64DivS,
    I64DivU,
    I64RemS,
    I64RemU,
    I64And,
    I64Or,
    I64Xor,
    I64Shl,
    I64ShrS,
    I64ShrU,
    I64Rotl,
    I64Rotr,
    I64Clz,
    I64Ctz,
    I64Popcnt,
    I64Eqz,
    I64Eq,
    I64Ne,
    I64LtS,
    I64LtU,
    I64GtS,
    I64GtU,
    I64LeS,
    I64LeU,
    I64GeS,
    I64GeU,
    // Arithmetic (i32)
    I32Add,
    I32Sub,
    I32Mul,
    I32DivS,
    I32DivU,
    I32RemS,
    I32RemU,
    I32And,
    I32Or,
    I32Xor,
    I32Shl,
    I32ShrS,
    I32ShrU,
    I32Eqz,
    I32Eq,
    I32Ne,
    I32LtS,
    I32LtU,
    I32GtS,
    I32GtU,
    I32LeS,
    I32LeU,
    I32GeS,
    I32GeU,
    // Conversions
    I32WrapI64,
    I64ExtendI32S,
    I64ExtendI32U,
    // Single precision
    F32Load { offset: u32 },
    F32Store { offset: u32 },
    F32Add,
    F32Sub,
    F32Mul,
    F32Div,
    F32Sqrt,
    F32Neg,
    F32Abs,
    F32Ceil,
    F32Floor,
    F32Trunc,
    F32Nearest,
    F32Eq,
    F32Ne,
    F32Lt,
    F32Gt,
    F32Le,
    F32Ge,
    F32Min,
    F32Max,
    F32Copysign,
    // Double precision
    F64Load { offset: u32 },
    F64Store { offset: u32 },
    F64Add,
    F64Sub,
    F64Mul,
    F64Div,
    F64Sqrt,
    F64Neg,
    F64Abs,
    F64Ceil,
    F64Floor,
    F64Trunc,
    F64Nearest,
    F64Eq,
    F64Ne,
    F64Lt,
    F64Gt,
    F64Le,
    F64Ge,
    F64Min,
    F64Max,
    F64Copysign,
    // Conversions between integers and floating point
    F32ConvertI32S,
    F32ConvertI32U,
    F32ConvertI64S,
    F32ConvertI64U,
    F64ConvertI32S,
    F64ConvertI32U,
    F64ConvertI64S,
    F64ConvertI64U,
    I32TruncF32S,
    I32TruncF32U,
    I32TruncF64S,
    I32TruncF64U,
    I64TruncF32S,
    I64TruncF32U,
    I64TruncF64S,
    I64TruncF64U,
    F32DemoteF64,
    F64PromoteF32,
    F32ReinterpretI32,
    F64ReinterpretI64,
    I32ReinterpretF32,
    I64ReinterpretF64,
    // Stack manipulation
    Drop,
    Select,
    // Trap
    Unreachable,
    // Annotations, which encode to nothing
    Comment { text: Seq<char> },
}

impl View for WasmInst {
    type V = WasmOp;

    open spec fn view(&self) -> WasmOp {
        match self {
            WasmInst::Block { label } => WasmOp::Block { label: *label },
            WasmInst::Loop { label } => WasmOp::Loop { label: *label },
            WasmInst::If { label } => WasmOp::If { label: *label },
            WasmInst::End => WasmOp::End,
            WasmInst::Br { label } => WasmOp::Br { label: *label },
            WasmInst::BrIf { label } => WasmOp::BrIf { label: *label },
            WasmInst::BrTable { labels, default } => WasmOp::BrTable { labels: labels@, default: *default },
            WasmInst::Return => WasmOp::Return,
            WasmInst::Call { func_idx } => WasmOp::Call { func_idx: *func_idx },
            WasmInst::CallIndirect { type_idx } => WasmOp::CallIndirect { type_idx: *type_idx },
            WasmInst::LocalGet { idx } => WasmOp::LocalGet { idx: *idx },
            WasmInst::LocalSet { idx } => WasmOp::LocalSet { idx: *idx },
            WasmInst::LocalTee { idx } => WasmOp::LocalTee { idx: *idx },
            WasmInst::I32Const { value } => WasmOp::I32Const { value: *value },
            WasmInst::I64Const { value } => WasmOp::I64Const { value: *value },
            WasmInst::I32Load { offset } => WasmOp::I32Load { offset: *offset },
            WasmInst::I64Load { offset } => WasmOp::I64Load { offset: *offset },
            WasmInst::I32Load8S { offset } => WasmOp::I32Load8S { offset: *offset },
            WasmInst::I32Load8U { offset } => WasmOp::I32Load8U { offset: *offset },
            WasmInst::I32Load16S { offset } => WasmOp::I32Load16S { offset: *offset },
            WasmInst::I32Load16U { offset } => WasmOp::I32Load16U { offset: *offset },
            WasmInst::I64Load8S { offset } => WasmOp::I64Load8S { offset: *offset },
            WasmInst::I64Load8U { offset } => WasmOp::I64Load8U { offset: *offset },
            WasmInst::I64Load16S { offset } => WasmOp::I64Load16S { offset: *offset },
            WasmInst::I64Load16U { offset } => WasmOp::I64Load16U { offset: *offset },
            WasmInst::I64Load32S { offset } => WasmOp::I64Load32S { offset: *offset },
            WasmInst::I64Load32U { offset } => WasmOp::I64Load32U { offset: *offset },
            WasmInst::I32Store { offset } => WasmOp::I32Store { offset: *offset },
            WasmInst::I64Store { offset } => WasmOp::I64Store { offset: *offset },
            WasmInst::I32Store8 { offset } => WasmOp::I32Store8 { offset: *offset },
            WasmInst::I32Store16 { offset } => WasmOp::I32Store16 { offset: *offset },
            WasmInst::I64Store8 { offset } => WasmOp::I64Store8 { offset: *offset },
            WasmInst::I64Store16 { offset } => WasmOp::I64Store16 { offset: *offset },
            WasmInst::I64Store32 { offset } => WasmOp::I64Store32 { offset: *offset },
            WasmInst::I64Add => WasmOp::I64Add,
            WasmInst::I64Sub => WasmOp::I64Sub,
            WasmInst::I64Mul => WasmOp::I64Mul,
            WasmInst::I64DivS => WasmOp::I64DivS,
            WasmInst::I64DivU => WasmOp::I64DivU,
            WasmInst::I64RemS => WasmOp::I64RemS,
            WasmInst::I64RemU => WasmOp::I64RemU,
            WasmInst::I64And => WasmOp::I64And,
            WasmInst::I64Or => WasmOp::I64Or,
            WasmInst::I64Xor => WasmOp::I64Xor,
            WasmInst::I64Shl => WasmOp::I64Shl,
            WasmInst::I64ShrS => WasmOp::I64ShrS,
            WasmInst::I64ShrU => WasmOp::I64ShrU,
            WasmInst::I64Rotl => WasmOp::I64Rotl,
            WasmInst::I64Rotr => WasmOp::I64Rotr,
            WasmInst::I64Clz => WasmOp::I64Clz,
            WasmInst::I64Ctz => WasmOp::I64Ctz,
            WasmInst::I64Popcnt => WasmOp::I64Popcnt,
            WasmInst::I64Eqz => WasmOp::I64Eqz,
            WasmInst::I64Eq => WasmOp::I64Eq,
            WasmInst::I64Ne => WasmOp::I64Ne,
            WasmInst::I64LtS => WasmOp::I64LtS,
            WasmInst::I64LtU => WasmOp::I64LtU,
            WasmInst::I64GtS => WasmOp::I64GtS,
            WasmInst::I64GtU => WasmOp::I64GtU,
            WasmInst::I64LeS => WasmOp::I64LeS,
            WasmInst::I64LeU => WasmOp::I64LeU,
            WasmInst::I64GeS => WasmOp::I64GeS,
            WasmInst::I64GeU => WasmOp::I64GeU,
            WasmInst::I32Add => WasmOp::I32Add,
            WasmInst::I32Sub => WasmOp::I32Sub,
            WasmInst::I32Mul => WasmOp::I32Mul,
            WasmInst::I32DivS => WasmOp::I32DivS,
            WasmInst::I32DivU => WasmOp::I32DivU,
            WasmInst::I32RemS => WasmOp::I32RemS,
            WasmInst::I32RemU => WasmOp::I32RemU,
            WasmInst::I32And => WasmOp::I32And,
            WasmInst::I32Or => WasmOp::I32Or,
            WasmInst::I32Xor => WasmOp::I32Xor,
            WasmInst::I32Shl => WasmOp::I32Shl,
            WasmInst::I32ShrS => WasmOp::I32ShrS,
            WasmInst::I32ShrU => WasmOp::I32ShrU,
            WasmInst::I32Eqz => WasmOp::I32Eqz,
            WasmInst::I32Eq => WasmOp::I32Eq,
            WasmInst::I32Ne => WasmOp::I32Ne,
            WasmInst::I32LtS => WasmOp::I32LtS,
            WasmInst::I32LtU => WasmOp::I32LtU,
            WasmInst::I32GtS => WasmOp::I32GtS,
            WasmInst::I32GtU => WasmOp::I32GtU,
            WasmInst::I32LeS => WasmOp::I32LeS,
            WasmInst::I32LeU => WasmOp::I32LeU,
            WasmInst::I32GeS => WasmOp::I32GeS,
            WasmInst::I32GeU => WasmOp::I32GeU,
            WasmInst::I32WrapI64 => WasmOp::I32WrapI64,
            WasmInst::I64ExtendI32S => WasmOp::I64ExtendI32S,
            WasmInst::I64ExtendI32U => WasmOp::I64ExtendI32U,
            WasmInst::F32Load { offset } => WasmOp::F32Load { offset: *offset },
            WasmInst::F32Store { offset } => WasmOp::F32Store { offset: *offset },
            WasmInst::F32Add => WasmOp::F32Add,
            WasmInst::F32Sub => WasmOp::F32Sub,
            WasmInst::F32Mul => WasmOp::F32Mul,
            WasmInst::F32Div => WasmOp::F32Div,
            WasmInst::F32Sqrt => WasmOp::F32Sqrt,
            WasmInst::F32Neg => WasmOp::F32Neg,
            WasmInst::F32Abs => WasmOp::F32Abs,
            WasmInst::F32Ceil => WasmOp::F32Ceil,
            WasmInst::F32Floor => WasmOp::F32Floor,
            WasmInst::F32Trunc => WasmOp::F32Trunc,
            WasmInst::F32Nearest => WasmOp::F32Nearest,
            WasmInst::F32Eq => WasmOp::F32Eq,
            WasmInst::F32Ne => WasmOp::F32Ne,
            WasmInst::F32Lt => WasmOp::F32Lt,
            WasmInst::F32Gt => WasmOp::F32Gt,
            WasmInst::F32Le => WasmOp::F32Le,
            WasmInst::F32Ge => WasmOp::F32Ge,
            WasmInst::F32Min => WasmOp::F32Min,
            WasmInst::F32Max => WasmOp::F32Max,
            WasmInst::F32Copysign => WasmOp::F32Copysign,
            WasmInst::F64Load { offset } => WasmOp::F64Load { offset: *offset },
            WasmInst::F64Store { offset } => WasmOp::F64Store { offset: *offset },
            WasmInst::F64Add => WasmOp::F64Add,
            WasmInst::F64Sub => WasmOp::F64Sub,
            WasmInst::F64Mul => WasmOp::F64Mul,
            WasmInst::F64Div => WasmOp::F64Div,
            WasmInst::F64Sqrt => WasmOp::F64Sqrt,
            WasmInst::F64Neg => WasmOp::F64Neg,
            WasmInst::F64Abs => WasmOp::F64Abs,
            WasmInst::F64Ceil => WasmOp::F64Ceil,
            WasmInst::F64Floor => WasmOp::F64Floor,
            WasmInst::F64Trunc => WasmOp::F64Trunc,
            WasmInst::F64Nearest => WasmOp::F64Nearest,
            WasmInst::F64Eq => WasmOp::F64Eq,
            WasmInst::F64Ne => WasmOp::F64Ne,
            WasmInst::F64Lt => WasmOp::F64Lt,
            WasmInst::F64Gt => WasmOp::F64Gt,
            WasmInst::F64Le => WasmOp::F64Le,
            WasmInst::F64Ge => WasmOp::F64Ge,
            WasmInst::F64Min => WasmOp::F64Min,
            WasmInst::F64Max => WasmOp::F64Max,
            WasmInst::F64Copysign => WasmOp::F64Copysign,
            WasmInst::F32ConvertI32S => WasmOp::F32ConvertI32S,
            WasmInst::F32ConvertI32U => WasmOp::F32ConvertI32U,
            WasmInst::F32ConvertI64S => WasmOp::F32ConvertI64S,
            WasmInst::F32ConvertI64U => WasmOp::F32ConvertI64U,
            WasmInst::F64ConvertI32S => WasmOp::F64ConvertI32S,
            WasmInst::F64ConvertI32U => WasmOp::F64ConvertI32U,
            WasmInst::F64ConvertI64S => WasmOp::F64ConvertI64S,
            WasmInst::F64ConvertI64U => WasmOp::F64ConvertI64U,
            WasmInst::I32TruncF32S => WasmOp::I32TruncF32S,
            WasmInst::I32TruncF32U => WasmOp::I32TruncF32U,
            WasmInst::I32TruncF64S => WasmOp::I32TruncF64S,
            WasmInst::I32TruncF64U => WasmOp::I32TruncF64U,
            WasmInst::I64TruncF32S => WasmOp::I64TruncF32S,
            WasmInst::I64TruncF32U => WasmOp::I64TruncF32U,
            WasmInst::I64TruncF64S => WasmOp::I64TruncF64S,
            WasmInst::I64TruncF64U => WasmOp::I64TruncF64U,
            WasmInst::F32DemoteF64 => WasmOp::F32DemoteF64,
            WasmInst::F64PromoteF32 => WasmOp::F64PromoteF32,
            WasmInst::F32ReinterpretI32 => WasmOp::F32ReinterpretI32,
            WasmInst::F64ReinterpretI64 => WasmOp::F64ReinterpretI64,
            WasmInst::I32ReinterpretF32 => WasmOp::I32ReinterpretF32,
            WasmInst::I64ReinterpretF64 => WasmOp::I64ReinterpretF64,
            WasmInst::Drop => WasmOp::Drop,
            WasmInst::Select => WasmOp::Select,
            WasmInst::Unreachable => WasmOp::Unreachable,
            WasmInst::Comment { text } => WasmOp::Comment { text: text@ },
        }
    }
}

impl WasmInst {
    /// A copy that stands for the same operation.
    pub fn duplicate(&self) -> (r: WasmInst)
        ensures
            r@ == self@,
    {
        match self {
            WasmInst::Block { label } => WasmInst::Block { label: *label },
            WasmInst::Loop { label } => WasmInst::Loop { label: *label },
            WasmInst::If { label } => WasmInst::If { label: *label },
            WasmInst::End => WasmInst::End,
            WasmInst::Br { label } => WasmInst::Br { label: *label },
            WasmInst::BrIf { label } => WasmInst::BrIf { label: *label },
            WasmInst::BrTable { labels, default } => {
                let copy = labels.clone();
                assert(copy@ =~= labels@);
                WasmInst::BrTable { labels: copy, default: *default }
            },
            WasmInst::Return => WasmInst::Return,
            WasmInst::Call { func_idx } => WasmInst::Call { func_idx: *func_idx },
            WasmInst::CallIndirect { type_idx } => WasmInst::CallIndirect { type_idx: *type_idx },
            WasmInst::LocalGet { idx } => WasmInst::LocalGet { idx: *idx },
            WasmInst::LocalSet { idx } => WasmInst::LocalSet { idx: *idx },
            WasmInst::LocalTee { idx } => WasmInst::LocalTee { idx: *idx },
            WasmInst::I32Const { value } => WasmInst::I32Const { value: *value },
            WasmInst::I64Const { value } => WasmInst::I64Const { value: *value },
            WasmInst::I32Load { offset } => WasmInst::I32Load { offset: *offset },
            WasmInst::I64Load { offset } => WasmInst::I64Load { offset: *offset },
            WasmInst::I32Load8S { offset } => WasmInst::I32Load8S { offset: *offset },
            WasmInst::I32Load8U { offset } => WasmInst::I32Load8U { offset: *offset },
            WasmInst::I32Load16S { offset } => WasmInst::I32Load16S { offset: *offset },
            WasmInst::I32Load16U { offset } => WasmInst::I32Load16U { offset: *offset },
            WasmInst::I64Load8S { offset } => WasmInst::I64Load8S { offset: *offset },
            WasmInst::I64Load8U { offset } => WasmInst::I64Load8U { offset: *offset },
            WasmInst::I64Load16S { offset } => WasmInst::I64Load16S { offset: *offset },
            WasmInst::I64Load16U { offset } => WasmInst::I64Load16U { offset: *offset },
            WasmInst::I64Load32S { offset } => WasmInst::I64Load32S { offset: *offset },
            WasmInst::I64Load32U { offset } => WasmInst::I64Load32U { offset: *offset },
            WasmInst::I32Store { offset } => WasmInst::I32Store { offset: *offset },
            WasmInst::I64Store { offset } => WasmInst::I64Store { offset: *offset },
            WasmInst::I32Store8 { offset } => WasmInst::I32Store8 { offset: *offset },
            WasmInst::I32Store16 { offset } => WasmInst::I32Store16 { offset: *offset },
            WasmInst::I64Store8 { offset } => WasmInst::I64Store8 { offset: *offset },
            WasmInst::I64Store16 { offset } => WasmInst::I64Store16 { offset: *offset },
            WasmInst::I64Store32 { offset } => WasmInst::I64Store32 { offset: *offset },
            WasmInst::I64Add => WasmInst::I64Add,
            WasmInst::I64Sub => WasmInst::I64Sub,
            WasmInst::I64Mul => WasmInst::I64Mul,
            WasmInst::I64DivS => WasmInst::I64DivS,
            WasmInst::I64DivU => WasmInst::I64DivU,
            WasmInst::I64RemS => WasmInst::I64RemS,
            WasmInst::I64RemU => WasmInst::I64RemU,
            WasmInst::I64And => WasmInst::I64And,
            WasmInst::I64Or => WasmInst::I64Or,
            WasmInst::I64Xor => WasmInst::I64Xor,
            WasmInst::I64Shl => WasmInst::I64Shl,
            WasmInst::I64ShrS => WasmInst::I64ShrS,
            WasmInst::I64ShrU => WasmInst::I64ShrU,
            WasmInst::I64Rotl => WasmInst::I64Rotl,
            WasmInst::I64Rotr => WasmInst::I64Rotr,
            WasmInst::I64Clz => WasmInst::I64Clz,
            WasmInst::I64Ctz => WasmInst::I64Ctz,
            WasmInst::I64Popcnt => WasmInst::I64Popcnt,
            WasmInst::I64Eqz => WasmInst::I64Eqz,
            WasmInst::I64Eq => WasmInst::I64Eq,
            WasmInst::I64Ne => WasmInst::I64Ne,
            WasmInst::I64LtS => WasmInst::I64LtS,
            WasmInst::I64LtU => WasmInst::I64LtU,
            WasmInst::I64GtS => WasmInst::I64GtS,
            WasmInst::I64GtU => WasmInst::I64GtU,
            WasmInst::I64LeS => WasmInst::I64LeS,
            WasmInst::I64LeU => WasmInst::I64LeU,
            WasmInst::I64GeS => WasmInst::I64GeS,
            WasmInst::I64GeU => WasmInst::I64GeU,
            WasmInst::I32Add => WasmInst::I32Add,
            WasmInst::I32Sub => WasmInst::I32Sub,
            WasmInst::I32Mul => WasmInst::I32Mul,
            WasmInst::I32DivS => WasmInst::I32DivS,
            WasmInst::I32DivU => WasmInst::I32DivU,
            WasmInst::I32RemS => WasmInst::I32RemS,
            WasmInst::I32RemU => WasmInst::I32RemU,
            WasmInst::I32And => WasmInst::I32And,
            WasmInst::I32Or => WasmInst::I32Or,
            WasmInst::I32Xor => WasmInst::I32Xor,
            WasmInst::I32Shl => WasmInst::I32Shl,
            WasmInst::I32ShrS => WasmInst::I32ShrS,
            WasmInst::I32ShrU => WasmInst::I32ShrU,
            WasmInst::I32Eqz => WasmInst::I32Eqz,
            WasmInst::I32Eq => WasmInst::I32Eq,
            WasmInst::I32Ne => WasmInst::I32Ne,
            WasmInst::I32LtS => WasmInst::I32LtS,
            WasmInst::I32LtU => WasmInst::I32LtU,
            WasmInst::I32GtS => WasmInst::I32GtS,
            WasmInst::I32GtU => WasmInst::I32GtU,
            WasmInst::I32LeS => WasmInst::I32LeS,
            WasmInst::I32LeU => WasmInst::I32LeU,
            WasmInst::I32GeS => WasmInst::I32GeS,
            WasmInst::I32GeU => WasmInst::I32GeU,
            WasmInst::I32WrapI64 => WasmInst::I32WrapI64,
            WasmInst::I64ExtendI32S => WasmInst::I64ExtendI32S,
            WasmInst::I64ExtendI32U => WasmInst::I64ExtendI32U,
            WasmInst::F32Load { offset } => WasmInst::F32Load { offset: *offset },
            WasmInst::F32Store { offset } => WasmInst::F32Store { offset: *offset },
            WasmInst::F32Add => WasmInst::F32Add,
            WasmInst::F32Sub => WasmInst::F32Sub,
            WasmInst::F32Mul => WasmInst::F32Mul,
            WasmInst::F32Div => WasmInst::F32Div,
            WasmInst::F32Sqrt => WasmInst::F32Sqrt,
            WasmInst::F32Neg => WasmInst::F32Neg,
            WasmInst::F32Abs => WasmInst::F32Abs,
            WasmInst::F32Ceil => WasmInst::F32Ceil,
            WasmInst::F32Floor => WasmInst::F32Floor,
            WasmInst::F32Trunc => WasmInst::F32Trunc,
            WasmInst::F32Nearest => WasmInst::F32Nearest,
            WasmInst::F32Eq => WasmInst::F32Eq,
            WasmInst::F32Ne => WasmInst::F32Ne,
            WasmInst::F32Lt => WasmInst::F32Lt,
            WasmInst::F32Gt => WasmInst::F32Gt,
            WasmInst::F32Le => WasmInst::F32Le,
            WasmInst::F32Ge => WasmInst::F32Ge,
            WasmInst::F32Min => WasmInst::F32Min,
            WasmInst::F32Max => WasmInst::F32Max,
            WasmInst::F32Copysign => WasmInst::F32Copysign,
            WasmInst::F64Load { offset } => WasmInst::F64Load { offset: *offset },
            WasmInst::F64Store { offset } => WasmInst::F64Store { offset: *offset },
            WasmInst::F64Add => WasmInst::F64Add,
            WasmInst::F64Sub => WasmInst::F64Sub,
            WasmInst::F64Mul => WasmInst::F64Mul,
            WasmInst::F64Div => WasmInst::F64Div,
            WasmInst::F64Sqrt => WasmInst::F64Sqrt,
            WasmInst::F64Neg => WasmInst::F64Neg,
            WasmInst::F64Abs => WasmInst::F64Abs,
            WasmInst::F64Ceil => WasmInst::F64Ceil,
            WasmInst::F64Floor => WasmInst::F64Floor,
            WasmInst::F64Trunc => WasmInst::F64Trunc,
            WasmInst::F64Nearest => WasmInst::F64Nearest,
            WasmInst::F64Eq => WasmInst::F64Eq,
            WasmInst::F64Ne => WasmInst::F64Ne,
            WasmInst::F64Lt => WasmInst::F64Lt,
            WasmInst::F64Gt => WasmInst::F64Gt,
            WasmInst::F64Le => WasmInst::F64Le,
            WasmInst::F64Ge => WasmInst::F64Ge,
            WasmInst::F64Min => WasmInst::F64Min,
            WasmInst::F64Max => WasmInst::F64Max,
            WasmInst::F64Copysign => WasmInst::F64Copysign,
            WasmInst::F32ConvertI32S => WasmInst::F32ConvertI32S,
            WasmInst::F32ConvertI32U => WasmInst::F32ConvertI32U,
            WasmInst::F32ConvertI64S => WasmInst::F32ConvertI64S,
            WasmInst::F32ConvertI64U => WasmInst::F32ConvertI64U,
            WasmInst::F64ConvertI32S => WasmInst::F64ConvertI32S,
            WasmInst::F64ConvertI32U => WasmInst::F64ConvertI32U,
            WasmInst::F64ConvertI64S => WasmInst::F64ConvertI64S,
            WasmInst::F64ConvertI64U => WasmInst::F64ConvertI64U,
            WasmInst::I32TruncF32S => WasmInst::I32TruncF32S,
            WasmInst::I32TruncF32U => WasmInst::I32TruncF32U,
            WasmInst::I32TruncF64S => WasmInst::I32TruncF64S,
            WasmInst::I32TruncF64U => WasmInst::I32TruncF64U,
            WasmInst::I64TruncF32S => WasmInst::I64TruncF32S,
            WasmInst::I64TruncF32U => WasmInst::I64TruncF32U,
            WasmInst::I64TruncF64S => WasmInst::I64TruncF64S,
            WasmInst::I64TruncF64U => WasmInst::I64TruncF64U,
            WasmInst::F32DemoteF64 => WasmInst::F32DemoteF64,
            WasmInst::F64PromoteF32 => WasmInst::F64PromoteF32,
            WasmInst::F32ReinterpretI32 => WasmInst::F32ReinterpretI32,
            WasmInst::F64ReinterpretI64 => WasmInst::F64ReinterpretI64,
            WasmInst::I32ReinterpretF32 => WasmInst::I32ReinterpretF32,
            WasmInst::I64ReinterpretF64 => WasmInst::I64ReinterpretF64,
            WasmInst::Drop => WasmInst::Drop,
            WasmInst::Select => WasmInst::Select,
            WasmInst::Unreachable => WasmInst::Unreachable,
            WasmInst::Comment { text } => WasmInst::Comment { text: text.clone() },
        }
    }
}

/// The operations that a body stands for, in order.
pub open spec fn ops(body: Seq<WasmInst>) -> Seq<WasmOp> {
    body.map_values(|inst: WasmInst| inst@)
}

/// Appending to a body appends to the operations it stands for.
pub proof fn lemma_ops_push(body: Seq<WasmInst>, inst: WasmInst)
    ensures
        ops(body.push(inst)) == ops(body).push(inst@),
{
    assert(ops(body.push(inst)) =~= ops(body).push(inst@));
}

/// Appends one operation to a body.
pub fn emit(body: &mut Vec<WasmInst>, inst: WasmInst)
    ensures
        final(body)@ == old(body)@.push(inst),
        ops(final(body)@) == ops(old(body)@).push(inst@),
{
    proof {
        lemma_ops_push(body@, inst);
    }
    body.push(inst);
}

/// A generated Wasm function: the code of one basic block.
#[derive(Debug)]
pub struct WasmFunction {
    /// Function name, under which it is exported.
    pub name: String,
    /// Address of the guest block it was made from.
    pub block_addr: u64,
    /// Operations, in order.
    pub body: Vec<WasmInst>,
    /// Number of local slots beyond the parameter.
    pub num_locals: u32,
}

/// A generated Wasm module, before assembly.
#[derive(Debug)]
pub struct WasmModule {
    /// One function per basic block, in block-map order.
    pub functions: Vec<WasmFunction>,
    /// Minimum memory size in pages of 64 KiB.
    pub memory_pages: u32,
    /// Entry block address.
    pub entry: u64,
    /// Index in `functions` of the function made from each block address.
    pub block_to_func: HashMap<u64, usize>,
}

impl WasmModule {
    /// Number of block functions.
    pub fn function_count(&self) -> (n: usize)
        ensures
            n == self.functions.len(),
    {
        self.functions.len()
    }
}

} // verus!
