use rv2wasm::ir::{WasmFunction, WasmInst, WasmModule};
use rv2wasm::wasm_builder::build;
use std::collections::HashMap;

fn unsigned(out: &mut Vec<u8>, mut value: u64) {
    loop {
        let low = (value & 0x7f) as u8;
        value >>= 7;
        if value == 0 {
            out.push(low);
            return;
        }
        out.push(low | 0x80);
    }
}

fn signed(out: &mut Vec<u8>, mut value: i64) {
    loop {
        let low = (value & 0x7f) as u8;
        let rest = value >> 7;
        let last = (rest == 0 && low & 0x40 == 0) || (rest == -1 && low & 0x40 != 0);
        if last {
            out.push(low);
            return;
        }
        out.push(low | 0x80);
        value = rest;
    }
}

fn every_operation() -> Vec<WasmInst> {
    vec![
        WasmInst::Block { label: 9 },
        WasmInst::Loop { label: 9 },
        WasmInst::If { label: 9 },
        WasmInst::End,
        WasmInst::Br { label: 1000 },
        WasmInst::BrIf { label: 1000 },
        WasmInst::BrTable { labels: vec![0, 1, 200, 70000], default: 3 },
        WasmInst::Return,
        WasmInst::Call { func_idx: 1000 },
        WasmInst::CallIndirect { type_idx: 300 },
        WasmInst::LocalGet { idx: 1000 },
        WasmInst::LocalSet { idx: 1000 },
        WasmInst::LocalTee { idx: 1000 },
        WasmInst::I32Const { value: -123456 },
        WasmInst::I64Const { value: i64::MIN + 5 },
        WasmInst::I32Load { offset: 300 },
        WasmInst::I64Load { offset: 300 },
        WasmInst::I32Load8S { offset: 300 },
        WasmInst::I32Load8U { offset: 300 },
        WasmInst::I32Load16S { offset: 300 },
        WasmInst::I32Load16U { offset: 300 },
        WasmInst::I64Load8S { offset: 300 },
        WasmInst::I64Load8U { offset: 300 },
        WasmInst::I64Load16S { offset: 300 },
        WasmInst::I64Load16U { offset: 300 },
        WasmInst::I64Load32S { offset: 300 },
        WasmInst::I64Load32U { offset: 300 },
        WasmInst::I32Store { offset: 300 },
        WasmInst::I64Store { offset: 300 },
        WasmInst::I32Store8 { offset: 300 },
        WasmInst::I32Store16 { offset: 300 },
        WasmInst::I64Store8 { offset: 300 },
        WasmInst::I64Store16 { offset: 300 },
        WasmInst::I64Store32 { offset: 300 },
        WasmInst::I64Add,
        WasmInst::I64Sub,
        WasmInst::I64Mul,
        WasmInst::I64DivS,
        WasmInst::I64DivU,
        WasmInst::I64RemS,
        WasmInst::I64RemU,
        WasmInst::I64And,
        WasmInst::I64Or,
        WasmInst::I64Xor,
        WasmInst::I64Shl,
        WasmInst::I64ShrS,
        WasmInst::I64ShrU,
        WasmInst::I64Rotl,
        WasmInst::I64Rotr,
        WasmInst::I64Clz,
        WasmInst::I64Ctz,
        WasmInst::I64Popcnt,
        WasmInst::I64Eqz,
        WasmInst::I64Eq,
        WasmInst::I64Ne,
        WasmInst::I64LtS,
        WasmInst::I64LtU,
        WasmInst::I64GtS,
        WasmInst::I64GtU,
        WasmInst::I64LeS,
        WasmInst::I64LeU,
        WasmInst::I64GeS,
        WasmInst::I64GeU,
        WasmInst::I32Add,
        WasmInst::I32Sub,
        WasmInst::I32Mul,
        WasmInst::I32DivS,
        WasmInst::I32DivU,
        WasmInst::I32RemS,
        WasmInst::I32RemU,
        WasmInst::I32And,
        WasmInst::I32Or,
        WasmInst::I32Xor,
        WasmInst::I32Shl,
        WasmInst::I32ShrS,
        WasmInst::I32ShrU,
        WasmInst::I32Eqz,
        WasmInst::I32Eq,
        WasmInst::I32Ne,
        WasmInst::I32LtS,
        WasmInst::I32LtU,
        WasmInst::I32GtS,
        WasmInst::I32GtU,
        WasmInst::I32LeS,
        WasmInst::I32LeU,
        WasmInst::I32GeS,
        WasmInst::I32GeU,
        WasmInst::I32WrapI64,
        WasmInst::I64ExtendI32S,
        WasmInst::I64ExtendI32U,
        WasmInst::F32Load { offset: 300 },
        WasmInst::F32Store { offset: 300 },
        WasmInst::F32Add,
        WasmInst::F32Sub,
        WasmInst::F32Mul,
        WasmInst::F32Div,
        WasmInst::F32Sqrt,
        WasmInst::F32Neg,
        WasmInst::F32Abs,
        WasmInst::F32Ceil,
        WasmInst::F32Floor,
        WasmInst::F32Trunc,
        WasmInst::F32Nearest,
        WasmInst::F32Eq,
        WasmInst::F32Ne,
        WasmInst::F32Lt,
        WasmInst::F32Gt,
        WasmInst::F32Le,
        WasmInst::F32Ge,
        WasmInst::F32Min,
        WasmInst::F32Max,
        WasmInst::F32Copysign,
        WasmInst::F64Load { offset: 300 },
        WasmInst::F64Store { offset: 300 },
        WasmInst::F64Add,
        WasmInst::F64Sub,
        WasmInst::F64Mul,
        WasmInst::F64Div,
        WasmInst::F64Sqrt,
        WasmInst::F64Neg,
        WasmInst::F64Abs,
        WasmInst::F64Ceil,
        WasmInst::F64Floor,
        WasmInst::F64Trunc,
        WasmInst::F64Nearest,
        WasmInst::F64Eq,
        WasmInst::F64Ne,
        WasmInst::F64Lt,
        WasmInst::F64Gt,
        WasmInst::F64Le,
        WasmInst::F64Ge,
        WasmInst::F64Min,
        WasmInst::F64Max,
        WasmInst::F64Copysign,
        WasmInst::F32ConvertI32S,
        WasmInst::F32ConvertI32U,
        WasmInst::F32ConvertI64S,
        WasmInst::F32ConvertI64U,
        WasmInst::F64ConvertI32S,
        WasmInst::F64ConvertI32U,
        WasmInst::F64ConvertI64S,
        WasmInst::F64ConvertI64U,
        WasmInst::I32TruncF32S,
        WasmInst::I32TruncF32U,
        WasmInst::I32TruncF64S,
        WasmInst::I32TruncF64U,
        WasmInst::I64TruncF32S,
        WasmInst::I64TruncF32U,
        WasmInst::I64TruncF64S,
        WasmInst::I64TruncF64U,
        WasmInst::F32DemoteF64,
        WasmInst::F64PromoteF32,
        WasmInst::F32ReinterpretI32,
        WasmInst::F64ReinterpretI64,
        WasmInst::I32ReinterpretF32,
        WasmInst::I64ReinterpretF64,
        WasmInst::Drop,
        WasmInst::Select,
        WasmInst::Unreachable,
        WasmInst::Comment { text: String::from("annotation") },
    ]
}

fn every_encoding() -> Vec<u8> {
    let mut want: Vec<u8> = Vec::new();
    want.push(0x02); want.push(0x40);
    want.push(0x03); want.push(0x40);
    want.push(0x04); want.push(0x40);
    want.push(0x0B);
    want.push(0x0C); unsigned(&mut want, 1000);
    want.push(0x0D); unsigned(&mut want, 1000);
    want.push(0x0E); unsigned(&mut want, 4); unsigned(&mut want, 0); unsigned(&mut want, 1); unsigned(&mut want, 200); unsigned(&mut want, 70000); unsigned(&mut want, 3);
    want.push(0x0F);
    want.push(0x10); unsigned(&mut want, 1000);
    want.push(0x11); unsigned(&mut want, 300); want.push(0);
    want.push(0x20); unsigned(&mut want, 1000);
    want.push(0x21); unsigned(&mut want, 1000);
    want.push(0x22); unsigned(&mut want, 1000);
    want.push(0x41); signed(&mut want, -123456);
    want.push(0x42); signed(&mut want, i64::MIN + 5);
    want.push(0x28); want.push(2); unsigned(&mut want, 300);
    want.push(0x29); want.push(3); unsigned(&mut want, 300);
    want.push(0x2C); want.push(0); unsigned(&mut want, 300);
    want.push(0x2D); want.push(0); unsigned(&mut want, 300);
    want.push(0x2E); want.push(1); unsigned(&mut want, 300);
    want.push(0x2F); want.push(1); unsigned(&mut want, 300);
    want.push(0x30); want.push(0); unsigned(&mut want, 300);
    want.push(0x31); want.push(0); unsigned(&mut want, 300);
    want.push(0x32); want.push(1); unsigned(&mut want, 300);
    want.push(0x33); want.push(1); unsigned(&mut want, 300);
    want.push(0x34); want.push(2); unsigned(&mut want, 300);
    want.push(0x35); want.push(2); unsigned(&mut want, 300);
    want.push(0x36); want.push(2); unsigned(&mut want, 300);
    want.push(0x37); want.push(3); unsigned(&mut want, 300);
    want.push(0x3A); want.push(0); unsigned(&mut want, 300);
    want.push(0x3B); want.push(1); unsigned(&mut want, 300);
    want.push(0x3C); want.push(0); unsigned(&mut want, 300);
    want.push(0x3D); want.push(1); unsigned(&mut want, 300);
    want.push(0x3E); want.push(2); unsigned(&mut want, 300);
    want.push(0x7C);
    want.push(0x7D);
    want.push(0x7E);
    want.push(0x7F);
    want.push(0x80);
    want.push(0x81);
    want.push(0x82);
    want.push(0x83);
    want.push(0x84);
    want.push(0x85);
    want.push(0x86);
    want.push(0x87);
    want.push(0x88);
    want.push(0x89);
    want.push(0x8A);
    want.push(0x79);
    want.push(0x7A);
    want.push(0x7B);
    want.push(0x50);
    want.push(0x51);
    want.push(0x52);
    want.push(0x53);
    want.push(0x54);
    want.push(0x55);
    want.push(0x56);
    want.push(0x57);
    want.push(0x58);
    want.push(0x59);
    want.push(0x5A);
    want.push(0x6A);
    want.push(0x6B);
    want.push(0x6C);
    want.push(0x6D);
    want.push(0x6E);
    want.push(0x6F);
    want.push(0x70);
    want.push(0x71);
    want.push(0x72);
    want.push(0x73);
    want.push(0x74);
    want.push(0x75);
    want.push(0x76);
    want.push(0x45);
    want.push(0x46);
    want.push(0x47);
    want.push(0x48);
    want.push(0x49);
    want.push(0x4A);
    want.push(0x4B);
    want.push(0x4C);
    want.push(0x4D);
    want.push(0x4E);
    want.push(0x4F);
    want.push(0xA7);
    want.push(0xAC);
    want.push(0xAD);
    want.push(0x2A); want.push(2); unsigned(&mut want, 300);
    want.push(0x38); want.push(2); unsigned(&mut want, 300);
    want.push(0x92);
    want.push(0x93);
    want.push(0x94);
    want.push(0x95);
    want.push(0x91);
    want.push(0x8C);
    want.push(0x8B);
    want.push(0x8D);
    want.push(0x8E);
    want.push(0x8F);
    want.push(0x90);
    want.push(0x5B);
    want.push(0x5C);
    want.push(0x5D);
    want.push(0x5E);
    want.push(0x5F);
    want.push(0x60);
    want.push(0x96);
    want.push(0x97);
    want.push(0x98);
    want.push(0x2B); want.push(3); unsigned(&mut want, 300);
    want.push(0x39); want.push(3); unsigned(&mut want, 300);
    want.push(0xA0);
    want.push(0xA1);
    want.push(0xA2);
    want.push(0xA3);
    want.push(0x9F);
    want.push(0x9A);
    want.push(0x99);
    want.push(0x9B);
    want.push(0x9C);
    want.push(0x9D);
    want.push(0x9E);
    want.push(0x61);
    want.push(0x62);
    want.push(0x63);
    want.push(0x64);
    want.push(0x65);
    want.push(0x66);
    want.push(0xA4);
    want.push(0xA5);
    want.push(0xA6);
    want.push(0xB2);
    want.push(0xB3);
    want.push(0xB4);
    want.push(0xB5);
    want.push(0xB7);
    want.push(0xB8);
    want.push(0xB9);
    want.push(0xBA);
    want.push(0xA8);
    want.push(0xA9);
    want.push(0xAA);
    want.push(0xAB);
    want.push(0xAE);
    want.push(0xAF);
    want.push(0xB0);
    want.push(0xB1);
    want.push(0xB6);
    want.push(0xBB);
    want.push(0xBE);
    want.push(0xBF);
    want.push(0xBC);
    want.push(0xBD);
    want.push(0x1A);
    want.push(0x1B);
    want.push(0x00);
    want
}

#[test]
fn every_operation_is_transcribed_to_its_encoding() {
    let module = WasmModule {
        functions: vec![WasmFunction {
            name: String::from("block_0"),
            block_addr: 0,
            body: every_operation(),
            num_locals: 130,
        }],
        memory_pages: 8,
        entry: 0,
        block_to_func: HashMap::new(),
    };
    let bytes = build(&module).unwrap();
    let mut body: Vec<u8> = vec![1];
    unsigned(&mut body, 130);
    body.push(0x7E);
    body.extend(every_encoding());
    body.push(0x0B);
    let mut entry = Vec::new();
    unsigned(&mut entry, body.len() as u64);
    entry.extend(body);
    assert_eq!(&bytes[bytes.len() - entry.len()..], &entry[..]);
}

#[test]
fn leb128_boundaries_are_encoded_as_the_format_asks() {
    let consts = |values: &[i64]| -> Vec<u8> {
        let module = WasmModule {
            functions: vec![WasmFunction {
                name: String::from("f"),
                block_addr: 0,
                body: values.iter().map(|v| WasmInst::I64Const { value: *v }).collect(),
                num_locals: 0,
            }],
            memory_pages: 8,
            entry: 0,
            block_to_func: HashMap::new(),
        };
        let bytes = build(&module).unwrap();
        let mut want = vec![1u8, 0, 0x7E];
        for v in values {
            want.push(0x42);
            signed(&mut want, *v);
        }
        want.push(0x0B);
        let got = bytes[bytes.len() - want.len()..].to_vec();
        assert_eq!(got, want);
        got
    };
    let got = consts(&[0, 63, 64, -64, -65, 127, 128, -128, -129, i64::MAX, i64::MIN]);
    // 63 and -64 take one byte, 64 and -65 take two
    assert_eq!(&got[3..5], &[0x42, 0x00]);
    assert_eq!(&got[5..7], &[0x42, 0x3F]);
    assert_eq!(&got[7..10], &[0x42, 0xC0, 0x00]);
    assert_eq!(&got[10..12], &[0x42, 0x40]);
    assert_eq!(&got[12..15], &[0x42, 0xBF, 0x7F]);
}
