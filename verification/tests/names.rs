use rv2wasm::disasm::Opcode;
use rv2wasm::text::{hex_name, hex_name_padded, mnemonic};

#[test]
fn hexadecimal_names_have_no_leading_zeros() {
    assert_eq!(hex_name("block_", 0), "block_0");
    assert_eq!(hex_name("block_", 0xf), "block_f");
    assert_eq!(hex_name("block_", 0x10), "block_10");
    assert_eq!(hex_name("func_", 0x1000), "func_1000");
    assert_eq!(hex_name("seg_0x", 0xdead_beef), "seg_0xdeadbeef");
    assert_eq!(hex_name("", u64::MAX), "ffffffffffffffff");
}

#[test]
fn padded_names_have_at_least_eight_digits() {
    assert_eq!(hex_name_padded("Block 0x", 0), "Block 0x00000000");
    assert_eq!(hex_name_padded("Block 0x", 0x1000), "Block 0x00001000");
    assert_eq!(hex_name_padded("jit_0x", 0xffff_ffff), "jit_0xffffffff");
    assert_eq!(hex_name_padded("", 0x1_2345_6789), "123456789");
}

#[test]
fn version_names_the_run_time_compiler() {
    assert_eq!(rv2wasm::version(), "rv2wasm-jit 0.1.0");
}

#[test]
fn mnemonics_are_the_variant_names() {
    for code in [
        Opcode::LUI,
        Opcode::ADDI,
        Opcode::SRAIW,
        Opcode::LR_W,
        Opcode::AMOMAXU_D,
        Opcode::FNMADD_S,
        Opcode::FCVT_D_LU,
        Opcode::FMV_X_W,
        Opcode::C_ADDI4SPN,
        Opcode::C_EBREAK,
        Opcode::Unknown,
    ] {
        assert_eq!(mnemonic(code), format!("{:?}", code));
    }
}
