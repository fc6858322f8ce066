//! Names and annotations carried by the generated code.

use crate::disasm::Opcode;
use vstd::prelude::*;
use vstd::string::StringExecFns;

verus! {

/// The name of an opcode: that of its variant.
pub open spec fn mnemonic_text(code: Opcode) -> Seq<char> {
    match code {
        Opcode::LUI => "LUI"@,
        Opcode::AUIPC => "AUIPC"@,
        Opcode::JAL => "JAL"@,
        Opcode::JALR => "JALR"@,
        Opcode::BEQ => "BEQ"@,
        Opcode::BNE => "BNE"@,
        Opcode::BLT => "BLT"@,
        Opcode::BGE => "BGE"@,
        Opcode::BLTU => "BLTU"@,
        Opcode::BGEU => "BGEU"@,
        Opcode::LB => "LB"@,
        Opcode::LH => "LH"@,
        Opcode::LW => "LW"@,
        Opcode::LBU => "LBU"@,
        Opcode::LHU => "LHU"@,
        Opcode::SB => "SB"@,
        Opcode::SH => "SH"@,
        Opcode::SW => "SW"@,
        Opcode::ADDI => "ADDI"@,
        Opcode::SLTI => "SLTI"@,
        Opcode::SLTIU => "SLTIU"@,
        Opcode::XORI => "XORI"@,
        Opcode::ORI => "ORI"@,
        Opcode::ANDI => "ANDI"@,
        Opcode::SLLI => "SLLI"@,
        Opcode::SRLI => "SRLI"@,
        Opcode::SRAI => "SRAI"@,
        Opcode::ADD => "ADD"@,
        Opcode::SUB => "SUB"@,
        Opcode::SLL => "SLL"@,
        Opcode::SLT => "SLT"@,
        Opcode::SLTU => "SLTU"@,
        Opcode::XOR => "XOR"@,
        Opcode::SRL => "SRL"@,
        Opcode::SRA => "SRA"@,
        Opcode::OR => "OR"@,
        Opcode::AND => "AND"@,
        Opcode::FENCE => "FENCE"@,
        Opcode::ECALL => "ECALL"@,
        Opcode::EBREAK => "EBREAK"@,
        Opcode::LWU => "LWU"@,
        Opcode::LD => "LD"@,
        Opcode::SD => "SD"@,
        Opcode::ADDIW => "ADDIW"@,
        Opcode::SLLIW => "SLLIW"@,
        Opcode::SRLIW => "SRLIW"@,
        Opcode::SRAIW => "SRAIW"@,
        Opcode::ADDW => "ADDW"@,
        Opcode::SUBW => "SUBW"@,
        Opcode::SLLW => "SLLW"@,
        Opcode::SRLW => "SRLW"@,
        Opcode::SRAW => "SRAW"@,
        Opcode::MUL => "MUL"@,
        Opcode::MULH => "MULH"@,
        Opcode::MULHSU => "MULHSU"@,
        Opcode::MULHU => "MULHU"@,
        Opcode::DIV => "DIV"@,
        Opcode::DIVU => "DIVU"@,
        Opcode::REM => "REM"@,
        Opcode::REMU => "REMU"@,
        Opcode::MULW => "MULW"@,
        Opcode::DIVW => "DIVW"@,
        Opcode::DIVUW => "DIVUW"@,
        Opcode::REMW => "REMW"@,
        Opcode::REMUW => "REMUW"@,
        Opcode::LR_W => "LR_W"@,
        Opcode::SC_W => "SC_W"@,
        Opcode::AMOSWAP_W => "AMOSWAP_W"@,
        Opcode::AMOADD_W => "AMOADD_W"@,
        Opcode::AMOXOR_W => "AMOXOR_W"@,
        Opcode::AMOAND_W => "AMOAND_W"@,
        Opcode::AMOOR_W => "AMOOR_W"@,
        Opcode::AMOMIN_W => "AMOMIN_W"@,
        Opcode::AMOMAX_W => "AMOMAX_W"@,
        Opcode::AMOMINU_W => "AMOMINU_W"@,
        Opcode::AMOMAXU_W => "AMOMAXU_W"@,
        Opcode::LR_D => "LR_D"@,
        Opcode::SC_D => "SC_D"@,
        Opcode::AMOSWAP_D => "AMOSWAP_D"@,
        Opcode::AMOADD_D => "AMOADD_D"@,
        Opcode::AMOXOR_D => "AMOXOR_D"@,
        Opcode::AMOAND_D => "AMOAND_D"@,
        Opcode::AMOOR_D => "AMOOR_D"@,
        Opcode::AMOMIN_D => "AMOMIN_D"@,
        Opcode::AMOMAX_D => "AMOMAX_D"@,
        Opcode::AMOMINU_D => "AMOMINU_D"@,
        Opcode::AMOMAXU_D => "AMOMAXU_D"@,
        Opcode::FLW => "FLW"@,
        Opcode::FSW => "FSW"@,
        Opcode::FLD => "FLD"@,
        Opcode::FSD => "FSD"@,
        Opcode::FMADD_S => "FMADD_S"@,
        Opcode::FMSUB_S => "FMSUB_S"@,
        Opcode::FNMSUB_S => "FNMSUB_S"@,
        Opcode::FNMADD_S => "FNMADD_S"@,
        Opcode::FADD_S => "FADD_S"@,
        Opcode::FSUB_S => "FSUB_S"@,
        Opcode::FMUL_S => "FMUL_S"@,
        Opcode::FDIV_S => "FDIV_S"@,
        Opcode::FSQRT_S => "FSQRT_S"@,
        Opcode::FMADD_D => "FMADD_D"@,
        Opcode::FMSUB_D => "FMSUB_D"@,
        Opcode::FNMSUB_D => "FNMSUB_D"@,
        Opcode::FNMADD_D => "FNMADD_D"@,
        Opcode::FADD_D => "FADD_D"@,
        Opcode::FSUB_D => "FSUB_D"@,
        Opcode::FMUL_D => "FMUL_D"@,
        Opcode::FDIV_D => "FDIV_D"@,
        Opcode::FSQRT_D => "FSQRT_D"@,
        Opcode::FSGNJ_S => "FSGNJ_S"@,
        Opcode::FSGNJN_S => "FSGNJN_S"@,
        Opcode::FSGNJX_S => "FSGNJX_S"@,
        Opcode::FSGNJ_D => "FSGNJ_D"@,
        Opcode::FSGNJN_D => "FSGNJN_D"@,
        Opcode::FSGNJX_D => "FSGNJX_D"@,
        Opcode::FMIN_S => "FMIN_S"@,
        Opcode::FMAX_S => "FMAX_S"@,
        Opcode::FMIN_D => "FMIN_D"@,
        Opcode::FMAX_D => "FMAX_D"@,
        Opcode::FEQ_S => "FEQ_S"@,
        Opcode::FLT_S => "FLT_S"@,
        Opcode::FLE_S => "FLE_S"@,
        Opcode::FEQ_D => "FEQ_D"@,
        Opcode::FLT_D => "FLT_D"@,
        Opcode::FLE_D => "FLE_D"@,
        Opcode::FCVT_W_S => "FCVT_W_S"@,
        Opcode::FCVT_WU_S => "FCVT_WU_S"@,
        Opcode::FCVT_L_S => "FCVT_L_S"@,
        Opcode::FCVT_LU_S => "FCVT_LU_S"@,
        Opcode::FCVT_W_D => "FCVT_W_D"@,
        Opcode::FCVT_WU_D => "FCVT_WU_D"@,
        Opcode::FCVT_L_D => "FCVT_L_D"@,
        Opcode::FCVT_LU_D => "FCVT_LU_D"@,
        Opcode::FCVT_S_W => "FCVT_S_W"@,
        Opcode::FCVT_S_WU => "FCVT_S_WU"@,
        Opcode::FCVT_S_L => "FCVT_S_L"@,
        Opcode::FCVT_S_LU => "FCVT_S_LU"@,
        Opcode::FCVT_D_W => "FCVT_D_W"@,
        Opcode::FCVT_D_WU => "FCVT_D_WU"@,
        Opcode::FCVT_D_L => "FCVT_D_L"@,
        Opcode::FCVT_D_LU => "FCVT_D_LU"@,
        Opcode::FCVT_S_D => "FCVT_S_D"@,
        Opcode::FCVT_D_S => "FCVT_D_S"@,
        Opcode::FMV_X_W => "FMV_X_W"@,
        Opcode::FMV_W_X => "FMV_W_X"@,
        Opcode::FMV_X_D => "FMV_X_D"@,
        Opcode::FMV_D_X => "FMV_D_X"@,
        Opcode::FCLASS_S => "FCLASS_S"@,
        Opcode::FCLASS_D => "FCLASS_D"@,
        Opcode::C_ADDI4SPN => "C_ADDI4SPN"@,
        Opcode::C_LW => "C_LW"@,
        Opcode::C_SW => "C_SW"@,
        Opcode::C_NOP => "C_NOP"@,
        Opcode::C_ADDI => "C_ADDI"@,
        Opcode::C_JAL => "C_JAL"@,
        Opcode::C_LI => "C_LI"@,
        Opcode::C_ADDI16SP => "C_ADDI16SP"@,
        Opcode::C_LUI => "C_LUI"@,
        Opcode::C_SRLI => "C_SRLI"@,
        Opcode::C_SRAI => "C_SRAI"@,
        Opcode::C_ANDI => "C_ANDI"@,
        Opcode::C_SUB => "C_SUB"@,
        Opcode::C_XOR => "C_XOR"@,
        Opcode::C_OR => "C_OR"@,
        Opcode::C_AND => "C_AND"@,
        Opcode::C_J => "C_J"@,
        Opcode::C_BEQZ => "C_BEQZ"@,
        Opcode::C_BNEZ => "C_BNEZ"@,
        Opcode::C_SLLI => "C_SLLI"@,
        Opcode::C_LWSP => "C_LWSP"@,
        Opcode::C_JR => "C_JR"@,
        Opcode::C_MV => "C_MV"@,
        Opcode::C_EBREAK => "C_EBREAK"@,
        Opcode::C_JALR => "C_JALR"@,
        Opcode::C_ADD => "C_ADD"@,
        Opcode::C_SWSP => "C_SWSP"@,
        Opcode::C_LD => "C_LD"@,
        Opcode::C_SD => "C_SD"@,
        Opcode::C_LDSP => "C_LDSP"@,
        Opcode::C_SDSP => "C_SDSP"@,
        Opcode::C_ADDIW => "C_ADDIW"@,
        Opcode::C_SUBW => "C_SUBW"@,
        Opcode::C_ADDW => "C_ADDW"@,
        Opcode::Unknown => "Unknown"@,
    }
}

/// The name of an opcode.
pub fn mnemonic(code: Opcode) -> (s: String)
    ensures
        s@ == mnemonic_text(code),
{
    let name = match code {
        Opcode::LUI => "LUI",
        Opcode::AUIPC => "AUIPC",
        Opcode::JAL => "JAL",
        Opcode::JALR => "JALR",
        Opcode::BEQ => "BEQ",
        Opcode::BNE => "BNE",
        Opcode::BLT => "BLT",
        Opcode::BGE => "BGE",
        Opcode::BLTU => "BLTU",
        Opcode::BGEU => "BGEU",
        Opcode::LB => "LB",
        Opcode::LH => "LH",
        Opcode::LW => "LW",
        Opcode::LBU => "LBU",
        Opcode::LHU => "LHU",
        Opcode::SB => "SB",
        Opcode::SH => "SH",
        Opcode::SW => "SW",
        Opcode::ADDI => "ADDI",
        Opcode::SLTI => "SLTI",
        Opcode::SLTIU => "SLTIU",
        Opcode::XORI => "XORI",
        Opcode::ORI => "ORI",
        Opcode::ANDI => "ANDI",
        Opcode::SLLI => "SLLI",
        Opcode::SRLI => "SRLI",
        Opcode::SRAI => "SRAI",
        Opcode::ADD => "ADD",
        Opcode::SUB => "SUB",
        Opcode::SLL => "SLL",
        Opcode::SLT => "SLT",
        Opcode::SLTU => "SLTU",
        Opcode::XOR => "XOR",
        Opcode::SRL => "SRL",
        Opcode::SRA => "SRA",
        Opcode::OR => "OR",
        Opcode::AND => "AND",
        Opcode::FENCE => "FENCE",
        Opcode::ECALL => "ECALL",
        Opcode::EBREAK => "EBREAK",
        Opcode::LWU => "LWU",
        Opcode::LD => "LD",
        Opcode::SD => "SD",
        Opcode::ADDIW => "ADDIW",
        Opcode::SLLIW => "SLLIW",
        Opcode::SRLIW => "SRLIW",
        Opcode::SRAIW => "SRAIW",
        Opcode::ADDW => "ADDW",
        Opcode::SUBW => "SUBW",
        Opcode::SLLW => "SLLW",
        Opcode::SRLW => "SRLW",
        Opcode::SRAW => "SRAW",
        Opcode::MUL => "MUL",
        Opcode::MULH => "MULH",
        Opcode::MULHSU => "MULHSU",
        Opcode::MULHU => "MULHU",
        Opcode::DIV => "DIV",
        Opcode::DIVU => "DIVU",
        Opcode::REM => "REM",
        Opcode::REMU => "REMU",
        Opcode::MULW => "MULW",
        Opcode::DIVW => "DIVW",
        Opcode::DIVUW => "DIVUW",
        Opcode::REMW => "REMW",
        Opcode::REMUW => "REMUW",
        Opcode::LR_W => "LR_W",
        Opcode::SC_W => "SC_W",
        Opcode::AMOSWAP_W => "AMOSWAP_W",
        Opcode::AMOADD_W => "AMOADD_W",
        Opcode::AMOXOR_W => "AMOXOR_W",
        Opcode::AMOAND_W => "AMOAND_W",
        Opcode::AMOOR_W => "AMOOR_W",
        Opcode::AMOMIN_W => "AMOMIN_W",
        Opcode::AMOMAX_W => "AMOMAX_W",
        Opcode::AMOMINU_W => "AMOMINU_W",
        Opcode::AMOMAXU_W => "AMOMAXU_W",
        Opcode::LR_D => "LR_D",
        Opcode::SC_D => "SC_D",
        Opcode::AMOSWAP_D => "AMOSWAP_D",
        Opcode::AMOADD_D => "AMOADD_D",
        Opcode::AMOXOR_D => "AMOXOR_D",
        Opcode::AMOAND_D => "AMOAND_D",
        Opcode::AMOOR_D => "AMOOR_D",
        Opcode::AMOMIN_D => "AMOMIN_D",
        Opcode::AMOMAX_D => "AMOMAX_D",
        Opcode::AMOMINU_D => "AMOMINU_D",
        Opcode::AMOMAXU_D => "AMOMAXU_D",
        Opcode::FLW => "FLW",
        Opcode::FSW => "FSW",
        Opcode::FLD => "FLD",
        Opcode::FSD => "FSD",
        Opcode::FMADD_S => "FMADD_S",
        Opcode::FMSUB_S => "FMSUB_S",
        Opcode::FNMSUB_S => "FNMSUB_S",
        Opcode::FNMADD_S => "FNMADD_S",
        Opcode::FADD_S => "FADD_S",
        Opcode::FSUB_S => "FSUB_S",
        Opcode::FMUL_S => "FMUL_S",
        Opcode::FDIV_S => "FDIV_S",
        Opcode::FSQRT_S => "FSQRT_S",
        Opcode::FMADD_D => "FMADD_D",
        Opcode::FMSUB_D => "FMSUB_D",
        Opcode::FNMSUB_D => "FNMSUB_D",
        Opcode::FNMADD_D => "FNMADD_D",
        Opcode::FADD_D => "FADD_D",
        Opcode::FSUB_D => "FSUB_D",
        Opcode::FMUL_D => "FMUL_D",
        Opcode::FDIV_D => "FDIV_D",
        Opcode::FSQRT_D => "FSQRT_D",
        Opcode::FSGNJ_S => "FSGNJ_S",
        Opcode::FSGNJN_S => "FSGNJN_S",
        Opcode::FSGNJX_S => "FSGNJX_S",
        Opcode::FSGNJ_D => "FSGNJ_D",
        Opcode::FSGNJN_D => "FSGNJN_D",
        Opcode::FSGNJX_D => "FSGNJX_D",
        Opcode::FMIN_S => "FMIN_S",
        Opcode::FMAX_S => "FMAX_S",
        Opcode::FMIN_D => "FMIN_D",
        Opcode::FMAX_D => "FMAX_D",
        Opcode::FEQ_S => "FEQ_S",
        Opcode::FLT_S => "FLT_S",
        Opcode::FLE_S => "FLE_S",
        Opcode::FEQ_D => "FEQ_D",
        Opcode::FLT_D => "FLT_D",
        Opcode::FLE_D => "FLE_D",
        Opcode::FCVT_W_S => "FCVT_W_S",
        Opcode::FCVT_WU_S => "FCVT_WU_S",
        Opcode::FCVT_L_S => "FCVT_L_S",
        Opcode::FCVT_LU_S => "FCVT_LU_S",
        Opcode::FCVT_W_D => "FCVT_W_D",
        Opcode::FCVT_WU_D => "FCVT_WU_D",
        Opcode::FCVT_L_D => "FCVT_L_D",
        Opcode::FCVT_LU_D => "FCVT_LU_D",
        Opcode::FCVT_S_W => "FCVT_S_W",
        Opcode::FCVT_S_WU => "FCVT_S_WU",
        Opcode::FCVT_S_L => "FCVT_S_L",
        Opcode::FCVT_S_LU => "FCVT_S_LU",
        Opcode::FCVT_D_W => "FCVT_D_W",
        Opcode::FCVT_D_WU => "FCVT_D_WU",
        Opcode::FCVT_D_L => "FCVT_D_L",
        Opcode::FCVT_D_LU => "FCVT_D_LU",
        Opcode::FCVT_S_D => "FCVT_S_D",
        Opcode::FCVT_D_S => "FCVT_D_S",
        Opcode::FMV_X_W => "FMV_X_W",
        Opcode::FMV_W_X => "FMV_W_X",
        Opcode::FMV_X_D => "FMV_X_D",
        Opcode::FMV_D_X => "FMV_D_X",
        Opcode::FCLASS_S => "FCLASS_S",
        Opcode::FCLASS_D => "FCLASS_D",
        Opcode::C_ADDI4SPN => "C_ADDI4SPN",
        Opcode::C_LW => "C_LW",
        Opcode::C_SW => "C_SW",
        Opcode::C_NOP => "C_NOP",
        Opcode::C_ADDI => "C_ADDI",
        Opcode::C_JAL => "C_JAL",
        Opcode::C_LI => "C_LI",
        Opcode::C_ADDI16SP => "C_ADDI16SP",
        Opcode::C_LUI => "C_LUI",
        Opcode::C_SRLI => "C_SRLI",
        Opcode::C_SRAI => "C_SRAI",
        Opcode::C_ANDI => "C_ANDI",
        Opcode::C_SUB => "C_SUB",
        Opcode::C_XOR => "C_XOR",
        Opcode::C_OR => "C_OR",
        Opcode::C_AND => "C_AND",
        Opcode::C_J => "C_J",
        Opcode::C_BEQZ => "C_BEQZ",
        Opcode::C_BNEZ => "C_BNEZ",
        Opcode::C_SLLI => "C_SLLI",
        Opcode::C_LWSP => "C_LWSP",
        Opcode::C_JR => "C_JR",
        Opcode::C_MV => "C_MV",
        Opcode::C_EBREAK => "C_EBREAK",
        Opcode::C_JALR => "C_JALR",
        Opcode::C_ADD => "C_ADD",
        Opcode::C_SWSP => "C_SWSP",
        Opcode::C_LD => "C_LD",
        Opcode::C_SD => "C_SD",
        Opcode::C_LDSP => "C_LDSP",
        Opcode::C_SDSP => "C_SDSP",
        Opcode::C_ADDIW => "C_ADDIW",
        Opcode::C_SUBW => "C_SUBW",
        Opcode::C_ADDW => "C_ADDW",
        Opcode::Unknown => "Unknown",
    };
    String::from_str(name)
}

/// The lower-case hexadecimal digit of a value below 16.
pub open spec fn hex_digit(d: u64) -> char {
    match d {
        0 => '0',
        1 => '1',
        2 => '2',
        3 => '3',
        4 => '4',
        5 => '5',
        6 => '6',
        7 => '7',
        8 => '8',
        9 => '9',
        10 => 'a',
        11 => 'b',
        12 => 'c',
        13 => 'd',
        14 => 'e',
        _ => 'f',
    }
}

/// The `n` least significant hexadecimal digits of `v`, most significant
/// first.
pub open spec fn hex_fixed(v: nat, n: nat) -> Seq<char>
    decreases n,
{
    if n == 0 {
        Seq::<char>::empty()
    } else {
        hex_fixed(v / 16, (n - 1) as nat).push(hex_digit((v % 16) as u64))
    }
}

/// The number of hexadecimal digits of `v` without leading zeros; 1 for 0.
pub open spec fn hex_len(v: nat) -> nat
    decreases v,
{
    if v < 16 {
        1
    } else {
        1 + hex_len(v / 16)
    }
}

/// `v` in lower-case hexadecimal without leading zeros.
pub open spec fn hex_text(v: nat) -> Seq<char> {
    hex_fixed(v, hex_len(v))
}

/// `v` in lower-case hexadecimal, padded with zeros to at least `width`
/// digits.
pub open spec fn hex_text_padded(v: nat, width: nat) -> Seq<char> {
    hex_fixed(
        v,
        if hex_len(v) < width {
            width
        } else {
            hex_len(v)
        },
    )
}

fn digit_str(d: u64) -> (s: &'static str)
    requires
        d < 16,
    ensures
        s@ == seq![hex_digit(d)],
{
    proof {
        reveal_strlit("0");
        reveal_strlit("1");
        reveal_strlit("2");
        reveal_strlit("3");
        reveal_strlit("4");
        reveal_strlit("5");
        reveal_strlit("6");
        reveal_strlit("7");
        reveal_strlit("8");
        reveal_strlit("9");
        reveal_strlit("a");
        reveal_strlit("b");
        reveal_strlit("c");
        reveal_strlit("d");
        reveal_strlit("e");
        reveal_strlit("f");
    }
    let s = match d {
        0 => "0",
        1 => "1",
        2 => "2",
        3 => "3",
        4 => "4",
        5 => "5",
        6 => "6",
        7 => "7",
        8 => "8",
        9 => "9",
        10 => "a",
        11 => "b",
        12 => "c",
        13 => "d",
        14 => "e",
        _ => "f",
    };
    assert(s@ =~= seq![hex_digit(d)]);
    s
}

fn count_digits(v: u64) -> (n: u32)
    ensures
        n == hex_len(v as nat),
        1 <= n <= 16,
    decreases v,
{
    if v < 16 {
        1
    } else {
        let rest = count_digits(v / 16);
        proof {
            lemma_hex_len_bound(v as nat);
        }
        rest + 1
    }
}

proof fn lemma_hex_len_bound(v: nat)
    requires
        v <= u64::MAX,
    ensures
        hex_len(v) <= 16,
{
    reveal_with_fuel(hex_len, 17);
}

fn fixed(v: u64, n: u32) -> (s: String)
    ensures
        s@ == hex_fixed(v as nat, n as nat),
    decreases n,
{
    if n == 0 {
        String::new()
    } else {
        let mut s = fixed(v / 16, n - 1);
        s.append(digit_str(v % 16));
        assert(s@ =~= hex_fixed(v as nat, n as nat));
        s
    }
}

/// `prefix` followed by `v` in lower-case hexadecimal.
pub fn hex_name(prefix: &str, v: u64) -> (s: String)
    ensures
        s@ == prefix@ + hex_text(v as nat),
{
    let digits = fixed(v, count_digits(v));
    String::from_str(prefix).concat(digits.as_str())
}

/// `prefix` followed by `v` in lower-case hexadecimal of at least eight
/// digits.
pub fn hex_name_padded(prefix: &str, v: u64) -> (s: String)
    ensures
        s@ == prefix@ + hex_text_padded(v as nat, 8),
{
    let n = count_digits(v);
    let digits = fixed(v, if n < 8 { 8 } else { n });
    String::from_str(prefix).concat(digits.as_str())
}

} // verus!
