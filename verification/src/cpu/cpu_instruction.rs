//! The instructions: how a word names one and what its fields hold.

use crate::cpu::cpu::Xlen;
use crate::cpu::cpu_encoding::{encoding_of, lemma_decoded_matches};
use vstd::prelude::*;

verus! {

/// Width of a memory access.
#[derive(Clone, Copy, Debug, PartialEq, Eq, Structural)]
pub enum Width {
    Byte,
    Half,
    Word,
    Double,
}

/// Integer operation of the base set and of the M extension.
#[derive(Clone, Copy, Debug, PartialEq, Eq, Structural)]
pub enum AluOp {
    Add,
    Sub,
    Sll,
    Slt,
    Sltu,
    Xor,
    Srl,
    Sra,
    Or,
    And,
    Mul,
    Mulh,
    Mulhsu,
    Mulhu,
    Div,
    Divu,
    Rem,
    Remu,
}

/// Condition of a branch.
#[derive(Clone, Copy, Debug, PartialEq, Eq, Structural)]
pub enum BranchOp {
    Beq,
    Bne,
    Blt,
    Bge,
    Bltu,
    Bgeu,
}

/// What a CSR instruction does with its operand.
#[derive(Clone, Copy, Debug, PartialEq, Eq, Structural)]
pub enum CsrOp {
    ReadWrite,
    ReadSet,
    ReadClear,
}

/// What an atomic memory operation combines the memory word with.
#[derive(Clone, Copy, Debug, PartialEq, Eq, Structural)]
pub enum AmoOp {
    Swap,
    Add,
    Xor,
    And,
    Or,
    Min,
    Max,
    Minu,
    Maxu,
}

/// The major opcode of an instruction word: its low seven bits.
#[derive(Clone, Copy, Debug, PartialEq, Eq, Structural)]
pub enum Opecode {
    Load,
    LoadFp,
    MiscMem,
    OpImm,
    Auipc,
    OpImm32,
    Store,
    StoreFp,
    Amo,
    Op,
    Lui,
    Op32,
    Branch,
    Jalr,
    Jal,
    System,
}

/// What an instruction does.
#[derive(Clone, Copy, Debug, PartialEq, Eq, Structural)]
pub enum Operation {
    /// LB, LH, LW, LD and their unsigned forms.
    Load { width: Width, signed: bool },
    /// SB, SH, SW, SD.
    Store { width: Width },
    /// FLW, FLD.
    FpLoad { width: Width },
    /// FSW, FSD.
    FpStore { width: Width },
    /// FENCE, FENCE.I.
    Fence,
    /// Register-register and register-immediate arithmetic; `word` marks the forms that
    /// work on 32 bits of a 64-bit hart.
    Alu { op: AluOp, word: bool, immediate: bool },
    Lui,
    Auipc,
    Jal,
    Jalr,
    Branch(BranchOp),
    /// CSRRW, CSRRS, CSRRC and their immediate forms.
    Csr { action: CsrOp, immediate: bool },
    Ecall,
    Ebreak,
    Uret,
    Sret,
    Mret,
    Wfi,
    SfenceVma,
    /// LR.W, LR.D.
    LoadReserved { width: Width },
    /// SC.W, SC.D.
    StoreConditional { width: Width },
    /// AMOSWAP and the other read-modify-write operations.
    Amo { combine: AmoOp, width: Width },
}

/// A decoded instruction: the operation and its operands. `imm` holds the immediate of the
/// instruction's format, the shift amount of a shift by a constant, or the register number
/// of a CSR instruction.
#[derive(Clone, Copy, Debug, PartialEq, Eq, Structural)]
pub struct Instruction {
    pub operation: Operation,
    pub rd: u8,
    pub rs1: u8,
    pub rs2: u8,
    pub imm: i64,
}

impl Instruction {
    /// Whether the operands name registers that exist.
    pub open spec fn wf(self) -> bool {
        self.rd < 32 && self.rs1 < 32 && self.rs2 < 32 && (self.operation is Csr ==> 0
            <= self.imm < 4096)
    }
}

pub struct InstructionTypeB {
    pub rs1: u8,
    pub rs2: u8,
    pub imm: u64,
}

pub struct InstructionTypeR {
    pub rd: u8,
    pub rs1: u8,
    pub rs2: u8,
}

pub struct InstructionTypeI {
    pub rd: u8,
    pub rs1: u8,
    pub imm: i64,
}

pub struct InstructionTypeJ {
    pub rd: u8,
    pub imm: u64,
}

pub struct InstructionTypeS {
    pub rs1: u8,
    pub rs2: u8,
    pub imm: i64,
}

pub struct InstructionTypeU {
    pub rd: u8,
    pub imm: u64,
}

pub struct InstructionTypeCSR {
    pub rd: u8,
    pub rs1: u8,
    pub csr: u16,
}

impl Width {
    /// Number of bytes of the access.
    pub open spec fn spec_bytes(self) -> u64 {
        match self {
            Width::Byte => 1,
            Width::Half => 2,
            Width::Word => 4,
            Width::Double => 8,
        }
    }

    #[verifier::when_used_as_spec(spec_bytes)]
    pub fn bytes(self) -> (r: u64)
        ensures
            r == self.spec_bytes(),
            crate::dram::is_width(r as int),
    {
        match self {
            Width::Byte => 1,
            Width::Half => 2,
            Width::Word => 4,
            Width::Double => 8,
        }
    }
}

/// The fields of an instruction word that name registers are below 32, and the field that
/// names a CSR is below 4096.
pub proof fn lemma_fields(word: u32)
    by (bit_vector)
    ensures
        ((word >> 7) & 0x1f) < 32,
        ((word >> 15) & 0x1f) < 32,
        ((word >> 20) & 0x1f) < 32,
        (word >> 20) < 4096,
        ((word >> 20) & 0x3f) < 64,
{
}

/// The destination register that `word` names: bits 11 to 7.
pub open spec fn spec_rd_of(word: u32) -> u8 {
    ((word >> 7) & 0x1f) as u8
}

#[verifier::when_used_as_spec(spec_rd_of)]
pub fn rd_of(word: u32) -> (r: u8)
    ensures
        r == spec_rd_of(word),
        r < 32,
{
    proof {
        lemma_fields(word);
    }
    ((word >> 7) & 0x1f) as u8
}

/// The first source register that `word` names: bits 19 to 15.
pub open spec fn spec_rs1_of(word: u32) -> u8 {
    ((word >> 15) & 0x1f) as u8
}

#[verifier::when_used_as_spec(spec_rs1_of)]
pub fn rs1_of(word: u32) -> (r: u8)
    ensures
        r == spec_rs1_of(word),
        r < 32,
{
    proof {
        lemma_fields(word);
    }
    ((word >> 15) & 0x1f) as u8
}

/// The second source register that `word` names: bits 24 to 20.
pub open spec fn spec_rs2_of(word: u32) -> u8 {
    ((word >> 20) & 0x1f) as u8
}

#[verifier::when_used_as_spec(spec_rs2_of)]
pub fn rs2_of(word: u32) -> (r: u8)
    ensures
        r == spec_rs2_of(word),
        r < 32,
{
    proof {
        lemma_fields(word);
    }
    ((word >> 20) & 0x1f) as u8
}

/// The CSR that `word` names: bits 31 to 20.
pub open spec fn spec_csr_of(word: u32) -> u16 {
    (word >> 20) as u16
}

#[verifier::when_used_as_spec(spec_csr_of)]
pub fn csr_of(word: u32) -> (r: u16)
    ensures
        r == spec_csr_of(word),
        r < 4096,
{
    proof {
        lemma_fields(word);
    }
    (word >> 20) as u16
}

/// Bits 14 to 12 of `word`.
pub open spec fn spec_funct3(word: u32) -> u32 {
    (word >> 12) & 0x7
}

#[verifier::when_used_as_spec(spec_funct3)]
pub fn funct3(word: u32) -> (r: u32)
    ensures
        r == spec_funct3(word),
{
    (word >> 12) & 0x7
}

/// Bits 31 to 25 of `word`.
pub open spec fn spec_funct7(word: u32) -> u32 {
    word >> 25
}

#[verifier::when_used_as_spec(spec_funct7)]
pub fn funct7(word: u32) -> (r: u32)
    ensures
        r == spec_funct7(word),
{
    word >> 25
}

/// The immediate of the I format: bits 31 to 20, sign-extended.
pub open spec fn spec_imm_i(word: u32) -> i64 {
    ((word as i32) >> 20u32) as i64
}

#[verifier::when_used_as_spec(spec_imm_i)]
pub fn imm_i(word: u32) -> (r: i64)
    ensures
        r == spec_imm_i(word),
{
    ((word as i32) >> 20u32) as i64
}

/// The immediate of the S format: bits 31 to 25 over bits 11 to 7, sign-extended.
pub open spec fn spec_imm_s(word: u32) -> i64 {
    ((((word & 0xfe00_0000) as i32) >> 20u32) | (((word >> 7) & 0x1f) as i32)) as i64
}

#[verifier::when_used_as_spec(spec_imm_s)]
pub fn imm_s(word: u32) -> (r: i64)
    ensures
        r == spec_imm_s(word),
{
    ((((word & 0xfe00_0000) as i32) >> 20u32) | (((word >> 7) & 0x1f) as i32)) as i64
}

/// The immediate of the B format, a multiple of 2: bit 31 as bit 12 and sign, bit 7 as bit
/// 11, bits 30 to 25 as bits 10 to 5, bits 11 to 8 as bits 4 to 1.
pub open spec fn spec_imm_b(word: u32) -> i64 {
    (((((word & 0x8000_0000) as i32) >> 19u32) as u32 | ((word & 0x7e00_0000) >> 20) | ((word & 0x0000_0080) << 4) | ((word >> 7) & 0x1e)) as i32) as i64
}

#[verifier::when_used_as_spec(spec_imm_b)]
pub fn imm_b(word: u32) -> (r: i64)
    ensures
        r == spec_imm_b(word),
{
    (((((word & 0x8000_0000) as i32) >> 19u32) as u32 | ((word & 0x7e00_0000) >> 20) | ((word & 0x0000_0080) << 4) | ((word >> 7) & 0x1e)) as i32) as i64
}

/// The immediate of the U format: bits 31 to 12 in place, sign-extended.
pub open spec fn spec_imm_u(word: u32) -> i64 {
    ((word & 0xffff_f000) as i32) as i64
}

#[verifier::when_used_as_spec(spec_imm_u)]
pub fn imm_u(word: u32) -> (r: i64)
    ensures
        r == spec_imm_u(word),
{
    ((word & 0xffff_f000) as i32) as i64
}

/// The immediate of the J format, a multiple of 2: bit 31 as bit 20 and sign, bits 19 to
/// 12 in place, bit 20 as bit 11, bits 30 to 21 as bits 10 to 1.
pub open spec fn spec_imm_j(word: u32) -> i64 {
    (((((word & 0x8000_0000) as i32) >> 11u32) as u32 | (word & 0x000f_f000) | ((word & 0x0010_0000) >> 9) | ((word & 0x7fe0_0000) >> 20)) as i32) as i64
}

#[verifier::when_used_as_spec(spec_imm_j)]
pub fn imm_j(word: u32) -> (r: i64)
    ensures
        r == spec_imm_j(word),
{
    (((((word & 0x8000_0000) as i32) >> 11u32) as u32 | (word & 0x000f_f000) | ((word & 0x0010_0000) >> 9) | ((word & 0x7fe0_0000) >> 20)) as i32) as i64
}

/// The shift amount of a shift by a constant: five bits on a 32-bit hart, six on a 64-bit one.
pub open spec fn spec_shamt_of(xlen: Xlen, word: u32) -> i64 {
    match xlen {
        Xlen::X32 => ((word >> 20) & 0x1f) as i64,
        Xlen::X64 => ((word >> 20) & 0x3f) as i64,
    }
}

#[verifier::when_used_as_spec(spec_shamt_of)]
pub fn shamt_of(xlen: Xlen, word: u32) -> (r: i64)
    ensures
        r == spec_shamt_of(xlen, word),
{
    match xlen {
        Xlen::X32 => ((word >> 20) & 0x1f) as i64,
        Xlen::X64 => ((word >> 20) & 0x3f) as i64,
    }
}

/// The fields of a word of the I format.
pub open spec fn spec_parse_type_i(word: u32) -> InstructionTypeI {
    InstructionTypeI { rd: rd_of(word), rs1: rs1_of(word), imm: imm_i(word) }
}

#[verifier::when_used_as_spec(spec_parse_type_i)]
pub fn parse_type_i(word: u32) -> (r: InstructionTypeI)
    ensures
        r == spec_parse_type_i(word),
{
    InstructionTypeI { rd: rd_of(word), rs1: rs1_of(word), imm: imm_i(word) }
}

/// The fields of a word of the J format.
pub open spec fn spec_parse_type_j(word: u32) -> InstructionTypeJ {
    InstructionTypeJ { rd: rd_of(word), imm: imm_j(word) as u64 }
}

#[verifier::when_used_as_spec(spec_parse_type_j)]
pub fn parse_type_j(word: u32) -> (r: InstructionTypeJ)
    ensures
        r == spec_parse_type_j(word),
{
    InstructionTypeJ { rd: rd_of(word), imm: imm_j(word) as u64 }
}

/// The fields of a word of the B format.
pub open spec fn spec_parse_type_b(word: u32) -> InstructionTypeB {
    InstructionTypeB { rs1: rs1_of(word), rs2: rs2_of(word), imm: imm_b(word) as u64 }
}

#[verifier::when_used_as_spec(spec_parse_type_b)]
pub fn parse_type_b(word: u32) -> (r: InstructionTypeB)
    ensures
        r == spec_parse_type_b(word),
{
    InstructionTypeB { rs1: rs1_of(word), rs2: rs2_of(word), imm: imm_b(word) as u64 }
}

/// The fields of a word of the S format.
pub open spec fn spec_parse_type_s(word: u32) -> InstructionTypeS {
    InstructionTypeS { rs1: rs1_of(word), rs2: rs2_of(word), imm: imm_s(word) }
}

#[verifier::when_used_as_spec(spec_parse_type_s)]
pub fn parse_type_s(word: u32) -> (r: InstructionTypeS)
    ensures
        r == spec_parse_type_s(word),
{
    InstructionTypeS { rs1: rs1_of(word), rs2: rs2_of(word), imm: imm_s(word) }
}

/// The fields of a word of the U format.
pub open spec fn spec_parse_type_u(word: u32) -> InstructionTypeU {
    InstructionTypeU { rd: rd_of(word), imm: imm_u(word) as u64 }
}

#[verifier::when_used_as_spec(spec_parse_type_u)]
pub fn parse_type_u(word: u32) -> (r: InstructionTypeU)
    ensures
        r == spec_parse_type_u(word),
{
    InstructionTypeU { rd: rd_of(word), imm: imm_u(word) as u64 }
}

/// The fields of a word of the R format.
pub open spec fn spec_parse_type_r(word: u32) -> InstructionTypeR {
    InstructionTypeR { rd: rd_of(word), rs1: rs1_of(word), rs2: rs2_of(word) }
}

#[verifier::when_used_as_spec(spec_parse_type_r)]
pub fn parse_type_r(word: u32) -> (r: InstructionTypeR)
    ensures
        r == spec_parse_type_r(word),
{
    InstructionTypeR { rd: rd_of(word), rs1: rs1_of(word), rs2: rs2_of(word) }
}

/// The fields of a CSR instruction.
pub open spec fn spec_parse_type_csr(word: u32) -> InstructionTypeCSR {
    InstructionTypeCSR { rd: rd_of(word), rs1: rs1_of(word), csr: csr_of(word) }
}

#[verifier::when_used_as_spec(spec_parse_type_csr)]
pub fn parse_type_csr(word: u32) -> (r: InstructionTypeCSR)
    ensures
        r == spec_parse_type_csr(word),
{
    InstructionTypeCSR { rd: rd_of(word), rs1: rs1_of(word), csr: csr_of(word) }
}

/// The major opcode that the low seven bits of `word` stand for, if they stand for one.
pub open spec fn spec_opecode_of(word: u32) -> Option<Opecode> {
    if word & 0x7f == 0x03 {
        Some(Opecode::Load)
    } else if word & 0x7f == 0x07 {
        Some(Opecode::LoadFp)
    } else if word & 0x7f == 0x0f {
        Some(Opecode::MiscMem)
    } else if word & 0x7f == 0x13 {
        Some(Opecode::OpImm)
    } else if word & 0x7f == 0x17 {
        Some(Opecode::Auipc)
    } else if word & 0x7f == 0x1b {
        Some(Opecode::OpImm32)
    } else if word & 0x7f == 0x23 {
        Some(Opecode::Store)
    } else if word & 0x7f == 0x27 {
        Some(Opecode::StoreFp)
    } else if word & 0x7f == 0x2f {
        Some(Opecode::Amo)
    } else if word & 0x7f == 0x33 {
        Some(Opecode::Op)
    } else if word & 0x7f == 0x37 {
        Some(Opecode::Lui)
    } else if word & 0x7f == 0x3b {
        Some(Opecode::Op32)
    } else if word & 0x7f == 0x63 {
        Some(Opecode::Branch)
    } else if word & 0x7f == 0x67 {
        Some(Opecode::Jalr)
    } else if word & 0x7f == 0x6f {
        Some(Opecode::Jal)
    } else if word & 0x7f == 0x73 {
        Some(Opecode::System)
    } else {
        None
    }
}

#[verifier::when_used_as_spec(spec_opecode_of)]
pub fn opecode_of(word: u32) -> (r: Option<Opecode>)
    ensures
        r == spec_opecode_of(word),
{
    if word & 0x7f == 0x03 {
        Some(Opecode::Load)
    } else if word & 0x7f == 0x07 {
        Some(Opecode::LoadFp)
    } else if word & 0x7f == 0x0f {
        Some(Opecode::MiscMem)
    } else if word & 0x7f == 0x13 {
        Some(Opecode::OpImm)
    } else if word & 0x7f == 0x17 {
        Some(Opecode::Auipc)
    } else if word & 0x7f == 0x1b {
        Some(Opecode::OpImm32)
    } else if word & 0x7f == 0x23 {
        Some(Opecode::Store)
    } else if word & 0x7f == 0x27 {
        Some(Opecode::StoreFp)
    } else if word & 0x7f == 0x2f {
        Some(Opecode::Amo)
    } else if word & 0x7f == 0x33 {
        Some(Opecode::Op)
    } else if word & 0x7f == 0x37 {
        Some(Opecode::Lui)
    } else if word & 0x7f == 0x3b {
        Some(Opecode::Op32)
    } else if word & 0x7f == 0x63 {
        Some(Opecode::Branch)
    } else if word & 0x7f == 0x67 {
        Some(Opecode::Jalr)
    } else if word & 0x7f == 0x6f {
        Some(Opecode::Jal)
    } else if word & 0x7f == 0x73 {
        Some(Opecode::System)
    } else {
        None
    }
}

/// The load that `word` names. LD and LWU exist on a 64-bit hart only.
pub open spec fn spec_opecode_03(xlen: Xlen, word: u32) -> Option<Operation> {
    if funct3(word) == 0 {
        Some(Operation::Load { width: Width::Byte, signed: true })
    } else if funct3(word) == 1 {
        Some(Operation::Load { width: Width::Half, signed: true })
    } else if funct3(word) == 2 {
        Some(Operation::Load { width: Width::Word, signed: true })
    } else if funct3(word) == 3 && xlen == Xlen::X64 {
        Some(Operation::Load { width: Width::Double, signed: true })
    } else if funct3(word) == 4 {
        Some(Operation::Load { width: Width::Byte, signed: false })
    } else if funct3(word) == 5 {
        Some(Operation::Load { width: Width::Half, signed: false })
    } else if funct3(word) == 6 && xlen == Xlen::X64 {
        Some(Operation::Load { width: Width::Word, signed: false })
    } else {
        None
    }
}

#[verifier::when_used_as_spec(spec_opecode_03)]
pub fn opecode_03(xlen: Xlen, word: u32) -> (r: Option<Operation>)
    ensures
        r == spec_opecode_03(xlen, word),
{
    if funct3(word) == 0 {
        Some(Operation::Load { width: Width::Byte, signed: true })
    } else if funct3(word) == 1 {
        Some(Operation::Load { width: Width::Half, signed: true })
    } else if funct3(word) == 2 {
        Some(Operation::Load { width: Width::Word, signed: true })
    } else if funct3(word) == 3 && xlen == Xlen::X64 {
        Some(Operation::Load { width: Width::Double, signed: true })
    } else if funct3(word) == 4 {
        Some(Operation::Load { width: Width::Byte, signed: false })
    } else if funct3(word) == 5 {
        Some(Operation::Load { width: Width::Half, signed: false })
    } else if funct3(word) == 6 && xlen == Xlen::X64 {
        Some(Operation::Load { width: Width::Word, signed: false })
    } else {
        None
    }
}

/// The floating-point load that `word` names.
pub open spec fn spec_opecode_07(word: u32) -> Option<Operation> {
    if funct3(word) == 2 {
        Some(Operation::FpLoad { width: Width::Word })
    } else if funct3(word) == 3 {
        Some(Operation::FpLoad { width: Width::Double })
    } else {
        None
    }
}

#[verifier::when_used_as_spec(spec_opecode_07)]
pub fn opecode_07(word: u32) -> (r: Option<Operation>)
    ensures
        r == spec_opecode_07(word),
{
    if funct3(word) == 2 {
        Some(Operation::FpLoad { width: Width::Word })
    } else if funct3(word) == 3 {
        Some(Operation::FpLoad { width: Width::Double })
    } else {
        None
    }
}

/// FENCE or FENCE.I.
pub open spec fn spec_opecode_0f(word: u32) -> Option<Operation> {
    if funct3(word) == 0 || funct3(word) == 1 {
        Some(Operation::Fence)
    } else {
        None
    }
}

#[verifier::when_used_as_spec(spec_opecode_0f)]
pub fn opecode_0f(word: u32) -> (r: Option<Operation>)
    ensures
        r == spec_opecode_0f(word),
{
    if funct3(word) == 0 || funct3(word) == 1 {
        Some(Operation::Fence)
    } else {
        None
    }
}

/// The register-immediate operation that `word` names.
pub open spec fn spec_opecode_13(xlen: Xlen, word: u32) -> Option<Operation> {
    if funct3(word) == 0 {
        Some(Operation::Alu { op: AluOp::Add, word: false, immediate: true })
    } else if funct3(word) == 1 {
        if shift_funct(xlen, word) == 0 {
            Some(Operation::Alu { op: AluOp::Sll, word: false, immediate: true })
        } else {
            None
        }
    } else if funct3(word) == 2 {
        Some(Operation::Alu { op: AluOp::Slt, word: false, immediate: true })
    } else if funct3(word) == 3 {
        Some(Operation::Alu { op: AluOp::Sltu, word: false, immediate: true })
    } else if funct3(word) == 4 {
        Some(Operation::Alu { op: AluOp::Xor, word: false, immediate: true })
    } else if funct3(word) == 5 {
        if shift_funct(xlen, word) == 0 {
            Some(Operation::Alu { op: AluOp::Srl, word: false, immediate: true })
        } else if shift_funct(xlen, word) == 0x20 {
            Some(Operation::Alu { op: AluOp::Sra, word: false, immediate: true })
        } else {
            None
        }
    } else if funct3(word) == 6 {
        Some(Operation::Alu { op: AluOp::Or, word: false, immediate: true })
    } else {
        Some(Operation::Alu { op: AluOp::And, word: false, immediate: true })
    }
}

#[verifier::when_used_as_spec(spec_opecode_13)]
pub fn opecode_13(xlen: Xlen, word: u32) -> (r: Option<Operation>)
    ensures
        r == spec_opecode_13(xlen, word),
{
    if funct3(word) == 0 {
        Some(Operation::Alu { op: AluOp::Add, word: false, immediate: true })
    } else if funct3(word) == 1 {
        if shift_funct(xlen, word) == 0 {
            Some(Operation::Alu { op: AluOp::Sll, word: false, immediate: true })
        } else {
            None
        }
    } else if funct3(word) == 2 {
        Some(Operation::Alu { op: AluOp::Slt, word: false, immediate: true })
    } else if funct3(word) == 3 {
        Some(Operation::Alu { op: AluOp::Sltu, word: false, immediate: true })
    } else if funct3(word) == 4 {
        Some(Operation::Alu { op: AluOp::Xor, word: false, immediate: true })
    } else if funct3(word) == 5 {
        if shift_funct(xlen, word) == 0 {
            Some(Operation::Alu { op: AluOp::Srl, word: false, immediate: true })
        } else if shift_funct(xlen, word) == 0x20 {
            Some(Operation::Alu { op: AluOp::Sra, word: false, immediate: true })
        } else {
            None
        }
    } else if funct3(word) == 6 {
        Some(Operation::Alu { op: AluOp::Or, word: false, immediate: true })
    } else {
        Some(Operation::Alu { op: AluOp::And, word: false, immediate: true })
    }
}

/// The register-immediate operation on 32 bits that `word` names; there is none on a
/// 32-bit hart.
pub open spec fn spec_opecode_1b(xlen: Xlen, word: u32) -> Option<Operation> {
    if xlen != Xlen::X64 {
        None
    } else if funct3(word) == 0 {
        Some(Operation::Alu { op: AluOp::Add, word: true, immediate: true })
    } else if funct3(word) == 1 && funct7(word) == 0 {
        Some(Operation::Alu { op: AluOp::Sll, word: true, immediate: true })
    } else if funct3(word) == 5 && funct7(word) == 0 {
        Some(Operation::Alu { op: AluOp::Srl, word: true, immediate: true })
    } else if funct3(word) == 5 && funct7(word) == 0x20 {
        Some(Operation::Alu { op: AluOp::Sra, word: true, immediate: true })
    } else {
        None
    }
}

#[verifier::when_used_as_spec(spec_opecode_1b)]
pub fn opecode_1b(xlen: Xlen, word: u32) -> (r: Option<Operation>)
    ensures
        r == spec_opecode_1b(xlen, word),
{
    if xlen != Xlen::X64 {
        None
    } else if funct3(word) == 0 {
        Some(Operation::Alu { op: AluOp::Add, word: true, immediate: true })
    } else if funct3(word) == 1 && funct7(word) == 0 {
        Some(Operation::Alu { op: AluOp::Sll, word: true, immediate: true })
    } else if funct3(word) == 5 && funct7(word) == 0 {
        Some(Operation::Alu { op: AluOp::Srl, word: true, immediate: true })
    } else if funct3(word) == 5 && funct7(word) == 0x20 {
        Some(Operation::Alu { op: AluOp::Sra, word: true, immediate: true })
    } else {
        None
    }
}

/// The store that `word` names. SD exists on a 64-bit hart only.
pub open spec fn spec_opecode_23(xlen: Xlen, word: u32) -> Option<Operation> {
    if funct3(word) == 0 {
        Some(Operation::Store { width: Width::Byte })
    } else if funct3(word) == 1 {
        Some(Operation::Store { width: Width::Half })
    } else if funct3(word) == 2 {
        Some(Operation::Store { width: Width::Word })
    } else if funct3(word) == 3 && xlen == Xlen::X64 {
        Some(Operation::Store { width: Width::Double })
    } else {
        None
    }
}

#[verifier::when_used_as_spec(spec_opecode_23)]
pub fn opecode_23(xlen: Xlen, word: u32) -> (r: Option<Operation>)
    ensures
        r == spec_opecode_23(xlen, word),
{
    if funct3(word) == 0 {
        Some(Operation::Store { width: Width::Byte })
    } else if funct3(word) == 1 {
        Some(Operation::Store { width: Width::Half })
    } else if funct3(word) == 2 {
        Some(Operation::Store { width: Width::Word })
    } else if funct3(word) == 3 && xlen == Xlen::X64 {
        Some(Operation::Store { width: Width::Double })
    } else {
        None
    }
}

/// The floating-point store that `word` names.
pub open spec fn spec_opecode_27(word: u32) -> Option<Operation> {
    if funct3(word) == 2 {
        Some(Operation::FpStore { width: Width::Word })
    } else if funct3(word) == 3 {
        Some(Operation::FpStore { width: Width::Double })
    } else {
        None
    }
}

#[verifier::when_used_as_spec(spec_opecode_27)]
pub fn opecode_27(word: u32) -> (r: Option<Operation>)
    ensures
        r == spec_opecode_27(word),
{
    if funct3(word) == 2 {
        Some(Operation::FpStore { width: Width::Word })
    } else if funct3(word) == 3 {
        Some(Operation::FpStore { width: Width::Double })
    } else {
        None
    }
}

/// The width of an atomic operation.
pub open spec fn spec_amo_width(word: u32) -> Width {
    if funct3(word) == 3 {
        Width::Double
    } else {
        Width::Word
    }
}

#[verifier::when_used_as_spec(spec_amo_width)]
pub fn amo_width(word: u32) -> (r: Width)
    ensures
        r == spec_amo_width(word),
{
    if funct3(word) == 3 {
        Width::Double
    } else {
        Width::Word
    }
}

/// The atomic operation that `word` names: bits 31 to 27 select it, bits 14 to 12 its
/// width. The 64-bit forms exist on a 64-bit hart only.
pub open spec fn spec_opecode_2f(xlen: Xlen, word: u32) -> Option<Operation> {
    if !(funct3(word) == 2 || (funct3(word) == 3 && xlen == Xlen::X64)) {
        None
    } else if (word >> 27) == 0x02 && rs2_of(word) == 0 {
        Some(Operation::LoadReserved { width: amo_width(word) })
    } else if (word >> 27) == 0x03 {
        Some(Operation::StoreConditional { width: amo_width(word) })
    } else if (word >> 27) == 0x01 {
        Some(Operation::Amo { combine: AmoOp::Swap, width: amo_width(word) })
    } else if (word >> 27) == 0x00 {
        Some(Operation::Amo { combine: AmoOp::Add, width: amo_width(word) })
    } else if (word >> 27) == 0x04 {
        Some(Operation::Amo { combine: AmoOp::Xor, width: amo_width(word) })
    } else if (word >> 27) == 0x0c {
        Some(Operation::Amo { combine: AmoOp::And, width: amo_width(word) })
    } else if (word >> 27) == 0x08 {
        Some(Operation::Amo { combine: AmoOp::Or, width: amo_width(word) })
    } else if (word >> 27) == 0x10 {
        Some(Operation::Amo { combine: AmoOp::Min, width: amo_width(word) })
    } else if (word >> 27) == 0x14 {
        Some(Operation::Amo { combine: AmoOp::Max, width: amo_width(word) })
    } else if (word >> 27) == 0x18 {
        Some(Operation::Amo { combine: AmoOp::Minu, width: amo_width(word) })
    } else if (word >> 27) == 0x1c {
        Some(Operation::Amo { combine: AmoOp::Maxu, width: amo_width(word) })
    } else {
        None
    }
}

#[verifier::when_used_as_spec(spec_opecode_2f)]
pub fn opecode_2f(xlen: Xlen, word: u32) -> (r: Option<Operation>)
    ensures
        r == spec_opecode_2f(xlen, word),
{
    if !(funct3(word) == 2 || (funct3(word) == 3 && xlen == Xlen::X64)) {
        None
    } else if (word >> 27) == 0x02 && rs2_of(word) == 0 {
        Some(Operation::LoadReserved { width: amo_width(word) })
    } else if (word >> 27) == 0x03 {
        Some(Operation::StoreConditional { width: amo_width(word) })
    } else if (word >> 27) == 0x01 {
        Some(Operation::Amo { combine: AmoOp::Swap, width: amo_width(word) })
    } else if (word >> 27) == 0x00 {
        Some(Operation::Amo { combine: AmoOp::Add, width: amo_width(word) })
    } else if (word >> 27) == 0x04 {
        Some(Operation::Amo { combine: AmoOp::Xor, width: amo_width(word) })
    } else if (word >> 27) == 0x0c {
        Some(Operation::Amo { combine: AmoOp::And, width: amo_width(word) })
    } else if (word >> 27) == 0x08 {
        Some(Operation::Amo { combine: AmoOp::Or, width: amo_width(word) })
    } else if (word >> 27) == 0x10 {
        Some(Operation::Amo { combine: AmoOp::Min, width: amo_width(word) })
    } else if (word >> 27) == 0x14 {
        Some(Operation::Amo { combine: AmoOp::Max, width: amo_width(word) })
    } else if (word >> 27) == 0x18 {
        Some(Operation::Amo { combine: AmoOp::Minu, width: amo_width(word) })
    } else if (word >> 27) == 0x1c {
        Some(Operation::Amo { combine: AmoOp::Maxu, width: amo_width(word) })
    } else {
        None
    }
}

/// The register-register operation that `word` names.
pub open spec fn spec_opecode_33(word: u32) -> Option<Operation> {
    if funct7(word) == 0x0 && funct3(word) == 0 {
        Some(Operation::Alu { op: AluOp::Add, word: false, immediate: false })
    } else if funct7(word) == 0x20 && funct3(word) == 0 {
        Some(Operation::Alu { op: AluOp::Sub, word: false, immediate: false })
    } else if funct7(word) == 0x0 && funct3(word) == 1 {
        Some(Operation::Alu { op: AluOp::Sll, word: false, immediate: false })
    } else if funct7(word) == 0x0 && funct3(word) == 2 {
        Some(Operation::Alu { op: AluOp::Slt, word: false, immediate: false })
    } else if funct7(word) == 0x0 && funct3(word) == 3 {
        Some(Operation::Alu { op: AluOp::Sltu, word: false, immediate: false })
    } else if funct7(word) == 0x0 && funct3(word) == 4 {
        Some(Operation::Alu { op: AluOp::Xor, word: false, immediate: false })
    } else if funct7(word) == 0x0 && funct3(word) == 5 {
        Some(Operation::Alu { op: AluOp::Srl, word: false, immediate: false })
    } else if funct7(word) == 0x20 && funct3(word) == 5 {
        Some(Operation::Alu { op: AluOp::Sra, word: false, immediate: false })
    } else if funct7(word) == 0x0 && funct3(word) == 6 {
        Some(Operation::Alu { op: AluOp::Or, word: false, immediate: false })
    } else if funct7(word) == 0x0 && funct3(word) == 7 {
        Some(Operation::Alu { op: AluOp::And, word: false, immediate: false })
    } else if funct7(word) == 0x1 && funct3(word) == 0 {
        Some(Operation::Alu { op: AluOp::Mul, word: false, immediate: false })
    } else if funct7(word) == 0x1 && funct3(word) == 1 {
        Some(Operation::Alu { op: AluOp::Mulh, word: false, immediate: false })
    } else if funct7(word) == 0x1 && funct3(word) == 2 {
        Some(Operation::Alu { op: AluOp::Mulhsu, word: false, immediate: false })
    } else if funct7(word) == 0x1 && funct3(word) == 3 {
        Some(Operation::Alu { op: AluOp::Mulhu, word: false, immediate: false })
    } else if funct7(word) == 0x1 && funct3(word) == 4 {
        Some(Operation::Alu { op: AluOp::Div, word: false, immediate: false })
    } else if funct7(word) == 0x1 && funct3(word) == 5 {
        Some(Operation::Alu { op: AluOp::Divu, word: false, immediate: false })
    } else if funct7(word) == 0x1 && funct3(word) == 6 {
        Some(Operation::Alu { op: AluOp::Rem, word: false, immediate: false })
    } else if funct7(word) == 0x1 && funct3(word) == 7 {
        Some(Operation::Alu { op: AluOp::Remu, word: false, immediate: false })
    } else {
        None
    }
}

#[verifier::when_used_as_spec(spec_opecode_33)]
pub fn opecode_33(word: u32) -> (r: Option<Operation>)
    ensures
        r == spec_opecode_33(word),
{
    if funct7(word) == 0x0 && funct3(word) == 0 {
        Some(Operation::Alu { op: AluOp::Add, word: false, immediate: false })
    } else if funct7(word) == 0x20 && funct3(word) == 0 {
        Some(Operation::Alu { op: AluOp::Sub, word: false, immediate: false })
    } else if funct7(word) == 0x0 && funct3(word) == 1 {
        Some(Operation::Alu { op: AluOp::Sll, word: false, immediate: false })
    } else if funct7(word) == 0x0 && funct3(word) == 2 {
        Some(Operation::Alu { op: AluOp::Slt, word: false, immediate: false })
    } else if funct7(word) == 0x0 && funct3(word) == 3 {
        Some(Operation::Alu { op: AluOp::Sltu, word: false, immediate: false })
    } else if funct7(word) == 0x0 && funct3(word) == 4 {
        Some(Operation::Alu { op: AluOp::Xor, word: false, immediate: false })
    } else if funct7(word) == 0x0 && funct3(word) == 5 {
        Some(Operation::Alu { op: AluOp::Srl, word: false, immediate: false })
    } else if funct7(word) == 0x20 && funct3(word) == 5 {
        Some(Operation::Alu { op: AluOp::Sra, word: false, immediate: false })
    } else if funct7(word) == 0x0 && funct3(word) == 6 {
        Some(Operation::Alu { op: AluOp::Or, word: false, immediate: false })
    } else if funct7(word) == 0x0 && funct3(word) == 7 {
        Some(Operation::Alu { op: AluOp::And, word: false, immediate: false })
    } else if funct7(word) == 0x1 && funct3(word) == 0 {
        Some(Operation::Alu { op: AluOp::Mul, word: false, immediate: false })
    } else if funct7(word) == 0x1 && funct3(word) == 1 {
        Some(Operation::Alu { op: AluOp::Mulh, word: false, immediate: false })
    } else if funct7(word) == 0x1 && funct3(word) == 2 {
        Some(Operation::Alu { op: AluOp::Mulhsu, word: false, immediate: false })
    } else if funct7(word) == 0x1 && funct3(word) == 3 {
        Some(Operation::Alu { op: AluOp::Mulhu, word: false, immediate: false })
    } else if funct7(word) == 0x1 && funct3(word) == 4 {
        Some(Operation::Alu { op: AluOp::Div, word: false, immediate: false })
    } else if funct7(word) == 0x1 && funct3(word) == 5 {
        Some(Operation::Alu { op: AluOp::Divu, word: false, immediate: false })
    } else if funct7(word) == 0x1 && funct3(word) == 6 {
        Some(Operation::Alu { op: AluOp::Rem, word: false, immediate: false })
    } else if funct7(word) == 0x1 && funct3(word) == 7 {
        Some(Operation::Alu { op: AluOp::Remu, word: false, immediate: false })
    } else {
        None
    }
}

/// The register-register operation on 32 bits that `word` names; there is none on a
/// 32-bit hart.
pub open spec fn spec_opecode_3b(xlen: Xlen, word: u32) -> Option<Operation> {
    if xlen != Xlen::X64 {
        None
    } else if funct7(word) == 0x0 && funct3(word) == 0 {
        Some(Operation::Alu { op: AluOp::Add, word: true, immediate: false })
    } else if funct7(word) == 0x20 && funct3(word) == 0 {
        Some(Operation::Alu { op: AluOp::Sub, word: true, immediate: false })
    } else if funct7(word) == 0x0 && funct3(word) == 1 {
        Some(Operation::Alu { op: AluOp::Sll, word: true, immediate: false })
    } else if funct7(word) == 0x0 && funct3(word) == 5 {
        Some(Operation::Alu { op: AluOp::Srl, word: true, immediate: false })
    } else if funct7(word) == 0x20 && funct3(word) == 5 {
        Some(Operation::Alu { op: AluOp::Sra, word: true, immediate: false })
    } else if funct7(word) == 0x1 && funct3(word) == 0 {
        Some(Operation::Alu { op: AluOp::Mul, word: true, immediate: false })
    } else if funct7(word) == 0x1 && funct3(word) == 4 {
        Some(Operation::Alu { op: AluOp::Div, word: true, immediate: false })
    } else if funct7(word) == 0x1 && funct3(word) == 5 {
        Some(Operation::Alu { op: AluOp::Divu, word: true, immediate: false })
    } else if funct7(word) == 0x1 && funct3(word) == 6 {
        Some(Operation::Alu { op: AluOp::Rem, word: true, immediate: false })
    } else if funct7(word) == 0x1 && funct3(word) == 7 {
        Some(Operation::Alu { op: AluOp::Remu, word: true, immediate: false })
    } else {
        None
    }
}

#[verifier::when_used_as_spec(spec_opecode_3b)]
pub fn opecode_3b(xlen: Xlen, word: u32) -> (r: Option<Operation>)
    ensures
        r == spec_opecode_3b(xlen, word),
{
    if xlen != Xlen::X64 {
        None
    } else if funct7(word) == 0x0 && funct3(word) == 0 {
        Some(Operation::Alu { op: AluOp::Add, word: true, immediate: false })
    } else if funct7(word) == 0x20 && funct3(word) == 0 {
        Some(Operation::Alu { op: AluOp::Sub, word: true, immediate: false })
    } else if funct7(word) == 0x0 && funct3(word) == 1 {
        Some(Operation::Alu { op: AluOp::Sll, word: true, immediate: false })
    } else if funct7(word) == 0x0 && funct3(word) == 5 {
        Some(Operation::Alu { op: AluOp::Srl, word: true, immediate: false })
    } else if funct7(word) == 0x20 && funct3(word) == 5 {
        Some(Operation::Alu { op: AluOp::Sra, word: true, immediate: false })
    } else if funct7(word) == 0x1 && funct3(word) == 0 {
        Some(Operation::Alu { op: AluOp::Mul, word: true, immediate: false })
    } else if funct7(word) == 0x1 && funct3(word) == 4 {
        Some(Operation::Alu { op: AluOp::Div, word: true, immediate: false })
    } else if funct7(word) == 0x1 && funct3(word) == 5 {
        Some(Operation::Alu { op: AluOp::Divu, word: true, immediate: false })
    } else if funct7(word) == 0x1 && funct3(word) == 6 {
        Some(Operation::Alu { op: AluOp::Rem, word: true, immediate: false })
    } else if funct7(word) == 0x1 && funct3(word) == 7 {
        Some(Operation::Alu { op: AluOp::Remu, word: true, immediate: false })
    } else {
        None
    }
}

/// The branch that `word` names.
pub open spec fn spec_opecode_63(word: u32) -> Option<Operation> {
    if funct3(word) == 0 {
        Some(Operation::Branch(BranchOp::Beq))
    } else if funct3(word) == 1 {
        Some(Operation::Branch(BranchOp::Bne))
    } else if funct3(word) == 4 {
        Some(Operation::Branch(BranchOp::Blt))
    } else if funct3(word) == 5 {
        Some(Operation::Branch(BranchOp::Bge))
    } else if funct3(word) == 6 {
        Some(Operation::Branch(BranchOp::Bltu))
    } else if funct3(word) == 7 {
        Some(Operation::Branch(BranchOp::Bgeu))
    } else {
        None
    }
}

#[verifier::when_used_as_spec(spec_opecode_63)]
pub fn opecode_63(word: u32) -> (r: Option<Operation>)
    ensures
        r == spec_opecode_63(word),
{
    if funct3(word) == 0 {
        Some(Operation::Branch(BranchOp::Beq))
    } else if funct3(word) == 1 {
        Some(Operation::Branch(BranchOp::Bne))
    } else if funct3(word) == 4 {
        Some(Operation::Branch(BranchOp::Blt))
    } else if funct3(word) == 5 {
        Some(Operation::Branch(BranchOp::Bge))
    } else if funct3(word) == 6 {
        Some(Operation::Branch(BranchOp::Bltu))
    } else if funct3(word) == 7 {
        Some(Operation::Branch(BranchOp::Bgeu))
    } else {
        None
    }
}

/// JALR.
pub open spec fn spec_opecode_67(word: u32) -> Option<Operation> {
    if funct3(word) == 0 {
        Some(Operation::Jalr)
    } else {
        None
    }
}

#[verifier::when_used_as_spec(spec_opecode_67)]
pub fn opecode_67(word: u32) -> (r: Option<Operation>)
    ensures
        r == spec_opecode_67(word),
{
    if funct3(word) == 0 {
        Some(Operation::Jalr)
    } else {
        None
    }
}

/// The system instruction that `word` names.
pub open spec fn spec_opecode_73(word: u32) -> Option<Operation> {
    if funct3(word) == 0 && word == 0x0000_0073 {
        Some(Operation::Ecall)
    } else if funct3(word) == 0 && word == 0x0010_0073 {
        Some(Operation::Ebreak)
    } else if funct3(word) == 0 && word == 0x0020_0073 {
        Some(Operation::Uret)
    } else if funct3(word) == 0 && word == 0x1020_0073 {
        Some(Operation::Sret)
    } else if funct3(word) == 0 && word == 0x3020_0073 {
        Some(Operation::Mret)
    } else if funct3(word) == 0 && word == 0x1050_0073 {
        Some(Operation::Wfi)
    } else if funct3(word) == 0 && funct7(word) == 0x09 && rd_of(word) == 0 {
        Some(Operation::SfenceVma)
    } else if funct3(word) == 1 {
        Some(Operation::Csr { action: CsrOp::ReadWrite, immediate: false })
    } else if funct3(word) == 2 {
        Some(Operation::Csr { action: CsrOp::ReadSet, immediate: false })
    } else if funct3(word) == 3 {
        Some(Operation::Csr { action: CsrOp::ReadClear, immediate: false })
    } else if funct3(word) == 5 {
        Some(Operation::Csr { action: CsrOp::ReadWrite, immediate: true })
    } else if funct3(word) == 6 {
        Some(Operation::Csr { action: CsrOp::ReadSet, immediate: true })
    } else if funct3(word) == 7 {
        Some(Operation::Csr { action: CsrOp::ReadClear, immediate: true })
    } else {
        None
    }
}

#[verifier::when_used_as_spec(spec_opecode_73)]
pub fn opecode_73(word: u32) -> (r: Option<Operation>)
    ensures
        r == spec_opecode_73(word),
{
    if funct3(word) == 0 && word == 0x0000_0073 {
        Some(Operation::Ecall)
    } else if funct3(word) == 0 && word == 0x0010_0073 {
        Some(Operation::Ebreak)
    } else if funct3(word) == 0 && word == 0x0020_0073 {
        Some(Operation::Uret)
    } else if funct3(word) == 0 && word == 0x1020_0073 {
        Some(Operation::Sret)
    } else if funct3(word) == 0 && word == 0x3020_0073 {
        Some(Operation::Mret)
    } else if funct3(word) == 0 && word == 0x1050_0073 {
        Some(Operation::Wfi)
    } else if funct3(word) == 0 && funct7(word) == 0x09 && rd_of(word) == 0 {
        Some(Operation::SfenceVma)
    } else if funct3(word) == 1 {
        Some(Operation::Csr { action: CsrOp::ReadWrite, immediate: false })
    } else if funct3(word) == 2 {
        Some(Operation::Csr { action: CsrOp::ReadSet, immediate: false })
    } else if funct3(word) == 3 {
        Some(Operation::Csr { action: CsrOp::ReadClear, immediate: false })
    } else if funct3(word) == 5 {
        Some(Operation::Csr { action: CsrOp::ReadWrite, immediate: true })
    } else if funct3(word) == 6 {
        Some(Operation::Csr { action: CsrOp::ReadSet, immediate: true })
    } else if funct3(word) == 7 {
        Some(Operation::Csr { action: CsrOp::ReadClear, immediate: true })
    } else {
        None
    }
}

/// The bits of a shift by a constant that lie above the shift amount: bits 31 to 25 on a
/// 32-bit hart, bits 31 to 26 (as an even number) on a 64-bit one.
pub open spec fn spec_shift_funct(xlen: Xlen, word: u32) -> u32 {
    match xlen {
        Xlen::X32 => funct7(word),
        Xlen::X64 => funct7(word) & 0x7e,
    }
}

#[verifier::when_used_as_spec(spec_shift_funct)]
pub fn shift_funct(xlen: Xlen, word: u32) -> (r: u32)
    ensures
        r == spec_shift_funct(xlen, word),
{
    match xlen {
        Xlen::X32 => funct7(word),
        Xlen::X64 => funct7(word) & 0x7e,
    }
}

/// The operation that `word` names on a hart of width `xlen`; `None` for a word that names
/// none.
pub open spec fn spec_operation_of(xlen: Xlen, word: u32) -> Option<Operation> {
    match opecode_of(word) {
        None => None,
        Some(Opecode::Load) => opecode_03(xlen, word),
        Some(Opecode::LoadFp) => opecode_07(word),
        Some(Opecode::MiscMem) => opecode_0f(word),
        Some(Opecode::OpImm) => opecode_13(xlen, word),
        Some(Opecode::Auipc) => Some(Operation::Auipc),
        Some(Opecode::OpImm32) => opecode_1b(xlen, word),
        Some(Opecode::Store) => opecode_23(xlen, word),
        Some(Opecode::StoreFp) => opecode_27(word),
        Some(Opecode::Amo) => opecode_2f(xlen, word),
        Some(Opecode::Op) => opecode_33(word),
        Some(Opecode::Lui) => Some(Operation::Lui),
        Some(Opecode::Op32) => opecode_3b(xlen, word),
        Some(Opecode::Branch) => opecode_63(word),
        Some(Opecode::Jalr) => opecode_67(word),
        Some(Opecode::Jal) => Some(Operation::Jal),
        Some(Opecode::System) => opecode_73(word),
    }
}

#[verifier::when_used_as_spec(spec_operation_of)]
pub fn operation_of(xlen: Xlen, word: u32) -> (r: Option<Operation>)
    ensures
        r == spec_operation_of(xlen, word),
        r.is_some() ==> encoding_of(xlen, r.unwrap()).is_some() && encoding_of(
            xlen,
            r.unwrap(),
        ).unwrap().matches(word),
{
    proof {
        lemma_decoded_matches(xlen, word);
    }
    match opecode_of(word) {
        None => None,
        Some(Opecode::Load) => opecode_03(xlen, word),
        Some(Opecode::LoadFp) => opecode_07(word),
        Some(Opecode::MiscMem) => opecode_0f(word),
        Some(Opecode::OpImm) => opecode_13(xlen, word),
        Some(Opecode::Auipc) => Some(Operation::Auipc),
        Some(Opecode::OpImm32) => opecode_1b(xlen, word),
        Some(Opecode::Store) => opecode_23(xlen, word),
        Some(Opecode::StoreFp) => opecode_27(word),
        Some(Opecode::Amo) => opecode_2f(xlen, word),
        Some(Opecode::Op) => opecode_33(word),
        Some(Opecode::Lui) => Some(Operation::Lui),
        Some(Opecode::Op32) => opecode_3b(xlen, word),
        Some(Opecode::Branch) => opecode_63(word),
        Some(Opecode::Jalr) => opecode_67(word),
        Some(Opecode::Jal) => Some(Operation::Jal),
        Some(Opecode::System) => opecode_73(word),
    }
}

/// The operand that `word` holds besides its registers: the immediate of the format of
/// `operation`, the shift amount of a shift by a constant, the number of the register of a CSR
/// instruction, and 0 where the format has none.
pub open spec fn spec_immediate_of(xlen: Xlen, operation: Operation, word: u32) -> i64 {
    match operation {
        Operation::Load { .. } | Operation::FpLoad { .. } | Operation::Jalr => imm_i(word),
        Operation::Store { .. } | Operation::FpStore { .. } => imm_s(word),
        Operation::Alu { op, word: on_word, immediate } => if !immediate {
            0
        } else if op == AluOp::Sll || op == AluOp::Srl || op == AluOp::Sra {
            if on_word {
                shamt_of(Xlen::X32, word)
            } else {
                shamt_of(xlen, word)
            }
        } else {
            imm_i(word)
        },
        Operation::Lui | Operation::Auipc => imm_u(word),
        Operation::Jal => imm_j(word),
        Operation::Branch(_) => imm_b(word),
        Operation::Csr { .. } => csr_of(word) as i64,
        _ => 0,
    }
}

#[verifier::when_used_as_spec(spec_immediate_of)]
pub fn immediate_of(xlen: Xlen, operation: Operation, word: u32) -> (r: i64)
    ensures
        r == spec_immediate_of(xlen, operation, word),
        operation is Csr ==> 0 <= r < 4096,
{
    match operation {
        Operation::Load { .. } | Operation::FpLoad { .. } | Operation::Jalr => imm_i(word),
        Operation::Store { .. } | Operation::FpStore { .. } => imm_s(word),
        Operation::Alu { op, word: on_word, immediate } => if !immediate {
            0
        } else if op == AluOp::Sll || op == AluOp::Srl || op == AluOp::Sra {
            if on_word {
                shamt_of(Xlen::X32, word)
            } else {
                shamt_of(xlen, word)
            }
        } else {
            imm_i(word)
        },
        Operation::Lui | Operation::Auipc => imm_u(word),
        Operation::Jal => imm_j(word),
        Operation::Branch(_) => imm_b(word),
        Operation::Csr { .. } => csr_of(word) as i64,
        _ => 0,
    }
}

/// The instruction that `word` encodes on a hart of width `xlen`; `None` for a word that
/// encodes none.
pub open spec fn spec_decode(xlen: Xlen, word: u32) -> Option<Instruction> {
    match operation_of(xlen, word) {
        None => None,
        Some(operation) => Some(
            Instruction {
                operation,
                rd: rd_of(word),
                rs1: rs1_of(word),
                rs2: rs2_of(word),
                imm: immediate_of(xlen, operation, word),
            },
        ),
    }
}

#[verifier::when_used_as_spec(spec_decode)]
pub fn decode(xlen: Xlen, word: u32) -> (r: Option<Instruction>)
    ensures
        r == spec_decode(xlen, word),
        r.is_some() ==> r.unwrap().wf(),
{
    match operation_of(xlen, word) {
        None => None,
        Some(operation) => Some(
            Instruction {
                operation,
                rd: rd_of(word),
                rs1: rs1_of(word),
                rs2: rs2_of(word),
                imm: immediate_of(xlen, operation, word),
            },
        ),
    }
}

/// `data` as a register of width `xlen` holds it: the low 32 bits sign-extended on a 32-bit
/// hart.
pub open spec fn spec_signed(xlen: Xlen, data: i64) -> i64 {
    match xlen {
        Xlen::X32 => data as i32 as i64,
        Xlen::X64 => data,
    }
}

#[verifier::when_used_as_spec(spec_signed)]
pub fn signed(xlen: Xlen, data: i64) -> (r: i64)
    ensures
        r == spec_signed(xlen, data),
{
    match xlen {
        Xlen::X32 => data as i32 as i64,
        Xlen::X64 => data,
    }
}

/// `data` as an unsigned number of width `xlen`: the low 32 bits on a 32-bit hart.
pub open spec fn spec_unsigned(xlen: Xlen, data: i64) -> u64 {
    match xlen {
        Xlen::X32 => (data as u64) & 0xffff_ffff,
        Xlen::X64 => data as u64,
    }
}

#[verifier::when_used_as_spec(spec_unsigned)]
pub fn unsigned(xlen: Xlen, data: i64) -> (r: u64)
    ensures
        r == spec_unsigned(xlen, data),
{
    match xlen {
        Xlen::X32 => (data as u64) & 0xffff_ffff,
        Xlen::X64 => data as u64,
    }
}

/// The number of places that a shift by `b` moves: `b` modulo the width.
pub open spec fn spec_shift_amount(xlen: Xlen, b: i64) -> u64 {
    match xlen {
        Xlen::X32 => (b as u64) % 32,
        Xlen::X64 => (b as u64) % 64,
    }
}

#[verifier::when_used_as_spec(spec_shift_amount)]
pub fn shift_amount(xlen: Xlen, b: i64) -> (r: u64)
    ensures
        r == spec_shift_amount(xlen, b),
        r < 64,
{
    match xlen {
        Xlen::X32 => (b as u64) % 32,
        Xlen::X64 => (b as u64) % 64,
    }
}

} // verus!
