//! The encodings of the instruction set: which bits of a word name an operation, how
//! the words of each format are put together, and that decoding and encoding agree.

use crate::cpu::cpu::Xlen;
use crate::cpu::cpu_instruction::{
    funct3, funct7, opecode_03, opecode_07, opecode_0f, opecode_13, opecode_1b, opecode_23,
    opecode_27, opecode_2f, opecode_33, opecode_3b, opecode_63, opecode_67, opecode_73, opecode_of,
    operation_of, parse_type_b, parse_type_i, parse_type_j, parse_type_r, parse_type_s,
    parse_type_u, rd_of, rs2_of, AluOp, AmoOp, BranchOp, CsrOp, InstructionTypeB, InstructionTypeI,
    InstructionTypeJ, InstructionTypeR, InstructionTypeS, InstructionTypeU, Opecode, Operation,
    Width,
};
use vstd::prelude::*;

verus! {

/// The bits of an instruction word that name an operation: the word names the operation
/// where its bits under `mask` equal `pattern`.
pub struct Encoding {
    pub mask: u32,
    pub pattern: u32,
}

impl Encoding {
    /// Whether `word` has the bits of the encoding.
    pub open spec fn matches(self, word: u32) -> bool {
        word & self.mask == self.pattern
    }
}

/// The encoding of the operation `operation` on a hart of width `xlen`, as the instruction
/// set lists it; `None` where the hart has no such operation.
pub open spec fn encoding_of(xlen: Xlen, operation: Operation) -> Option<Encoding> {
    if operation == (Operation::Load { width: Width::Byte, signed: true }) {
        Some(Encoding { mask: 0x0000_707f, pattern: 0x0000_0003 })
    } else if operation == (Operation::Load { width: Width::Half, signed: true }) {
        Some(Encoding { mask: 0x0000_707f, pattern: 0x0000_1003 })
    } else if operation == (Operation::Load { width: Width::Word, signed: true }) {
        Some(Encoding { mask: 0x0000_707f, pattern: 0x0000_2003 })
    } else if operation == (Operation::Load { width: Width::Byte, signed: false }) {
        Some(Encoding { mask: 0x0000_707f, pattern: 0x0000_4003 })
    } else if operation == (Operation::Load { width: Width::Half, signed: false }) {
        Some(Encoding { mask: 0x0000_707f, pattern: 0x0000_5003 })
    } else if operation == (Operation::Load { width: Width::Double, signed: true }) && xlen == Xlen::X64 {
        Some(Encoding { mask: 0x0000_707f, pattern: 0x0000_3003 })
    } else if operation == (Operation::Load { width: Width::Word, signed: false }) && xlen == Xlen::X64 {
        Some(Encoding { mask: 0x0000_707f, pattern: 0x0000_6003 })
    } else if operation == (Operation::FpLoad { width: Width::Word }) {
        Some(Encoding { mask: 0x0000_707f, pattern: 0x0000_2007 })
    } else if operation == (Operation::FpLoad { width: Width::Double }) {
        Some(Encoding { mask: 0x0000_707f, pattern: 0x0000_3007 })
    } else if operation == (Operation::Fence) {
        Some(Encoding { mask: 0x0000_607f, pattern: 0x0000_000f })
    } else if operation == (Operation::Alu { op: AluOp::Add, word: false, immediate: true }) {
        Some(Encoding { mask: 0x0000_707f, pattern: 0x0000_0013 })
    } else if operation == (Operation::Alu { op: AluOp::Slt, word: false, immediate: true }) {
        Some(Encoding { mask: 0x0000_707f, pattern: 0x0000_2013 })
    } else if operation == (Operation::Alu { op: AluOp::Sltu, word: false, immediate: true }) {
        Some(Encoding { mask: 0x0000_707f, pattern: 0x0000_3013 })
    } else if operation == (Operation::Alu { op: AluOp::Xor, word: false, immediate: true }) {
        Some(Encoding { mask: 0x0000_707f, pattern: 0x0000_4013 })
    } else if operation == (Operation::Alu { op: AluOp::Or, word: false, immediate: true }) {
        Some(Encoding { mask: 0x0000_707f, pattern: 0x0000_6013 })
    } else if operation == (Operation::Alu { op: AluOp::And, word: false, immediate: true }) {
        Some(Encoding { mask: 0x0000_707f, pattern: 0x0000_7013 })
    } else if operation == (Operation::Alu { op: AluOp::Sll, word: false, immediate: true }) {
        match xlen {
            Xlen::X32 => Some(Encoding { mask: 0xfe00_707f, pattern: 0x0000_1013 }),
            Xlen::X64 => Some(Encoding { mask: 0xfc00_707f, pattern: 0x0000_1013 }),
        }
    } else if operation == (Operation::Alu { op: AluOp::Srl, word: false, immediate: true }) {
        match xlen {
            Xlen::X32 => Some(Encoding { mask: 0xfe00_707f, pattern: 0x0000_5013 }),
            Xlen::X64 => Some(Encoding { mask: 0xfc00_707f, pattern: 0x0000_5013 }),
        }
    } else if operation == (Operation::Alu { op: AluOp::Sra, word: false, immediate: true }) {
        match xlen {
            Xlen::X32 => Some(Encoding { mask: 0xfe00_707f, pattern: 0x4000_5013 }),
            Xlen::X64 => Some(Encoding { mask: 0xfc00_707f, pattern: 0x4000_5013 }),
        }
    } else if operation == (Operation::Auipc) {
        Some(Encoding { mask: 0x0000_007f, pattern: 0x0000_0017 })
    } else if operation == (Operation::Alu { op: AluOp::Add, word: true, immediate: true }) && xlen == Xlen::X64 {
        Some(Encoding { mask: 0x0000_707f, pattern: 0x0000_001b })
    } else if operation == (Operation::Alu { op: AluOp::Sll, word: true, immediate: true }) && xlen == Xlen::X64 {
        Some(Encoding { mask: 0xfe00_707f, pattern: 0x0000_101b })
    } else if operation == (Operation::Alu { op: AluOp::Srl, word: true, immediate: true }) && xlen == Xlen::X64 {
        Some(Encoding { mask: 0xfe00_707f, pattern: 0x0000_501b })
    } else if operation == (Operation::Alu { op: AluOp::Sra, word: true, immediate: true }) && xlen == Xlen::X64 {
        Some(Encoding { mask: 0xfe00_707f, pattern: 0x4000_501b })
    } else if operation == (Operation::Store { width: Width::Byte }) {
        Some(Encoding { mask: 0x0000_707f, pattern: 0x0000_0023 })
    } else if operation == (Operation::Store { width: Width::Half }) {
        Some(Encoding { mask: 0x0000_707f, pattern: 0x0000_1023 })
    } else if operation == (Operation::Store { width: Width::Word }) {
        Some(Encoding { mask: 0x0000_707f, pattern: 0x0000_2023 })
    } else if operation == (Operation::Store { width: Width::Double }) && xlen == Xlen::X64 {
        Some(Encoding { mask: 0x0000_707f, pattern: 0x0000_3023 })
    } else if operation == (Operation::FpStore { width: Width::Word }) {
        Some(Encoding { mask: 0x0000_707f, pattern: 0x0000_2027 })
    } else if operation == (Operation::FpStore { width: Width::Double }) {
        Some(Encoding { mask: 0x0000_707f, pattern: 0x0000_3027 })
    } else if operation == (Operation::LoadReserved { width: Width::Word }) {
        Some(Encoding { mask: 0xf9f0_707f, pattern: 0x1000_202f })
    } else if operation == (Operation::StoreConditional { width: Width::Word }) {
        Some(Encoding { mask: 0xf800_707f, pattern: 0x1800_202f })
    } else if operation == (Operation::Amo { combine: AmoOp::Swap, width: Width::Word }) {
        Some(Encoding { mask: 0xf800_707f, pattern: 0x0800_202f })
    } else if operation == (Operation::Amo { combine: AmoOp::Add, width: Width::Word }) {
        Some(Encoding { mask: 0xf800_707f, pattern: 0x0000_202f })
    } else if operation == (Operation::Amo { combine: AmoOp::Xor, width: Width::Word }) {
        Some(Encoding { mask: 0xf800_707f, pattern: 0x2000_202f })
    } else if operation == (Operation::Amo { combine: AmoOp::And, width: Width::Word }) {
        Some(Encoding { mask: 0xf800_707f, pattern: 0x6000_202f })
    } else if operation == (Operation::Amo { combine: AmoOp::Or, width: Width::Word }) {
        Some(Encoding { mask: 0xf800_707f, pattern: 0x4000_202f })
    } else if operation == (Operation::Amo { combine: AmoOp::Min, width: Width::Word }) {
        Some(Encoding { mask: 0xf800_707f, pattern: 0x8000_202f })
    } else if operation == (Operation::Amo { combine: AmoOp::Max, width: Width::Word }) {
        Some(Encoding { mask: 0xf800_707f, pattern: 0xa000_202f })
    } else if operation == (Operation::Amo { combine: AmoOp::Minu, width: Width::Word }) {
        Some(Encoding { mask: 0xf800_707f, pattern: 0xc000_202f })
    } else if operation == (Operation::Amo { combine: AmoOp::Maxu, width: Width::Word }) {
        Some(Encoding { mask: 0xf800_707f, pattern: 0xe000_202f })
    } else if operation == (Operation::LoadReserved { width: Width::Double }) && xlen == Xlen::X64 {
        Some(Encoding { mask: 0xf9f0_707f, pattern: 0x1000_302f })
    } else if operation == (Operation::StoreConditional { width: Width::Double }) && xlen == Xlen::X64 {
        Some(Encoding { mask: 0xf800_707f, pattern: 0x1800_302f })
    } else if operation == (Operation::Amo { combine: AmoOp::Swap, width: Width::Double }) && xlen == Xlen::X64 {
        Some(Encoding { mask: 0xf800_707f, pattern: 0x0800_302f })
    } else if operation == (Operation::Amo { combine: AmoOp::Add, width: Width::Double }) && xlen == Xlen::X64 {
        Some(Encoding { mask: 0xf800_707f, pattern: 0x0000_302f })
    } else if operation == (Operation::Amo { combine: AmoOp::Xor, width: Width::Double }) && xlen == Xlen::X64 {
        Some(Encoding { mask: 0xf800_707f, pattern: 0x2000_302f })
    } else if operation == (Operation::Amo { combine: AmoOp::And, width: Width::Double }) && xlen == Xlen::X64 {
        Some(Encoding { mask: 0xf800_707f, pattern: 0x6000_302f })
    } else if operation == (Operation::Amo { combine: AmoOp::Or, width: Width::Double }) && xlen == Xlen::X64 {
        Some(Encoding { mask: 0xf800_707f, pattern: 0x4000_302f })
    } else if operation == (Operation::Amo { combine: AmoOp::Min, width: Width::Double }) && xlen == Xlen::X64 {
        Some(Encoding { mask: 0xf800_707f, pattern: 0x8000_302f })
    } else if operation == (Operation::Amo { combine: AmoOp::Max, width: Width::Double }) && xlen == Xlen::X64 {
        Some(Encoding { mask: 0xf800_707f, pattern: 0xa000_302f })
    } else if operation == (Operation::Amo { combine: AmoOp::Minu, width: Width::Double }) && xlen == Xlen::X64 {
        Some(Encoding { mask: 0xf800_707f, pattern: 0xc000_302f })
    } else if operation == (Operation::Amo { combine: AmoOp::Maxu, width: Width::Double }) && xlen == Xlen::X64 {
        Some(Encoding { mask: 0xf800_707f, pattern: 0xe000_302f })
    } else if operation == (Operation::Alu { op: AluOp::Add, word: false, immediate: false }) {
        Some(Encoding { mask: 0xfe00_707f, pattern: 0x0000_0033 })
    } else if operation == (Operation::Alu { op: AluOp::Sub, word: false, immediate: false }) {
        Some(Encoding { mask: 0xfe00_707f, pattern: 0x4000_0033 })
    } else if operation == (Operation::Alu { op: AluOp::Sll, word: false, immediate: false }) {
        Some(Encoding { mask: 0xfe00_707f, pattern: 0x0000_1033 })
    } else if operation == (Operation::Alu { op: AluOp::Slt, word: false, immediate: false }) {
        Some(Encoding { mask: 0xfe00_707f, pattern: 0x0000_2033 })
    } else if operation == (Operation::Alu { op: AluOp::Sltu, word: false, immediate: false }) {
        Some(Encoding { mask: 0xfe00_707f, pattern: 0x0000_3033 })
    } else if operation == (Operation::Alu { op: AluOp::Xor, word: false, immediate: false }) {
        Some(Encoding { mask: 0xfe00_707f, pattern: 0x0000_4033 })
    } else if operation == (Operation::Alu { op: AluOp::Srl, word: false, immediate: false }) {
        Some(Encoding { mask: 0xfe00_707f, pattern: 0x0000_5033 })
    } else if operation == (Operation::Alu { op: AluOp::Sra, word: false, immediate: false }) {
        Some(Encoding { mask: 0xfe00_707f, pattern: 0x4000_5033 })
    } else if operation == (Operation::Alu { op: AluOp::Or, word: false, immediate: false }) {
        Some(Encoding { mask: 0xfe00_707f, pattern: 0x0000_6033 })
    } else if operation == (Operation::Alu { op: AluOp::And, word: false, immediate: false }) {
        Some(Encoding { mask: 0xfe00_707f, pattern: 0x0000_7033 })
    } else if operation == (Operation::Alu { op: AluOp::Mul, word: false, immediate: false }) {
        Some(Encoding { mask: 0xfe00_707f, pattern: 0x0200_0033 })
    } else if operation == (Operation::Alu { op: AluOp::Mulh, word: false, immediate: false }) {
        Some(Encoding { mask: 0xfe00_707f, pattern: 0x0200_1033 })
    } else if operation == (Operation::Alu { op: AluOp::Mulhsu, word: false, immediate: false }) {
        Some(Encoding { mask: 0xfe00_707f, pattern: 0x0200_2033 })
    } else if operation == (Operation::Alu { op: AluOp::Mulhu, word: false, immediate: false }) {
        Some(Encoding { mask: 0xfe00_707f, pattern: 0x0200_3033 })
    } else if operation == (Operation::Alu { op: AluOp::Div, word: false, immediate: false }) {
        Some(Encoding { mask: 0xfe00_707f, pattern: 0x0200_4033 })
    } else if operation == (Operation::Alu { op: AluOp::Divu, word: false, immediate: false }) {
        Some(Encoding { mask: 0xfe00_707f, pattern: 0x0200_5033 })
    } else if operation == (Operation::Alu { op: AluOp::Rem, word: false, immediate: false }) {
        Some(Encoding { mask: 0xfe00_707f, pattern: 0x0200_6033 })
    } else if operation == (Operation::Alu { op: AluOp::Remu, word: false, immediate: false }) {
        Some(Encoding { mask: 0xfe00_707f, pattern: 0x0200_7033 })
    } else if operation == (Operation::Lui) {
        Some(Encoding { mask: 0x0000_007f, pattern: 0x0000_0037 })
    } else if operation == (Operation::Alu { op: AluOp::Add, word: true, immediate: false }) && xlen == Xlen::X64 {
        Some(Encoding { mask: 0xfe00_707f, pattern: 0x0000_003b })
    } else if operation == (Operation::Alu { op: AluOp::Sub, word: true, immediate: false }) && xlen == Xlen::X64 {
        Some(Encoding { mask: 0xfe00_707f, pattern: 0x4000_003b })
    } else if operation == (Operation::Alu { op: AluOp::Sll, word: true, immediate: false }) && xlen == Xlen::X64 {
        Some(Encoding { mask: 0xfe00_707f, pattern: 0x0000_103b })
    } else if operation == (Operation::Alu { op: AluOp::Srl, word: true, immediate: false }) && xlen == Xlen::X64 {
        Some(Encoding { mask: 0xfe00_707f, pattern: 0x0000_503b })
    } else if operation == (Operation::Alu { op: AluOp::Sra, word: true, immediate: false }) && xlen == Xlen::X64 {
        Some(Encoding { mask: 0xfe00_707f, pattern: 0x4000_503b })
    } else if operation == (Operation::Alu { op: AluOp::Mul, word: true, immediate: false }) && xlen == Xlen::X64 {
        Some(Encoding { mask: 0xfe00_707f, pattern: 0x0200_003b })
    } else if operation == (Operation::Alu { op: AluOp::Div, word: true, immediate: false }) && xlen == Xlen::X64 {
        Some(Encoding { mask: 0xfe00_707f, pattern: 0x0200_403b })
    } else if operation == (Operation::Alu { op: AluOp::Divu, word: true, immediate: false }) && xlen == Xlen::X64 {
        Some(Encoding { mask: 0xfe00_707f, pattern: 0x0200_503b })
    } else if operation == (Operation::Alu { op: AluOp::Rem, word: true, immediate: false }) && xlen == Xlen::X64 {
        Some(Encoding { mask: 0xfe00_707f, pattern: 0x0200_603b })
    } else if operation == (Operation::Alu { op: AluOp::Remu, word: true, immediate: false }) && xlen == Xlen::X64 {
        Some(Encoding { mask: 0xfe00_707f, pattern: 0x0200_703b })
    } else if operation == (Operation::Branch(BranchOp::Beq)) {
        Some(Encoding { mask: 0x0000_707f, pattern: 0x0000_0063 })
    } else if operation == (Operation::Branch(BranchOp::Bne)) {
        Some(Encoding { mask: 0x0000_707f, pattern: 0x0000_1063 })
    } else if operation == (Operation::Branch(BranchOp::Blt)) {
        Some(Encoding { mask: 0x0000_707f, pattern: 0x0000_4063 })
    } else if operation == (Operation::Branch(BranchOp::Bge)) {
        Some(Encoding { mask: 0x0000_707f, pattern: 0x0000_5063 })
    } else if operation == (Operation::Branch(BranchOp::Bltu)) {
        Some(Encoding { mask: 0x0000_707f, pattern: 0x0000_6063 })
    } else if operation == (Operation::Branch(BranchOp::Bgeu)) {
        Some(Encoding { mask: 0x0000_707f, pattern: 0x0000_7063 })
    } else if operation == (Operation::Jalr) {
        Some(Encoding { mask: 0x0000_707f, pattern: 0x0000_0067 })
    } else if operation == (Operation::Jal) {
        Some(Encoding { mask: 0x0000_007f, pattern: 0x0000_006f })
    } else if operation == (Operation::Ecall) {
        Some(Encoding { mask: 0xffff_ffff, pattern: 0x0000_0073 })
    } else if operation == (Operation::Ebreak) {
        Some(Encoding { mask: 0xffff_ffff, pattern: 0x0010_0073 })
    } else if operation == (Operation::Uret) {
        Some(Encoding { mask: 0xffff_ffff, pattern: 0x0020_0073 })
    } else if operation == (Operation::Sret) {
        Some(Encoding { mask: 0xffff_ffff, pattern: 0x1020_0073 })
    } else if operation == (Operation::Mret) {
        Some(Encoding { mask: 0xffff_ffff, pattern: 0x3020_0073 })
    } else if operation == (Operation::Wfi) {
        Some(Encoding { mask: 0xffff_ffff, pattern: 0x1050_0073 })
    } else if operation == (Operation::SfenceVma) {
        Some(Encoding { mask: 0xfe00_7fff, pattern: 0x1200_0073 })
    } else if operation == (Operation::Csr { action: CsrOp::ReadWrite, immediate: false }) {
        Some(Encoding { mask: 0x0000_707f, pattern: 0x0000_1073 })
    } else if operation == (Operation::Csr { action: CsrOp::ReadSet, immediate: false }) {
        Some(Encoding { mask: 0x0000_707f, pattern: 0x0000_2073 })
    } else if operation == (Operation::Csr { action: CsrOp::ReadClear, immediate: false }) {
        Some(Encoding { mask: 0x0000_707f, pattern: 0x0000_3073 })
    } else if operation == (Operation::Csr { action: CsrOp::ReadWrite, immediate: true }) {
        Some(Encoding { mask: 0x0000_707f, pattern: 0x0000_5073 })
    } else if operation == (Operation::Csr { action: CsrOp::ReadSet, immediate: true }) {
        Some(Encoding { mask: 0x0000_707f, pattern: 0x0000_6073 })
    } else if operation == (Operation::Csr { action: CsrOp::ReadClear, immediate: true }) {
        Some(Encoding { mask: 0x0000_707f, pattern: 0x0000_7073 })
    } else {
        None
    }
}

/// Opcode and funct3 of a word are two values exactly where the word has their bits.
proof fn lemma_bits_f3(word: u32, c: u32, f: u32)
    by (bit_vector)
    requires
        c < 128,
        f < 8,
    ensures
        (word & 0x7f == c && (word >> 12) & 0x7 == f) <==> (word & 0x0000_707f == f * 0x1000 + c),
{
}

/// Opcode, funct3 and funct7 of a word are three values exactly where the word has their
/// bits.
proof fn lemma_bits_f7(word: u32, c: u32, f: u32, g: u32)
    by (bit_vector)
    requires
        c < 128,
        f < 8,
        g < 128,
    ensures
        (word & 0x7f == c && (word >> 12) & 0x7 == f && word >> 25 == g) <==> (word & 0xfe00_707f
            == g * 0x200_0000 + f * 0x1000 + c),
{
}

/// Opcode, funct3 and the six bits above a six-bit shift amount are three values exactly
/// where the word has their bits.
proof fn lemma_bits_shift(word: u32, c: u32, f: u32, g: u32)
    by (bit_vector)
    requires
        c < 128,
        f < 8,
        g < 128,
        g % 2 == 0,
    ensures
        (word & 0x7f == c && (word >> 12) & 0x7 == f && (word >> 25) & 0x7e == g) <==> (word
            & 0xfc00_707f == g * 0x200_0000 + f * 0x1000 + c),
{
}

/// Opcode, funct3 and funct5 of a word are three values exactly where the word has their
/// bits; with the second source register 0 on top, where it has those bits and none in the
/// register's field.
proof fn lemma_bits_f5(word: u32, c: u32, f: u32, h: u32)
    by (bit_vector)
    requires
        c < 128,
        f < 8,
        h < 32,
    ensures
        (word & 0x7f == c && (word >> 12) & 0x7 == f && word >> 27 == h) <==> (word & 0xf800_707f
            == h * 0x800_0000 + f * 0x1000 + c),
        (word & 0x7f == c && (word >> 12) & 0x7 == f && word >> 27 == h && ((word >> 20)
            & 0x1f) as u8 == 0) <==> (word & 0xf9f0_707f == h * 0x800_0000 + f * 0x1000 + c),
{
}

/// The bits of FENCE and FENCE.I, of SFENCE.VMA, and of a word as a whole.
pub proof fn lemma_bits_system(word: u32, k: u32)
    by (bit_vector)
    ensures
        (word & 0x7f == 0x0f && ((word >> 12) & 0x7 == 0 || (word >> 12) & 0x7 == 1)) <==> (word
            & 0x0000_607f == 0x0f),
        (word & 0x7f == 0x73 && (word >> 12) & 0x7 == 0 && word >> 25 == 0x09 && ((word >> 7)
            & 0x1f) as u8 == 0) <==> (word & 0xfe00_7fff == 0x1200_0073),
        word & 0xffff_ffff == word,
        (word >> 12) & 0x7 < 8,
        word == k ==> word & 0x7f == k & 0x7f && (word >> 12) & 0x7 == (k >> 12) & 0x7 && word >> 25
            == k >> 25 && ((word >> 7) & 0x1f) as u8 == ((k >> 7) & 0x1f) as u8,
        0x0000_0073u32 & 0x7f == 0x73 && (0x0000_0073u32 >> 12) & 0x7 == 0 && 0x0000_0073u32 >> 25
            == 0,
        0x0010_0073u32 & 0x7f == 0x73 && (0x0010_0073u32 >> 12) & 0x7 == 0 && 0x0010_0073u32 >> 25
            == 0,
        0x0020_0073u32 & 0x7f == 0x73 && (0x0020_0073u32 >> 12) & 0x7 == 0 && 0x0020_0073u32 >> 25
            == 0,
        0x1020_0073u32 & 0x7f == 0x73 && (0x1020_0073u32 >> 12) & 0x7 == 0 && 0x1020_0073u32 >> 25
            == 0x08,
        0x3020_0073u32 & 0x7f == 0x73 && (0x3020_0073u32 >> 12) & 0x7 == 0 && 0x3020_0073u32 >> 25
            == 0x18,
        0x1050_0073u32 & 0x7f == 0x73 && (0x1050_0073u32 >> 12) & 0x7 == 0 && 0x1050_0073u32 >> 25
            == 0x08,
{
}

/// The facts about the bits of `word` that the encodings of the loads, the stores, the
/// branches, JALR and the CSR instructions rest on.
proof fn lemma_bits_of_f3_group(word: u32)
    ensures
        (word & 0x7f == 0x3 && funct3(word) == 0) <==> (word & 0x0000_707f == 0x0000_0003),
        (word & 0x7f == 0x3 && funct3(word) == 1) <==> (word & 0x0000_707f == 0x0000_1003),
        (word & 0x7f == 0x3 && funct3(word) == 2) <==> (word & 0x0000_707f == 0x0000_2003),
        (word & 0x7f == 0x3 && funct3(word) == 3) <==> (word & 0x0000_707f == 0x0000_3003),
        (word & 0x7f == 0x3 && funct3(word) == 4) <==> (word & 0x0000_707f == 0x0000_4003),
        (word & 0x7f == 0x3 && funct3(word) == 5) <==> (word & 0x0000_707f == 0x0000_5003),
        (word & 0x7f == 0x3 && funct3(word) == 6) <==> (word & 0x0000_707f == 0x0000_6003),
        (word & 0x7f == 0x7 && funct3(word) == 2) <==> (word & 0x0000_707f == 0x0000_2007),
        (word & 0x7f == 0x7 && funct3(word) == 3) <==> (word & 0x0000_707f == 0x0000_3007),
        (word & 0x7f == 0x13 && funct3(word) == 0) <==> (word & 0x0000_707f == 0x0000_0013),
        (word & 0x7f == 0x13 && funct3(word) == 2) <==> (word & 0x0000_707f == 0x0000_2013),
        (word & 0x7f == 0x13 && funct3(word) == 3) <==> (word & 0x0000_707f == 0x0000_3013),
        (word & 0x7f == 0x13 && funct3(word) == 4) <==> (word & 0x0000_707f == 0x0000_4013),
        (word & 0x7f == 0x13 && funct3(word) == 6) <==> (word & 0x0000_707f == 0x0000_6013),
        (word & 0x7f == 0x13 && funct3(word) == 7) <==> (word & 0x0000_707f == 0x0000_7013),
        (word & 0x7f == 0x1b && funct3(word) == 0) <==> (word & 0x0000_707f == 0x0000_001b),
        (word & 0x7f == 0x23 && funct3(word) == 0) <==> (word & 0x0000_707f == 0x0000_0023),
        (word & 0x7f == 0x23 && funct3(word) == 1) <==> (word & 0x0000_707f == 0x0000_1023),
        (word & 0x7f == 0x23 && funct3(word) == 2) <==> (word & 0x0000_707f == 0x0000_2023),
        (word & 0x7f == 0x23 && funct3(word) == 3) <==> (word & 0x0000_707f == 0x0000_3023),
        (word & 0x7f == 0x27 && funct3(word) == 2) <==> (word & 0x0000_707f == 0x0000_2027),
        (word & 0x7f == 0x27 && funct3(word) == 3) <==> (word & 0x0000_707f == 0x0000_3027),
        (word & 0x7f == 0x63 && funct3(word) == 0) <==> (word & 0x0000_707f == 0x0000_0063),
        (word & 0x7f == 0x63 && funct3(word) == 1) <==> (word & 0x0000_707f == 0x0000_1063),
        (word & 0x7f == 0x63 && funct3(word) == 4) <==> (word & 0x0000_707f == 0x0000_4063),
        (word & 0x7f == 0x63 && funct3(word) == 5) <==> (word & 0x0000_707f == 0x0000_5063),
        (word & 0x7f == 0x63 && funct3(word) == 6) <==> (word & 0x0000_707f == 0x0000_6063),
        (word & 0x7f == 0x63 && funct3(word) == 7) <==> (word & 0x0000_707f == 0x0000_7063),
        (word & 0x7f == 0x67 && funct3(word) == 0) <==> (word & 0x0000_707f == 0x0000_0067),
        (word & 0x7f == 0x73 && funct3(word) == 1) <==> (word & 0x0000_707f == 0x0000_1073),
        (word & 0x7f == 0x73 && funct3(word) == 2) <==> (word & 0x0000_707f == 0x0000_2073),
        (word & 0x7f == 0x73 && funct3(word) == 3) <==> (word & 0x0000_707f == 0x0000_3073),
        (word & 0x7f == 0x73 && funct3(word) == 5) <==> (word & 0x0000_707f == 0x0000_5073),
        (word & 0x7f == 0x73 && funct3(word) == 6) <==> (word & 0x0000_707f == 0x0000_6073),
        (word & 0x7f == 0x73 && funct3(word) == 7) <==> (word & 0x0000_707f == 0x0000_7073),
{
    lemma_bits_f3(word, 0x3, 0x0);
    lemma_bits_f3(word, 0x3, 0x1);
    lemma_bits_f3(word, 0x3, 0x2);
    lemma_bits_f3(word, 0x3, 0x3);
    lemma_bits_f3(word, 0x3, 0x4);
    lemma_bits_f3(word, 0x3, 0x5);
    lemma_bits_f3(word, 0x3, 0x6);
    lemma_bits_f3(word, 0x7, 0x2);
    lemma_bits_f3(word, 0x7, 0x3);
    lemma_bits_f3(word, 0x13, 0x0);
    lemma_bits_f3(word, 0x13, 0x2);
    lemma_bits_f3(word, 0x13, 0x3);
    lemma_bits_f3(word, 0x13, 0x4);
    lemma_bits_f3(word, 0x13, 0x6);
    lemma_bits_f3(word, 0x13, 0x7);
    lemma_bits_f3(word, 0x1b, 0x0);
    lemma_bits_f3(word, 0x23, 0x0);
    lemma_bits_f3(word, 0x23, 0x1);
    lemma_bits_f3(word, 0x23, 0x2);
    lemma_bits_f3(word, 0x23, 0x3);
    lemma_bits_f3(word, 0x27, 0x2);
    lemma_bits_f3(word, 0x27, 0x3);
    lemma_bits_f3(word, 0x63, 0x0);
    lemma_bits_f3(word, 0x63, 0x1);
    lemma_bits_f3(word, 0x63, 0x4);
    lemma_bits_f3(word, 0x63, 0x5);
    lemma_bits_f3(word, 0x63, 0x6);
    lemma_bits_f3(word, 0x63, 0x7);
    lemma_bits_f3(word, 0x67, 0x0);
    lemma_bits_f3(word, 0x73, 0x1);
    lemma_bits_f3(word, 0x73, 0x2);
    lemma_bits_f3(word, 0x73, 0x3);
    lemma_bits_f3(word, 0x73, 0x5);
    lemma_bits_f3(word, 0x73, 0x6);
    lemma_bits_f3(word, 0x73, 0x7);
}

/// The facts about the bits of `word` that the encodings of the register-register
/// operations and of the shifts by a constant rest on.
proof fn lemma_bits_of_f7_group(word: u32)
    ensures
        (word & 0x7f == 0x13 && funct3(word) == 1 && funct7(word) == 0x0) <==> (word & 0xfe00_707f == 0x0000_1013),
        (word & 0x7f == 0x13 && funct3(word) == 5 && funct7(word) == 0x0) <==> (word & 0xfe00_707f == 0x0000_5013),
        (word & 0x7f == 0x13 && funct3(word) == 5 && funct7(word) == 0x20) <==> (word & 0xfe00_707f == 0x4000_5013),
        (word & 0x7f == 0x1b && funct3(word) == 1 && funct7(word) == 0x0) <==> (word & 0xfe00_707f == 0x0000_101b),
        (word & 0x7f == 0x1b && funct3(word) == 5 && funct7(word) == 0x0) <==> (word & 0xfe00_707f == 0x0000_501b),
        (word & 0x7f == 0x1b && funct3(word) == 5 && funct7(word) == 0x20) <==> (word & 0xfe00_707f == 0x4000_501b),
        (word & 0x7f == 0x33 && funct3(word) == 0 && funct7(word) == 0x0) <==> (word & 0xfe00_707f == 0x0000_0033),
        (word & 0x7f == 0x33 && funct3(word) == 0 && funct7(word) == 0x1) <==> (word & 0xfe00_707f == 0x0200_0033),
        (word & 0x7f == 0x33 && funct3(word) == 0 && funct7(word) == 0x20) <==> (word & 0xfe00_707f == 0x4000_0033),
        (word & 0x7f == 0x33 && funct3(word) == 1 && funct7(word) == 0x0) <==> (word & 0xfe00_707f == 0x0000_1033),
        (word & 0x7f == 0x33 && funct3(word) == 1 && funct7(word) == 0x1) <==> (word & 0xfe00_707f == 0x0200_1033),
        (word & 0x7f == 0x33 && funct3(word) == 2 && funct7(word) == 0x0) <==> (word & 0xfe00_707f == 0x0000_2033),
        (word & 0x7f == 0x33 && funct3(word) == 2 && funct7(word) == 0x1) <==> (word & 0xfe00_707f == 0x0200_2033),
        (word & 0x7f == 0x33 && funct3(word) == 3 && funct7(word) == 0x0) <==> (word & 0xfe00_707f == 0x0000_3033),
        (word & 0x7f == 0x33 && funct3(word) == 3 && funct7(word) == 0x1) <==> (word & 0xfe00_707f == 0x0200_3033),
        (word & 0x7f == 0x33 && funct3(word) == 4 && funct7(word) == 0x0) <==> (word & 0xfe00_707f == 0x0000_4033),
        (word & 0x7f == 0x33 && funct3(word) == 4 && funct7(word) == 0x1) <==> (word & 0xfe00_707f == 0x0200_4033),
        (word & 0x7f == 0x33 && funct3(word) == 5 && funct7(word) == 0x0) <==> (word & 0xfe00_707f == 0x0000_5033),
        (word & 0x7f == 0x33 && funct3(word) == 5 && funct7(word) == 0x1) <==> (word & 0xfe00_707f == 0x0200_5033),
        (word & 0x7f == 0x33 && funct3(word) == 5 && funct7(word) == 0x20) <==> (word & 0xfe00_707f == 0x4000_5033),
        (word & 0x7f == 0x33 && funct3(word) == 6 && funct7(word) == 0x0) <==> (word & 0xfe00_707f == 0x0000_6033),
        (word & 0x7f == 0x33 && funct3(word) == 6 && funct7(word) == 0x1) <==> (word & 0xfe00_707f == 0x0200_6033),
        (word & 0x7f == 0x33 && funct3(word) == 7 && funct7(word) == 0x0) <==> (word & 0xfe00_707f == 0x0000_7033),
        (word & 0x7f == 0x33 && funct3(word) == 7 && funct7(word) == 0x1) <==> (word & 0xfe00_707f == 0x0200_7033),
        (word & 0x7f == 0x3b && funct3(word) == 0 && funct7(word) == 0x0) <==> (word & 0xfe00_707f == 0x0000_003b),
        (word & 0x7f == 0x3b && funct3(word) == 0 && funct7(word) == 0x1) <==> (word & 0xfe00_707f == 0x0200_003b),
        (word & 0x7f == 0x3b && funct3(word) == 0 && funct7(word) == 0x20) <==> (word & 0xfe00_707f == 0x4000_003b),
        (word & 0x7f == 0x3b && funct3(word) == 1 && funct7(word) == 0x0) <==> (word & 0xfe00_707f == 0x0000_103b),
        (word & 0x7f == 0x3b && funct3(word) == 4 && funct7(word) == 0x1) <==> (word & 0xfe00_707f == 0x0200_403b),
        (word & 0x7f == 0x3b && funct3(word) == 5 && funct7(word) == 0x0) <==> (word & 0xfe00_707f == 0x0000_503b),
        (word & 0x7f == 0x3b && funct3(word) == 5 && funct7(word) == 0x1) <==> (word & 0xfe00_707f == 0x0200_503b),
        (word & 0x7f == 0x3b && funct3(word) == 5 && funct7(word) == 0x20) <==> (word & 0xfe00_707f == 0x4000_503b),
        (word & 0x7f == 0x3b && funct3(word) == 6 && funct7(word) == 0x1) <==> (word & 0xfe00_707f == 0x0200_603b),
        (word & 0x7f == 0x3b && funct3(word) == 7 && funct7(word) == 0x1) <==> (word & 0xfe00_707f == 0x0200_703b),
        (word & 0x7f == 0x13 && funct3(word) == 1 && funct7(word) & 0x7e == 0x0) <==> (word & 0xfc00_707f == 0x0000_1013),
        (word & 0x7f == 0x13 && funct3(word) == 5 && funct7(word) & 0x7e == 0x0) <==> (word & 0xfc00_707f == 0x0000_5013),
        (word & 0x7f == 0x13 && funct3(word) == 5 && funct7(word) & 0x7e == 0x20) <==> (word & 0xfc00_707f == 0x4000_5013),
{
    lemma_bits_f7(word, 0x13, 0x1, 0x0);
    lemma_bits_f7(word, 0x13, 0x5, 0x0);
    lemma_bits_f7(word, 0x13, 0x5, 0x20);
    lemma_bits_f7(word, 0x1b, 0x1, 0x0);
    lemma_bits_f7(word, 0x1b, 0x5, 0x0);
    lemma_bits_f7(word, 0x1b, 0x5, 0x20);
    lemma_bits_f7(word, 0x33, 0x0, 0x0);
    lemma_bits_f7(word, 0x33, 0x0, 0x1);
    lemma_bits_f7(word, 0x33, 0x0, 0x20);
    lemma_bits_f7(word, 0x33, 0x1, 0x0);
    lemma_bits_f7(word, 0x33, 0x1, 0x1);
    lemma_bits_f7(word, 0x33, 0x2, 0x0);
    lemma_bits_f7(word, 0x33, 0x2, 0x1);
    lemma_bits_f7(word, 0x33, 0x3, 0x0);
    lemma_bits_f7(word, 0x33, 0x3, 0x1);
    lemma_bits_f7(word, 0x33, 0x4, 0x0);
    lemma_bits_f7(word, 0x33, 0x4, 0x1);
    lemma_bits_f7(word, 0x33, 0x5, 0x0);
    lemma_bits_f7(word, 0x33, 0x5, 0x1);
    lemma_bits_f7(word, 0x33, 0x5, 0x20);
    lemma_bits_f7(word, 0x33, 0x6, 0x0);
    lemma_bits_f7(word, 0x33, 0x6, 0x1);
    lemma_bits_f7(word, 0x33, 0x7, 0x0);
    lemma_bits_f7(word, 0x33, 0x7, 0x1);
    lemma_bits_f7(word, 0x3b, 0x0, 0x0);
    lemma_bits_f7(word, 0x3b, 0x0, 0x1);
    lemma_bits_f7(word, 0x3b, 0x0, 0x20);
    lemma_bits_f7(word, 0x3b, 0x1, 0x0);
    lemma_bits_f7(word, 0x3b, 0x4, 0x1);
    lemma_bits_f7(word, 0x3b, 0x5, 0x0);
    lemma_bits_f7(word, 0x3b, 0x5, 0x1);
    lemma_bits_f7(word, 0x3b, 0x5, 0x20);
    lemma_bits_f7(word, 0x3b, 0x6, 0x1);
    lemma_bits_f7(word, 0x3b, 0x7, 0x1);
    lemma_bits_shift(word, 0x13, 0x1, 0x0);
    lemma_bits_shift(word, 0x13, 0x5, 0x0);
    lemma_bits_shift(word, 0x13, 0x5, 0x20);
}

/// The facts about the bits of `word` that the encodings of the atomic operations rest on.
proof fn lemma_bits_of_f5_group(word: u32)
    ensures
        (word & 0x7f == 0x2f && funct3(word) == 2 && (word >> 27) == 0x0) <==> (word & 0xf800_707f == 0x0000_202f),
        (word & 0x7f == 0x2f && funct3(word) == 2 && (word >> 27) == 0x1) <==> (word & 0xf800_707f == 0x0800_202f),
        (word & 0x7f == 0x2f && funct3(word) == 2 && (word >> 27) == 0x2) <==> (word & 0xf800_707f == 0x1000_202f),
        (word & 0x7f == 0x2f && funct3(word) == 2 && (word >> 27) == 0x2 && rs2_of(word) == 0) <==> (word & 0xf9f0_707f == 0x1000_202f),
        (word & 0x7f == 0x2f && funct3(word) == 2 && (word >> 27) == 0x3) <==> (word & 0xf800_707f == 0x1800_202f),
        (word & 0x7f == 0x2f && funct3(word) == 2 && (word >> 27) == 0x4) <==> (word & 0xf800_707f == 0x2000_202f),
        (word & 0x7f == 0x2f && funct3(word) == 2 && (word >> 27) == 0x8) <==> (word & 0xf800_707f == 0x4000_202f),
        (word & 0x7f == 0x2f && funct3(word) == 2 && (word >> 27) == 0xc) <==> (word & 0xf800_707f == 0x6000_202f),
        (word & 0x7f == 0x2f && funct3(word) == 2 && (word >> 27) == 0x10) <==> (word & 0xf800_707f == 0x8000_202f),
        (word & 0x7f == 0x2f && funct3(word) == 2 && (word >> 27) == 0x14) <==> (word & 0xf800_707f == 0xa000_202f),
        (word & 0x7f == 0x2f && funct3(word) == 2 && (word >> 27) == 0x18) <==> (word & 0xf800_707f == 0xc000_202f),
        (word & 0x7f == 0x2f && funct3(word) == 2 && (word >> 27) == 0x1c) <==> (word & 0xf800_707f == 0xe000_202f),
        (word & 0x7f == 0x2f && funct3(word) == 3 && (word >> 27) == 0x0) <==> (word & 0xf800_707f == 0x0000_302f),
        (word & 0x7f == 0x2f && funct3(word) == 3 && (word >> 27) == 0x1) <==> (word & 0xf800_707f == 0x0800_302f),
        (word & 0x7f == 0x2f && funct3(word) == 3 && (word >> 27) == 0x2) <==> (word & 0xf800_707f == 0x1000_302f),
        (word & 0x7f == 0x2f && funct3(word) == 3 && (word >> 27) == 0x2 && rs2_of(word) == 0) <==> (word & 0xf9f0_707f == 0x1000_302f),
        (word & 0x7f == 0x2f && funct3(word) == 3 && (word >> 27) == 0x3) <==> (word & 0xf800_707f == 0x1800_302f),
        (word & 0x7f == 0x2f && funct3(word) == 3 && (word >> 27) == 0x4) <==> (word & 0xf800_707f == 0x2000_302f),
        (word & 0x7f == 0x2f && funct3(word) == 3 && (word >> 27) == 0x8) <==> (word & 0xf800_707f == 0x4000_302f),
        (word & 0x7f == 0x2f && funct3(word) == 3 && (word >> 27) == 0xc) <==> (word & 0xf800_707f == 0x6000_302f),
        (word & 0x7f == 0x2f && funct3(word) == 3 && (word >> 27) == 0x10) <==> (word & 0xf800_707f == 0x8000_302f),
        (word & 0x7f == 0x2f && funct3(word) == 3 && (word >> 27) == 0x14) <==> (word & 0xf800_707f == 0xa000_302f),
        (word & 0x7f == 0x2f && funct3(word) == 3 && (word >> 27) == 0x18) <==> (word & 0xf800_707f == 0xc000_302f),
        (word & 0x7f == 0x2f && funct3(word) == 3 && (word >> 27) == 0x1c) <==> (word & 0xf800_707f == 0xe000_302f),
{
    lemma_bits_f5(word, 0x2f, 0x2, 0x0);
    lemma_bits_f5(word, 0x2f, 0x2, 0x1);
    lemma_bits_f5(word, 0x2f, 0x2, 0x2);
    lemma_bits_f5(word, 0x2f, 0x2, 0x3);
    lemma_bits_f5(word, 0x2f, 0x2, 0x4);
    lemma_bits_f5(word, 0x2f, 0x2, 0x8);
    lemma_bits_f5(word, 0x2f, 0x2, 0xc);
    lemma_bits_f5(word, 0x2f, 0x2, 0x10);
    lemma_bits_f5(word, 0x2f, 0x2, 0x14);
    lemma_bits_f5(word, 0x2f, 0x2, 0x18);
    lemma_bits_f5(word, 0x2f, 0x2, 0x1c);
    lemma_bits_f5(word, 0x2f, 0x3, 0x0);
    lemma_bits_f5(word, 0x2f, 0x3, 0x1);
    lemma_bits_f5(word, 0x2f, 0x3, 0x2);
    lemma_bits_f5(word, 0x2f, 0x3, 0x3);
    lemma_bits_f5(word, 0x2f, 0x3, 0x4);
    lemma_bits_f5(word, 0x2f, 0x3, 0x8);
    lemma_bits_f5(word, 0x2f, 0x3, 0xc);
    lemma_bits_f5(word, 0x2f, 0x3, 0x10);
    lemma_bits_f5(word, 0x2f, 0x3, 0x14);
    lemma_bits_f5(word, 0x2f, 0x3, 0x18);
    lemma_bits_f5(word, 0x2f, 0x3, 0x1c);
}

/// The facts about the bits of `word` that the encodings rest on.
pub proof fn lemma_bits_of(word: u32)
    ensures
        bits_known(word),
{
    lemma_bits_of_f3_group(word);
    lemma_bits_of_f7_group(word);
    lemma_bits_of_f5_group(word);
    lemma_bits_system(word, 0x0000_0073);
    lemma_bits_system(word, 0x0010_0073);
    lemma_bits_system(word, 0x0020_0073);
    lemma_bits_system(word, 0x1020_0073);
    lemma_bits_system(word, 0x3020_0073);
    lemma_bits_system(word, 0x1050_0073);
}

/// Whether the fields of `word` are known to have the values of an encoding exactly where
/// `word` has the bits of that encoding, for each encoding of the table.
pub open spec fn bits_known(word: u32) -> bool {
    &&& ((word & 0x7f == 0x3 && funct3(word) == 0) <==> (word & 0x0000_707f == 0x0000_0003))
    &&& ((word & 0x7f == 0x3 && funct3(word) == 1) <==> (word & 0x0000_707f == 0x0000_1003))
    &&& ((word & 0x7f == 0x3 && funct3(word) == 2) <==> (word & 0x0000_707f == 0x0000_2003))
    &&& ((word & 0x7f == 0x3 && funct3(word) == 4) <==> (word & 0x0000_707f == 0x0000_4003))
    &&& ((word & 0x7f == 0x3 && funct3(word) == 5) <==> (word & 0x0000_707f == 0x0000_5003))
    &&& ((word & 0x7f == 0x3 && funct3(word) == 3) <==> (word & 0x0000_707f == 0x0000_3003))
    &&& ((word & 0x7f == 0x3 && funct3(word) == 6) <==> (word & 0x0000_707f == 0x0000_6003))
    &&& ((word & 0x7f == 0x7 && funct3(word) == 2) <==> (word & 0x0000_707f == 0x0000_2007))
    &&& ((word & 0x7f == 0x7 && funct3(word) == 3) <==> (word & 0x0000_707f == 0x0000_3007))
    &&& ((word & 0x7f == 0x0f && (funct3(word) == 0 || funct3(word) == 1)) <==> (word & 0x0000_607f == 0x0000_000f))
    &&& ((word & 0x7f == 0x13 && funct3(word) == 0) <==> (word & 0x0000_707f == 0x0000_0013))
    &&& ((word & 0x7f == 0x13 && funct3(word) == 2) <==> (word & 0x0000_707f == 0x0000_2013))
    &&& ((word & 0x7f == 0x13 && funct3(word) == 3) <==> (word & 0x0000_707f == 0x0000_3013))
    &&& ((word & 0x7f == 0x13 && funct3(word) == 4) <==> (word & 0x0000_707f == 0x0000_4013))
    &&& ((word & 0x7f == 0x13 && funct3(word) == 6) <==> (word & 0x0000_707f == 0x0000_6013))
    &&& ((word & 0x7f == 0x13 && funct3(word) == 7) <==> (word & 0x0000_707f == 0x0000_7013))
    &&& ((word & 0x7f == 0x13 && funct3(word) == 1 && funct7(word) == 0x0) <==> (word & 0xfe00_707f == 0x0000_1013))
    &&& ((word & 0x7f == 0x13 && funct3(word) == 1 && funct7(word) & 0x7e == 0x0) <==> (word & 0xfc00_707f == 0x0000_1013))
    &&& ((word & 0x7f == 0x13 && funct3(word) == 5 && funct7(word) == 0x0) <==> (word & 0xfe00_707f == 0x0000_5013))
    &&& ((word & 0x7f == 0x13 && funct3(word) == 5 && funct7(word) & 0x7e == 0x0) <==> (word & 0xfc00_707f == 0x0000_5013))
    &&& ((word & 0x7f == 0x13 && funct3(word) == 5 && funct7(word) == 0x20) <==> (word & 0xfe00_707f == 0x4000_5013))
    &&& ((word & 0x7f == 0x13 && funct3(word) == 5 && funct7(word) & 0x7e == 0x20) <==> (word & 0xfc00_707f == 0x4000_5013))
    &&& ((word & 0x7f == 0x17) <==> (word & 0x0000_007f == 0x0000_0017))
    &&& ((word & 0x7f == 0x1b && funct3(word) == 0) <==> (word & 0x0000_707f == 0x0000_001b))
    &&& ((word & 0x7f == 0x1b && funct3(word) == 1 && funct7(word) == 0x0) <==> (word & 0xfe00_707f == 0x0000_101b))
    &&& ((word & 0x7f == 0x1b && funct3(word) == 5 && funct7(word) == 0x0) <==> (word & 0xfe00_707f == 0x0000_501b))
    &&& ((word & 0x7f == 0x1b && funct3(word) == 5 && funct7(word) == 0x20) <==> (word & 0xfe00_707f == 0x4000_501b))
    &&& ((word & 0x7f == 0x23 && funct3(word) == 0) <==> (word & 0x0000_707f == 0x0000_0023))
    &&& ((word & 0x7f == 0x23 && funct3(word) == 1) <==> (word & 0x0000_707f == 0x0000_1023))
    &&& ((word & 0x7f == 0x23 && funct3(word) == 2) <==> (word & 0x0000_707f == 0x0000_2023))
    &&& ((word & 0x7f == 0x23 && funct3(word) == 3) <==> (word & 0x0000_707f == 0x0000_3023))
    &&& ((word & 0x7f == 0x27 && funct3(word) == 2) <==> (word & 0x0000_707f == 0x0000_2027))
    &&& ((word & 0x7f == 0x27 && funct3(word) == 3) <==> (word & 0x0000_707f == 0x0000_3027))
    &&& ((word & 0x7f == 0x2f && funct3(word) == 2 && (word >> 27) == 0x2 && rs2_of(word) == 0) <==> (word & 0xf9f0_707f == 0x1000_202f))
    &&& ((word & 0x7f == 0x2f && funct3(word) == 2 && (word >> 27) == 0x3) <==> (word & 0xf800_707f == 0x1800_202f))
    &&& ((word & 0x7f == 0x2f && funct3(word) == 2 && (word >> 27) == 0x1) <==> (word & 0xf800_707f == 0x0800_202f))
    &&& ((word & 0x7f == 0x2f && funct3(word) == 2 && (word >> 27) == 0x0) <==> (word & 0xf800_707f == 0x0000_202f))
    &&& ((word & 0x7f == 0x2f && funct3(word) == 2 && (word >> 27) == 0x4) <==> (word & 0xf800_707f == 0x2000_202f))
    &&& ((word & 0x7f == 0x2f && funct3(word) == 2 && (word >> 27) == 0xc) <==> (word & 0xf800_707f == 0x6000_202f))
    &&& ((word & 0x7f == 0x2f && funct3(word) == 2 && (word >> 27) == 0x8) <==> (word & 0xf800_707f == 0x4000_202f))
    &&& ((word & 0x7f == 0x2f && funct3(word) == 2 && (word >> 27) == 0x10) <==> (word & 0xf800_707f == 0x8000_202f))
    &&& ((word & 0x7f == 0x2f && funct3(word) == 2 && (word >> 27) == 0x14) <==> (word & 0xf800_707f == 0xa000_202f))
    &&& ((word & 0x7f == 0x2f && funct3(word) == 2 && (word >> 27) == 0x18) <==> (word & 0xf800_707f == 0xc000_202f))
    &&& ((word & 0x7f == 0x2f && funct3(word) == 2 && (word >> 27) == 0x1c) <==> (word & 0xf800_707f == 0xe000_202f))
    &&& ((word & 0x7f == 0x2f && funct3(word) == 3 && (word >> 27) == 0x2 && rs2_of(word) == 0) <==> (word & 0xf9f0_707f == 0x1000_302f))
    &&& ((word & 0x7f == 0x2f && funct3(word) == 3 && (word >> 27) == 0x3) <==> (word & 0xf800_707f == 0x1800_302f))
    &&& ((word & 0x7f == 0x2f && funct3(word) == 3 && (word >> 27) == 0x1) <==> (word & 0xf800_707f == 0x0800_302f))
    &&& ((word & 0x7f == 0x2f && funct3(word) == 3 && (word >> 27) == 0x0) <==> (word & 0xf800_707f == 0x0000_302f))
    &&& ((word & 0x7f == 0x2f && funct3(word) == 3 && (word >> 27) == 0x4) <==> (word & 0xf800_707f == 0x2000_302f))
    &&& ((word & 0x7f == 0x2f && funct3(word) == 3 && (word >> 27) == 0xc) <==> (word & 0xf800_707f == 0x6000_302f))
    &&& ((word & 0x7f == 0x2f && funct3(word) == 3 && (word >> 27) == 0x8) <==> (word & 0xf800_707f == 0x4000_302f))
    &&& ((word & 0x7f == 0x2f && funct3(word) == 3 && (word >> 27) == 0x10) <==> (word & 0xf800_707f == 0x8000_302f))
    &&& ((word & 0x7f == 0x2f && funct3(word) == 3 && (word >> 27) == 0x14) <==> (word & 0xf800_707f == 0xa000_302f))
    &&& ((word & 0x7f == 0x2f && funct3(word) == 3 && (word >> 27) == 0x18) <==> (word & 0xf800_707f == 0xc000_302f))
    &&& ((word & 0x7f == 0x2f && funct3(word) == 3 && (word >> 27) == 0x1c) <==> (word & 0xf800_707f == 0xe000_302f))
    &&& ((word & 0x7f == 0x33 && funct3(word) == 0 && funct7(word) == 0x0) <==> (word & 0xfe00_707f == 0x0000_0033))
    &&& ((word & 0x7f == 0x33 && funct3(word) == 0 && funct7(word) == 0x20) <==> (word & 0xfe00_707f == 0x4000_0033))
    &&& ((word & 0x7f == 0x33 && funct3(word) == 1 && funct7(word) == 0x0) <==> (word & 0xfe00_707f == 0x0000_1033))
    &&& ((word & 0x7f == 0x33 && funct3(word) == 2 && funct7(word) == 0x0) <==> (word & 0xfe00_707f == 0x0000_2033))
    &&& ((word & 0x7f == 0x33 && funct3(word) == 3 && funct7(word) == 0x0) <==> (word & 0xfe00_707f == 0x0000_3033))
    &&& ((word & 0x7f == 0x33 && funct3(word) == 4 && funct7(word) == 0x0) <==> (word & 0xfe00_707f == 0x0000_4033))
    &&& ((word & 0x7f == 0x33 && funct3(word) == 5 && funct7(word) == 0x0) <==> (word & 0xfe00_707f == 0x0000_5033))
    &&& ((word & 0x7f == 0x33 && funct3(word) == 5 && funct7(word) == 0x20) <==> (word & 0xfe00_707f == 0x4000_5033))
    &&& ((word & 0x7f == 0x33 && funct3(word) == 6 && funct7(word) == 0x0) <==> (word & 0xfe00_707f == 0x0000_6033))
    &&& ((word & 0x7f == 0x33 && funct3(word) == 7 && funct7(word) == 0x0) <==> (word & 0xfe00_707f == 0x0000_7033))
    &&& ((word & 0x7f == 0x33 && funct3(word) == 0 && funct7(word) == 0x1) <==> (word & 0xfe00_707f == 0x0200_0033))
    &&& ((word & 0x7f == 0x33 && funct3(word) == 1 && funct7(word) == 0x1) <==> (word & 0xfe00_707f == 0x0200_1033))
    &&& ((word & 0x7f == 0x33 && funct3(word) == 2 && funct7(word) == 0x1) <==> (word & 0xfe00_707f == 0x0200_2033))
    &&& ((word & 0x7f == 0x33 && funct3(word) == 3 && funct7(word) == 0x1) <==> (word & 0xfe00_707f == 0x0200_3033))
    &&& ((word & 0x7f == 0x33 && funct3(word) == 4 && funct7(word) == 0x1) <==> (word & 0xfe00_707f == 0x0200_4033))
    &&& ((word & 0x7f == 0x33 && funct3(word) == 5 && funct7(word) == 0x1) <==> (word & 0xfe00_707f == 0x0200_5033))
    &&& ((word & 0x7f == 0x33 && funct3(word) == 6 && funct7(word) == 0x1) <==> (word & 0xfe00_707f == 0x0200_6033))
    &&& ((word & 0x7f == 0x33 && funct3(word) == 7 && funct7(word) == 0x1) <==> (word & 0xfe00_707f == 0x0200_7033))
    &&& ((word & 0x7f == 0x37) <==> (word & 0x0000_007f == 0x0000_0037))
    &&& ((word & 0x7f == 0x3b && funct3(word) == 0 && funct7(word) == 0x0) <==> (word & 0xfe00_707f == 0x0000_003b))
    &&& ((word & 0x7f == 0x3b && funct3(word) == 0 && funct7(word) == 0x20) <==> (word & 0xfe00_707f == 0x4000_003b))
    &&& ((word & 0x7f == 0x3b && funct3(word) == 1 && funct7(word) == 0x0) <==> (word & 0xfe00_707f == 0x0000_103b))
    &&& ((word & 0x7f == 0x3b && funct3(word) == 5 && funct7(word) == 0x0) <==> (word & 0xfe00_707f == 0x0000_503b))
    &&& ((word & 0x7f == 0x3b && funct3(word) == 5 && funct7(word) == 0x20) <==> (word & 0xfe00_707f == 0x4000_503b))
    &&& ((word & 0x7f == 0x3b && funct3(word) == 0 && funct7(word) == 0x1) <==> (word & 0xfe00_707f == 0x0200_003b))
    &&& ((word & 0x7f == 0x3b && funct3(word) == 4 && funct7(word) == 0x1) <==> (word & 0xfe00_707f == 0x0200_403b))
    &&& ((word & 0x7f == 0x3b && funct3(word) == 5 && funct7(word) == 0x1) <==> (word & 0xfe00_707f == 0x0200_503b))
    &&& ((word & 0x7f == 0x3b && funct3(word) == 6 && funct7(word) == 0x1) <==> (word & 0xfe00_707f == 0x0200_603b))
    &&& ((word & 0x7f == 0x3b && funct3(word) == 7 && funct7(word) == 0x1) <==> (word & 0xfe00_707f == 0x0200_703b))
    &&& ((word & 0x7f == 0x63 && funct3(word) == 0) <==> (word & 0x0000_707f == 0x0000_0063))
    &&& ((word & 0x7f == 0x63 && funct3(word) == 1) <==> (word & 0x0000_707f == 0x0000_1063))
    &&& ((word & 0x7f == 0x63 && funct3(word) == 4) <==> (word & 0x0000_707f == 0x0000_4063))
    &&& ((word & 0x7f == 0x63 && funct3(word) == 5) <==> (word & 0x0000_707f == 0x0000_5063))
    &&& ((word & 0x7f == 0x63 && funct3(word) == 6) <==> (word & 0x0000_707f == 0x0000_6063))
    &&& ((word & 0x7f == 0x63 && funct3(word) == 7) <==> (word & 0x0000_707f == 0x0000_7063))
    &&& ((word & 0x7f == 0x67 && funct3(word) == 0) <==> (word & 0x0000_707f == 0x0000_0067))
    &&& ((word & 0x7f == 0x6f) <==> (word & 0x0000_007f == 0x0000_006f))
    &&& ((word == 0x0000_0073) <==> (word & 0xffff_ffff == 0x0000_0073))
    &&& ((word == 0x0010_0073) <==> (word & 0xffff_ffff == 0x0010_0073))
    &&& ((word == 0x0020_0073) <==> (word & 0xffff_ffff == 0x0020_0073))
    &&& ((word == 0x1020_0073) <==> (word & 0xffff_ffff == 0x1020_0073))
    &&& ((word == 0x3020_0073) <==> (word & 0xffff_ffff == 0x3020_0073))
    &&& ((word == 0x1050_0073) <==> (word & 0xffff_ffff == 0x1050_0073))
    &&& ((word & 0x7f == 0x73 && funct3(word) == 0 && funct7(word) == 0x09 && rd_of(word) == 0) <==> (word & 0xfe00_7fff == 0x1200_0073))
    &&& ((word & 0x7f == 0x73 && funct3(word) == 1) <==> (word & 0x0000_707f == 0x0000_1073))
    &&& ((word & 0x7f == 0x73 && funct3(word) == 2) <==> (word & 0x0000_707f == 0x0000_2073))
    &&& ((word & 0x7f == 0x73 && funct3(word) == 3) <==> (word & 0x0000_707f == 0x0000_3073))
    &&& ((word & 0x7f == 0x73 && funct3(word) == 5) <==> (word & 0x0000_707f == 0x0000_5073))
    &&& ((word & 0x7f == 0x73 && funct3(word) == 6) <==> (word & 0x0000_707f == 0x0000_6073))
    &&& ((word & 0x7f == 0x73 && funct3(word) == 7) <==> (word & 0x0000_707f == 0x0000_7073))
    &&& funct3(word) < 8
    &&& (word == 0x0000_0073 ==> word & 0x7f == 0x73 && funct3(word) == 0 && funct7(word) == 0)
    &&& (word == 0x0010_0073 ==> word & 0x7f == 0x73 && funct3(word) == 0 && funct7(word) == 0)
    &&& (word == 0x0020_0073 ==> word & 0x7f == 0x73 && funct3(word) == 0 && funct7(word) == 0)
    &&& (word == 0x1020_0073 ==> word & 0x7f == 0x73 && funct3(word) == 0 && funct7(word) == 0x08)
    &&& (word == 0x3020_0073 ==> word & 0x7f == 0x73 && funct3(word) == 0 && funct7(word) == 0x18)
    &&& (word == 0x1050_0073 ==> word & 0x7f == 0x73 && funct3(word) == 0 && funct7(word) == 0x08)
}

/// What a word names has an encoding whose bits the word has.
pub proof fn lemma_decoded_matches(xlen: Xlen, word: u32)
    ensures
        operation_of(xlen, word).is_some() ==> encoding_of(
            xlen,
            operation_of(xlen, word).unwrap(),
        ).is_some() && encoding_of(xlen, operation_of(xlen, word).unwrap()).unwrap().matches(word),
{
    lemma_bits_of(word);
    match opecode_of(word) {
        None => {},
        Some(Opecode::Load) => lemma_decoded_matches_load(xlen, word),
        Some(Opecode::LoadFp) => lemma_decoded_matches_loadfp(xlen, word),
        Some(Opecode::MiscMem) => lemma_decoded_matches_miscmem(xlen, word),
        Some(Opecode::OpImm) => lemma_decoded_matches_opimm(xlen, word),
        Some(Opecode::Auipc) => lemma_decoded_matches_auipc(xlen, word),
        Some(Opecode::OpImm32) => lemma_decoded_matches_opimm32(xlen, word),
        Some(Opecode::Store) => lemma_decoded_matches_store(xlen, word),
        Some(Opecode::StoreFp) => lemma_decoded_matches_storefp(xlen, word),
        Some(Opecode::Amo) => lemma_decoded_matches_amo(xlen, word),
        Some(Opecode::Op) => lemma_decoded_matches_op(xlen, word),
        Some(Opecode::Lui) => lemma_decoded_matches_lui(xlen, word),
        Some(Opecode::Op32) => lemma_decoded_matches_op32(xlen, word),
        Some(Opecode::Branch) => lemma_decoded_matches_branch(xlen, word),
        Some(Opecode::Jalr) => lemma_decoded_matches_jalr(xlen, word),
        Some(Opecode::Jal) => lemma_decoded_matches_jal(xlen, word),
        Some(Opecode::System) => lemma_decoded_matches_system(xlen, word),
    }
}

/// `lemma_decoded_matches` for the words of the major opcode 0x3.
#[verifier::rlimit(60)]
proof fn lemma_decoded_matches_load(xlen: Xlen, word: u32)
    requires
        bits_known(word),
        word & 0x7f == 0x3,
    ensures
        (opecode_03(xlen, word)).is_some() ==> encoding_of(xlen, (opecode_03(xlen, word)).unwrap()).is_some() && encoding_of(
            xlen,
            (opecode_03(xlen, word)).unwrap(),
        ).unwrap().matches(word),
{
}

/// `lemma_decoded_matches` for the words of the major opcode 0x7.
#[verifier::rlimit(60)]
proof fn lemma_decoded_matches_loadfp(xlen: Xlen, word: u32)
    requires
        bits_known(word),
        word & 0x7f == 0x7,
    ensures
        (opecode_07(word)).is_some() ==> encoding_of(xlen, (opecode_07(word)).unwrap()).is_some() && encoding_of(
            xlen,
            (opecode_07(word)).unwrap(),
        ).unwrap().matches(word),
{
}

/// `lemma_decoded_matches` for the words of the major opcode 0xf.
#[verifier::rlimit(60)]
proof fn lemma_decoded_matches_miscmem(xlen: Xlen, word: u32)
    requires
        bits_known(word),
        word & 0x7f == 0xf,
    ensures
        (opecode_0f(word)).is_some() ==> encoding_of(xlen, (opecode_0f(word)).unwrap()).is_some() && encoding_of(
            xlen,
            (opecode_0f(word)).unwrap(),
        ).unwrap().matches(word),
{
}

/// `lemma_decoded_matches` for the words of the major opcode 0x13.
#[verifier::rlimit(60)]
proof fn lemma_decoded_matches_opimm(xlen: Xlen, word: u32)
    requires
        bits_known(word),
        word & 0x7f == 0x13,
    ensures
        (opecode_13(xlen, word)).is_some() ==> encoding_of(xlen, (opecode_13(xlen, word)).unwrap()).is_some() && encoding_of(
            xlen,
            (opecode_13(xlen, word)).unwrap(),
        ).unwrap().matches(word),
{
}

/// `lemma_decoded_matches` for the words of the major opcode 0x17.
#[verifier::rlimit(60)]
proof fn lemma_decoded_matches_auipc(xlen: Xlen, word: u32)
    requires
        bits_known(word),
        word & 0x7f == 0x17,
    ensures
        (Some(Operation::Auipc)).is_some() ==> encoding_of(xlen, (Some(Operation::Auipc)).unwrap()).is_some() && encoding_of(
            xlen,
            (Some(Operation::Auipc)).unwrap(),
        ).unwrap().matches(word),
{
}

/// `lemma_decoded_matches` for the words of the major opcode 0x1b.
#[verifier::rlimit(60)]
proof fn lemma_decoded_matches_opimm32(xlen: Xlen, word: u32)
    requires
        bits_known(word),
        word & 0x7f == 0x1b,
    ensures
        (opecode_1b(xlen, word)).is_some() ==> encoding_of(xlen, (opecode_1b(xlen, word)).unwrap()).is_some() && encoding_of(
            xlen,
            (opecode_1b(xlen, word)).unwrap(),
        ).unwrap().matches(word),
{
}

/// `lemma_decoded_matches` for the words of the major opcode 0x23.
#[verifier::rlimit(60)]
proof fn lemma_decoded_matches_store(xlen: Xlen, word: u32)
    requires
        bits_known(word),
        word & 0x7f == 0x23,
    ensures
        (opecode_23(xlen, word)).is_some() ==> encoding_of(xlen, (opecode_23(xlen, word)).unwrap()).is_some() && encoding_of(
            xlen,
            (opecode_23(xlen, word)).unwrap(),
        ).unwrap().matches(word),
{
}

/// `lemma_decoded_matches` for the words of the major opcode 0x27.
#[verifier::rlimit(60)]
proof fn lemma_decoded_matches_storefp(xlen: Xlen, word: u32)
    requires
        bits_known(word),
        word & 0x7f == 0x27,
    ensures
        (opecode_27(word)).is_some() ==> encoding_of(xlen, (opecode_27(word)).unwrap()).is_some() && encoding_of(
            xlen,
            (opecode_27(word)).unwrap(),
        ).unwrap().matches(word),
{
}

/// `lemma_decoded_matches` for the words of the major opcode 0x2f.
#[verifier::rlimit(60)]
proof fn lemma_decoded_matches_amo(xlen: Xlen, word: u32)
    requires
        bits_known(word),
        word & 0x7f == 0x2f,
    ensures
        (opecode_2f(xlen, word)).is_some() ==> encoding_of(xlen, (opecode_2f(xlen, word)).unwrap()).is_some() && encoding_of(
            xlen,
            (opecode_2f(xlen, word)).unwrap(),
        ).unwrap().matches(word),
{
}

/// `lemma_decoded_matches` for the words of the major opcode 0x33.
#[verifier::rlimit(60)]
proof fn lemma_decoded_matches_op(xlen: Xlen, word: u32)
    requires
        bits_known(word),
        word & 0x7f == 0x33,
    ensures
        (opecode_33(word)).is_some() ==> encoding_of(xlen, (opecode_33(word)).unwrap()).is_some() && encoding_of(
            xlen,
            (opecode_33(word)).unwrap(),
        ).unwrap().matches(word),
{
}

/// `lemma_decoded_matches` for the words of the major opcode 0x37.
#[verifier::rlimit(60)]
proof fn lemma_decoded_matches_lui(xlen: Xlen, word: u32)
    requires
        bits_known(word),
        word & 0x7f == 0x37,
    ensures
        (Some(Operation::Lui)).is_some() ==> encoding_of(xlen, (Some(Operation::Lui)).unwrap()).is_some() && encoding_of(
            xlen,
            (Some(Operation::Lui)).unwrap(),
        ).unwrap().matches(word),
{
}

/// `lemma_decoded_matches` for the words of the major opcode 0x3b.
#[verifier::rlimit(60)]
proof fn lemma_decoded_matches_op32(xlen: Xlen, word: u32)
    requires
        bits_known(word),
        word & 0x7f == 0x3b,
    ensures
        (opecode_3b(xlen, word)).is_some() ==> encoding_of(xlen, (opecode_3b(xlen, word)).unwrap()).is_some() && encoding_of(
            xlen,
            (opecode_3b(xlen, word)).unwrap(),
        ).unwrap().matches(word),
{
}

/// `lemma_decoded_matches` for the words of the major opcode 0x63.
#[verifier::rlimit(60)]
proof fn lemma_decoded_matches_branch(xlen: Xlen, word: u32)
    requires
        bits_known(word),
        word & 0x7f == 0x63,
    ensures
        (opecode_63(word)).is_some() ==> encoding_of(xlen, (opecode_63(word)).unwrap()).is_some() && encoding_of(
            xlen,
            (opecode_63(word)).unwrap(),
        ).unwrap().matches(word),
{
}

/// `lemma_decoded_matches` for the words of the major opcode 0x67.
#[verifier::rlimit(60)]
proof fn lemma_decoded_matches_jalr(xlen: Xlen, word: u32)
    requires
        bits_known(word),
        word & 0x7f == 0x67,
    ensures
        (opecode_67(word)).is_some() ==> encoding_of(xlen, (opecode_67(word)).unwrap()).is_some() && encoding_of(
            xlen,
            (opecode_67(word)).unwrap(),
        ).unwrap().matches(word),
{
}

/// `lemma_decoded_matches` for the words of the major opcode 0x6f.
#[verifier::rlimit(60)]
proof fn lemma_decoded_matches_jal(xlen: Xlen, word: u32)
    requires
        bits_known(word),
        word & 0x7f == 0x6f,
    ensures
        (Some(Operation::Jal)).is_some() ==> encoding_of(xlen, (Some(Operation::Jal)).unwrap()).is_some() && encoding_of(
            xlen,
            (Some(Operation::Jal)).unwrap(),
        ).unwrap().matches(word),
{
}

/// `lemma_decoded_matches` for the words of the major opcode 0x73.
#[verifier::rlimit(60)]
proof fn lemma_decoded_matches_system(xlen: Xlen, word: u32)
    requires
        bits_known(word),
        word & 0x7f == 0x73,
    ensures
        (opecode_73(word)).is_some() ==> encoding_of(xlen, (opecode_73(word)).unwrap()).is_some() && encoding_of(
            xlen,
            (opecode_73(word)).unwrap(),
        ).unwrap().matches(word),
{
}

/// A word that has the bits of the encoding of an operation names that operation.
pub proof fn lemma_matching_decodes(xlen: Xlen, word: u32, operation: Operation)
    requires
        encoding_of(xlen, operation).is_some(),
        encoding_of(xlen, operation).unwrap().matches(word),
    ensures
        operation_of(xlen, word) == Some(operation),
{
    lemma_bits_of(word);
    if operation == (Operation::Load { width: Width::Byte, signed: true }) {
        assert(operation_of(xlen, word) == Some(operation));
    } else if operation == (Operation::Load { width: Width::Half, signed: true }) {
        assert(operation_of(xlen, word) == Some(operation));
    } else if operation == (Operation::Load { width: Width::Word, signed: true }) {
        assert(operation_of(xlen, word) == Some(operation));
    } else if operation == (Operation::Load { width: Width::Byte, signed: false }) {
        assert(operation_of(xlen, word) == Some(operation));
    } else if operation == (Operation::Load { width: Width::Half, signed: false }) {
        assert(operation_of(xlen, word) == Some(operation));
    } else if operation == (Operation::Load { width: Width::Double, signed: true }) {
        assert(operation_of(xlen, word) == Some(operation));
    } else if operation == (Operation::Load { width: Width::Word, signed: false }) {
        assert(operation_of(xlen, word) == Some(operation));
    } else if operation == (Operation::FpLoad { width: Width::Word }) {
        assert(operation_of(xlen, word) == Some(operation));
    } else if operation == (Operation::FpLoad { width: Width::Double }) {
        assert(operation_of(xlen, word) == Some(operation));
    } else if operation == (Operation::Fence) {
        assert(operation_of(xlen, word) == Some(operation));
    } else if operation == (Operation::Alu { op: AluOp::Add, word: false, immediate: true }) {
        assert(operation_of(xlen, word) == Some(operation));
    } else if operation == (Operation::Alu { op: AluOp::Slt, word: false, immediate: true }) {
        assert(operation_of(xlen, word) == Some(operation));
    } else if operation == (Operation::Alu { op: AluOp::Sltu, word: false, immediate: true }) {
        assert(operation_of(xlen, word) == Some(operation));
    } else if operation == (Operation::Alu { op: AluOp::Xor, word: false, immediate: true }) {
        assert(operation_of(xlen, word) == Some(operation));
    } else if operation == (Operation::Alu { op: AluOp::Or, word: false, immediate: true }) {
        assert(operation_of(xlen, word) == Some(operation));
    } else if operation == (Operation::Alu { op: AluOp::And, word: false, immediate: true }) {
        assert(operation_of(xlen, word) == Some(operation));
    } else if operation == (Operation::Alu { op: AluOp::Sll, word: false, immediate: true }) {
        assert(operation_of(xlen, word) == Some(operation));
    } else if operation == (Operation::Alu { op: AluOp::Srl, word: false, immediate: true }) {
        assert(operation_of(xlen, word) == Some(operation));
    } else if operation == (Operation::Alu { op: AluOp::Sra, word: false, immediate: true }) {
        assert(operation_of(xlen, word) == Some(operation));
    } else if operation == (Operation::Auipc) {
        assert(operation_of(xlen, word) == Some(operation));
    } else if operation == (Operation::Alu { op: AluOp::Add, word: true, immediate: true }) {
        assert(operation_of(xlen, word) == Some(operation));
    } else if operation == (Operation::Alu { op: AluOp::Sll, word: true, immediate: true }) {
        assert(operation_of(xlen, word) == Some(operation));
    } else if operation == (Operation::Alu { op: AluOp::Srl, word: true, immediate: true }) {
        assert(operation_of(xlen, word) == Some(operation));
    } else if operation == (Operation::Alu { op: AluOp::Sra, word: true, immediate: true }) {
        assert(operation_of(xlen, word) == Some(operation));
    } else if operation == (Operation::Store { width: Width::Byte }) {
        assert(operation_of(xlen, word) == Some(operation));
    } else if operation == (Operation::Store { width: Width::Half }) {
        assert(operation_of(xlen, word) == Some(operation));
    } else if operation == (Operation::Store { width: Width::Word }) {
        assert(operation_of(xlen, word) == Some(operation));
    } else if operation == (Operation::Store { width: Width::Double }) {
        assert(operation_of(xlen, word) == Some(operation));
    } else if operation == (Operation::FpStore { width: Width::Word }) {
        assert(operation_of(xlen, word) == Some(operation));
    } else if operation == (Operation::FpStore { width: Width::Double }) {
        assert(operation_of(xlen, word) == Some(operation));
    } else if operation == (Operation::LoadReserved { width: Width::Word }) {
        assert(operation_of(xlen, word) == Some(operation));
    } else if operation == (Operation::StoreConditional { width: Width::Word }) {
        assert(operation_of(xlen, word) == Some(operation));
    } else if operation == (Operation::Amo { combine: AmoOp::Swap, width: Width::Word }) {
        assert(operation_of(xlen, word) == Some(operation));
    } else if operation == (Operation::Amo { combine: AmoOp::Add, width: Width::Word }) {
        assert(operation_of(xlen, word) == Some(operation));
    } else if operation == (Operation::Amo { combine: AmoOp::Xor, width: Width::Word }) {
        assert(operation_of(xlen, word) == Some(operation));
    } else if operation == (Operation::Amo { combine: AmoOp::And, width: Width::Word }) {
        assert(operation_of(xlen, word) == Some(operation));
    } else if operation == (Operation::Amo { combine: AmoOp::Or, width: Width::Word }) {
        assert(operation_of(xlen, word) == Some(operation));
    } else if operation == (Operation::Amo { combine: AmoOp::Min, width: Width::Word }) {
        assert(operation_of(xlen, word) == Some(operation));
    } else if operation == (Operation::Amo { combine: AmoOp::Max, width: Width::Word }) {
        assert(operation_of(xlen, word) == Some(operation));
    } else if operation == (Operation::Amo { combine: AmoOp::Minu, width: Width::Word }) {
        assert(operation_of(xlen, word) == Some(operation));
    } else if operation == (Operation::Amo { combine: AmoOp::Maxu, width: Width::Word }) {
        assert(operation_of(xlen, word) == Some(operation));
    } else if operation == (Operation::LoadReserved { width: Width::Double }) {
        assert(operation_of(xlen, word) == Some(operation));
    } else if operation == (Operation::StoreConditional { width: Width::Double }) {
        assert(operation_of(xlen, word) == Some(operation));
    } else if operation == (Operation::Amo { combine: AmoOp::Swap, width: Width::Double }) {
        assert(operation_of(xlen, word) == Some(operation));
    } else if operation == (Operation::Amo { combine: AmoOp::Add, width: Width::Double }) {
        assert(operation_of(xlen, word) == Some(operation));
    } else if operation == (Operation::Amo { combine: AmoOp::Xor, width: Width::Double }) {
        assert(operation_of(xlen, word) == Some(operation));
    } else if operation == (Operation::Amo { combine: AmoOp::And, width: Width::Double }) {
        assert(operation_of(xlen, word) == Some(operation));
    } else if operation == (Operation::Amo { combine: AmoOp::Or, width: Width::Double }) {
        assert(operation_of(xlen, word) == Some(operation));
    } else if operation == (Operation::Amo { combine: AmoOp::Min, width: Width::Double }) {
        assert(operation_of(xlen, word) == Some(operation));
    } else if operation == (Operation::Amo { combine: AmoOp::Max, width: Width::Double }) {
        assert(operation_of(xlen, word) == Some(operation));
    } else if operation == (Operation::Amo { combine: AmoOp::Minu, width: Width::Double }) {
        assert(operation_of(xlen, word) == Some(operation));
    } else if operation == (Operation::Amo { combine: AmoOp::Maxu, width: Width::Double }) {
        assert(operation_of(xlen, word) == Some(operation));
    } else if operation == (Operation::Alu { op: AluOp::Add, word: false, immediate: false }) {
        assert(operation_of(xlen, word) == Some(operation));
    } else if operation == (Operation::Alu { op: AluOp::Sub, word: false, immediate: false }) {
        assert(operation_of(xlen, word) == Some(operation));
    } else if operation == (Operation::Alu { op: AluOp::Sll, word: false, immediate: false }) {
        assert(operation_of(xlen, word) == Some(operation));
    } else if operation == (Operation::Alu { op: AluOp::Slt, word: false, immediate: false }) {
        assert(operation_of(xlen, word) == Some(operation));
    } else if operation == (Operation::Alu { op: AluOp::Sltu, word: false, immediate: false }) {
        assert(operation_of(xlen, word) == Some(operation));
    } else if operation == (Operation::Alu { op: AluOp::Xor, word: false, immediate: false }) {
        assert(operation_of(xlen, word) == Some(operation));
    } else if operation == (Operation::Alu { op: AluOp::Srl, word: false, immediate: false }) {
        assert(operation_of(xlen, word) == Some(operation));
    } else if operation == (Operation::Alu { op: AluOp::Sra, word: false, immediate: false }) {
        assert(operation_of(xlen, word) == Some(operation));
    } else if operation == (Operation::Alu { op: AluOp::Or, word: false, immediate: false }) {
        assert(operation_of(xlen, word) == Some(operation));
    } else if operation == (Operation::Alu { op: AluOp::And, word: false, immediate: false }) {
        assert(operation_of(xlen, word) == Some(operation));
    } else if operation == (Operation::Alu { op: AluOp::Mul, word: false, immediate: false }) {
        assert(operation_of(xlen, word) == Some(operation));
    } else if operation == (Operation::Alu { op: AluOp::Mulh, word: false, immediate: false }) {
        assert(operation_of(xlen, word) == Some(operation));
    } else if operation == (Operation::Alu { op: AluOp::Mulhsu, word: false, immediate: false }) {
        assert(operation_of(xlen, word) == Some(operation));
    } else if operation == (Operation::Alu { op: AluOp::Mulhu, word: false, immediate: false }) {
        assert(operation_of(xlen, word) == Some(operation));
    } else if operation == (Operation::Alu { op: AluOp::Div, word: false, immediate: false }) {
        assert(operation_of(xlen, word) == Some(operation));
    } else if operation == (Operation::Alu { op: AluOp::Divu, word: false, immediate: false }) {
        assert(operation_of(xlen, word) == Some(operation));
    } else if operation == (Operation::Alu { op: AluOp::Rem, word: false, immediate: false }) {
        assert(operation_of(xlen, word) == Some(operation));
    } else if operation == (Operation::Alu { op: AluOp::Remu, word: false, immediate: false }) {
        assert(operation_of(xlen, word) == Some(operation));
    } else if operation == (Operation::Lui) {
        assert(operation_of(xlen, word) == Some(operation));
    } else if operation == (Operation::Alu { op: AluOp::Add, word: true, immediate: false }) {
        assert(operation_of(xlen, word) == Some(operation));
    } else if operation == (Operation::Alu { op: AluOp::Sub, word: true, immediate: false }) {
        assert(operation_of(xlen, word) == Some(operation));
    } else if operation == (Operation::Alu { op: AluOp::Sll, word: true, immediate: false }) {
        assert(operation_of(xlen, word) == Some(operation));
    } else if operation == (Operation::Alu { op: AluOp::Srl, word: true, immediate: false }) {
        assert(operation_of(xlen, word) == Some(operation));
    } else if operation == (Operation::Alu { op: AluOp::Sra, word: true, immediate: false }) {
        assert(operation_of(xlen, word) == Some(operation));
    } else if operation == (Operation::Alu { op: AluOp::Mul, word: true, immediate: false }) {
        assert(operation_of(xlen, word) == Some(operation));
    } else if operation == (Operation::Alu { op: AluOp::Div, word: true, immediate: false }) {
        assert(operation_of(xlen, word) == Some(operation));
    } else if operation == (Operation::Alu { op: AluOp::Divu, word: true, immediate: false }) {
        assert(operation_of(xlen, word) == Some(operation));
    } else if operation == (Operation::Alu { op: AluOp::Rem, word: true, immediate: false }) {
        assert(operation_of(xlen, word) == Some(operation));
    } else if operation == (Operation::Alu { op: AluOp::Remu, word: true, immediate: false }) {
        assert(operation_of(xlen, word) == Some(operation));
    } else if operation == (Operation::Branch(BranchOp::Beq)) {
        assert(operation_of(xlen, word) == Some(operation));
    } else if operation == (Operation::Branch(BranchOp::Bne)) {
        assert(operation_of(xlen, word) == Some(operation));
    } else if operation == (Operation::Branch(BranchOp::Blt)) {
        assert(operation_of(xlen, word) == Some(operation));
    } else if operation == (Operation::Branch(BranchOp::Bge)) {
        assert(operation_of(xlen, word) == Some(operation));
    } else if operation == (Operation::Branch(BranchOp::Bltu)) {
        assert(operation_of(xlen, word) == Some(operation));
    } else if operation == (Operation::Branch(BranchOp::Bgeu)) {
        assert(operation_of(xlen, word) == Some(operation));
    } else if operation == (Operation::Jalr) {
        assert(operation_of(xlen, word) == Some(operation));
    } else if operation == (Operation::Jal) {
        assert(operation_of(xlen, word) == Some(operation));
    } else if operation == (Operation::Ecall) {
        assert(operation_of(xlen, word) == Some(operation));
    } else if operation == (Operation::Ebreak) {
        assert(operation_of(xlen, word) == Some(operation));
    } else if operation == (Operation::Uret) {
        assert(operation_of(xlen, word) == Some(operation));
    } else if operation == (Operation::Sret) {
        assert(operation_of(xlen, word) == Some(operation));
    } else if operation == (Operation::Mret) {
        assert(operation_of(xlen, word) == Some(operation));
    } else if operation == (Operation::Wfi) {
        assert(operation_of(xlen, word) == Some(operation));
    } else if operation == (Operation::SfenceVma) {
        assert(operation_of(xlen, word) == Some(operation));
    } else if operation == (Operation::Csr { action: CsrOp::ReadWrite, immediate: false }) {
        assert(operation_of(xlen, word) == Some(operation));
    } else if operation == (Operation::Csr { action: CsrOp::ReadSet, immediate: false }) {
        assert(operation_of(xlen, word) == Some(operation));
    } else if operation == (Operation::Csr { action: CsrOp::ReadClear, immediate: false }) {
        assert(operation_of(xlen, word) == Some(operation));
    } else if operation == (Operation::Csr { action: CsrOp::ReadWrite, immediate: true }) {
        assert(operation_of(xlen, word) == Some(operation));
    } else if operation == (Operation::Csr { action: CsrOp::ReadSet, immediate: true }) {
        assert(operation_of(xlen, word) == Some(operation));
    } else if operation == (Operation::Csr { action: CsrOp::ReadClear, immediate: true }) {
        assert(operation_of(xlen, word) == Some(operation));
    }
}

/// A word names an operation exactly where it has the bits of the operation's encoding:
/// `operation_of` yields `operation` for `word` if and only if the hart has the operation
/// and `word` matches its encoding.
pub proof fn lemma_operation_encoding(xlen: Xlen, word: u32, operation: Operation)
    ensures
        operation_of(xlen, word) == Some(operation) <==> encoding_of(xlen, operation).is_some()
            && encoding_of(xlen, operation).unwrap().matches(word),
{
    lemma_decoded_matches(xlen, word);
    if encoding_of(xlen, operation).is_some() && encoding_of(xlen, operation).unwrap().matches(word) {
        lemma_matching_decodes(xlen, word, operation);
    }
}

/// The word of the R format with these fields.
pub open spec fn spec_enc_r(f7: u32, rs2: u32, rs1: u32, f3: u32, rd: u32, op: u32) -> u32 {
    (f7 << 25) | (rs2 << 20) | (rs1 << 15) | (f3 << 12) | (rd << 7) | op
}

#[verifier::when_used_as_spec(spec_enc_r)]
pub fn enc_r(f7: u32, rs2: u32, rs1: u32, f3: u32, rd: u32, op: u32) -> (r: u32)
    ensures
        r == spec_enc_r(f7, rs2, rs1, f3, rd, op),
{
    (f7 << 25) | (rs2 << 20) | (rs1 << 15) | (f3 << 12) | (rd << 7) | op
}

/// The word of the I format with these fields; the low 12 bits of `imm` count.
pub open spec fn spec_enc_i(imm: u32, rs1: u32, f3: u32, rd: u32, op: u32) -> u32 {
    (imm << 20) | (rs1 << 15) | (f3 << 12) | (rd << 7) | op
}

#[verifier::when_used_as_spec(spec_enc_i)]
pub fn enc_i(imm: u32, rs1: u32, f3: u32, rd: u32, op: u32) -> (r: u32)
    ensures
        r == spec_enc_i(imm, rs1, f3, rd, op),
{
    (imm << 20) | (rs1 << 15) | (f3 << 12) | (rd << 7) | op
}

/// The word of the S format with these fields; the low 12 bits of `imm` count.
pub open spec fn spec_enc_s(imm: u32, rs2: u32, rs1: u32, f3: u32, op: u32) -> u32 {
    ((imm >> 5) << 25) | (rs2 << 20) | (rs1 << 15) | (f3 << 12) | ((imm & 0x1f) << 7) | op
}

#[verifier::when_used_as_spec(spec_enc_s)]
pub fn enc_s(imm: u32, rs2: u32, rs1: u32, f3: u32, op: u32) -> (r: u32)
    ensures
        r == spec_enc_s(imm, rs2, rs1, f3, op),
{
    ((imm >> 5) << 25) | (rs2 << 20) | (rs1 << 15) | (f3 << 12) | ((imm & 0x1f) << 7) | op
}

/// The word of the B format with these fields; bits 12 to 1 of `imm` count.
pub open spec fn spec_enc_b(imm: u32, rs2: u32, rs1: u32, f3: u32, op: u32) -> u32 {
    (((imm >> 12) & 1) << 31) | (((imm >> 5) & 0x3f) << 25) | (rs2 << 20) | (rs1 << 15) | (f3 << 12) | (((imm >> 1) & 0xf) << 8) | (((imm >> 11) & 1) << 7) | op
}

#[verifier::when_used_as_spec(spec_enc_b)]
pub fn enc_b(imm: u32, rs2: u32, rs1: u32, f3: u32, op: u32) -> (r: u32)
    ensures
        r == spec_enc_b(imm, rs2, rs1, f3, op),
{
    (((imm >> 12) & 1) << 31) | (((imm >> 5) & 0x3f) << 25) | (rs2 << 20) | (rs1 << 15) | (f3 << 12) | (((imm >> 1) & 0xf) << 8) | (((imm >> 11) & 1) << 7) | op
}

/// The word of the U format with these fields; bits 31 to 12 of `imm` count.
pub open spec fn spec_enc_u(imm: u32, rd: u32, op: u32) -> u32 {
    (imm & 0xffff_f000) | (rd << 7) | op
}

#[verifier::when_used_as_spec(spec_enc_u)]
pub fn enc_u(imm: u32, rd: u32, op: u32) -> (r: u32)
    ensures
        r == spec_enc_u(imm, rd, op),
{
    (imm & 0xffff_f000) | (rd << 7) | op
}

/// The word of the J format with these fields; bits 20 to 1 of `imm` count.
pub open spec fn spec_enc_j(imm: u32, rd: u32, op: u32) -> u32 {
    (((imm >> 20) & 1) << 31) | (((imm >> 1) & 0x3ff) << 21) | (((imm >> 11) & 1) << 20) | (((imm >> 12) & 0xff) << 12) | (rd << 7) | op
}

#[verifier::when_used_as_spec(spec_enc_j)]
pub fn enc_j(imm: u32, rd: u32, op: u32) -> (r: u32)
    ensures
        r == spec_enc_j(imm, rd, op),
{
    (((imm >> 20) & 1) << 31) | (((imm >> 1) & 0x3ff) << 21) | (((imm >> 11) & 1) << 20) | (((imm >> 12) & 0xff) << 12) | (rd << 7) | op
}

/// The fields of a word of the R format are those that the word was made of.
proof fn lemma_enc_r(f7: u32, rs2: u32, rs1: u32, f3: u32, rd: u32, op: u32)
    by (bit_vector)
    requires
        f7 < 128,
        rs2 < 32,
        rs1 < 32,
        f3 < 8,
        rd < 32,
        op < 128,
    ensures
        ((f7 << 25) | (rs2 << 20) | (rs1 << 15) | (f3 << 12) | (rd << 7) | op) & 0x7f == op,
        (((f7 << 25) | (rs2 << 20) | (rs1 << 15) | (f3 << 12) | (rd << 7) | op) >> 12) & 0x7 == f3,
        ((f7 << 25) | (rs2 << 20) | (rs1 << 15) | (f3 << 12) | (rd << 7) | op) >> 25 == f7,
        ((((f7 << 25) | (rs2 << 20) | (rs1 << 15) | (f3 << 12) | (rd << 7) | op) >> 7)
            & 0x1f) as u8 == rd,
        ((((f7 << 25) | (rs2 << 20) | (rs1 << 15) | (f3 << 12) | (rd << 7) | op) >> 15)
            & 0x1f) as u8 == rs1,
        ((((f7 << 25) | (rs2 << 20) | (rs1 << 15) | (f3 << 12) | (rd << 7) | op) >> 20)
            & 0x1f) as u8 == rs2,
{
}

/// The fields of a word of the I format are those that the word was made of, and its
/// immediate is the low 12 bits of the immediate given, sign-extended.
proof fn lemma_enc_i(imm: u32, rs1: u32, f3: u32, rd: u32, op: u32)
    by (bit_vector)
    requires
        rs1 < 32,
        f3 < 8,
        rd < 32,
        op < 128,
    ensures
        ((imm << 20) | (rs1 << 15) | (f3 << 12) | (rd << 7) | op) & 0x7f == op,
        (((imm << 20) | (rs1 << 15) | (f3 << 12) | (rd << 7) | op) >> 12) & 0x7 == f3,
        ((imm << 20) | (rs1 << 15) | (f3 << 12) | (rd << 7) | op) >> 25 == (imm >> 5) & 0x7f,
        ((((imm << 20) | (rs1 << 15) | (f3 << 12) | (rd << 7) | op) >> 7) & 0x1f) as u8 == rd,
        ((((imm << 20) | (rs1 << 15) | (f3 << 12) | (rd << 7) | op) >> 15) & 0x1f) as u8 == rs1,
        (((((imm << 20) | (rs1 << 15) | (f3 << 12) | (rd << 7) | op) as i32) >> 20u32) as i64) == (((
        imm << 20) as i32) >> 20u32) as i64,
{
}

/// The fields of a word of the S format are those that the word was made of, and its
/// immediate is the low 12 bits of the immediate given, sign-extended.
proof fn lemma_enc_s(imm: u32, rs2: u32, rs1: u32, f3: u32, op: u32)
    by (bit_vector)
    requires
        rs2 < 32,
        rs1 < 32,
        f3 < 8,
        op < 128,
    ensures
        (((imm >> 5) << 25) | (rs2 << 20) | (rs1 << 15) | (f3 << 12) | ((imm & 0x1f) << 7) | op)
            & 0x7f == op,
        ((((imm >> 5) << 25) | (rs2 << 20) | (rs1 << 15) | (f3 << 12) | ((imm & 0x1f) << 7) | op)
            >> 12) & 0x7 == f3,
        (((((imm >> 5) << 25) | (rs2 << 20) | (rs1 << 15) | (f3 << 12) | ((imm & 0x1f) << 7)
            | op) >> 15) & 0x1f) as u8 == rs1,
        (((((imm >> 5) << 25) | (rs2 << 20) | (rs1 << 15) | (f3 << 12) | ((imm & 0x1f) << 7)
            | op) >> 20) & 0x1f) as u8 == rs2,
        ((((((((imm >> 5) << 25) | (rs2 << 20) | (rs1 << 15) | (f3 << 12) | ((imm & 0x1f) << 7)
            | op) & 0xfe00_0000) as i32) >> 20u32) | ((((((imm >> 5) << 25) | (rs2 << 20) | (rs1
            << 15) | (f3 << 12) | ((imm & 0x1f) << 7) | op) >> 7) & 0x1f) as i32)) as i64) == (((imm
            << 20) as i32) >> 20u32) as i64,
{
}

/// The fields of a word of the B format are those that the word was made of, and its
/// immediate is bits 12 to 1 of the immediate given, sign-extended.
proof fn lemma_enc_b(imm: u32, rs2: u32, rs1: u32, f3: u32, op: u32)
    by (bit_vector)
    requires
        rs2 < 32,
        rs1 < 32,
        f3 < 8,
        op < 128,
    ensures
        ((((imm >> 12) & 1) << 31) | (((imm >> 5) & 0x3f) << 25) | (rs2 << 20) | (rs1 << 15) | (f3
            << 12) | (((imm >> 1) & 0xf) << 8) | (((imm >> 11) & 1) << 7) | op) & 0x7f == op,
        (((((imm >> 12) & 1) << 31) | (((imm >> 5) & 0x3f) << 25) | (rs2 << 20) | (rs1 << 15) | (f3
            << 12) | (((imm >> 1) & 0xf) << 8) | (((imm >> 11) & 1) << 7) | op) >> 12) & 0x7 == f3,
        ((((((imm >> 12) & 1) << 31) | (((imm >> 5) & 0x3f) << 25) | (rs2 << 20) | (rs1 << 15) | (f3
            << 12) | (((imm >> 1) & 0xf) << 8) | (((imm >> 11) & 1) << 7) | op) >> 15)
            & 0x1f) as u8 == rs1,
        ((((((imm >> 12) & 1) << 31) | (((imm >> 5) & 0x3f) << 25) | (rs2 << 20) | (rs1 << 15) | (f3
            << 12) | (((imm >> 1) & 0xf) << 8) | (((imm >> 11) & 1) << 7) | op) >> 20)
            & 0x1f) as u8 == rs2,
        ({
            let word = (((imm >> 12) & 1) << 31) | (((imm >> 5) & 0x3f) << 25) | (rs2 << 20) | (rs1
                << 15) | (f3 << 12) | (((imm >> 1) & 0xf) << 8) | (((imm >> 11) & 1) << 7) | op;
            (((((word & 0x8000_0000) as i32) >> 19u32) as u32 | ((word & 0x7e00_0000) >> 20) | ((
            word & 0x0000_0080) << 4) | ((word >> 7) & 0x1e)) as i32) as i64 == ((((imm
                & 0x1ffe) << 19) as i32) >> 19u32) as i64
        }),
{
}

/// The fields of a word of the U format are those that the word was made of, and its
/// immediate is bits 31 to 12 of the immediate given.
proof fn lemma_enc_u(imm: u32, rd: u32, op: u32)
    by (bit_vector)
    requires
        rd < 32,
        op < 128,
    ensures
        ((imm & 0xffff_f000) | (rd << 7) | op) & 0x7f == op,
        ((((imm & 0xffff_f000) | (rd << 7) | op) >> 7) & 0x1f) as u8 == rd,
        (((((imm & 0xffff_f000) | (rd << 7) | op) & 0xffff_f000) as i32) as i64) == ((imm
            & 0xffff_f000) as i32) as i64,
{
}

/// The fields of a word of the J format are those that the word was made of, and its
/// immediate is bits 20 to 1 of the immediate given, sign-extended.
proof fn lemma_enc_j(imm: u32, rd: u32, op: u32)
    by (bit_vector)
    requires
        rd < 32,
        op < 128,
    ensures
        ((((imm >> 20) & 1) << 31) | (((imm >> 1) & 0x3ff) << 21) | (((imm >> 11) & 1) << 20) | (((
        imm >> 12) & 0xff) << 12) | (rd << 7) | op) & 0x7f == op,
        ((((((imm >> 20) & 1) << 31) | (((imm >> 1) & 0x3ff) << 21) | (((imm >> 11) & 1) << 20) | (((
        imm >> 12) & 0xff) << 12) | (rd << 7) | op) >> 7) & 0x1f) as u8 == rd,
        ({
            let word = (((imm >> 20) & 1) << 31) | (((imm >> 1) & 0x3ff) << 21) | (((imm >> 11) & 1)
                << 20) | (((imm >> 12) & 0xff) << 12) | (rd << 7) | op;
            (((((word & 0x8000_0000) as i32) >> 11u32) as u32 | (word & 0x000f_f000) | ((word
                & 0x0010_0000) >> 9) | ((word & 0x7fe0_0000) >> 20)) as i32) as i64 == ((((imm
                & 0x1f_fffe) << 11) as i32) >> 11u32) as i64
        }),
{
}

/// What a word of a format encodes is what it was made of: the registers, the function
/// codes and the opcode are read back as given, and the immediate is read back as the
/// bits of the immediate given that the format has room for, sign-extended.
pub proof fn lemma_formats(imm: u32, f7: u32, rs2: u32, rs1: u32, f3: u32, rd: u32, op: u32)
    requires
        f7 < 128,
        rs2 < 32,
        rs1 < 32,
        f3 < 8,
        rd < 32,
        op < 128,
    ensures
        parse_type_r(enc_r(f7, rs2, rs1, f3, rd, op)) == (InstructionTypeR {
            rd: rd as u8,
            rs1: rs1 as u8,
            rs2: rs2 as u8,
        }),
        funct7(enc_r(f7, rs2, rs1, f3, rd, op)) == f7,
        funct3(enc_r(f7, rs2, rs1, f3, rd, op)) == f3,
        parse_type_i(enc_i(imm, rs1, f3, rd, op)) == (InstructionTypeI {
            rd: rd as u8,
            rs1: rs1 as u8,
            imm: (((imm << 20) as i32) >> 20u32) as i64,
        }),
        funct3(enc_i(imm, rs1, f3, rd, op)) == f3,
        funct7(enc_i(imm, rs1, f3, rd, op)) == (imm >> 5) & 0x7f,
        parse_type_s(enc_s(imm, rs2, rs1, f3, op)) == (InstructionTypeS {
            rs1: rs1 as u8,
            rs2: rs2 as u8,
            imm: (((imm << 20) as i32) >> 20u32) as i64,
        }),
        funct3(enc_s(imm, rs2, rs1, f3, op)) == f3,
        parse_type_b(enc_b(imm, rs2, rs1, f3, op)) == (InstructionTypeB {
            rs1: rs1 as u8,
            rs2: rs2 as u8,
            imm: (((((imm & 0x1ffe) << 19) as i32) >> 19u32) as i64) as u64,
        }),
        funct3(enc_b(imm, rs2, rs1, f3, op)) == f3,
        parse_type_u(enc_u(imm, rd, op)) == (InstructionTypeU {
            rd: rd as u8,
            imm: (((imm & 0xffff_f000) as i32) as i64) as u64,
        }),
        parse_type_j(enc_j(imm, rd, op)) == (InstructionTypeJ {
            rd: rd as u8,
            imm: (((((imm & 0x1f_fffe) << 11) as i32) >> 11u32) as i64) as u64,
        }),
        enc_r(f7, rs2, rs1, f3, rd, op) & 0x7f == op,
        enc_i(imm, rs1, f3, rd, op) & 0x7f == op,
        enc_s(imm, rs2, rs1, f3, op) & 0x7f == op,
        enc_b(imm, rs2, rs1, f3, op) & 0x7f == op,
        enc_u(imm, rd, op) & 0x7f == op,
        enc_j(imm, rd, op) & 0x7f == op,
{
    lemma_enc_r(f7, rs2, rs1, f3, rd, op);
    lemma_enc_i(imm, rs1, f3, rd, op);
    lemma_enc_s(imm, rs2, rs1, f3, op);
    lemma_enc_b(imm, rs2, rs1, f3, op);
    lemma_enc_u(imm, rd, op);
    lemma_enc_j(imm, rd, op);
}

} // verus!
