//! The compressed instructions: how a 16-bit instruction expands to its 32-bit parent.

use crate::cpu::cpu::Xlen;
use crate::cpu::cpu_encoding::{
    enc_b, enc_i, enc_j, enc_r, enc_s, enc_u, lemma_bits_of, lemma_bits_system, lemma_formats,
};
use crate::cpu::cpu_instruction::{operation_of};
use vstd::prelude::*;

verus! {

/// Bits 11 to 7 of a compressed instruction: a register.
pub open spec fn spec_c_rd(h: u32) -> u32 {
    (h >> 7) & 0x1f
}

#[verifier::when_used_as_spec(spec_c_rd)]
pub fn c_rd(h: u32) -> (r: u32)
    ensures
        r == spec_c_rd(h),
{
    (h >> 7) & 0x1f
}

/// Bits 6 to 2 of a compressed instruction: a register.
pub open spec fn spec_c_rs2(h: u32) -> u32 {
    (h >> 2) & 0x1f
}

#[verifier::when_used_as_spec(spec_c_rs2)]
pub fn c_rs2(h: u32) -> (r: u32)
    ensures
        r == spec_c_rs2(h),
{
    (h >> 2) & 0x1f
}

/// Bits 4 to 2 of a compressed instruction: one of the registers x8 to x15.
pub open spec fn spec_c_rd_short(h: u32) -> u32 {
    ((h >> 2) & 0x7) | 0x8
}

#[verifier::when_used_as_spec(spec_c_rd_short)]
pub fn c_rd_short(h: u32) -> (r: u32)
    ensures
        r == spec_c_rd_short(h),
{
    ((h >> 2) & 0x7) | 0x8
}

/// Bits 9 to 7 of a compressed instruction: one of the registers x8 to x15.
pub open spec fn spec_c_rs1_short(h: u32) -> u32 {
    ((h >> 7) & 0x7) | 0x8
}

#[verifier::when_used_as_spec(spec_c_rs1_short)]
pub fn c_rs1_short(h: u32) -> (r: u32)
    ensures
        r == spec_c_rs1_short(h),
{
    ((h >> 7) & 0x7) | 0x8
}

/// The offset of C.ADDI4SPN: bits 12 to 11 as bits 5 to 4, bits 10 to 7 as bits 9 to 6, bit 6
/// as bit 2, bit 5 as bit 3.
pub open spec fn spec_c_imm_addi4spn(h: u32) -> u32 {
    ((h >> 7) & 0x30) | ((h >> 1) & 0x3c0) | ((h >> 4) & 0x4) | ((h >> 2) & 0x8)
}

#[verifier::when_used_as_spec(spec_c_imm_addi4spn)]
pub fn c_imm_addi4spn(h: u32) -> (r: u32)
    ensures
        r == spec_c_imm_addi4spn(h),
{
    ((h >> 7) & 0x30) | ((h >> 1) & 0x3c0) | ((h >> 4) & 0x4) | ((h >> 2) & 0x8)
}

/// The offset of C.LW and C.SW: bits 12 to 10 as bits 5 to 3, bit 6 as bit 2, bit 5 as bit 6.
pub open spec fn spec_c_imm_w(h: u32) -> u32 {
    ((h >> 7) & 0x38) | ((h >> 4) & 0x4) | ((h << 1) & 0x40)
}

#[verifier::when_used_as_spec(spec_c_imm_w)]
pub fn c_imm_w(h: u32) -> (r: u32)
    ensures
        r == spec_c_imm_w(h),
{
    ((h >> 7) & 0x38) | ((h >> 4) & 0x4) | ((h << 1) & 0x40)
}

/// The offset of C.LD and C.SD: bits 12 to 10 as bits 5 to 3, bits 6 to 5 as bits 7 to 6.
pub open spec fn spec_c_imm_d(h: u32) -> u32 {
    ((h >> 7) & 0x38) | ((h << 1) & 0xc0)
}

#[verifier::when_used_as_spec(spec_c_imm_d)]
pub fn c_imm_d(h: u32) -> (r: u32)
    ensures
        r == spec_c_imm_d(h),
{
    ((h >> 7) & 0x38) | ((h << 1) & 0xc0)
}

/// The six-bit immediate of C.ADDI and its kin, sign-extended: bit 12 as bit 5 and sign, bits
/// 6 to 2 as bits 4 to 0.
pub open spec fn spec_c_imm6(h: u32) -> u32 {
    if (h >> 12) & 1 == 1 {
        0xffff_ffe0 | ((h >> 2) & 0x1f)
    } else {
        (h >> 2) & 0x1f
    }
}

#[verifier::when_used_as_spec(spec_c_imm6)]
pub fn c_imm6(h: u32) -> (r: u32)
    ensures
        r == spec_c_imm6(h),
{
    if (h >> 12) & 1 == 1 {
        0xffff_ffe0 | ((h >> 2) & 0x1f)
    } else {
        (h >> 2) & 0x1f
    }
}

/// The shift amount of C.SLLI, C.SRLI and C.SRAI: bit 12 as bit 5, bits 6 to 2 as bits 4 to 0.
pub open spec fn spec_c_shamt(h: u32) -> u32 {
    ((h >> 7) & 0x20) | ((h >> 2) & 0x1f)
}

#[verifier::when_used_as_spec(spec_c_shamt)]
pub fn c_shamt(h: u32) -> (r: u32)
    ensures
        r == spec_c_shamt(h),
{
    ((h >> 7) & 0x20) | ((h >> 2) & 0x1f)
}

/// The offset of C.J and C.JAL, sign-extended: bit 12 as bit 11 and sign, bit 11 as bit 4,
/// bits 10 to 9 as bits 9 to 8, bit 8 as bit 10, bit 7 as bit 6, bit 6 as bit 7, bits 5 to 3
/// as bits 3 to 1, bit 2 as bit 5.
pub open spec fn spec_c_imm_j(h: u32) -> u32 {
    (if (h >> 12) & 1 == 1 {
        0xffff_f800u32
    } else {
        0u32
    }) | ((h >> 7) & 0x10) | ((h >> 1) & 0x300) | ((h << 2) & 0x400) | ((h >> 1) & 0x40) | ((h << 1) & 0x80) | ((h >> 2) & 0xe) | ((h << 3) & 0x20)
}

#[verifier::when_used_as_spec(spec_c_imm_j)]
pub fn c_imm_j(h: u32) -> (r: u32)
    ensures
        r == spec_c_imm_j(h),
{
    (if (h >> 12) & 1 == 1 {
        0xffff_f800u32
    } else {
        0u32
    }) | ((h >> 7) & 0x10) | ((h >> 1) & 0x300) | ((h << 2) & 0x400) | ((h >> 1) & 0x40) | ((h << 1) & 0x80) | ((h >> 2) & 0xe) | ((h << 3) & 0x20)
}

/// The offset of C.ADDI16SP, sign-extended: bit 12 as bit 9 and sign, bit 6 as bit 4, bit 5
/// as bit 6, bits 4 to 3 as bits 8 to 7, bit 2 as bit 5.
pub open spec fn spec_c_imm_addi16sp(h: u32) -> u32 {
    (if (h >> 12) & 1 == 1 {
        0xffff_fe00u32
    } else {
        0u32
    }) | ((h >> 2) & 0x10) | ((h << 1) & 0x40) | ((h << 4) & 0x180) | ((h << 3) & 0x20)
}

#[verifier::when_used_as_spec(spec_c_imm_addi16sp)]
pub fn c_imm_addi16sp(h: u32) -> (r: u32)
    ensures
        r == spec_c_imm_addi16sp(h),
{
    (if (h >> 12) & 1 == 1 {
        0xffff_fe00u32
    } else {
        0u32
    }) | ((h >> 2) & 0x10) | ((h << 1) & 0x40) | ((h << 4) & 0x180) | ((h << 3) & 0x20)
}

/// The immediate of C.LUI, sign-extended: bit 12 as bit 17 and sign, bits 6 to 2 as bits 16
/// to 12.
pub open spec fn spec_c_imm_lui(h: u32) -> u32 {
    (if (h >> 12) & 1 == 1 {
        0xfffe_0000u32
    } else {
        0u32
    }) | ((h << 10) & 0x1_f000)
}

#[verifier::when_used_as_spec(spec_c_imm_lui)]
pub fn c_imm_lui(h: u32) -> (r: u32)
    ensures
        r == spec_c_imm_lui(h),
{
    (if (h >> 12) & 1 == 1 {
        0xfffe_0000u32
    } else {
        0u32
    }) | ((h << 10) & 0x1_f000)
}

/// The offset of C.BEQZ and C.BNEZ, sign-extended: bit 12 as bit 8 and sign, bits 11 to 10 as
/// bits 4 to 3, bits 6 to 5 as bits 7 to 6, bits 4 to 3 as bits 2 to 1, bit 2 as bit 5.
pub open spec fn spec_c_imm_b(h: u32) -> u32 {
    (if (h >> 12) & 1 == 1 {
        0xffff_ff00u32
    } else {
        0u32
    }) | ((h >> 7) & 0x18) | ((h << 1) & 0xc0) | ((h >> 2) & 0x6) | ((h << 3) & 0x20)
}

#[verifier::when_used_as_spec(spec_c_imm_b)]
pub fn c_imm_b(h: u32) -> (r: u32)
    ensures
        r == spec_c_imm_b(h),
{
    (if (h >> 12) & 1 == 1 {
        0xffff_ff00u32
    } else {
        0u32
    }) | ((h >> 7) & 0x18) | ((h << 1) & 0xc0) | ((h >> 2) & 0x6) | ((h << 3) & 0x20)
}

/// The offset of C.LWSP: bit 12 as bit 5, bits 6 to 4 as bits 4 to 2, bits 3 to 2 as bits 7 to 6.
pub open spec fn spec_c_imm_lwsp(h: u32) -> u32 {
    ((h >> 7) & 0x20) | ((h >> 2) & 0x1c) | ((h << 4) & 0xc0)
}

#[verifier::when_used_as_spec(spec_c_imm_lwsp)]
pub fn c_imm_lwsp(h: u32) -> (r: u32)
    ensures
        r == spec_c_imm_lwsp(h),
{
    ((h >> 7) & 0x20) | ((h >> 2) & 0x1c) | ((h << 4) & 0xc0)
}

/// The offset of C.LDSP: bit 12 as bit 5, bits 6 to 5 as bits 4 to 3, bits 4 to 2 as bits 8 to 6.
pub open spec fn spec_c_imm_ldsp(h: u32) -> u32 {
    ((h >> 7) & 0x20) | ((h >> 2) & 0x18) | ((h << 4) & 0x1c0)
}

#[verifier::when_used_as_spec(spec_c_imm_ldsp)]
pub fn c_imm_ldsp(h: u32) -> (r: u32)
    ensures
        r == spec_c_imm_ldsp(h),
{
    ((h >> 7) & 0x20) | ((h >> 2) & 0x18) | ((h << 4) & 0x1c0)
}

/// The offset of C.SWSP: bits 12 to 9 as bits 5 to 2, bits 8 to 7 as bits 7 to 6.
pub open spec fn spec_c_imm_swsp(h: u32) -> u32 {
    ((h >> 7) & 0x3c) | ((h >> 1) & 0xc0)
}

#[verifier::when_used_as_spec(spec_c_imm_swsp)]
pub fn c_imm_swsp(h: u32) -> (r: u32)
    ensures
        r == spec_c_imm_swsp(h),
{
    ((h >> 7) & 0x3c) | ((h >> 1) & 0xc0)
}

/// The offset of C.SDSP: bits 12 to 10 as bits 5 to 3, bits 9 to 7 as bits 8 to 6.
pub open spec fn spec_c_imm_sdsp(h: u32) -> u32 {
    ((h >> 7) & 0x38) | ((h >> 1) & 0x1c0)
}

#[verifier::when_used_as_spec(spec_c_imm_sdsp)]
pub fn c_imm_sdsp(h: u32) -> (r: u32)
    ensures
        r == spec_c_imm_sdsp(h),
{
    ((h >> 7) & 0x38) | ((h >> 1) & 0x1c0)
}

/// The parent encoding of a compressed instruction of quadrant 0: C.ADDI4SPN, C.FLD, C.LW,
/// C.FLW (on a 32-bit hart) or C.LD (on a 64-bit one), C.FSD, C.SW, C.FSW or C.SD.
pub open spec fn spec_decompress_q0(xlen: Xlen, h: u32) -> Option<u32> {
    if (h >> 13) & 0x7 == 0 {
        if c_imm_addi4spn(h) != 0 {
            Some(enc_i(c_imm_addi4spn(h), 2, 0, c_rd_short(h), 0x13))
        } else {
            None
        }
    } else if (h >> 13) & 0x7 == 1 {
        Some(enc_i(c_imm_d(h), c_rs1_short(h), 3, c_rd_short(h), 0x07))
    } else if (h >> 13) & 0x7 == 2 {
        Some(enc_i(c_imm_w(h), c_rs1_short(h), 2, c_rd_short(h), 0x03))
    } else if (h >> 13) & 0x7 == 3 {
        match xlen {
            Xlen::X32 => Some(enc_i(c_imm_w(h), c_rs1_short(h), 2, c_rd_short(h), 0x07)),
            Xlen::X64 => Some(enc_i(c_imm_d(h), c_rs1_short(h), 3, c_rd_short(h), 0x03)),
        }
    } else if (h >> 13) & 0x7 == 5 {
        Some(enc_s(c_imm_d(h), c_rd_short(h), c_rs1_short(h), 3, 0x27))
    } else if (h >> 13) & 0x7 == 6 {
        Some(enc_s(c_imm_w(h), c_rd_short(h), c_rs1_short(h), 2, 0x23))
    } else if (h >> 13) & 0x7 == 7 {
        match xlen {
            Xlen::X32 => Some(enc_s(c_imm_w(h), c_rd_short(h), c_rs1_short(h), 2, 0x27)),
            Xlen::X64 => Some(enc_s(c_imm_d(h), c_rd_short(h), c_rs1_short(h), 3, 0x23)),
        }
    } else {
        None
    }
}

#[verifier::when_used_as_spec(spec_decompress_q0)]
pub fn decompress_q0(xlen: Xlen, h: u32) -> (r: Option<u32>)
    ensures
        r == spec_decompress_q0(xlen, h),
{
    if (h >> 13) & 0x7 == 0 {
        if c_imm_addi4spn(h) != 0 {
            Some(enc_i(c_imm_addi4spn(h), 2, 0, c_rd_short(h), 0x13))
        } else {
            None
        }
    } else if (h >> 13) & 0x7 == 1 {
        Some(enc_i(c_imm_d(h), c_rs1_short(h), 3, c_rd_short(h), 0x07))
    } else if (h >> 13) & 0x7 == 2 {
        Some(enc_i(c_imm_w(h), c_rs1_short(h), 2, c_rd_short(h), 0x03))
    } else if (h >> 13) & 0x7 == 3 {
        match xlen {
            Xlen::X32 => Some(enc_i(c_imm_w(h), c_rs1_short(h), 2, c_rd_short(h), 0x07)),
            Xlen::X64 => Some(enc_i(c_imm_d(h), c_rs1_short(h), 3, c_rd_short(h), 0x03)),
        }
    } else if (h >> 13) & 0x7 == 5 {
        Some(enc_s(c_imm_d(h), c_rd_short(h), c_rs1_short(h), 3, 0x27))
    } else if (h >> 13) & 0x7 == 6 {
        Some(enc_s(c_imm_w(h), c_rd_short(h), c_rs1_short(h), 2, 0x23))
    } else if (h >> 13) & 0x7 == 7 {
        match xlen {
            Xlen::X32 => Some(enc_s(c_imm_w(h), c_rd_short(h), c_rs1_short(h), 2, 0x27)),
            Xlen::X64 => Some(enc_s(c_imm_d(h), c_rd_short(h), c_rs1_short(h), 3, 0x23)),
        }
    } else {
        None
    }
}

/// The parent encoding of a compressed arithmetic instruction on the registers x8 to x15:
/// C.SRLI, C.SRAI, C.ANDI, C.SUB, C.XOR, C.OR, C.AND and, on a 64-bit hart, C.SUBW and C.ADDW.
pub open spec fn spec_decompress_alu(xlen: Xlen, h: u32) -> Option<u32> {
    if (h >> 10) & 0x3 == 0 {
        if xlen == Xlen::X32 && c_shamt(h) >= 32 {
            None
        } else {
            Some(enc_i(c_shamt(h), c_rs1_short(h), 5, c_rs1_short(h), 0x13))
        }
    } else if (h >> 10) & 0x3 == 1 {
        if xlen == Xlen::X32 && c_shamt(h) >= 32 {
            None
        } else {
            Some(enc_i(c_shamt(h) | 0x400, c_rs1_short(h), 5, c_rs1_short(h), 0x13))
        }
    } else if (h >> 10) & 0x3 == 2 {
        Some(enc_i(c_imm6(h), c_rs1_short(h), 7, c_rs1_short(h), 0x13))
    } else if (h >> 12) & 1 == 0 && (h >> 5) & 0x3 == 0 {
        Some(enc_r(0x20, c_rd_short(h), c_rs1_short(h), 0, c_rs1_short(h), 0x33))
    } else if (h >> 12) & 1 == 0 && (h >> 5) & 0x3 == 1 {
        Some(enc_r(0, c_rd_short(h), c_rs1_short(h), 4, c_rs1_short(h), 0x33))
    } else if (h >> 12) & 1 == 0 && (h >> 5) & 0x3 == 2 {
        Some(enc_r(0, c_rd_short(h), c_rs1_short(h), 6, c_rs1_short(h), 0x33))
    } else if (h >> 12) & 1 == 0 {
        Some(enc_r(0, c_rd_short(h), c_rs1_short(h), 7, c_rs1_short(h), 0x33))
    } else if xlen == Xlen::X64 && (h >> 5) & 0x3 == 0 {
        Some(enc_r(0x20, c_rd_short(h), c_rs1_short(h), 0, c_rs1_short(h), 0x3b))
    } else if xlen == Xlen::X64 && (h >> 5) & 0x3 == 1 {
        Some(enc_r(0, c_rd_short(h), c_rs1_short(h), 0, c_rs1_short(h), 0x3b))
    } else {
        None
    }
}

#[verifier::when_used_as_spec(spec_decompress_alu)]
pub fn decompress_alu(xlen: Xlen, h: u32) -> (r: Option<u32>)
    ensures
        r == spec_decompress_alu(xlen, h),
{
    if (h >> 10) & 0x3 == 0 {
        if xlen == Xlen::X32 && c_shamt(h) >= 32 {
            None
        } else {
            Some(enc_i(c_shamt(h), c_rs1_short(h), 5, c_rs1_short(h), 0x13))
        }
    } else if (h >> 10) & 0x3 == 1 {
        if xlen == Xlen::X32 && c_shamt(h) >= 32 {
            None
        } else {
            Some(enc_i(c_shamt(h) | 0x400, c_rs1_short(h), 5, c_rs1_short(h), 0x13))
        }
    } else if (h >> 10) & 0x3 == 2 {
        Some(enc_i(c_imm6(h), c_rs1_short(h), 7, c_rs1_short(h), 0x13))
    } else if (h >> 12) & 1 == 0 && (h >> 5) & 0x3 == 0 {
        Some(enc_r(0x20, c_rd_short(h), c_rs1_short(h), 0, c_rs1_short(h), 0x33))
    } else if (h >> 12) & 1 == 0 && (h >> 5) & 0x3 == 1 {
        Some(enc_r(0, c_rd_short(h), c_rs1_short(h), 4, c_rs1_short(h), 0x33))
    } else if (h >> 12) & 1 == 0 && (h >> 5) & 0x3 == 2 {
        Some(enc_r(0, c_rd_short(h), c_rs1_short(h), 6, c_rs1_short(h), 0x33))
    } else if (h >> 12) & 1 == 0 {
        Some(enc_r(0, c_rd_short(h), c_rs1_short(h), 7, c_rs1_short(h), 0x33))
    } else if xlen == Xlen::X64 && (h >> 5) & 0x3 == 0 {
        Some(enc_r(0x20, c_rd_short(h), c_rs1_short(h), 0, c_rs1_short(h), 0x3b))
    } else if xlen == Xlen::X64 && (h >> 5) & 0x3 == 1 {
        Some(enc_r(0, c_rd_short(h), c_rs1_short(h), 0, c_rs1_short(h), 0x3b))
    } else {
        None
    }
}

/// The parent encoding of a compressed instruction of quadrant 1: C.ADDI, C.JAL (on a 32-bit
/// hart) or C.ADDIW (on a 64-bit one), C.LI, C.ADDI16SP or C.LUI, the arithmetic on x8 to x15,
/// C.J, C.BEQZ, C.BNEZ.
pub open spec fn spec_decompress_q1(xlen: Xlen, h: u32) -> Option<u32> {
    if (h >> 13) & 0x7 == 0 {
        Some(enc_i(c_imm6(h), c_rd(h), 0, c_rd(h), 0x13))
    } else if (h >> 13) & 0x7 == 1 {
        match xlen {
            Xlen::X32 => Some(enc_j(c_imm_j(h), 1, 0x6f)),
            Xlen::X64 => if c_rd(h) != 0 {
                Some(enc_i(c_imm6(h), c_rd(h), 0, c_rd(h), 0x1b))
            } else {
                None
            },
        }
    } else if (h >> 13) & 0x7 == 2 {
        Some(enc_i(c_imm6(h), 0, 0, c_rd(h), 0x13))
    } else if (h >> 13) & 0x7 == 3 {
        if c_rd(h) == 2 {
            if c_imm_addi16sp(h) != 0 {
                Some(enc_i(c_imm_addi16sp(h), 2, 0, 2, 0x13))
            } else {
                None
            }
        } else if c_imm_lui(h) != 0 {
            Some(enc_u(c_imm_lui(h), c_rd(h), 0x37))
        } else {
            None
        }
    } else if (h >> 13) & 0x7 == 4 {
        decompress_alu(xlen, h)
    } else if (h >> 13) & 0x7 == 5 {
        Some(enc_j(c_imm_j(h), 0, 0x6f))
    } else if (h >> 13) & 0x7 == 6 {
        Some(enc_b(c_imm_b(h), 0, c_rs1_short(h), 0, 0x63))
    } else {
        Some(enc_b(c_imm_b(h), 0, c_rs1_short(h), 1, 0x63))
    }
}

#[verifier::when_used_as_spec(spec_decompress_q1)]
pub fn decompress_q1(xlen: Xlen, h: u32) -> (r: Option<u32>)
    ensures
        r == spec_decompress_q1(xlen, h),
{
    if (h >> 13) & 0x7 == 0 {
        Some(enc_i(c_imm6(h), c_rd(h), 0, c_rd(h), 0x13))
    } else if (h >> 13) & 0x7 == 1 {
        match xlen {
            Xlen::X32 => Some(enc_j(c_imm_j(h), 1, 0x6f)),
            Xlen::X64 => if c_rd(h) != 0 {
                Some(enc_i(c_imm6(h), c_rd(h), 0, c_rd(h), 0x1b))
            } else {
                None
            },
        }
    } else if (h >> 13) & 0x7 == 2 {
        Some(enc_i(c_imm6(h), 0, 0, c_rd(h), 0x13))
    } else if (h >> 13) & 0x7 == 3 {
        if c_rd(h) == 2 {
            if c_imm_addi16sp(h) != 0 {
                Some(enc_i(c_imm_addi16sp(h), 2, 0, 2, 0x13))
            } else {
                None
            }
        } else if c_imm_lui(h) != 0 {
            Some(enc_u(c_imm_lui(h), c_rd(h), 0x37))
        } else {
            None
        }
    } else if (h >> 13) & 0x7 == 4 {
        decompress_alu(xlen, h)
    } else if (h >> 13) & 0x7 == 5 {
        Some(enc_j(c_imm_j(h), 0, 0x6f))
    } else if (h >> 13) & 0x7 == 6 {
        Some(enc_b(c_imm_b(h), 0, c_rs1_short(h), 0, 0x63))
    } else {
        Some(enc_b(c_imm_b(h), 0, c_rs1_short(h), 1, 0x63))
    }
}

/// The parent encoding of a compressed instruction of quadrant 2: C.SLLI, C.FLDSP, C.LWSP,
/// C.FLWSP (on a 32-bit hart) or C.LDSP (on a 64-bit one), C.JR, C.MV, C.EBREAK, C.JALR, C.ADD,
/// C.FSDSP, C.SWSP, C.FSWSP or C.SDSP.
pub open spec fn spec_decompress_q2(xlen: Xlen, h: u32) -> Option<u32> {
    if (h >> 13) & 0x7 == 0 {
        if xlen == Xlen::X32 && c_shamt(h) >= 32 {
            None
        } else {
            Some(enc_i(c_shamt(h), c_rd(h), 1, c_rd(h), 0x13))
        }
    } else if (h >> 13) & 0x7 == 1 {
        Some(enc_i(c_imm_ldsp(h), 2, 3, c_rd(h), 0x07))
    } else if (h >> 13) & 0x7 == 2 {
        if c_rd(h) != 0 {
            Some(enc_i(c_imm_lwsp(h), 2, 2, c_rd(h), 0x03))
        } else {
            None
        }
    } else if (h >> 13) & 0x7 == 3 {
        match xlen {
            Xlen::X32 => Some(enc_i(c_imm_lwsp(h), 2, 2, c_rd(h), 0x07)),
            Xlen::X64 => if c_rd(h) != 0 {
                Some(enc_i(c_imm_ldsp(h), 2, 3, c_rd(h), 0x03))
            } else {
                None
            },
        }
    } else if (h >> 13) & 0x7 == 4 {
        if (h >> 12) & 1 == 0 {
            if c_rs2(h) == 0 {
                if c_rd(h) != 0 {
                    Some(enc_i(0, c_rd(h), 0, 0, 0x67))
                } else {
                    None
                }
            } else {
                Some(enc_r(0, c_rs2(h), 0, 0, c_rd(h), 0x33))
            }
        } else if c_rs2(h) == 0 {
            if c_rd(h) == 0 {
                Some(0x0010_0073)
            } else {
                Some(enc_i(0, c_rd(h), 0, 1, 0x67))
            }
        } else {
            Some(enc_r(0, c_rs2(h), c_rd(h), 0, c_rd(h), 0x33))
        }
    } else if (h >> 13) & 0x7 == 5 {
        Some(enc_s(c_imm_sdsp(h), c_rs2(h), 2, 3, 0x27))
    } else if (h >> 13) & 0x7 == 6 {
        Some(enc_s(c_imm_swsp(h), c_rs2(h), 2, 2, 0x23))
    } else {
        match xlen {
            Xlen::X32 => Some(enc_s(c_imm_swsp(h), c_rs2(h), 2, 2, 0x27)),
            Xlen::X64 => Some(enc_s(c_imm_sdsp(h), c_rs2(h), 2, 3, 0x23)),
        }
    }
}

#[verifier::when_used_as_spec(spec_decompress_q2)]
pub fn decompress_q2(xlen: Xlen, h: u32) -> (r: Option<u32>)
    ensures
        r == spec_decompress_q2(xlen, h),
{
    if (h >> 13) & 0x7 == 0 {
        if xlen == Xlen::X32 && c_shamt(h) >= 32 {
            None
        } else {
            Some(enc_i(c_shamt(h), c_rd(h), 1, c_rd(h), 0x13))
        }
    } else if (h >> 13) & 0x7 == 1 {
        Some(enc_i(c_imm_ldsp(h), 2, 3, c_rd(h), 0x07))
    } else if (h >> 13) & 0x7 == 2 {
        if c_rd(h) != 0 {
            Some(enc_i(c_imm_lwsp(h), 2, 2, c_rd(h), 0x03))
        } else {
            None
        }
    } else if (h >> 13) & 0x7 == 3 {
        match xlen {
            Xlen::X32 => Some(enc_i(c_imm_lwsp(h), 2, 2, c_rd(h), 0x07)),
            Xlen::X64 => if c_rd(h) != 0 {
                Some(enc_i(c_imm_ldsp(h), 2, 3, c_rd(h), 0x03))
            } else {
                None
            },
        }
    } else if (h >> 13) & 0x7 == 4 {
        if (h >> 12) & 1 == 0 {
            if c_rs2(h) == 0 {
                if c_rd(h) != 0 {
                    Some(enc_i(0, c_rd(h), 0, 0, 0x67))
                } else {
                    None
                }
            } else {
                Some(enc_r(0, c_rs2(h), 0, 0, c_rd(h), 0x33))
            }
        } else if c_rs2(h) == 0 {
            if c_rd(h) == 0 {
                Some(0x0010_0073)
            } else {
                Some(enc_i(0, c_rd(h), 0, 1, 0x67))
            }
        } else {
            Some(enc_r(0, c_rs2(h), c_rd(h), 0, c_rd(h), 0x33))
        }
    } else if (h >> 13) & 0x7 == 5 {
        Some(enc_s(c_imm_sdsp(h), c_rs2(h), 2, 3, 0x27))
    } else if (h >> 13) & 0x7 == 6 {
        Some(enc_s(c_imm_swsp(h), c_rs2(h), 2, 2, 0x23))
    } else {
        match xlen {
            Xlen::X32 => Some(enc_s(c_imm_swsp(h), c_rs2(h), 2, 2, 0x27)),
            Xlen::X64 => Some(enc_s(c_imm_sdsp(h), c_rs2(h), 2, 3, 0x23)),
        }
    }
}

/// The 32-bit parent encoding of the compressed instruction in the low 16 bits of `word`;
/// `None` where those bits hold no compressed instruction of a hart of width `xlen`.
pub open spec fn spec_instruction_decompress(xlen: Xlen, word: u32) -> Option<u32> {
    if word & 0x3 == 0 {
        decompress_q0(xlen, word & 0xffff)
    } else if word & 0x3 == 1 {
        decompress_q1(xlen, word & 0xffff)
    } else if word & 0x3 == 2 {
        decompress_q2(xlen, word & 0xffff)
    } else {
        None
    }
}

#[verifier::when_used_as_spec(spec_instruction_decompress)]
pub fn instruction_decompress(xlen: Xlen, word: u32) -> (r: Option<u32>)
    ensures
        r == spec_instruction_decompress(xlen, word),
        r.is_some() ==> is_parent(xlen, r.unwrap()),
{
    proof {
        lemma_parent(xlen, word);
    }
    if word & 0x3 == 0 {
        decompress_q0(xlen, word & 0xffff)
    } else if word & 0x3 == 1 {
        decompress_q1(xlen, word & 0xffff)
    } else if word & 0x3 == 2 {
        decompress_q2(xlen, word & 0xffff)
    } else {
        None
    }
}

/// The fields of a compressed instruction that name registers and shift amounts are in
/// range, and a shift amount leaves the bits above it to tell the kind of shift.
proof fn lemma_c_fields(h: u32, s: u32)
    by (bit_vector)
    requires
        s < 64,
    ensures
        (h >> 7) & 0x1f < 32,
        (h >> 2) & 0x1f < 32,
        ((h >> 2) & 0x7) | 0x8 < 32,
        ((h >> 7) & 0x7) | 0x8 < 32,
        ((h >> 7) & 0x20) | ((h >> 2) & 0x1f) < 64,
        (h >> 13) & 0x7 < 8,
        (h >> 10) & 0x3 < 4,
        (h >> 5) & 0x3 < 4,
        (h >> 12) & 1 < 2,
        h & 0x3 < 4,
        ((s >> 5) & 0x7f) & 0x7e == 0,
        (((s | 0x400) >> 5) & 0x7f) & 0x7e == 0x20,
        s < 32 ==> (s >> 5) & 0x7f == 0 && ((s | 0x400) >> 5) & 0x7f == 0x20,
        (0u32 >> 5) & 0x7f == 0,
{
}

/// A word whose opcode ends in the bits 11 is no compressed instruction.
proof fn lemma_full_size(word: u32, op: u32)
    by (bit_vector)
    requires
        word & 0x7f == op,
        op % 4 == 3,
    ensures
        word & 0x3 == 0x3,
{
}

/// Whether `word` is a full-size instruction of a hart of width `xlen`.
pub open spec fn is_parent(xlen: Xlen, word: u32) -> bool {
    word & 0x3 == 0x3 && operation_of(xlen, word).is_some()
}

/// What a compressed instruction of quadrant 0 expands to is a
/// full-size instruction of the hart.
#[verifier::rlimit(100)]
proof fn lemma_parent_q0(xlen: Xlen, h: u32)
    ensures
        decompress_q0(xlen, h).is_some() ==> is_parent(xlen, decompress_q0(xlen, h).unwrap()),
{
    lemma_c_fields(h, 0);
    lemma_c_fields(h, c_shamt(h));
    lemma_formats(c_imm_addi4spn(h), 0, 0, 2, 0, c_rd_short(h), 0x13);
    lemma_full_size(enc_i(c_imm_addi4spn(h), 2, 0, c_rd_short(h), 0x13), 0x13);
    lemma_bits_of(enc_i(c_imm_addi4spn(h), 2, 0, c_rd_short(h), 0x13));
    lemma_formats(c_imm_d(h), 0, 0, c_rs1_short(h), 3, c_rd_short(h), 0x7);
    lemma_full_size(enc_i(c_imm_d(h), c_rs1_short(h), 3, c_rd_short(h), 0x7), 0x7);
    lemma_bits_of(enc_i(c_imm_d(h), c_rs1_short(h), 3, c_rd_short(h), 0x7));
    lemma_formats(c_imm_w(h), 0, 0, c_rs1_short(h), 2, c_rd_short(h), 0x3);
    lemma_full_size(enc_i(c_imm_w(h), c_rs1_short(h), 2, c_rd_short(h), 0x3), 0x3);
    lemma_bits_of(enc_i(c_imm_w(h), c_rs1_short(h), 2, c_rd_short(h), 0x3));
    lemma_formats(c_imm_w(h), 0, 0, c_rs1_short(h), 2, c_rd_short(h), 0x7);
    lemma_full_size(enc_i(c_imm_w(h), c_rs1_short(h), 2, c_rd_short(h), 0x7), 0x7);
    lemma_bits_of(enc_i(c_imm_w(h), c_rs1_short(h), 2, c_rd_short(h), 0x7));
    lemma_formats(c_imm_d(h), 0, 0, c_rs1_short(h), 3, c_rd_short(h), 0x3);
    lemma_full_size(enc_i(c_imm_d(h), c_rs1_short(h), 3, c_rd_short(h), 0x3), 0x3);
    lemma_bits_of(enc_i(c_imm_d(h), c_rs1_short(h), 3, c_rd_short(h), 0x3));
    lemma_formats(c_imm_d(h), 0, c_rd_short(h), c_rs1_short(h), 3, 0, 0x27);
    lemma_full_size(enc_s(c_imm_d(h), c_rd_short(h), c_rs1_short(h), 3, 0x27), 0x27);
    lemma_bits_of(enc_s(c_imm_d(h), c_rd_short(h), c_rs1_short(h), 3, 0x27));
    lemma_formats(c_imm_w(h), 0, c_rd_short(h), c_rs1_short(h), 2, 0, 0x23);
    lemma_full_size(enc_s(c_imm_w(h), c_rd_short(h), c_rs1_short(h), 2, 0x23), 0x23);
    lemma_bits_of(enc_s(c_imm_w(h), c_rd_short(h), c_rs1_short(h), 2, 0x23));
    lemma_formats(c_imm_w(h), 0, c_rd_short(h), c_rs1_short(h), 2, 0, 0x27);
    lemma_full_size(enc_s(c_imm_w(h), c_rd_short(h), c_rs1_short(h), 2, 0x27), 0x27);
    lemma_bits_of(enc_s(c_imm_w(h), c_rd_short(h), c_rs1_short(h), 2, 0x27));
    lemma_formats(c_imm_d(h), 0, c_rd_short(h), c_rs1_short(h), 3, 0, 0x23);
    lemma_full_size(enc_s(c_imm_d(h), c_rd_short(h), c_rs1_short(h), 3, 0x23), 0x23);
    lemma_bits_of(enc_s(c_imm_d(h), c_rd_short(h), c_rs1_short(h), 3, 0x23));
}

/// What a compressed instruction of the arithmetic on x8 to x15 expands to is a
/// full-size instruction of the hart.
#[verifier::rlimit(100)]
proof fn lemma_parent_alu(xlen: Xlen, h: u32)
    ensures
        decompress_alu(xlen, h).is_some() ==> is_parent(xlen, decompress_alu(xlen, h).unwrap()),
{
    lemma_c_fields(h, 0);
    lemma_c_fields(h, c_shamt(h));
    lemma_formats(c_shamt(h), 0, 0, c_rs1_short(h), 5, c_rs1_short(h), 0x13);
    lemma_full_size(enc_i(c_shamt(h), c_rs1_short(h), 5, c_rs1_short(h), 0x13), 0x13);
    lemma_bits_of(enc_i(c_shamt(h), c_rs1_short(h), 5, c_rs1_short(h), 0x13));
    lemma_formats(c_shamt(h) | 0x400, 0, 0, c_rs1_short(h), 5, c_rs1_short(h), 0x13);
    lemma_full_size(enc_i(c_shamt(h) | 0x400, c_rs1_short(h), 5, c_rs1_short(h), 0x13), 0x13);
    lemma_bits_of(enc_i(c_shamt(h) | 0x400, c_rs1_short(h), 5, c_rs1_short(h), 0x13));
    lemma_formats(c_imm6(h), 0, 0, c_rs1_short(h), 7, c_rs1_short(h), 0x13);
    lemma_full_size(enc_i(c_imm6(h), c_rs1_short(h), 7, c_rs1_short(h), 0x13), 0x13);
    lemma_bits_of(enc_i(c_imm6(h), c_rs1_short(h), 7, c_rs1_short(h), 0x13));
    lemma_formats(0, 0x20, c_rd_short(h), c_rs1_short(h), 0, c_rs1_short(h), 0x33);
    lemma_full_size(enc_r(0x20, c_rd_short(h), c_rs1_short(h), 0, c_rs1_short(h), 0x33), 0x33);
    lemma_bits_of(enc_r(0x20, c_rd_short(h), c_rs1_short(h), 0, c_rs1_short(h), 0x33));
    lemma_formats(0, 0, c_rd_short(h), c_rs1_short(h), 4, c_rs1_short(h), 0x33);
    lemma_full_size(enc_r(0, c_rd_short(h), c_rs1_short(h), 4, c_rs1_short(h), 0x33), 0x33);
    lemma_bits_of(enc_r(0, c_rd_short(h), c_rs1_short(h), 4, c_rs1_short(h), 0x33));
    lemma_formats(0, 0, c_rd_short(h), c_rs1_short(h), 6, c_rs1_short(h), 0x33);
    lemma_full_size(enc_r(0, c_rd_short(h), c_rs1_short(h), 6, c_rs1_short(h), 0x33), 0x33);
    lemma_bits_of(enc_r(0, c_rd_short(h), c_rs1_short(h), 6, c_rs1_short(h), 0x33));
    lemma_formats(0, 0, c_rd_short(h), c_rs1_short(h), 7, c_rs1_short(h), 0x33);
    lemma_full_size(enc_r(0, c_rd_short(h), c_rs1_short(h), 7, c_rs1_short(h), 0x33), 0x33);
    lemma_bits_of(enc_r(0, c_rd_short(h), c_rs1_short(h), 7, c_rs1_short(h), 0x33));
    lemma_formats(0, 0x20, c_rd_short(h), c_rs1_short(h), 0, c_rs1_short(h), 0x3b);
    lemma_full_size(enc_r(0x20, c_rd_short(h), c_rs1_short(h), 0, c_rs1_short(h), 0x3b), 0x3b);
    lemma_bits_of(enc_r(0x20, c_rd_short(h), c_rs1_short(h), 0, c_rs1_short(h), 0x3b));
    lemma_formats(0, 0, c_rd_short(h), c_rs1_short(h), 0, c_rs1_short(h), 0x3b);
    lemma_full_size(enc_r(0, c_rd_short(h), c_rs1_short(h), 0, c_rs1_short(h), 0x3b), 0x3b);
    lemma_bits_of(enc_r(0, c_rd_short(h), c_rs1_short(h), 0, c_rs1_short(h), 0x3b));
}

/// What a compressed instruction of quadrant 1 expands to is a
/// full-size instruction of the hart.
#[verifier::rlimit(100)]
proof fn lemma_parent_q1(xlen: Xlen, h: u32)
    ensures
        decompress_q1(xlen, h).is_some() ==> is_parent(xlen, decompress_q1(xlen, h).unwrap()),
{
    lemma_c_fields(h, 0);
    lemma_c_fields(h, c_shamt(h));
    lemma_parent_alu(xlen, h);
    lemma_formats(c_imm6(h), 0, 0, c_rd(h), 0, c_rd(h), 0x13);
    lemma_full_size(enc_i(c_imm6(h), c_rd(h), 0, c_rd(h), 0x13), 0x13);
    lemma_bits_of(enc_i(c_imm6(h), c_rd(h), 0, c_rd(h), 0x13));
    lemma_formats(c_imm_j(h), 0, 0, 0, 0, 1, 0x6f);
    lemma_full_size(enc_j(c_imm_j(h), 1, 0x6f), 0x6f);
    lemma_bits_of(enc_j(c_imm_j(h), 1, 0x6f));
    lemma_formats(c_imm6(h), 0, 0, c_rd(h), 0, c_rd(h), 0x1b);
    lemma_full_size(enc_i(c_imm6(h), c_rd(h), 0, c_rd(h), 0x1b), 0x1b);
    lemma_bits_of(enc_i(c_imm6(h), c_rd(h), 0, c_rd(h), 0x1b));
    lemma_formats(c_imm6(h), 0, 0, 0, 0, c_rd(h), 0x13);
    lemma_full_size(enc_i(c_imm6(h), 0, 0, c_rd(h), 0x13), 0x13);
    lemma_bits_of(enc_i(c_imm6(h), 0, 0, c_rd(h), 0x13));
    lemma_formats(c_imm_addi16sp(h), 0, 0, 2, 0, 2, 0x13);
    lemma_full_size(enc_i(c_imm_addi16sp(h), 2, 0, 2, 0x13), 0x13);
    lemma_bits_of(enc_i(c_imm_addi16sp(h), 2, 0, 2, 0x13));
    lemma_formats(c_imm_lui(h), 0, 0, 0, 0, c_rd(h), 0x37);
    lemma_full_size(enc_u(c_imm_lui(h), c_rd(h), 0x37), 0x37);
    lemma_bits_of(enc_u(c_imm_lui(h), c_rd(h), 0x37));
    lemma_formats(c_imm_j(h), 0, 0, 0, 0, 0, 0x6f);
    lemma_full_size(enc_j(c_imm_j(h), 0, 0x6f), 0x6f);
    lemma_bits_of(enc_j(c_imm_j(h), 0, 0x6f));
    lemma_formats(c_imm_b(h), 0, 0, c_rs1_short(h), 0, 0, 0x63);
    lemma_full_size(enc_b(c_imm_b(h), 0, c_rs1_short(h), 0, 0x63), 0x63);
    lemma_bits_of(enc_b(c_imm_b(h), 0, c_rs1_short(h), 0, 0x63));
    lemma_formats(c_imm_b(h), 0, 0, c_rs1_short(h), 1, 0, 0x63);
    lemma_full_size(enc_b(c_imm_b(h), 0, c_rs1_short(h), 1, 0x63), 0x63);
    lemma_bits_of(enc_b(c_imm_b(h), 0, c_rs1_short(h), 1, 0x63));
}

/// What a compressed instruction of quadrant 2 expands to is a
/// full-size instruction of the hart.
#[verifier::rlimit(100)]
proof fn lemma_parent_q2(xlen: Xlen, h: u32)
    ensures
        decompress_q2(xlen, h).is_some() ==> is_parent(xlen, decompress_q2(xlen, h).unwrap()),
{
    lemma_c_fields(h, 0);
    lemma_c_fields(h, c_shamt(h));
    lemma_bits_of(0x0010_0073);
    lemma_full_size(0x0010_0073, 0x73);
    lemma_bits_system(0x0010_0073, 0x0010_0073);
    lemma_formats(c_shamt(h), 0, 0, c_rd(h), 1, c_rd(h), 0x13);
    lemma_full_size(enc_i(c_shamt(h), c_rd(h), 1, c_rd(h), 0x13), 0x13);
    lemma_bits_of(enc_i(c_shamt(h), c_rd(h), 1, c_rd(h), 0x13));
    lemma_formats(c_imm_ldsp(h), 0, 0, 2, 3, c_rd(h), 0x7);
    lemma_full_size(enc_i(c_imm_ldsp(h), 2, 3, c_rd(h), 0x7), 0x7);
    lemma_bits_of(enc_i(c_imm_ldsp(h), 2, 3, c_rd(h), 0x7));
    lemma_formats(c_imm_lwsp(h), 0, 0, 2, 2, c_rd(h), 0x3);
    lemma_full_size(enc_i(c_imm_lwsp(h), 2, 2, c_rd(h), 0x3), 0x3);
    lemma_bits_of(enc_i(c_imm_lwsp(h), 2, 2, c_rd(h), 0x3));
    lemma_formats(c_imm_lwsp(h), 0, 0, 2, 2, c_rd(h), 0x7);
    lemma_full_size(enc_i(c_imm_lwsp(h), 2, 2, c_rd(h), 0x7), 0x7);
    lemma_bits_of(enc_i(c_imm_lwsp(h), 2, 2, c_rd(h), 0x7));
    lemma_formats(c_imm_ldsp(h), 0, 0, 2, 3, c_rd(h), 0x3);
    lemma_full_size(enc_i(c_imm_ldsp(h), 2, 3, c_rd(h), 0x3), 0x3);
    lemma_bits_of(enc_i(c_imm_ldsp(h), 2, 3, c_rd(h), 0x3));
    lemma_formats(0, 0, 0, c_rd(h), 0, 0, 0x67);
    lemma_full_size(enc_i(0, c_rd(h), 0, 0, 0x67), 0x67);
    lemma_bits_of(enc_i(0, c_rd(h), 0, 0, 0x67));
    lemma_formats(0, 0, c_rs2(h), 0, 0, c_rd(h), 0x33);
    lemma_full_size(enc_r(0, c_rs2(h), 0, 0, c_rd(h), 0x33), 0x33);
    lemma_bits_of(enc_r(0, c_rs2(h), 0, 0, c_rd(h), 0x33));
    lemma_formats(0, 0, 0, c_rd(h), 0, 1, 0x67);
    lemma_full_size(enc_i(0, c_rd(h), 0, 1, 0x67), 0x67);
    lemma_bits_of(enc_i(0, c_rd(h), 0, 1, 0x67));
    lemma_formats(0, 0, c_rs2(h), c_rd(h), 0, c_rd(h), 0x33);
    lemma_full_size(enc_r(0, c_rs2(h), c_rd(h), 0, c_rd(h), 0x33), 0x33);
    lemma_bits_of(enc_r(0, c_rs2(h), c_rd(h), 0, c_rd(h), 0x33));
    lemma_formats(c_imm_sdsp(h), 0, c_rs2(h), 2, 3, 0, 0x27);
    lemma_full_size(enc_s(c_imm_sdsp(h), c_rs2(h), 2, 3, 0x27), 0x27);
    lemma_bits_of(enc_s(c_imm_sdsp(h), c_rs2(h), 2, 3, 0x27));
    lemma_formats(c_imm_swsp(h), 0, c_rs2(h), 2, 2, 0, 0x23);
    lemma_full_size(enc_s(c_imm_swsp(h), c_rs2(h), 2, 2, 0x23), 0x23);
    lemma_bits_of(enc_s(c_imm_swsp(h), c_rs2(h), 2, 2, 0x23));
    lemma_formats(c_imm_swsp(h), 0, c_rs2(h), 2, 2, 0, 0x27);
    lemma_full_size(enc_s(c_imm_swsp(h), c_rs2(h), 2, 2, 0x27), 0x27);
    lemma_bits_of(enc_s(c_imm_swsp(h), c_rs2(h), 2, 2, 0x27));
    lemma_formats(c_imm_sdsp(h), 0, c_rs2(h), 2, 3, 0, 0x23);
    lemma_full_size(enc_s(c_imm_sdsp(h), c_rs2(h), 2, 3, 0x23), 0x23);
    lemma_bits_of(enc_s(c_imm_sdsp(h), c_rs2(h), 2, 3, 0x23));
}

/// What a compressed instruction expands to is a full-size instruction of the hart: its
/// two low bits are 11, and it names an operation.
pub proof fn lemma_parent(xlen: Xlen, word: u32)
    ensures
        instruction_decompress(xlen, word).is_some() ==> is_parent(
            xlen,
            instruction_decompress(xlen, word).unwrap(),
        ),
{
    lemma_parent_q0(xlen, word & 0xffff);
    lemma_parent_q1(xlen, word & 0xffff);
    lemma_parent_q2(xlen, word & 0xffff);
}

} // verus!
