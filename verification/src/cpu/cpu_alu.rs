//! What the integer operations compute.

use crate::cpu::cpu::Xlen;
use crate::cpu::cpu_instruction::{shift_amount, signed, unsigned, AluOp, AmoOp, BranchOp, Width};
use vstd::prelude::*;

verus! {

/// All bits set: the quotient of a division by zero.
pub const ALL_ONES: i64 = -1;

/// What the operation `op` makes of `a` and `b` at width `xlen`. Sums, differences and
/// products wrap; shifts move by `b` modulo the width; comparisons yield 1 or 0; the MULH
/// family yields the upper half of the double-width product. A division by zero yields all
/// ones and leaves the dividend as remainder; the signed division that overflows yields the
/// dividend and the remainder 0. At width 32 the low 32 bits of the operands count and the
/// result is sign-extended.
pub open spec fn spec_alu(op: AluOp, xlen: Xlen, a: i64, b: i64) -> i64 {
    match op {
        AluOp::Add => signed(xlen, a.wrapping_add(b)),
        AluOp::Sub => signed(xlen, a.wrapping_sub(b)),
        AluOp::Sll => signed(xlen, a << shift_amount(xlen, b)),
        AluOp::Slt => if signed(xlen, a) < signed(xlen, b) {
            1
        } else {
            0
        },
        AluOp::Sltu => if unsigned(xlen, a) < unsigned(xlen, b) {
            1
        } else {
            0
        },
        AluOp::Xor => signed(xlen, a ^ b),
        AluOp::Srl => signed(xlen, (unsigned(xlen, a) >> shift_amount(xlen, b)) as i64),
        AluOp::Sra => signed(xlen, signed(xlen, a) >> shift_amount(xlen, b)),
        AluOp::Or => signed(xlen, a | b),
        AluOp::And => signed(xlen, a & b),
        AluOp::Mul => signed(xlen, a.wrapping_mul(b)),
        AluOp::Mulh => match xlen {
            Xlen::X32 => (a as i32 as i64).wrapping_mul(b as i32 as i64) >> 32u32,
            Xlen::X64 => ((a as i128).wrapping_mul(b as i128) >> 64u32) as i64,
        }
        AluOp::Mulhsu => match xlen {
            Xlen::X32 => signed(xlen, (a as i32 as i64).wrapping_mul(b as u32 as i64) >> 32u32),
            Xlen::X64 => ((a as i128).wrapping_mul(b as u64 as i128) >> 64u32) as i64,
        }
        AluOp::Mulhu => match xlen {
            Xlen::X32 => signed(xlen, ((a as u32 as u64).wrapping_mul(b as u32 as u64) >> 32u32) as i64),
            Xlen::X64 => ((a as u64 as u128).wrapping_mul(b as u64 as u128) >> 64u32) as i64,
        }
        AluOp::Div => match xlen {
            Xlen::X32 => match (a as i32).checked_div(b as i32) {
                Some(q) => q as i64,
                None => if b as i32 == 0 {
                    ALL_ONES
                } else {
                    a as i32 as i64
                },
            },
            Xlen::X64 => match (a as i64).checked_div(b as i64) {
                Some(q) => q,
                None => if b == 0 {
                    ALL_ONES
                } else {
                    a
                },
            },
        }
        AluOp::Divu => match xlen {
            Xlen::X32 => match (a as u32).checked_div(b as u32) {
                Some(q) => q as i32 as i64,
                None => ALL_ONES,
            },
            Xlen::X64 => match (a as u64).checked_div(b as u64) {
                Some(q) => q as i64,
                None => ALL_ONES,
            },
        }
        AluOp::Rem => match xlen {
            Xlen::X32 => match (a as i32).checked_rem(b as i32) {
                Some(q) => q as i64,
                None => if b as i32 == 0 {
                    a as i32 as i64
                } else {
                    0
                },
            },
            Xlen::X64 => match (a as i64).checked_rem(b as i64) {
                Some(q) => q,
                None => if b == 0 {
                    a
                } else {
                    0
                },
            },
        }
        AluOp::Remu => match xlen {
            Xlen::X32 => match (a as u32).checked_rem(b as u32) {
                Some(q) => q as i32 as i64,
                None => a as i32 as i64,
            },
            Xlen::X64 => match (a as u64).checked_rem(b as u64) {
                Some(q) => q as i64,
                None => a,
            },
        }
    }
}

#[verifier::when_used_as_spec(spec_alu)]
pub fn alu(op: AluOp, xlen: Xlen, a: i64, b: i64) -> (r: i64)
    ensures
        r == spec_alu(op, xlen, a, b),
{
    match op {
        AluOp::Add => signed(xlen, a.wrapping_add(b)),
        AluOp::Sub => signed(xlen, a.wrapping_sub(b)),
        AluOp::Sll => signed(xlen, a << shift_amount(xlen, b)),
        AluOp::Slt => if signed(xlen, a) < signed(xlen, b) {
            1
        } else {
            0
        },
        AluOp::Sltu => if unsigned(xlen, a) < unsigned(xlen, b) {
            1
        } else {
            0
        },
        AluOp::Xor => signed(xlen, a ^ b),
        AluOp::Srl => signed(xlen, (unsigned(xlen, a) >> shift_amount(xlen, b)) as i64),
        AluOp::Sra => signed(xlen, signed(xlen, a) >> shift_amount(xlen, b)),
        AluOp::Or => signed(xlen, a | b),
        AluOp::And => signed(xlen, a & b),
        AluOp::Mul => signed(xlen, a.wrapping_mul(b)),
        AluOp::Mulh => match xlen {
            Xlen::X32 => (a as i32 as i64).wrapping_mul(b as i32 as i64) >> 32u32,
            Xlen::X64 => ((a as i128).wrapping_mul(b as i128) >> 64u32) as i64,
        }
        AluOp::Mulhsu => match xlen {
            Xlen::X32 => signed(xlen, (a as i32 as i64).wrapping_mul(b as u32 as i64) >> 32u32),
            Xlen::X64 => ((a as i128).wrapping_mul(b as u64 as i128) >> 64u32) as i64,
        }
        AluOp::Mulhu => match xlen {
            Xlen::X32 => signed(xlen, ((a as u32 as u64).wrapping_mul(b as u32 as u64) >> 32u32) as i64),
            Xlen::X64 => ((a as u64 as u128).wrapping_mul(b as u64 as u128) >> 64u32) as i64,
        }
        AluOp::Div => match xlen {
            Xlen::X32 => match (a as i32).checked_div(b as i32) {
                Some(q) => q as i64,
                None => if b as i32 == 0 {
                    ALL_ONES
                } else {
                    a as i32 as i64
                },
            },
            Xlen::X64 => match (a as i64).checked_div(b as i64) {
                Some(q) => q,
                None => if b == 0 {
                    ALL_ONES
                } else {
                    a
                },
            },
        }
        AluOp::Divu => match xlen {
            Xlen::X32 => match (a as u32).checked_div(b as u32) {
                Some(q) => q as i32 as i64,
                None => ALL_ONES,
            },
            Xlen::X64 => match (a as u64).checked_div(b as u64) {
                Some(q) => q as i64,
                None => ALL_ONES,
            },
        }
        AluOp::Rem => match xlen {
            Xlen::X32 => match (a as i32).checked_rem(b as i32) {
                Some(q) => q as i64,
                None => if b as i32 == 0 {
                    a as i32 as i64
                } else {
                    0
                },
            },
            Xlen::X64 => match (a as i64).checked_rem(b as i64) {
                Some(q) => q,
                None => if b == 0 {
                    a
                } else {
                    0
                },
            },
        }
        AluOp::Remu => match xlen {
            Xlen::X32 => match (a as u32).checked_rem(b as u32) {
                Some(q) => q as i32 as i64,
                None => a as i32 as i64,
            },
            Xlen::X64 => match (a as u64).checked_rem(b as u64) {
                Some(q) => q as i64,
                None => a,
            },
        }
    }
}

/// Whether the branch `op` is taken on the register values `a` and `b`.
pub open spec fn spec_branch_taken(op: BranchOp, xlen: Xlen, a: i64, b: i64) -> bool {
    match op {
        BranchOp::Beq => signed(xlen, a) == signed(xlen, b),
        BranchOp::Bne => signed(xlen, a) != signed(xlen, b),
        BranchOp::Blt => signed(xlen, a) < signed(xlen, b),
        BranchOp::Bge => signed(xlen, a) >= signed(xlen, b),
        BranchOp::Bltu => unsigned(xlen, a) < unsigned(xlen, b),
        BranchOp::Bgeu => unsigned(xlen, a) >= unsigned(xlen, b),
    }
}

#[verifier::when_used_as_spec(spec_branch_taken)]
pub fn branch_taken(op: BranchOp, xlen: Xlen, a: i64, b: i64) -> (r: bool)
    ensures
        r == spec_branch_taken(op, xlen, a, b),
{
    match op {
        BranchOp::Beq => signed(xlen, a) == signed(xlen, b),
        BranchOp::Bne => signed(xlen, a) != signed(xlen, b),
        BranchOp::Blt => signed(xlen, a) < signed(xlen, b),
        BranchOp::Bge => signed(xlen, a) >= signed(xlen, b),
        BranchOp::Bltu => unsigned(xlen, a) < unsigned(xlen, b),
        BranchOp::Bgeu => unsigned(xlen, a) >= unsigned(xlen, b),
    }
}

/// The register value that a loaded `value` of width `width` becomes: sign-extended or
/// zero-extended to 64 bits.
pub open spec fn spec_extend(value: u64, width: Width, is_signed: bool) -> i64 {
    match width {
        Width::Byte => if is_signed {
            value as u8 as i8 as i64
        } else {
            value as u8 as i64
        },
        Width::Half => if is_signed {
            value as u16 as i16 as i64
        } else {
            value as u16 as i64
        },
        Width::Word => if is_signed {
            value as u32 as i32 as i64
        } else {
            value as u32 as i64
        },
        Width::Double => value as i64,
    }
}

#[verifier::when_used_as_spec(spec_extend)]
pub fn extend(value: u64, width: Width, is_signed: bool) -> (r: i64)
    ensures
        r == spec_extend(value, width, is_signed),
{
    match width {
        Width::Byte => if is_signed {
            value as u8 as i8 as i64
        } else {
            value as u8 as i64
        },
        Width::Half => if is_signed {
            value as u16 as i16 as i64
        } else {
            value as u16 as i64
        },
        Width::Word => if is_signed {
            value as u32 as i32 as i64
        } else {
            value as u32 as i64
        },
        Width::Double => value as i64,
    }
}

/// The value that the atomic operation `op` of width `width` stores, given the value that
/// the memory holds and the value of the source register.
pub open spec fn spec_amo(op: AmoOp, width: Width, memory: u64, register: i64) -> u64 {
    match width {
        Width::Double => match op {
            AmoOp::Swap => register as u64,
            AmoOp::Add => (memory as i64).wrapping_add(register) as u64,
            AmoOp::Xor => memory ^ (register as u64),
            AmoOp::And => memory & (register as u64),
            AmoOp::Or => memory | (register as u64),
            AmoOp::Min => if (memory as i64) < register {
                memory
            } else {
                register as u64
            },
            AmoOp::Max => if (memory as i64) > register {
                memory
            } else {
                register as u64
            },
            AmoOp::Minu => if memory < register as u64 {
                memory
            } else {
                register as u64
            },
            AmoOp::Maxu => if memory > register as u64 {
                memory
            } else {
                register as u64
            },
        },
        _ => match op {
            AmoOp::Swap => register as u32 as u64,
            AmoOp::Add => (memory as u32).wrapping_add(register as u32) as u64,
            AmoOp::Xor => (memory as u32 ^ register as u32) as u64,
            AmoOp::And => (memory as u32 & register as u32) as u64,
            AmoOp::Or => (memory as u32 | register as u32) as u64,
            AmoOp::Min => if (memory as u32 as i32) < register as i32 {
                memory as u32 as u64
            } else {
                register as u32 as u64
            },
            AmoOp::Max => if (memory as u32 as i32) > register as i32 {
                memory as u32 as u64
            } else {
                register as u32 as u64
            },
            AmoOp::Minu => if (memory as u32) < register as u32 {
                memory as u32 as u64
            } else {
                register as u32 as u64
            },
            AmoOp::Maxu => if (memory as u32) > register as u32 {
                memory as u32 as u64
            } else {
                register as u32 as u64
            },
        },
    }
}

#[verifier::when_used_as_spec(spec_amo)]
pub fn amo(op: AmoOp, width: Width, memory: u64, register: i64) -> (r: u64)
    ensures
        r == spec_amo(op, width, memory, register),
{
    match width {
        Width::Double => match op {
            AmoOp::Swap => register as u64,
            AmoOp::Add => (memory as i64).wrapping_add(register) as u64,
            AmoOp::Xor => memory ^ (register as u64),
            AmoOp::And => memory & (register as u64),
            AmoOp::Or => memory | (register as u64),
            AmoOp::Min => if (memory as i64) < register {
                memory
            } else {
                register as u64
            },
            AmoOp::Max => if (memory as i64) > register {
                memory
            } else {
                register as u64
            },
            AmoOp::Minu => if memory < register as u64 {
                memory
            } else {
                register as u64
            },
            AmoOp::Maxu => if memory > register as u64 {
                memory
            } else {
                register as u64
            },
        },
        _ => match op {
            AmoOp::Swap => register as u32 as u64,
            AmoOp::Add => (memory as u32).wrapping_add(register as u32) as u64,
            AmoOp::Xor => (memory as u32 ^ register as u32) as u64,
            AmoOp::And => (memory as u32 & register as u32) as u64,
            AmoOp::Or => (memory as u32 | register as u32) as u64,
            AmoOp::Min => if (memory as u32 as i32) < register as i32 {
                memory as u32 as u64
            } else {
                register as u32 as u64
            },
            AmoOp::Max => if (memory as u32 as i32) > register as i32 {
                memory as u32 as u64
            } else {
                register as u32 as u64
            },
            AmoOp::Minu => if (memory as u32) < register as u32 {
                memory as u32 as u64
            } else {
                register as u32 as u64
            },
            AmoOp::Maxu => if (memory as u32) > register as u32 {
                memory as u32 as u64
            } else {
                register as u32 as u64
            },
        },
    }
}

/// The upper half of a signed 128-bit number is the number divided by two to the power of
/// 64, rounded down.
proof fn lemma_upper_i128(x: i128)
    by (bit_vector)
    ensures
        (x >> 64u32) as int == (x as int) / 0x1_0000_0000_0000_0000int,
{
}

/// The upper half of an unsigned 128-bit number is the number divided by two to the power
/// of 64.
proof fn lemma_upper_u128(y: u128)
    by (bit_vector)
    ensures
        (y >> 64u32) == y / 0x1_0000_0000_0000_0000u128,
{
}

/// A number below two to the power of 64 that passes through a register comes back as it
/// was.
proof fn lemma_through_register(y: u128)
    by (bit_vector)
    requires
        y < 0x1_0000_0000_0000_0000u128,
    ensures
        ((y as i64) as u64) as u128 == y,
{
}

/// The upper half of a signed 64-bit number is the number divided by two to the power of
/// 32, rounded down.
proof fn lemma_upper_i64(z: i64)
    by (bit_vector)
    ensures
        (z >> 32u32) as int == (z as int) / 0x1_0000_0000int,
{
}

/// The absolute value of `x`.
pub open spec fn abs(x: int) -> int {
    if x < 0 {
        -x
    } else {
        x
    }
}

/// Division with remainder of a number that is not negative by a positive one.
proof fn lemma_euclid(n: int, m: int)
    requires
        0 <= n,
        0 < m,
    ensures
        n == m * (n / m) + n % m,
        0 <= n % m < m,
        0 <= n / m <= n,
        m >= 2 ==> 2 * (n / m) <= n,
{
    vstd::arithmetic::div_mod::lemma_fundamental_div_mod(n, m);
    vstd::arithmetic::div_mod::lemma_mod_bound(n, m);
    vstd::arithmetic::div_mod::lemma_div_pos_is_pos(n, m);
    vstd::arithmetic::div_mod::lemma_div_is_ordered_by_denominator(n, 1, m);
    vstd::arithmetic::div_mod::lemma_div_basics(n);
    if m >= 2 {
        vstd::arithmetic::div_mod::lemma_div_is_ordered_by_denominator(n, 2, m);
        vstd::arithmetic::div_mod::lemma_fundamental_div_mod(n, 2);
        vstd::arithmetic::div_mod::lemma_mod_bound(n, 2);
    }
}

/// Quotient and remainder of a truncating division make up the dividend, and the remainder
/// is smaller than the divisor and has the sign of the dividend.
pub open spec fn truncates(x: int, d: int, q: int, r: int) -> bool {
    q * d + r == x && abs(r) < abs(d) && (r == 0 || (r < 0) == (x < 0))
}

/// The sum, the difference and the product of two registers are those of the numbers,
/// modulo two to the power of the width.
pub proof fn lemma_ring(a: i64, b: i64)
    ensures
        (alu(AluOp::Add, Xlen::X64, a, b) - (a + b)) % 0x1_0000_0000_0000_0000 == 0,
        (alu(AluOp::Sub, Xlen::X64, a, b) - (a - b)) % 0x1_0000_0000_0000_0000 == 0,
        (alu(AluOp::Mul, Xlen::X64, a, b) - (a * b)) % 0x1_0000_0000_0000_0000 == 0,
{
    let p = a * b;
    vstd::arithmetic::div_mod::lemma_fundamental_div_mod(p, 0x1_0000_0000_0000_0000);
    vstd::arithmetic::div_mod::lemma_mod_bound(p, 0x1_0000_0000_0000_0000);
    let m = p % 0x1_0000_0000_0000_0000;
    let r = alu(AluOp::Mul, Xlen::X64, a, b) as int;
    assert(r == m || r == m - 0x1_0000_0000_0000_0000);
    vstd::arithmetic::div_mod::lemma_mod_multiples_vanish(-(p / 0x1_0000_0000_0000_0000), 0, 0x1_0000_0000_0000_0000);
    vstd::arithmetic::div_mod::lemma_mod_multiples_vanish(-(p / 0x1_0000_0000_0000_0000) - 1, 0, 0x1_0000_0000_0000_0000);
    assert(r - p == 0x1_0000_0000_0000_0000 * (-(p / 0x1_0000_0000_0000_0000)) + 0 || r - p
        == 0x1_0000_0000_0000_0000 * (-(p / 0x1_0000_0000_0000_0000) - 1) + 0) by (nonlinear_arith)
        requires
            r == m || r == m - 0x1_0000_0000_0000_0000,
            p == 0x1_0000_0000_0000_0000 * (p / 0x1_0000_0000_0000_0000) + m,
    ;
}

/// MULH, MULHU and MULHSU of a 64-bit hart yield the upper half of the product of the
/// registers, taken as signed numbers, as unsigned numbers, or the first as a signed and the
/// second as an unsigned number: the product divided by two to the power of 64, rounded
/// down.
pub proof fn lemma_upper_half(a: i64, b: i64)
    ensures
        alu(AluOp::Mulh, Xlen::X64, a, b) == (a * b) / 0x1_0000_0000_0000_0000,
        alu(AluOp::Mulhu, Xlen::X64, a, b) as u64 == ((a as u64) * (b as u64))
            / 0x1_0000_0000_0000_0000,
        alu(AluOp::Mulhsu, Xlen::X64, a, b) == (a * (b as u64)) / 0x1_0000_0000_0000_0000,
{
    let ua = a as u64;
    let ub = b as u64;
    assert(-0x4000_0000_0000_0000_0000_0000_0000_0000 <= a * b
        <= 0x4000_0000_0000_0000_0000_0000_0000_0000) by (nonlinear_arith)
        requires
            -0x8000_0000_0000_0000 <= a <= 0x7fff_ffff_ffff_ffff,
            -0x8000_0000_0000_0000 <= b <= 0x7fff_ffff_ffff_ffff,
    ;
    assert(0 <= ua * ub <= 0xffff_ffff_ffff_fffe_0000_0000_0000_0001) by (nonlinear_arith)
        requires
            0 <= ua <= 0xffff_ffff_ffff_ffff,
            0 <= ub <= 0xffff_ffff_ffff_ffff,
    ;
    assert(-0x7fff_ffff_ffff_ffff_8000_0000_0000_0000 <= a * ub
        <= 0x7fff_ffff_ffff_fffe_8000_0000_0000_0001) by (nonlinear_arith)
        requires
            -0x8000_0000_0000_0000 <= a <= 0x7fff_ffff_ffff_ffff,
            0 <= ub <= 0xffff_ffff_ffff_ffff,
    ;
    lemma_upper_i128((a as i128).wrapping_mul(b as i128));
    lemma_upper_u128((ua as u128).wrapping_mul(ub as u128));
    lemma_upper_i128((a as i128).wrapping_mul(ub as i128));
    lemma_through_register((ua as u128).wrapping_mul(ub as u128) >> 64u32);
    vstd::arithmetic::div_mod::lemma_small_mod(
        (ua * ub) as nat,
        0x1_0000_0000_0000_0000_0000_0000_0000_0000nat,
    );
}

/// MULH of a 32-bit hart, and of the operations on words, yields the upper half of the
/// product of the low words of the registers: the product divided by two to the power of
/// 32, rounded down.
pub proof fn lemma_upper_half_word(a: i64, b: i64)
    ensures
        alu(AluOp::Mulh, Xlen::X32, a, b) == (signed(Xlen::X32, a) * signed(Xlen::X32, b))
            / 0x1_0000_0000,
{
    let sa = signed(Xlen::X32, a);
    let sb = signed(Xlen::X32, b);
    assert(-0x4000_0000_0000_0000 <= sa * sb <= 0x4000_0000_0000_0000) by (nonlinear_arith)
        requires
            -0x8000_0000 <= sa <= 0x7fff_ffff,
            -0x8000_0000 <= sb <= 0x7fff_ffff,
    ;
    lemma_upper_i64(sa.wrapping_mul(sb));
}

/// The quotient of the division of `x` by `d` that rounds towards zero.
pub open spec fn quotient(x: int, d: int) -> int {
    if x == 0 {
        0
    } else if x > 0 && d > 0 {
        x / d
    } else if x < 0 && d < 0 {
        ((x * -1) / (d * -1))
    } else if x < 0 {
        ((x * -1) / d) * -1
    } else {
        (x / (d * -1)) * -1
    }
}

/// The remainder of the division of `x` by `d` that rounds towards zero.
pub open spec fn remainder(x: int, d: int) -> int {
    if x == 0 {
        0
    } else if x > 0 && d > 0 {
        x % d
    } else if x < 0 && d < 0 {
        ((x * -1) % (d * -1)) * -1
    } else if x < 0 {
        ((x * -1) % d) * -1
    } else {
        x % (d * -1)
    }
}

/// The quotient and the remainder of the division that rounds towards zero make up the
/// dividend; the quotient is no larger than the dividend, and at most half of it where the
/// divisor is neither 1 nor -1.
pub proof fn lemma_truncating(x: int, d: int)
    requires
        d != 0,
    ensures
        truncates(x, d, quotient(x, d), remainder(x, d)),
        abs(quotient(x, d)) <= abs(x),
        abs(d) >= 2 ==> 2 * abs(quotient(x, d)) <= abs(x),
        (x < 0) == (d < 0) ==> quotient(x, d) >= 0,
        (x < 0) != (d < 0) ==> quotient(x, d) <= 0,
{
    let n = abs(x);
    let m = abs(d);
    lemma_euclid(n, m);
    let q0 = n / m;
    let r0 = n % m;
    let q = quotient(x, d);
    let r = remainder(x, d);
    assert(x * -1 == -x);
    assert(d * -1 == -d);
    if x == 0 {
        assert(q * d + r == x) by (nonlinear_arith)
            requires
                q == 0,
                r == 0,
                x == 0,
        ;
    } else if x > 0 && d > 0 {
        assert(q * d + r == x) by (nonlinear_arith)
            requires
                q == q0,
                r == r0,
                x == d * q0 + r0,
        ;
    } else if x < 0 && d < 0 {
        assert(q * d + r == x) by (nonlinear_arith)
            requires
                q == q0,
                r == -r0,
                -x == (-d) * q0 + r0,
        ;
    } else if x < 0 {
        assert(q * d + r == x) by (nonlinear_arith)
            requires
                q == -q0,
                r == -r0,
                -x == d * q0 + r0,
        ;
    } else {
        assert(q * d + r == x) by (nonlinear_arith)
            requires
                q == -q0,
                r == r0,
                x == (-d) * q0 + r0,
        ;
    }
}

/// DIV and REM of a 64-bit hart are the quotient and the remainder of the division that
/// rounds towards zero, where the divisor is not zero and the quotient does not overflow;
/// DIVU and REMU are those of the division of the registers as unsigned numbers.
pub proof fn lemma_division(a: i64, b: i64)
    requires
        b != 0,
    ensures
        !(a == i64::MIN && b == -1) ==> alu(AluOp::Div, Xlen::X64, a, b) == quotient(
            a as int,
            b as int,
        ) && alu(AluOp::Rem, Xlen::X64, a, b) == remainder(a as int, b as int),
        alu(AluOp::Divu, Xlen::X64, a, b) as u64 == (a as u64) / (b as u64),
        alu(AluOp::Remu, Xlen::X64, a, b) as u64 == (a as u64) % (b as u64),
{
    lemma_truncating(a as int, b as int);
    let ua = a as u64;
    let ub = b as u64;
    lemma_reinterpret(b, 0);
    lemma_reinterpret(0, ua / ub);
    lemma_reinterpret(0, ua % ub);
}

/// DIV and REM of a 32-bit hart, and of the operations on words, are the quotient and the
/// remainder of the division of the low words of the registers that rounds towards zero,
/// where the divisor is not zero and the quotient does not overflow.
pub proof fn lemma_division_word(a: i64, b: i64)
    requires
        signed(Xlen::X32, b) != 0,
        !(signed(Xlen::X32, a) == i32::MIN && signed(Xlen::X32, b) == -1),
    ensures
        alu(AluOp::Div, Xlen::X32, a, b) == quotient(
            signed(Xlen::X32, a) as int,
            signed(Xlen::X32, b) as int,
        ),
        alu(AluOp::Rem, Xlen::X32, a, b) == remainder(
            signed(Xlen::X32, a) as int,
            signed(Xlen::X32, b) as int,
        ),
{
    lemma_truncating(signed(Xlen::X32, a) as int, signed(Xlen::X32, b) as int);
}

/// A register that is not zero is not zero as an unsigned number, and an unsigned number
/// that passes through a register comes back as it was.
proof fn lemma_reinterpret(x: i64, y: u64)
    ensures
        x != 0 ==> x as u64 != 0,
        (y as i64) as u64 == y,
{
    assert(x != 0 ==> x as u64 != 0) by (bit_vector);
    assert((y as i64) as u64 == y) by (bit_vector);
}

/// A division by zero yields all ones as quotient and the dividend as remainder; the
/// signed division that overflows yields the dividend as quotient and 0 as remainder.
pub proof fn lemma_division_conventions(xlen: Xlen, a: i64)
    ensures
        alu(AluOp::Div, xlen, a, 0) == -1,
        alu(AluOp::Divu, xlen, a, 0) == -1,
        alu(AluOp::Rem, xlen, a, 0) == signed(xlen, a),
        alu(AluOp::Remu, xlen, a, 0) == signed(xlen, a),
        alu(AluOp::Div, Xlen::X64, i64::MIN, ALL_ONES) == i64::MIN,
        alu(AluOp::Rem, Xlen::X64, i64::MIN, ALL_ONES) == 0,
        alu(AluOp::Div, Xlen::X32, i32::MIN as i64, ALL_ONES) == i32::MIN,
        alu(AluOp::Rem, Xlen::X32, i32::MIN as i64, ALL_ONES) == 0,
{
}

} // verus!
