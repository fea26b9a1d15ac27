use vstd::prelude::*;

verus! {

// Word (32-bit) instructions of RV64I and the M extension. Each spec
// function states a result over the operands; `None` marks an encoding
// that is not an instruction.

pub open spec fn neg(x: u64) -> u64 {
    if x == 0 { 0 } else { (0x1_0000_0000_0000_0000 - x) as u64 }
}

/// Quotient of the signed interpretations, rounded toward zero; division
/// by zero gives all ones, and the one overflowing case gives the dividend.
pub open spec fn div_signed(a: u64, b: u64) -> u64 {
    if b == 0 {
        u64::MAX
    } else {
        let na = (a as i64) < 0;
        let nb = (b as i64) < 0;
        let ua = if na { neg(a) } else { a };
        let ub = if nb { neg(b) } else { b };
        let q = (ua / ub) as u64;
        if na != nb { neg(q) } else { q }
    }
}

/// Remainder with the sign of the dividend; by zero, the dividend.
pub open spec fn rem_signed(a: u64, b: u64) -> u64 {
    if b == 0 {
        a
    } else {
        let na = (a as i64) < 0;
        let nb = (b as i64) < 0;
        let ua = if na { neg(a) } else { a };
        let ub = if nb { neg(b) } else { b };
        let r = (ua % ub) as u64;
        if na { neg(r) } else { r }
    }
}

pub open spec fn div_unsigned(a: u64, b: u64) -> u64 {
    if b == 0 { u64::MAX } else { (a / b) as u64 }
}

pub open spec fn rem_unsigned(a: u64, b: u64) -> u64 {
    if b == 0 { a } else { (a % b) as u64 }
}

/// The M extension's register-register instructions (funct7 = 1).
pub open spec fn op_mul(f3: u32, a: u64, b: u64) -> u64 {
    if f3 == 0 {
        ((a as nat * b as nat) % 0x1_0000_0000_0000_0000nat) as u64
    } else if f3 == 1 {
        (((a as i64 as i128) * (b as i64 as i128)) as i128 >> 64u32) as u64
    } else if f3 == 2 {
        (((a as i64 as i128) * (b as i128)) as i128 >> 64u32) as u64
    } else if f3 == 3 {
        (((a as u128) * (b as u128)) as u128 >> 64u32) as u64
    } else if f3 == 4 {
        div_signed(a, b)
    } else if f3 == 5 {
        div_unsigned(a, b)
    } else if f3 == 6 {
        rem_signed(a, b)
    } else {
        rem_unsigned(a, b)
    }
}

/// Immediate word instructions (opcode 0x1b), given the raw immediate.
pub open spec fn op_imm_word(f3: u32, raw: u32, a: u64) -> Option<u64> {
    let sh = (raw % 32) as u32;
    let lo = a as u32;
    if f3 == 0 {
        let imm = if raw >= 2048 { (raw + 0xffff_f000) as u32 } else { raw };

        Some(((lo as u64 + imm as u64) % 0x1_0000_0000) as u32 as i32 as i64 as u64)
    } else if f3 == 1 && raw / 32 == 0 {
        Some((lo << sh) as i32 as i64 as u64)
    } else if f3 == 5 && raw / 32 == 0 {
        Some((lo >> sh) as i32 as i64 as u64)
    } else if f3 == 5 && raw / 32 == 32 {
        Some(((lo as i32) >> sh) as i64 as u64)
    } else {
        None
    }
}

/// Register-register word instructions (opcode 0x3b).
pub open spec fn op_reg_word(f3: u32, f7: u32, a: u64, b: u64) -> Option<u64> {
    let sh = (b % 32) as u32;
    let lo = a as u32;
    let lb = b as u32;
    if f7 == 0 && f3 == 0 {
        Some(((lo as u64 + lb as u64) % 0x1_0000_0000) as u32 as i32 as i64 as u64)
    } else if f7 == 32 && f3 == 0 {
        Some(((lo as u64 + 0x1_0000_0000 - lb as u64) % 0x1_0000_0000) as u32 as i32 as i64 as u64)
    } else if f7 == 0 && f3 == 1 {
        Some((lo << sh) as i32 as i64 as u64)
    } else if f7 == 0 && f3 == 5 {
        Some((lo >> sh) as i32 as i64 as u64)
    } else if f7 == 32 && f3 == 5 {
        Some(((lo as i32) >> sh) as i64 as u64)
    } else if f7 == 1 && f3 == 0 {
        Some(((lo as u64 * lb as u64) % 0x1_0000_0000) as u32 as i32 as i64 as u64)
    } else if f7 == 1 && f3 >= 4 {
        let sa = (lo as i32 as i64) as u64;
        let sb = (lb as i32 as i64) as u64;
        let r = if f3 == 4 {
            div_signed(sa, sb)
        } else if f3 == 5 {
            div_unsigned(lo as u64, lb as u64)
        } else if f3 == 6 {
            rem_signed(sa, sb)
        } else {
            rem_unsigned(lo as u64, lb as u64)
        };
        Some(r as u32 as i32 as i64 as u64)
    } else {
        None
    }
}

fn neg_exec(x: u64) -> (r: u64)
    ensures
        r == neg(x),
{
    0u64.wrapping_sub(x)
}

fn div_signed_exec(a: u64, b: u64) -> (r: u64)
    ensures
        r == div_signed(a, b),
{
    if b == 0 {
        return u64::MAX;
    }
    let na = (a as i64) < 0;
    let nb = (b as i64) < 0;
    let ua = if na { neg_exec(a) } else { a };
    let ub = if nb { neg_exec(b) } else { b };
    let q = ua / ub;
    if na != nb { neg_exec(q) } else { q }
}

fn rem_signed_exec(a: u64, b: u64) -> (r: u64)
    ensures
        r == rem_signed(a, b),
{
    if b == 0 {
        return a;
    }
    let na = (a as i64) < 0;
    let nb = (b as i64) < 0;
    let ua = if na { neg_exec(a) } else { a };
    let ub = if nb { neg_exec(b) } else { b };
    let r = ua % ub;
    if na { neg_exec(r) } else { r }
}

fn div_unsigned_exec(a: u64, b: u64) -> (r: u64)
    ensures
        r == div_unsigned(a, b),
{
    if b == 0 { u64::MAX } else { a / b }
}

fn rem_unsigned_exec(a: u64, b: u64) -> (r: u64)
    ensures
        r == rem_unsigned(a, b),
{
    if b == 0 { a } else { a % b }
}

/// Executes an M-extension register-register instruction.
pub fn exec_op_mul(f3: u32, a: u64, b: u64) -> (r: u64)
    ensures
        r == op_mul(f3, a, b),
{
    if f3 == 0 {
        a.wrapping_mul(b)
    } else if f3 == 1 {
        let x = a as i64 as i128;
        let y = b as i64 as i128;
        assert(-0x8000_0000_0000_0000 <= x <= 0x7fff_ffff_ffff_ffff);
        assert(-0x8000_0000_0000_0000 <= y <= 0x7fff_ffff_ffff_ffff);
        assert(-0x4000_0000_0000_0000_0000_0000_0000_0000 <= x * y <= 0x4000_0000_0000_0000_0000_0000_0000_0000) by (nonlinear_arith)
            requires
                -0x8000_0000_0000_0000 <= x <= 0x7fff_ffff_ffff_ffff,
                -0x8000_0000_0000_0000 <= y <= 0x7fff_ffff_ffff_ffff,
        ;
        ((x * y) >> 64u32) as u64
    } else if f3 == 2 {
        let x = a as i64 as i128;
        let y = b as i128;
        assert(-0x8000_0000_0000_0000 <= x <= 0x7fff_ffff_ffff_ffff);
        assert(0 <= y <= 0xffff_ffff_ffff_ffff);
        assert(-0x7fff_ffff_ffff_ffff_8000_0000_0000_0000 <= x * y <= 0x7fff_ffff_ffff_fffe_8000_0000_0000_0001) by (nonlinear_arith)
            requires
                -0x8000_0000_0000_0000 <= x <= 0x7fff_ffff_ffff_ffff,
                0 <= y <= 0xffff_ffff_ffff_ffff,
        ;
        ((x * y) >> 64u32) as u64
    } else if f3 == 3 {
        let x = a as u128;
        let y = b as u128;
        assert(x * y <= 0xffff_ffff_ffff_fffe_0000_0000_0000_0001) by (nonlinear_arith)
            requires
                x <= 0xffff_ffff_ffff_ffff,
                y <= 0xffff_ffff_ffff_ffff,
        ;
        ((x * y) >> 64u32) as u64
    } else if f3 == 4 {
        div_signed_exec(a, b)
    } else if f3 == 5 {
        div_unsigned_exec(a, b)
    } else if f3 == 6 {
        rem_signed_exec(a, b)
    } else {
        rem_unsigned_exec(a, b)
    }
}

/// Executes an immediate word instruction.
pub fn exec_op_imm_word(f3: u32, raw: u32, a: u64) -> (r: Option<u64>)
    requires
        raw < 4096,
    ensures
        r == op_imm_word(f3, raw, a),
{
    let sh: u32 = raw % 32;
    let lo = a as u32;
    if f3 == 0 {
        let imm: u32 = if raw >= 2048 { raw + 0xffff_f000 } else { raw };
        Some(((lo as u64 + imm as u64) % 0x1_0000_0000) as u32 as i32 as i64 as u64)
    } else if f3 == 1 && raw / 32 == 0 {
        Some((lo << sh) as i32 as i64 as u64)
    } else if f3 == 5 && raw / 32 == 0 {
        Some((lo >> sh) as i32 as i64 as u64)
    } else if f3 == 5 && raw / 32 == 32 {
        Some(((lo as i32) >> sh) as i64 as u64)
    } else {
        None
    }
}

/// Executes a register-register word instruction.
pub fn exec_op_reg_word(f3: u32, f7: u32, a: u64, b: u64) -> (r: Option<u64>)
    requires
        f3 < 8,
    ensures
        r == op_reg_word(f3, f7, a, b),
{
    let sh: u32 = (b % 32) as u32;
    let lo = a as u32;
    let lb = b as u32;
    if f7 == 0 && f3 == 0 {
        Some(((lo as u64 + lb as u64) % 0x1_0000_0000) as u32 as i32 as i64 as u64)
    } else if f7 == 32 && f3 == 0 {
        Some(((lo as u64 + 0x1_0000_0000 - lb as u64) % 0x1_0000_0000) as u32 as i32 as i64 as u64)
    } else if f7 == 0 && f3 == 1 {
        Some((lo << sh) as i32 as i64 as u64)
    } else if f7 == 0 && f3 == 5 {
        Some((lo >> sh) as i32 as i64 as u64)
    } else if f7 == 32 && f3 == 5 {
        Some(((lo as i32) >> sh) as i64 as u64)
    } else if f7 == 1 && f3 == 0 {
        let x = lo as u64;
        let y = lb as u64;
        assert(x * y <= 0xffff_fffe_0000_0001) by (nonlinear_arith)
            requires
                x <= 0xffff_ffff,
                y <= 0xffff_ffff,
        ;
        Some(((x * y) % 0x1_0000_0000) as u32 as i32 as i64 as u64)
    } else if f7 == 1 && f3 >= 4 {
        let sa = (lo as i32 as i64) as u64;
        let sb = (lb as i32 as i64) as u64;
        let r = if f3 == 4 {
            div_signed_exec(sa, sb)
        } else if f3 == 5 {
            div_unsigned_exec(lo as u64, lb as u64)
        } else if f3 == 6 {
            rem_signed_exec(sa, sb)
        } else {
            rem_unsigned_exec(lo as u64, lb as u64)
        };
        Some(r as u32 as i32 as i64 as u64)
    } else {
        None
    }
}

} // verus!
