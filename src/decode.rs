use vstd::prelude::*;

verus! {

// Fields of a 32-bit RISC-V instruction word, read arithmetically.
pub open spec fn opcode(w: u32) -> u32 { w % 128 }
pub open spec fn rd(w: u32) -> u32 { (w / 128) % 32 }
pub open spec fn funct3(w: u32) -> u32 { (w / 4096) % 8 }
pub open spec fn rs1(w: u32) -> u32 { (w / 32768) % 32 }
pub open spec fn rs2(w: u32) -> u32 { (w / 1048576) % 32 }
pub open spec fn funct7(w: u32) -> u32 { w / 33554432 }

/// Two's-complement sign extension of the `bits`-bit value `raw` to 64 bits.
pub open spec fn sext(raw: nat, bits: nat) -> u64
    recommends
        1 <= bits <= 32,
        raw < pow2(bits),
{
    if raw >= pow2((bits - 1) as nat) {
        (raw + 0x1_0000_0000_0000_0000 - pow2(bits)) as u64
    } else {
        raw as u64
    }
}

pub open spec fn pow2(k: nat) -> nat
    decreases k,
{
    if k == 0 {
        1
    } else {
        2 * pow2((k - 1) as nat)
    }
}

/// The I-type immediate (bits 31..20).
pub open spec fn imm_i(w: u32) -> u64 {
    sext((w / 1048576) as nat, 12)
}

/// The S-type immediate (bits 31..25 and 11..7).
pub open spec fn imm_s(w: u32) -> u64 {
    sext(((w / 33554432) * 32 + rd(w)) as nat, 12)
}

/// The B-type immediate, a multiple of two.
pub open spec fn imm_b(w: u32) -> u64 {
    sext(
        ((w / 2147483648) * 4096 + ((w / 128) % 2) * 2048 + ((w / 33554432) % 64) * 32
            + ((w / 256) % 16) * 2) as nat,
        13,
    )
}

/// The U-type immediate: bits 31..12 in place.
pub open spec fn imm_u(w: u32) -> u64 {
    sext(((w / 4096) * 4096) as nat, 32)
}

/// The J-type immediate, a multiple of two.
pub open spec fn imm_j(w: u32) -> u64 {
    sext(
        ((w / 2147483648) * 1048576 + ((w / 4096) % 256) * 4096 + ((w / 1048576) % 2) * 2048
            + ((w / 2097152) % 1024) * 2) as nat,
        21,
    )
}

proof fn lemma_pow2_values()
    ensures
        pow2(11) == 2048,
        pow2(12) == 4096,
        pow2(20) == 1048576,
        pow2(21) == 2097152,
        pow2(31) == 2147483648,
        pow2(32) == 4294967296,
{
    reveal_with_fuel(pow2, 33);
}

/// Sign-extends a value of `bits` bits, given `half == 2^(bits-1)`.
pub fn sign_extend(raw: u64, half: u64) -> (r: u64)
    requires
        half <= 2147483648,
        raw < 2 * half,
    ensures
        r == (if raw >= half { (raw + 0x1_0000_0000_0000_0000 - 2 * half) as u64 } else { raw }),
{
    if raw >= half {
        raw + (u64::MAX - 2 * half + 1)
    } else {
        raw
    }
}

pub fn decode_imm_i(w: u32) -> (r: u64)
    ensures
        r == imm_i(w),
{
    proof { lemma_pow2_values(); }
    sign_extend((w / 1048576) as u64, 2048)
}

pub fn decode_imm_s(w: u32) -> (r: u64)
    ensures
        r == imm_s(w),
{
    proof { lemma_pow2_values(); }
    sign_extend(((w / 33554432) * 32 + (w / 128) % 32) as u64, 2048)
}

pub fn decode_imm_b(w: u32) -> (r: u64)
    ensures
        r == imm_b(w),
{
    proof { lemma_pow2_values(); }
    let raw: u64 = (w / 2147483648) as u64 * 4096 + ((w / 128) % 2) as u64 * 2048
        + ((w / 33554432) % 64) as u64 * 32 + ((w / 256) % 16) as u64 * 2;
    sign_extend(raw, 4096)
}

pub fn decode_imm_u(w: u32) -> (r: u64)
    ensures
        r == imm_u(w),
{
    proof { lemma_pow2_values(); }
    sign_extend((w / 4096) as u64 * 4096, 2147483648)
}

pub fn decode_imm_j(w: u32) -> (r: u64)
    ensures
        r == imm_j(w),
{
    proof { lemma_pow2_values(); }
    let raw: u64 = (w / 2147483648) as u64 * 1048576 + ((w / 4096) % 256) as u64 * 4096
        + ((w / 1048576) % 2) as u64 * 2048 + ((w / 2097152) % 1024) as u64 * 2;
    sign_extend(raw, 1048576)
}

} // verus!
