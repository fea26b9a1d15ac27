use vstd::prelude::*;
use crate::model::{Locator, Script, pow256, u32_le, u64_le, script_bytes, locator_bytes};
use crate::memory::lemma_pow256_positive;

verus! {

/// Appends all of `src` to `dst`.
pub fn append_all(dst: &mut Vec<u8>, src: &Vec<u8>)
    ensures
        final(dst)@ == old(dst)@ + src@,
{
    let ghost start = dst@;
    let mut i: usize = 0;
    while i < src.len()
        invariant
            i <= src@.len(),
            dst@ == start + src@.subrange(0, i as int),
        decreases src@.len() - i,
    {
        dst.push(src[i]);
        i = i + 1;
        assert(dst@ =~= start + src@.subrange(0, i as int));
    }
    assert(src@.subrange(0, src@.len() as int) =~= src@);
}

/// The eight little-endian bytes of `v`.
pub fn encode_u64(v: u64) -> (r: Vec<u8>)
    ensures
        r@ == u64_le(v),
{
    let mut out: Vec<u8> = Vec::new();
    let mut rest: u64 = v;
    let mut k: usize = 0;
    assert(pow256(0) == 1);
    while k < 8
        invariant
            k <= 8,
            rest == v as nat / pow256(k as nat),
            out@.len() == k,
            forall|i: int| 0 <= i < k ==> #[trigger] out@[i] == ((v as nat / pow256(i as nat)) % 256) as u8,
        decreases 8 - k,
    {
        out.push((rest % 256) as u8);
        proof {
            lemma_pow256_positive(k as nat);
            vstd::arithmetic::div_mod::lemma_div_denominator(v as int, pow256(k as nat) as int, 256);
            assert(pow256((k + 1) as nat) == pow256(k as nat) * 256);
            vstd::arithmetic::mul::lemma_mul_is_commutative(pow256(k as nat) as int, 256);
        }
        rest = rest / 256;
        k = k + 1;
    }
    assert(out@ =~= u64_le(v));
    out
}

/// The serialised form of a script.
pub fn encode_script(s: &Script) -> (r: Vec<u8>)
    ensures
        r@ == script_bytes(*s),
{
    let mut out: Vec<u8> = Vec::new();
    append_all(&mut out, &s.code_hash);
    out.push(s.hash_type);
    append_all(&mut out, &s.args);
    assert(out@ =~= script_bytes(*s));
    out
}

/// The bytes of a locator: hash, then index little-endian.
pub fn encode_locator(l: &Locator) -> (r: Vec<u8>)
    ensures
        r@ == locator_bytes(*l),
{
    let mut out: Vec<u8> = Vec::new();
    append_all(&mut out, &l.tx_hash);
    let i = l.index;
    out.push((i % 256) as u8);
    out.push(((i / 256) % 256) as u8);
    out.push(((i / 65536) % 256) as u8);
    out.push(((i / 16777216) % 256) as u8);
    assert(out@ =~= locator_bytes(*l));
    out
}

} // verus!
