use vstd::prelude::*;
use crate::model::pow256;

verus! {

/// Size in bytes of a machine's flat memory.
pub const MEMORY_SIZE: usize = 1048576;

/// The unsigned little-endian number that `b` encodes.
pub open spec fn le_value(b: Seq<u8>) -> nat
    decreases b.len(),
{
    if b.len() == 0 {
        0
    } else {
        b[0] as nat + 256 * le_value(b.drop_first())
    }
}

/// `mem` with the `n` low bytes of `v` stored little-endian at `addr`.
pub open spec fn store_le(mem: Seq<u8>, addr: int, v: nat, n: int) -> Seq<u8> {
    Seq::new(
        mem.len(),
        |i: int|
            if addr <= i < addr + n {
                ((v / pow256((i - addr) as nat)) % 256) as u8
            } else {
                mem[i]
            },
    )
}

/// `mem` with `data` copied to `addr`.
pub open spec fn write_bytes(mem: Seq<u8>, addr: int, data: Seq<u8>) -> Seq<u8> {
    Seq::new(
        mem.len(),
        |i: int| if addr <= i < addr + data.len() { data[i - addr] } else { mem[i] },
    )
}

pub proof fn lemma_le_value_bound(b: Seq<u8>)
    ensures
        le_value(b) < pow256(b.len()),
    decreases b.len(),
{
    if b.len() > 0 {
        lemma_le_value_bound(b.drop_first());
    }
}

pub proof fn lemma_pow256_positive(k: nat)
    ensures
        pow256(k) > 0,
    decreases k,
{
    if k > 0 {
        lemma_pow256_positive((k - 1) as nat);
    }
}

proof fn lemma_pow256_values()
    ensures
        pow256(1) == 0x100,
        pow256(2) == 0x10000,
        pow256(3) == 0x1000000,
        pow256(4) == 0x100000000,
        pow256(5) == 0x10000000000,
        pow256(6) == 0x1000000000000,
        pow256(7) == 0x100000000000000,
        pow256(8) == 0x10000000000000000,
{
    reveal_with_fuel(pow256, 9);
}

/// Reads the `n`-byte little-endian number at `addr`.
pub fn read_le(mem: &Vec<u8>, addr: usize, n: usize) -> (r: u64)
    requires
        1 <= n <= 8,
        addr + n <= mem@.len(),
    ensures
        r == le_value(mem@.subrange(addr as int, addr + n)),
{
    let len: usize = mem.len();
    let mut v: u64 = 0;
    let mut i: usize = n;
    proof {
        lemma_pow256_values();
    }
    while i > 0
        invariant
            i <= n <= 8,
            addr + n <= mem@.len(),
            len == mem@.len(),
            v == le_value(mem@.subrange(addr + i, addr + n)),
            pow256(1) == 0x100,
            pow256(2) == 0x10000,
            pow256(3) == 0x1000000,
            pow256(4) == 0x100000000,
            pow256(5) == 0x10000000000,
            pow256(6) == 0x1000000000000,
            pow256(7) == 0x100000000000000,
            pow256(8) == 0x10000000000000000,
        decreases i,
    {
        let ghost tail = mem@.subrange(addr + i, addr + n);
        let ghost longer = mem@.subrange(addr + i - 1, addr + n);
        proof {
            lemma_le_value_bound(tail);
            assert(longer.drop_first() =~= tail);
            assert(tail.len() <= 7);
            assert(pow256(tail.len()) <= 0x100000000000000);
        }
        v = v * 256 + mem[addr + i - 1] as u64;
        i = i - 1;
    }
    v
}

/// Stores the `n` low bytes of `v` little-endian at `addr`.
pub fn write_le(mem: &mut Vec<u8>, addr: usize, v: u64, n: usize)
    requires
        n <= 8,
        addr + n <= old(mem)@.len(),
    ensures
        final(mem)@ == store_le(old(mem)@, addr as int, v as nat, n as int),
{
    let ghost orig = mem@;
    let len: usize = mem.len();
    let mut rest: u64 = v;
    assert(pow256(0) == 1);
    let mut k: usize = 0;
    while k < n
        invariant
            k <= n,
            addr + n <= orig.len(),
            mem@.len() == orig.len(),
            len == orig.len(),
            rest == v as nat / pow256(k as nat),
            forall|i: int| 0 <= i < mem@.len() ==> #[trigger] mem@[i] == (
                if addr <= i < addr + k {
                    ((v as nat / pow256((i - addr) as nat)) % 256) as u8
                } else {
                    orig[i]
                }),
        decreases n - k,
    {
        mem.set(addr + k, (rest % 256) as u8);
        proof {
            lemma_pow256_positive(k as nat);
            vstd::arithmetic::div_mod::lemma_div_denominator(v as int, pow256(k as nat) as int, 256);
            assert(pow256((k + 1) as nat) == pow256(k as nat) * 256);
            vstd::arithmetic::mul::lemma_mul_is_commutative(pow256(k as nat) as int, 256);
        }
        rest = rest / 256;
        k = k + 1;
    }
    assert(mem@ =~= store_le(orig, addr as int, v as nat, n as int));
}

/// Copies `data` into `mem` at `addr`.
pub fn copy_in(mem: &mut Vec<u8>, addr: usize, data: &Vec<u8>)
    requires
        addr + data@.len() <= old(mem)@.len(),
    ensures
        final(mem)@ == write_bytes(old(mem)@, addr as int, data@),
{
    let ghost orig = mem@;
    let len: usize = mem.len();
    let mut k: usize = 0;
    while k < data.len()
        invariant
            k <= data@.len(),
            addr + data@.len() <= orig.len(),
            mem@.len() == orig.len(),
            len == orig.len(),
            forall|i: int| 0 <= i < mem@.len() ==> #[trigger] mem@[i] == (
                if addr <= i < addr + k { data@[i - addr] } else { orig[i] }),
        decreases data@.len() - k,
    {
        mem.set(addr + k, data[k]);
        k = k + 1;
    }
    assert(mem@ =~= write_bytes(orig, addr as int, data@));
}

/// Copies `len` bytes of `mem` from `addr` out into a new vector.
pub fn copy_out(mem: &Vec<u8>, addr: usize, len: usize) -> (r: Vec<u8>)
    requires
        addr + len <= mem@.len(),
    ensures
        r@ == mem@.subrange(addr as int, addr + len),
{
    let size: usize = mem.len();
    let mut out: Vec<u8> = Vec::new();
    let mut k: usize = 0;
    while k < len
        invariant
            k <= len,
            size == mem@.len(),
            addr + len <= mem@.len(),
            out@ == mem@.subrange(addr as int, addr + k),
        decreases len - k,
    {
        out.push(mem[addr + k]);
        k = k + 1;
        assert(out@ =~= mem@.subrange(addr as int, addr + k));
    }
    out
}

} // verus!
