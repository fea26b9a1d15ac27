use vstd::prelude::*;
use std::str::FromStr;
use vstd::string::StringSliceAdditionalSpecFns;

verus! {

/// The value of an ASCII hexadecimal digit of either case.
pub open spec fn hex_digit(c: u8) -> Option<u8> {
    if 48 <= c <= 57 {
        Some((c - 48) as u8)
    } else if 97 <= c <= 102 {
        Some((c - 87) as u8)
    } else if 65 <= c <= 70 {
        Some((c - 55) as u8)
    } else {
        None
    }
}

/// The text without a leading `0x`.
pub open spec fn strip_0x(b: Seq<u8>) -> Seq<u8> {
    if b.len() >= 2 && b[0] == 48 && b[1] == 120 {
        b.subrange(2, b.len() as int)
    } else {
        b
    }
}

/// An even number of hexadecimal digits.
pub open spec fn is_hex(d: Seq<u8>) -> bool {
    d.len() % 2 == 0 && forall|i: int| 0 <= i < d.len() ==> (#[trigger] hex_digit(d[i])) is Some
}

/// The bytes that a string of hexadecimal digits spells, two digits per
/// byte, high digit first.
pub open spec fn hex_bytes(d: Seq<u8>) -> Seq<u8> {
    Seq::new(d.len() / 2, |i: int| (hex_digit(d[2 * i])->0 * 16 + hex_digit(d[2 * i + 1])->0) as u8)
}

fn digit(c: u8) -> (r: Option<u8>)
    ensures
        r == hex_digit(c),
{
    if 48 <= c && c <= 57 {
        Some(c - 48)
    } else if 97 <= c && c <= 102 {
        Some(c - 87)
    } else if 65 <= c && c <= 70 {
        Some(c - 55)
    } else {
        None
    }
}

fn without_0x(b: &[u8]) -> (r: &[u8])
    ensures
        r@ == strip_0x(b@),
{
    if b.len() >= 2 && b[0] == 48 && b[1] == 120 {
        let (_, rest) = b.split_at(2);
        rest
    } else {
        b
    }
}

/// Decodes hexadecimal text, with or without a `0x` prefix; `None` if the
/// rest is not an even number of hexadecimal digits.
pub fn decode_hex(s: &str) -> (r: Option<Vec<u8>>)
    ensures
        r is Some <==> is_hex(strip_0x(s.spec_bytes())),
        r is Some ==> r->0@ == hex_bytes(strip_0x(s.spec_bytes())),
{
    let d = without_0x(s.as_bytes());
    if d.len() % 2 != 0 {
        return None;
    }
    let mut out: Vec<u8> = Vec::new();
    let mut i: usize = 0;
    while i < d.len() / 2
        invariant
            d@ == strip_0x(s.spec_bytes()),
            d@.len() % 2 == 0,
            i <= d@.len() / 2,
            forall|j: int| 0 <= j < 2 * i ==> (#[trigger] hex_digit(d@[j])) is Some,
            out@ == hex_bytes(d@).subrange(0, i as int),
        decreases d@.len() / 2 - i,
    {
        let hi = digit(d[2 * i]);
        let lo = digit(d[2 * i + 1]);
        match (hi, lo) {
            (Some(h), Some(l)) => {
                out.push(h * 16 + l);
                proof {
                    assert forall|j: int| 0 <= j < 2 * (i + 1) implies (#[trigger] hex_digit(d@[j])) is Some by {
                        if j == 2 * i || j == 2 * i + 1 {
                        }
                    }
                }
                i = i + 1;
                assert(out@ =~= hex_bytes(d@).subrange(0, i as int));
            },
            _ => {
                proof {
                    let j: int = if hi is None { 2 * i } else { 2 * i + 1 };
                    assert(!(hex_digit(d@[j]) is Some));
                    assert(!is_hex(d@));
                }
                return None;
            },
        }
    }
    assert(out@ =~= hex_bytes(d@));
    Some(out)
}

/// Relies on `ckb_types::H256::from_str` (ckb-fixed-hash): it accepts
/// exactly 64 hexadecimal digits of either case, and byte `i` of the hash
/// is digit `2i` times sixteen plus digit `2i + 1`. A byte string that is
/// not UTF-8 holds no such digits.
#[verifier::external_body]
fn h256_from_digits(digits: &[u8]) -> (r: Option<Vec<u8>>)
    ensures
        match r {
            Some(h) => digits@.len() == 64 && is_hex(digits@) && h@ == hex_bytes(digits@),
            None => !(digits@.len() == 64 && is_hex(digits@)),
        },
{
    let text = std::str::from_utf8(digits).ok()?;
    ckb_types::H256::from_str(text).ok().map(|h| h.0.to_vec())
}

/// Reads a 32-byte transaction hash written as 64 hexadecimal digits,
/// with or without a `0x` prefix.
pub fn parse_tx_hash(s: &str) -> (r: Option<Vec<u8>>)
    ensures
        r is Some <==> strip_0x(s.spec_bytes()).len() == 64 && is_hex(strip_0x(s.spec_bytes())),
        r is Some ==> r->0@ == hex_bytes(strip_0x(s.spec_bytes())),
{
    h256_from_digits(without_0x(s.as_bytes()))
}

} // verus!
