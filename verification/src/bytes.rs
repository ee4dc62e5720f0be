//! Little-endian byte encodings used to build the outcome seed, and the
//! byte-wise equality test for account identities.

use vstd::prelude::*;

verus! {

/// The eight little-endian base-256 digits of an unsigned 64-bit value.
pub open spec fn spec_u64_le_bytes(n: u64) -> Seq<u8> {
    seq![
        (n % 256) as u8,
        ((n / 256) % 256) as u8,
        ((n / 65536) % 256) as u8,
        ((n / 16777216) % 256) as u8,
        ((n / 4294967296) % 256) as u8,
        ((n / 1099511627776) % 256) as u8,
        ((n / 281474976710656) % 256) as u8,
        ((n / 72057594037927936) % 256) as u8,
    ]
}

/// The two's-complement value of a signed 64-bit integer, as an unsigned one.
pub open spec fn spec_i64_as_u64(n: i64) -> u64 {
    if n >= 0 {
        n as u64
    } else {
        (n + 0x1_0000_0000_0000_0000) as u64
    }
}

/// The eight little-endian bytes of a signed 64-bit value, two's complement.
pub open spec fn spec_i64_le_bytes(n: i64) -> Seq<u8> {
    spec_u64_le_bytes(spec_i64_as_u64(n))
}

/// The unsigned value read little-endian from the first four bytes of `s`.
pub open spec fn spec_u32_from_le(s: Seq<u8>) -> int {
    s[0] + s[1] * 256 + s[2] * 65536 + s[3] * 16777216
}

/// The eight little-endian bytes of `n`.
pub fn u64_le_bytes(n: u64) -> (r: Vec<u8>)
    ensures
        r@ == spec_u64_le_bytes(n),
        r@.len() == 8,
{
    let mut out: Vec<u8> = Vec::new();
    out.push((n % 256) as u8);
    out.push(((n / 256) % 256) as u8);
    out.push(((n / 65536) % 256) as u8);
    out.push(((n / 16777216) % 256) as u8);
    out.push(((n / 4294967296) % 256) as u8);
    out.push(((n / 1099511627776) % 256) as u8);
    out.push(((n / 281474976710656) % 256) as u8);
    out.push(((n / 72057594037927936) % 256) as u8);
    proof {
        assert(out@ =~= spec_u64_le_bytes(n));
    }
    out
}

/// The eight little-endian bytes of a signed value, two's complement, as
/// the host clock's timestamp is fed into the outcome seed.
pub fn i64_le_bytes(n: i64) -> (r: Vec<u8>)
    ensures
        r@ == spec_i64_le_bytes(n),
        r@.len() == 8,
{
    let m: u64 = if n >= 0 {
        n as u64
    } else {
        let wide: i128 = (n as i128) + 18446744073709551616i128;
        wide as u64
    };
    u64_le_bytes(m)
}

/// The unsigned value read little-endian from the first four bytes of `s`.
pub fn u32_from_le(s: &Vec<u8>) -> (r: u32)
    requires
        s@.len() >= 4,
    ensures
        r == spec_u32_from_le(s@),
{
    let b0 = s[0] as u32;
    let b1 = s[1] as u32;
    let b2 = s[2] as u32;
    let b3 = s[3] as u32;
    b0 + b1 * 256 + b2 * 65536 + b3 * 16777216
}

/// Byte-wise equality of two 32-byte account identities.
pub fn ids_equal(a: &[u8; 32], b: &[u8; 32]) -> (r: bool)
    ensures
        r <==> a@ == b@,
{
    let mut i: usize = 0;
    while i < 32
        invariant
            i <= 32,
            forall|j: int| 0 <= j < i ==> a@[j] == b@[j],
        decreases 32 - i,
    {
        if a[i] != b[i] {
            return false;
        }
        i = i + 1;
    }
    proof {
        assert(a@ =~= b@);
    }
    true
}

} // verus!
