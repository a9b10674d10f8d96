//! Big-endian byte encodings of the fixed-width integers that appear on the
//! wire: the 32-bit frame length prefix and the 64-bit transaction counter.

use vstd::prelude::*;

verus! {

/// The four big-endian bytes of a 32-bit value, most significant first.
pub open spec fn be32_bytes(n: u32) -> Seq<u8> {
    seq![
        (n / 0x1000000) as u8,
        ((n / 0x10000) % 0x100) as u8,
        ((n / 0x100) % 0x100) as u8,
        (n % 0x100) as u8,
    ]
}

/// The value that four big-endian bytes stand for.
pub open spec fn be32_value(s: Seq<u8>) -> int
    recommends
        s.len() == 4,
{
    s[0] * 0x1000000 + s[1] * 0x10000 + s[2] * 0x100 + s[3]
}

/// The eight big-endian bytes of a 64-bit value, most significant first.
pub open spec fn be64_bytes(n: u64) -> Seq<u8> {
    seq![
        (n / 0x100000000000000) as u8,
        ((n / 0x1000000000000) % 0x100) as u8,
        ((n / 0x10000000000) % 0x100) as u8,
        ((n / 0x100000000) % 0x100) as u8,
        ((n / 0x1000000) % 0x100) as u8,
        ((n / 0x10000) % 0x100) as u8,
        ((n / 0x100) % 0x100) as u8,
        (n % 0x100) as u8,
    ]
}

/// The value that eight big-endian bytes stand for.
pub open spec fn be64_value(s: Seq<u8>) -> int
    recommends
        s.len() == 8,
{
    s[0] * 0x100000000000000 + s[1] * 0x1000000000000 + s[2] * 0x10000000000
        + s[3] * 0x100000000 + s[4] * 0x1000000 + s[5] * 0x10000 + s[6] * 0x100 + s[7]
}

/// Reading back the four big-endian bytes of a 32-bit value yields that value.
pub proof fn lemma_be32_round_trip(n: u32)
    ensures
        be32_bytes(n).len() == 4,
        be32_value(be32_bytes(n)) == n,
{
    assert(((n / 0x1000000) as u8) * 0x1000000 + (((n / 0x10000) % 0x100) as u8) * 0x10000
        + (((n / 0x100) % 0x100) as u8) * 0x100 + ((n % 0x100) as u8) == n) by (bit_vector);
}

/// Reading back the eight big-endian bytes of a 64-bit value yields that value.
pub proof fn lemma_be64_round_trip(n: u64)
    ensures
        be64_bytes(n).len() == 8,
        be64_value(be64_bytes(n)) == n,
{
    assert(((n / 0x100000000000000) as u8) * 0x100000000000000
        + (((n / 0x1000000000000) % 0x100) as u8) * 0x1000000000000
        + (((n / 0x10000000000) % 0x100) as u8) * 0x10000000000
        + (((n / 0x100000000) % 0x100) as u8) * 0x100000000
        + (((n / 0x1000000) % 0x100) as u8) * 0x1000000
        + (((n / 0x10000) % 0x100) as u8) * 0x10000
        + (((n / 0x100) % 0x100) as u8) * 0x100
        + ((n % 0x100) as u8) == n) by (bit_vector);
}

/// Appends the four big-endian bytes of `n` to `out`.
pub fn push_be32(out: &mut Vec<u8>, n: u32)
    ensures
        final(out)@ == old(out)@ + be32_bytes(n),
{
    proof {
        assert(n / 0x1000000 < 0x100) by (bit_vector);
    }
    out.push((n / 0x1000000) as u8);
    out.push(((n / 0x10000) % 0x100) as u8);
    out.push(((n / 0x100) % 0x100) as u8);
    out.push((n % 0x100) as u8);
    proof {
        assert(out@ =~= old(out)@ + be32_bytes(n));
    }
}

/// Appends the eight big-endian bytes of `n` to `out`.
pub fn push_be64(out: &mut Vec<u8>, n: u64)
    ensures
        final(out)@ == old(out)@ + be64_bytes(n),
{
    proof {
        assert(n / 0x100000000000000 < 0x100) by (bit_vector);
    }
    out.push((n / 0x100000000000000) as u8);
    out.push(((n / 0x1000000000000) % 0x100) as u8);
    out.push(((n / 0x10000000000) % 0x100) as u8);
    out.push(((n / 0x100000000) % 0x100) as u8);
    out.push(((n / 0x1000000) % 0x100) as u8);
    out.push(((n / 0x10000) % 0x100) as u8);
    out.push(((n / 0x100) % 0x100) as u8);
    out.push((n % 0x100) as u8);
    proof {
        assert(out@ =~= old(out)@ + be64_bytes(n));
    }
}

/// Reads the 32-bit value of the four big-endian bytes at `at`.
pub fn read_be32(buf: &Vec<u8>, at: usize) -> (r: u32)
    requires
        at + 4 <= buf@.len(),
    ensures
        r == be32_value(buf@.subrange(at as int, at + 4)),
{
    proof {
        // The view's length is the vector's, so the indices below fit a usize.
        assert(buf.len() == buf@.len());
    }
    let b0 = buf[at];
    let b1 = buf[at + 1];
    let b2 = buf[at + 2];
    let b3 = buf[at + 3];
    (b0 as u32) * 0x1000000 + (b1 as u32) * 0x10000 + (b2 as u32) * 0x100 + (b3 as u32)
}

/// Reads the 64-bit value of the eight big-endian bytes at `at`.
pub fn read_be64(buf: &Vec<u8>, at: usize) -> (r: u64)
    requires
        at + 8 <= buf@.len(),
    ensures
        r == be64_value(buf@.subrange(at as int, at + 8)),
{
    proof {
        // The view's length is the vector's, so the indices below fit a usize.
        assert(buf.len() == buf@.len());
    }
    let b0 = buf[at];
    let b1 = buf[at + 1];
    let b2 = buf[at + 2];
    let b3 = buf[at + 3];
    let b4 = buf[at + 4];
    let b5 = buf[at + 5];
    let b6 = buf[at + 6];
    let b7 = buf[at + 7];
    (b0 as u64) * 0x100000000000000 + (b1 as u64) * 0x1000000000000 + (b2 as u64) * 0x10000000000
        + (b3 as u64) * 0x100000000 + (b4 as u64) * 0x1000000 + (b5 as u64) * 0x10000
        + (b6 as u64) * 0x100 + (b7 as u64)
}

} // verus!
