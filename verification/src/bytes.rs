//! Primitive byte-level codec: big-endian integers, booleans, raw byte runs
//! and NUL-terminated strings, read and written at a cursor position into a
//! byte buffer, plus the XOR obfuscation step used by the packet envelope.
use vstd::prelude::*;

verus! {

/// Big-endian 4-byte encoding of a 32-bit unsigned integer.
pub open spec fn be32(v: u32) -> Seq<u8> {
    seq![
        ((v >> 24) & 0xff) as u8,
        ((v >> 16) & 0xff) as u8,
        ((v >> 8) & 0xff) as u8,
        (v & 0xff) as u8,
    ]
}

/// The 32-bit unsigned integer denoted by 4 big-endian bytes.
pub open spec fn be32_val(s: Seq<u8>) -> u32
    recommends
        s.len() == 4,
{
    (((s[0] as u32) << 24) | ((s[1] as u32) << 16) | ((s[2] as u32) << 8) | (s[3] as u32)) as u32
}

/// Reading back the 4 big-endian bytes of a value yields the value.
pub proof fn lemma_be32_round_trip(v: u32)
    ensures
        be32_val(be32(v)) == v,
{
    let b0 = ((v >> 24) & 0xff) as u8;
    let b1 = ((v >> 16) & 0xff) as u8;
    let b2 = ((v >> 8) & 0xff) as u8;
    let b3 = (v & 0xff) as u8;
    assert((b0 as u32) << 24 | (b1 as u32) << 16 | (b2 as u32) << 8 | (b3 as u32) == v)
        by (bit_vector)
        requires
            b0 == ((v >> 24) & 0xff) as u8,
            b1 == ((v >> 16) & 0xff) as u8,
            b2 == ((v >> 8) & 0xff) as u8,
            b3 == (v & 0xff) as u8,
    ;
}

/// Big-endian 8-byte encoding of a 64-bit unsigned integer.
pub open spec fn be64(v: u64) -> Seq<u8> {
    seq![
        ((v >> 56) & 0xff) as u8,
        ((v >> 48) & 0xff) as u8,
        ((v >> 40) & 0xff) as u8,
        ((v >> 32) & 0xff) as u8,
        ((v >> 24) & 0xff) as u8,
        ((v >> 16) & 0xff) as u8,
        ((v >> 8) & 0xff) as u8,
        (v & 0xff) as u8,
    ]
}

/// The 64-bit unsigned integer denoted by 8 big-endian bytes.
pub open spec fn be64_val(s: Seq<u8>) -> u64
    recommends
        s.len() == 8,
{
    (((s[0] as u64) << 56) | ((s[1] as u64) << 48) | ((s[2] as u64) << 40) | ((s[3] as u64) << 32)
        | ((s[4] as u64) << 24) | ((s[5] as u64) << 16) | ((s[6] as u64) << 8) | (s[7] as u64)) as u64
}

/// Reading back the 8 big-endian bytes of a value yields the value.
pub proof fn lemma_be64_round_trip(v: u64)
    ensures
        be64_val(be64(v)) == v,
{
    let b0 = ((v >> 56) & 0xff) as u8;
    let b1 = ((v >> 48) & 0xff) as u8;
    let b2 = ((v >> 40) & 0xff) as u8;
    let b3 = ((v >> 32) & 0xff) as u8;
    let b4 = ((v >> 24) & 0xff) as u8;
    let b5 = ((v >> 16) & 0xff) as u8;
    let b6 = ((v >> 8) & 0xff) as u8;
    let b7 = (v & 0xff) as u8;
    assert((b0 as u64) << 56 | (b1 as u64) << 48 | (b2 as u64) << 40 | (b3 as u64) << 32 | (
    b4 as u64) << 24 | (b5 as u64) << 16 | (b6 as u64) << 8 | (b7 as u64) == v)
        by (bit_vector)
        requires
            b0 == ((v >> 56) & 0xff) as u8,
            b1 == ((v >> 48) & 0xff) as u8,
            b2 == ((v >> 40) & 0xff) as u8,
            b3 == ((v >> 32) & 0xff) as u8,
            b4 == ((v >> 24) & 0xff) as u8,
            b5 == ((v >> 16) & 0xff) as u8,
            b6 == ((v >> 8) & 0xff) as u8,
            b7 == (v & 0xff) as u8,
    ;
}

/// A byte sequence XOR-obfuscated with a repeating key.
pub open spec fn xor_seq(s: Seq<u8>, k: Seq<u8>) -> Seq<u8>
    recommends
        k.len() > 0,
{
    Seq::new(s.len(), |i: int| s[i] ^ k[i % (k.len() as int)])
}

/// The 4-byte big-endian image of zero is four zero bytes.
pub proof fn lemma_be32_zero()
    ensures
        be32(0) == seq![0u8, 0u8, 0u8, 0u8],
{
    assert(((0u32 >> 24) & 0xff) as u8 == 0u8) by (bit_vector);
    assert(((0u32 >> 16) & 0xff) as u8 == 0u8) by (bit_vector);
    assert(((0u32 >> 8) & 0xff) as u8 == 0u8) by (bit_vector);
    assert((0u32 & 0xff) as u8 == 0u8) by (bit_vector);
    assert(be32(0) =~= seq![0u8, 0u8, 0u8, 0u8]);
}

/// XOR-ing a zero byte with any byte yields that byte.
pub proof fn lemma_xor_zero_byte(b: u8)
    ensures
        0u8 ^ b == b,
{
    assert(0u8 ^ b == b) by (bit_vector);
}

/// Obfuscation commutes with taking a slice that starts at a multiple of the
/// 4-byte key length.
pub proof fn lemma_xor_slice_aligned(s: Seq<u8>, k: Seq<u8>, a: int, b: int)
    requires
        k.len() == 4,
        0 <= a <= b <= s.len(),
        a % 4 == 0,
    ensures
        xor_seq(s, k).subrange(a, b) == xor_seq(s.subrange(a, b), k),
{
    assert forall|j: int| 0 <= j < b - a implies xor_seq(s, k).subrange(a, b)[j] == xor_seq(
        s.subrange(a, b),
        k,
    )[j] by {
        assert((a + j) % 4 == j % 4) by (nonlinear_arith)
            requires
                a % 4 == 0,
                0 <= j,
                0 <= a,
        ;
    }
    assert(xor_seq(s, k).subrange(a, b) =~= xor_seq(s.subrange(a, b), k));
}

/// XOR-ing twice with the same key restores the original bytes.
pub proof fn lemma_xor_involutive(s: Seq<u8>, k: Seq<u8>)
    requires
        k.len() > 0,
    ensures
        xor_seq(xor_seq(s, k), k) == s,
{
    assert forall|i: int| 0 <= i < s.len() implies xor_seq(xor_seq(s, k), k)[i] == s[i] by {
        let b = s[i];
        let key = k[i % (k.len() as int)];
        assert((b ^ key) ^ key == b) by (bit_vector);
    }
    assert(xor_seq(xor_seq(s, k), k) =~= s);
}

} // verus!
