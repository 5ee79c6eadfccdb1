//! Byte encodings of integers used on the wire and in the proof transcript.
use vstd::prelude::*;

verus! {

/// The natural number whose little-endian base-256 digits are `bytes`.
pub open spec fn le_nat(bytes: Seq<u8>) -> nat
    decreases bytes.len(),
{
    if bytes.len() == 0 {
        0
    } else {
        bytes[0] as nat + 256 * le_nat(bytes.drop_first())
    }
}

/// The `n` little-endian base-256 digits of `v` (the low `n` digits).
pub open spec fn le_bytes(v: nat, n: nat) -> Seq<u8>
    decreases n,
{
    if n == 0 {
        seq![]
    } else {
        seq![(v % 256) as u8] + le_bytes(v / 256, (n - 1) as nat)
    }
}

/// A byte string is the little-endian encoding of the number it denotes.
pub proof fn lemma_le_bytes_le_nat(b: Seq<u8>)
    ensures
        le_bytes(le_nat(b), b.len()) == b,
    decreases b.len(),
{
    if b.len() > 0 {
        let rest = b.drop_first();
        lemma_le_bytes_le_nat(rest);
        vstd::arithmetic::div_mod::lemma_fundamental_div_mod_converse(
            le_nat(b) as int,
            256,
            le_nat(rest) as int,
            b[0] as int,
        );
        assert(le_bytes(le_nat(b), b.len()) =~= b);
    }
}

/// `256^n`.
pub open spec fn byte_power(n: nat) -> nat
    decreases n,
{
    if n == 0 {
        1
    } else {
        256 * byte_power((n - 1) as nat)
    }
}

/// A number below `256^n` is what its `n` little-endian digits denote.
pub proof fn lemma_le_nat_le_bytes(v: nat, n: nat)
    requires
        v < byte_power(n),
    ensures
        le_bytes(v, n).len() == n,
        le_nat(le_bytes(v, n)) == v,
    decreases n,
{
    if n > 0 {
        let q: nat = v / 256;
        let r: nat = v % 256;
        vstd::arithmetic::div_mod::lemma_fundamental_div_mod(v as int, 256);
        assert(q < byte_power((n - 1) as nat)) by (nonlinear_arith)
            requires
                v == 256 * q + r,
                0 <= r,
                v < 256 * byte_power((n - 1) as nat),
        ;
        lemma_le_nat_le_bytes(q, (n - 1) as nat);
        let s = le_bytes(v, n);
        assert(s.drop_first() =~= le_bytes(q, (n - 1) as nat));
    }
}

/// The eight big-endian bytes of `x`.
pub open spec fn u64_be_bytes(x: u64) -> Seq<u8> {
    seq![
        (x >> 56u64) as u8,
        (x >> 48u64) as u8,
        (x >> 40u64) as u8,
        (x >> 32u64) as u8,
        (x >> 24u64) as u8,
        (x >> 16u64) as u8,
        (x >> 8u64) as u8,
        x as u8,
    ]
}

/// The four big-endian bytes of `x`.
pub open spec fn u32_be_bytes(x: u32) -> Seq<u8> {
    seq![(x >> 24u32) as u8, (x >> 16u32) as u8, (x >> 8u32) as u8, x as u8]
}

/// Big-endian encoding of a `u64`.
pub fn u64_to_be_bytes(x: u64) -> (res: [u8; 8])
    ensures
        res@ == u64_be_bytes(x),
{
    let res = [
        (x >> 56u64) as u8,
        (x >> 48u64) as u8,
        (x >> 40u64) as u8,
        (x >> 32u64) as u8,
        (x >> 24u64) as u8,
        (x >> 16u64) as u8,
        (x >> 8u64) as u8,
        x as u8,
    ];
    assert(res@ =~= u64_be_bytes(x));
    res
}

/// Big-endian encoding of a `u32`.
pub fn u32_to_be_bytes(x: u32) -> (res: [u8; 4])
    ensures
        res@ == u32_be_bytes(x),
{
    let res = [(x >> 24u32) as u8, (x >> 16u32) as u8, (x >> 8u32) as u8, x as u8];
    assert(res@ =~= u32_be_bytes(x));
    res
}

/// Appends `bytes` to the end of `buf`.
pub fn append_bytes(buf: &mut Vec<u8>, bytes: &[u8])
    ensures
        final(buf)@ == old(buf)@ + bytes@,
{
    let mut i: usize = 0;
    while i < bytes.len()
        invariant
            i <= bytes@.len(),
            buf@ == old(buf)@ + bytes@.subrange(0, i as int),
        decreases bytes@.len() - i,
    {
        buf.push(bytes[i]);
        assert(bytes@.subrange(0, i + 1) =~= bytes@.subrange(0, i as int).push(bytes@[i as int]));
        i = i + 1;
    }
    assert(bytes@.subrange(0, bytes@.len() as int) =~= bytes@);
}

/// Byte `i` of the big-endian encoding of `x` is the base-256 digit of
/// weight `256^(7 - i)`.
pub proof fn lemma_u64_be_bytes_digits(x: u64)
    ensures
        u64_be_bytes(x).len() == 8,
        u64_be_bytes(x)[0] == (x / 0x100000000000000) % 256,
        u64_be_bytes(x)[1] == (x / 0x1000000000000) % 256,
        u64_be_bytes(x)[2] == (x / 0x10000000000) % 256,
        u64_be_bytes(x)[3] == (x / 0x100000000) % 256,
        u64_be_bytes(x)[4] == (x / 0x1000000) % 256,
        u64_be_bytes(x)[5] == (x / 0x10000) % 256,
        u64_be_bytes(x)[6] == (x / 0x100) % 256,
        u64_be_bytes(x)[7] == x % 256,
{
    assert((x >> 56u64) as u8 == (x / 0x100000000000000) % 256) by (bit_vector);
    assert((x >> 48u64) as u8 == (x / 0x1000000000000) % 256) by (bit_vector);
    assert((x >> 40u64) as u8 == (x / 0x10000000000) % 256) by (bit_vector);
    assert((x >> 32u64) as u8 == (x / 0x100000000) % 256) by (bit_vector);
    assert((x >> 24u64) as u8 == (x / 0x1000000) % 256) by (bit_vector);
    assert((x >> 16u64) as u8 == (x / 0x10000) % 256) by (bit_vector);
    assert((x >> 8u64) as u8 == (x / 0x100) % 256) by (bit_vector);
    assert(x as u8 == x % 256) by (bit_vector);
}

/// Byte `i` of the big-endian encoding of `x` is the base-256 digit of
/// weight `256^(3 - i)`.
pub proof fn lemma_u32_be_bytes_digits(x: u32)
    ensures
        u32_be_bytes(x).len() == 4,
        u32_be_bytes(x)[0] == (x / 0x1000000) % 256,
        u32_be_bytes(x)[1] == (x / 0x10000) % 256,
        u32_be_bytes(x)[2] == (x / 0x100) % 256,
        u32_be_bytes(x)[3] == x % 256,
{
    assert((x >> 24u32) as u8 == (x / 0x1000000) % 256) by (bit_vector);
    assert((x >> 16u32) as u8 == (x / 0x10000) % 256) by (bit_vector);
    assert((x >> 8u32) as u8 == (x / 0x100) % 256) by (bit_vector);
    assert(x as u8 == x % 256) by (bit_vector);
}

} // verus!
