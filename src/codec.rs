use vstd::prelude::*;

verus! {

/// The oldest message version that the codec accepts.
pub const MIN_MESSAGE_VERSION: u8 = 3;

/// The message version that the codec writes by default.
pub const CURRENT_MESSAGE_VERSION: u8 = 4;

/// Whether the codec accepts `v` as a message version.
pub open spec fn valid_version(v: u8) -> bool {
    MIN_MESSAGE_VERSION <= v <= CURRENT_MESSAGE_VERSION
}

/// The four big-endian bytes of `x`.
pub open spec fn u32_be(x: u32) -> Seq<u8> {
    seq![(x >> 24u32) as u8, (x >> 16u32) as u8, (x >> 8u32) as u8, x as u8]
}

/// Appends the four big-endian bytes of `x` to `out`.
pub fn push_u32(out: &mut Vec<u8>, x: u32)
    ensures
        final(out)@ == old(out)@ + u32_be(x),
{
    out.push((x >> 24u32) as u8);
    out.push((x >> 16u32) as u8);
    out.push((x >> 8u32) as u8);
    out.push(x as u8);
    assert(out@ =~= old(out)@ + u32_be(x));
}

/// Reads the big-endian integer held in the four bytes of `b` from `pos`.
pub fn read_u32(b: &[u8], pos: usize) -> (r: u32)
    requires
        pos + 4 <= b@.len(),
    ensures
        u32_be(r) == b@.subrange(pos as int, pos + 4),
{
    let b0: u8 = b[pos];
    let b1: u8 = b[pos + 1];
    let b2: u8 = b[pos + 2];
    let b3: u8 = b[pos + 3];
    let x: u32 = ((b0 as u32) << 24u32) | ((b1 as u32) << 16u32) | ((b2 as u32) << 8u32) | (b3 as u32);
    assert((x >> 24u32) as u8 == b0 && (x >> 16u32) as u8 == b1 && (x >> 8u32) as u8 == b2
        && x as u8 == b3) by (bit_vector)
        requires
            x == ((b0 as u32) << 24u32) | ((b1 as u32) << 16u32) | ((b2 as u32) << 8u32) | (
            b3 as u32),
    ;
    assert(u32_be(x) =~= b@.subrange(pos as int, pos + 4));
    x
}

/// The eight big-endian bytes of `x`.
pub open spec fn u64_be(x: u64) -> Seq<u8> {
    u32_be((x >> 32u64) as u32) + u32_be(x as u32)
}

/// Appends the eight big-endian bytes of `x` to `out`.
pub fn push_u64(out: &mut Vec<u8>, x: u64)
    ensures
        final(out)@ == old(out)@ + u64_be(x),
{
    push_u32(out, (x >> 32u64) as u32);
    push_u32(out, x as u32);
    assert(out@ =~= old(out)@ + u64_be(x));
}

/// Reads the big-endian integer held in the eight bytes of `b` from `pos`.
pub fn read_u64(b: &[u8], pos: usize) -> (r: u64)
    requires
        pos + 8 <= b@.len(),
    ensures
        u64_be(r) == b@.subrange(pos as int, pos + 8),
{
    let n: usize = b.len();
    assert(pos + 4 < n);
    let hi: u32 = read_u32(b, pos);
    let lo: u32 = read_u32(b, pos + 4);
    let x: u64 = ((hi as u64) << 32u64) | (lo as u64);
    assert((x >> 32u64) as u32 == hi && x as u32 == lo) by (bit_vector)
        requires
            x == ((hi as u64) << 32u64) | (lo as u64),
    ;
    assert(u64_be(x) =~= b@.subrange(pos as int, pos + 8));
    x
}

/// Two 64-bit integers with equal halves are equal.
pub proof fn lemma_u64_halves(x: u64, y: u64)
    requires
        (x >> 32u64) as u32 == (y >> 32u64) as u32,
        x as u32 == y as u32,
    ensures
        x == y,
{
    assert(x == y) by (bit_vector)
        requires
            (x >> 32u64) as u32 == (y >> 32u64) as u32,
            x as u32 == y as u32,
    ;
}

/// Two integers with the same big-endian bytes are equal.
pub proof fn lemma_u32_be_injective(x: u32, y: u32)
    requires
        u32_be(x) == u32_be(y),
    ensures
        x == y,
{
    assert(u32_be(x)[0] == u32_be(y)[0]);
    assert(u32_be(x)[1] == u32_be(y)[1]);
    assert(u32_be(x)[2] == u32_be(y)[2]);
    assert(u32_be(x)[3] == u32_be(y)[3]);
    assert(x == y) by (bit_vector)
        requires
            (x >> 24u32) as u8 == (y >> 24u32) as u8,
            (x >> 16u32) as u8 == (y >> 16u32) as u8,
            (x >> 8u32) as u8 == (y >> 8u32) as u8,
            x as u8 == y as u8,
    ;
}

/// The bytes of zero are all zero.
pub proof fn lemma_u32_be_zero()
    ensures
        u32_be(0u32) == seq![0u8, 0u8, 0u8, 0u8],
{
    assert((0u32 >> 24u32) as u8 == 0u8 && (0u32 >> 16u32) as u8 == 0u8 && (0u32 >> 8u32) as u8
        == 0u8 && 0u32 as u8 == 0u8) by (bit_vector);
    assert(u32_be(0u32) =~= seq![0u8, 0u8, 0u8, 0u8]);
}

/// Copies `b[start..end]` into a new vector.
pub fn slice_to_vec(b: &[u8], start: usize, end: usize) -> (r: Vec<u8>)
    requires
        start <= end <= b@.len(),
    ensures
        r@ == b@.subrange(start as int, end as int),
{
    let mut out: Vec<u8> = Vec::new();
    let mut i: usize = start;
    while i < end
        invariant
            start <= i <= end,
            end <= b@.len(),
            out@ == b@.subrange(start as int, i as int),
        decreases end - i,
    {
        out.push(b[i]);
        i = i + 1;
        assert(out@ =~= b@.subrange(start as int, i as int));
    }
    out
}

/// Copies the bytes of `v` into a new vector.
pub fn copy_vec(v: &Vec<u8>) -> (r: Vec<u8>)
    ensures
        r@ == v@,
{
    let r = slice_to_vec(v.as_slice(), 0, v.len());
    assert(v@.subrange(0, v@.len() as int) =~= v@);
    r
}

} // verus!
