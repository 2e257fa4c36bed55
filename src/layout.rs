use vstd::prelude::*;
use vstd::utf8::encode_utf8;

verus! {

/// Width in bytes of every fixed text field.
pub const FIELD_LEN: usize = 512;

/// A byte sequence placed in a fixed field: the first `FIELD_LEN` bytes are
/// kept and the rest of the field is zero.
pub open spec fn padded(b: Seq<u8>) -> Seq<u8> {
    Seq::new(FIELD_LEN as nat, |i: int| if i < b.len() { b[i] } else { 0u8 })
}

/// Packs the UTF-8 bytes of `s` into a zero-padded fixed field, starting at
/// the field's first byte; bytes beyond the field's width are dropped.
pub fn string_to_array(s: String) -> (r: [u8; 512])
    ensures
        r@ == padded(encode_utf8(s@)),
{
    let bytes: &[u8] = s.as_str().as_bytes();
    let mut ans: [u8; 512] = [0u8; 512];
    let mut i: usize = 0;
    while i < FIELD_LEN
        invariant
            i <= FIELD_LEN,
            bytes@ == encode_utf8(s@),
            ans@.len() == FIELD_LEN,
            forall|j: int| 0 <= j < i ==> ans@[j] == padded(bytes@)[j],
            forall|j: int| i <= j < FIELD_LEN ==> ans@[j] == 0u8,
        decreases FIELD_LEN - i,
    {
        if i < bytes.len() {
            ans[i] = bytes[i];
        }
        i = i + 1;
    }
    assert(ans@ =~= padded(bytes@));
    ans
}

/// The little-endian bytes of a 32-bit signed integer.
pub open spec fn le_bytes(x: i32) -> Seq<u8> {
    let u = x as u32;
    seq![
        (u & 0xff) as u8,
        ((u >> 8u32) & 0xff) as u8,
        ((u >> 16u32) & 0xff) as u8,
        ((u >> 24u32) & 0xff) as u8,
    ]
}

/// The 32-bit signed integer whose little-endian bytes are `b0 b1 b2 b3`.
pub open spec fn from_le(b0: u8, b1: u8, b2: u8, b3: u8) -> i32 {
    ((b0 as u32) | ((b1 as u32) << 8u32) | ((b2 as u32) << 16u32) | ((b3 as u32) << 24u32)) as i32
}

proof fn lemma_u32_bytes(u: u32)
    ensures
        ((u & 0xff) as u8 as u32) | ((((u >> 8u32) & 0xff) as u8 as u32) << 8u32) | ((((u
            >> 16u32) & 0xff) as u8 as u32) << 16u32) | ((((u >> 24u32) & 0xff) as u8 as u32)
            << 24u32) == u,
{
    assert(((u & 0xff) as u8 as u32) | ((((u >> 8u32) & 0xff) as u8 as u32) << 8u32) | ((((u
        >> 16u32) & 0xff) as u8 as u32) << 16u32) | ((((u >> 24u32) & 0xff) as u8 as u32)
        << 24u32) == u) by (bit_vector);
}

proof fn lemma_bytes_u32(b0: u8, b1: u8, b2: u8, b3: u8)
    ensures
        ({
            let u = (b0 as u32) | ((b1 as u32) << 8u32) | ((b2 as u32) << 16u32) | ((b3 as u32)
                << 24u32);
            (u & 0xff) as u8 == b0 && ((u >> 8u32) & 0xff) as u8 == b1 && ((u >> 16u32) & 0xff) as u8
                == b2 && ((u >> 24u32) & 0xff) as u8 == b3
        }),
{
    assert({
        let u = (b0 as u32) | ((b1 as u32) << 8u32) | ((b2 as u32) << 16u32) | ((b3 as u32)
            << 24u32);
        (u & 0xff) as u8 == b0 && ((u >> 8u32) & 0xff) as u8 == b1 && ((u >> 16u32) & 0xff) as u8
            == b2 && ((u >> 24u32) & 0xff) as u8 == b3
    }) by (bit_vector);
}

/// Reading back the little-endian bytes of `x` gives `x`.
pub proof fn lemma_le_round_trip(x: i32)
    ensures
        from_le(le_bytes(x)[0], le_bytes(x)[1], le_bytes(x)[2], le_bytes(x)[3]) == x,
{
    lemma_u32_bytes(x as u32);
    assert((x as u32) as i32 == x) by (bit_vector);
}

/// Four bytes are the little-endian bytes of the integer read from them.
pub proof fn lemma_le_canonical(b0: u8, b1: u8, b2: u8, b3: u8)
    ensures
        le_bytes(from_le(b0, b1, b2, b3)) == seq![b0, b1, b2, b3],
{
    let u = (b0 as u32) | ((b1 as u32) << 8u32) | ((b2 as u32) << 16u32) | ((b3 as u32) << 24u32);
    lemma_bytes_u32(b0, b1, b2, b3);
    assert((u as i32) as u32 == u) by (bit_vector);
    assert(le_bytes(from_le(b0, b1, b2, b3)) =~= seq![b0, b1, b2, b3]);
}

/// Appends the little-endian bytes of `x` to `out`.
pub fn push_le(out: &mut Vec<u8>, x: i32)
    ensures
        final(out)@ == old(out)@ + le_bytes(x),
{
    let u: u32 = x as u32;
    out.push((u & 0xff) as u8);
    out.push(((u >> 8u32) & 0xff) as u8);
    out.push(((u >> 16u32) & 0xff) as u8);
    out.push(((u >> 24u32) & 0xff) as u8);
    assert(final(out)@ =~= old(out)@ + le_bytes(x));
}

/// Reads the integer whose little-endian bytes start at `at`.
pub fn read_le(b: &[u8], at: usize) -> (r: i32)
    requires
        at + 4 <= b@.len(),
    ensures
        r == from_le(b@[at as int], b@[at + 1], b@[at + 2], b@[at + 3]),
{
    ((b[at] as u32) | ((b[at + 1] as u32) << 8u32) | ((b[at + 2] as u32) << 16u32) | ((b[at
        + 3] as u32) << 24u32)) as i32
}

/// Appends the bytes of a fixed field to `out`.
pub fn push_field(out: &mut Vec<u8>, f: &[u8; 512])
    ensures
        final(out)@ == old(out)@ + f@,
{
    let mut i: usize = 0;
    while i < FIELD_LEN
        invariant
            i <= FIELD_LEN,
            f@.len() == FIELD_LEN,
            out@ == old(out)@ + f@.subrange(0, i as int),
        decreases FIELD_LEN - i,
    {
        out.push(f[i]);
        i = i + 1;
        assert(out@ =~= old(out)@ + f@.subrange(0, i as int));
    }
    assert(f@.subrange(0, FIELD_LEN as int) =~= f@);
}

/// Copies the fixed field that starts at `at`.
pub fn read_field(b: &[u8], at: usize) -> (r: [u8; 512])
    requires
        at + FIELD_LEN <= b@.len(),
    ensures
        r@ == b@.subrange(at as int, at + FIELD_LEN),
{
    let n: usize = b.len();
    let mut f: [u8; 512] = [0u8; 512];
    let mut i: usize = 0;
    while i < FIELD_LEN
        invariant
            i <= FIELD_LEN,
            at + FIELD_LEN <= b@.len(),
            b@.len() == n,
            f@.len() == FIELD_LEN,
            forall|j: int| 0 <= j < i ==> f@[j] == b@[at + j],
        decreases FIELD_LEN - i,
    {
        assert(at + i < b@.len());
        f[i] = b[at + i];
        i = i + 1;
    }
    assert(f@ =~= b@.subrange(at as int, at + FIELD_LEN));
    f
}

} // verus!
