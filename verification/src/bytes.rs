//! Byte buffers and little-endian integers.

use vstd::prelude::*;

verus! {

/// The four bytes of `x`, least significant first.
pub open spec fn le32(x: u32) -> Seq<u8> {
    seq![
        (x % 256) as u8,
        (x / 256 % 256) as u8,
        (x / 65536 % 256) as u8,
        (x / 16777216) as u8,
    ]
}

/// The eight bytes of `x`, least significant first.
pub open spec fn le64(x: u64) -> Seq<u8> {
    le32((x % 0x1_0000_0000) as u32) + le32((x / 0x1_0000_0000) as u32)
}

/// The number whose little-endian bytes are the four from `b[at]` on.
pub open spec fn u32_at(b: Seq<u8>, at: int) -> u32 {
    (b[at] + 256 * b[at + 1] + 65536 * b[at + 2] + 16777216 * b[at + 3]) as u32
}

/// The number whose little-endian bytes are the eight from `b[at]` on.
pub open spec fn u64_at(b: Seq<u8>, at: int) -> u64 {
    (u32_at(b, at) + 0x1_0000_0000 * u32_at(b, at + 4)) as u64
}

/// The 32 bits of a signed number, read as an unsigned one.
pub open spec fn bits_of(x: i32) -> u32 {
    if x >= 0 {
        x as u32
    } else {
        (x + 0x1_0000_0000) as u32
    }
}

/// The signed number with the 32 bits of `x`.
pub open spec fn signed_of(x: u32) -> i32 {
    if x < 0x8000_0000 {
        x as i32
    } else {
        (x - 0x1_0000_0000) as i32
    }
}

/// Append `src` to `dst`.
pub fn append(dst: &mut Vec<u8>, src: &[u8])
    ensures
        final(dst)@ == old(dst)@ + src@,
{
    dst.extend_from_slice(src);
    assert(dst@ =~= old(dst)@ + src@);
}

/// The bytes `src[from..to]`, copied.
pub fn copy_range(src: &[u8], from: usize, to: usize) -> (out: Vec<u8>)
    requires
        from <= to <= src@.len(),
    ensures
        out@ == src@.subrange(from as int, to as int),
{
    let mut out: Vec<u8> = Vec::new();
    append(&mut out, vstd::slice::slice_subrange(src, from, to));
    assert(out@ =~= src@.subrange(from as int, to as int));
    out
}

/// A copy of `src`.
pub fn copy_all(src: &[u8]) -> (out: Vec<u8>)
    ensures
        out@ == src@,
{
    let out = copy_range(src, 0, src.len());
    assert(out@ =~= src@);
    out
}

/// Whether the two buffers hold the same bytes.
pub fn equal(a: &[u8], b: &[u8]) -> (same: bool)
    ensures
        same == (a@ == b@),
{
    if a.len() != b.len() {
        return false;
    }
    let mut i: usize = 0;
    while i < a.len()
        invariant
            i <= a@.len() == b@.len(),
            forall|j: int| 0 <= j < i ==> a@[j] == b@[j],
        decreases a@.len() - i,
    {
        if a[i] != b[i] {
            return false;
        }
        i += 1;
    }
    assert(a@ =~= b@);
    true
}

/// Append the four little-endian bytes of `x`.
pub fn push_u32(dst: &mut Vec<u8>, x: u32)
    ensures
        final(dst)@ == old(dst)@ + le32(x),
{
    dst.push((x % 256) as u8);
    dst.push((x / 256 % 256) as u8);
    dst.push((x / 65536 % 256) as u8);
    dst.push((x / 16777216) as u8);
    assert(dst@ =~= old(dst)@ + le32(x));
}

/// Append the eight little-endian bytes of `x`.
pub fn push_u64(dst: &mut Vec<u8>, x: u64)
    ensures
        final(dst)@ == old(dst)@ + le64(x),
{
    push_u32(dst, (x % 0x1_0000_0000) as u32);
    push_u32(dst, (x / 0x1_0000_0000) as u32);
    assert(dst@ =~= old(dst)@ + le64(x));
}

/// Append the four little-endian bytes of a signed number.
pub fn push_i32(dst: &mut Vec<u8>, x: i32)
    ensures
        final(dst)@ == old(dst)@ + le32(bits_of(x)),
{
    push_u32(dst, to_bits(x));
}

/// The 32 bits of a signed number.
pub fn to_bits(x: i32) -> (bits: u32)
    ensures
        bits == bits_of(x),
{
    if x >= 0 {
        x as u32
    } else {
        (x as i64 + 0x1_0000_0000) as u32
    }
}

/// The signed number with these 32 bits.
pub fn from_bits(bits: u32) -> (x: i32)
    ensures
        x == signed_of(bits),
{
    if bits < 0x8000_0000 {
        bits as i32
    } else {
        (bits as i64 - 0x1_0000_0000) as i32
    }
}

/// Read a little-endian `u32` at `at`.
pub fn read_u32(b: &[u8], at: usize) -> (x: u32)
    requires
        at + 4 <= b@.len(),
    ensures
        x == u32_at(b@, at as int),
{
    b[at] as u32 + 256 * (b[at + 1] as u32) + 65536 * (b[at + 2] as u32) + 16777216 * (b[at
        + 3] as u32)
}

/// Read a little-endian `u64` at `at`.
pub fn read_u64(b: &[u8], at: usize) -> (x: u64)
    requires
        at + 8 <= b@.len(),
    ensures
        x == u64_at(b@, at as int),
{
    let low: u32 = read_u32(b, at);
    let total: usize = b.len();
    assert(at + 8 <= total);
    low as u64 + 0x1_0000_0000 * (read_u32(b, at + 4) as u64)
}

/// Reading the eight bytes of `x` gives `x`.
pub proof fn lemma_u64_at(b: Seq<u8>, at: int, x: u64)
    requires
        0 <= at,
        at + 8 <= b.len(),
        b.subrange(at, at + 8) == le64(x),
    ensures
        u64_at(b, at) == x,
{
    let low = (x % 0x1_0000_0000) as u32;
    let high = (x / 0x1_0000_0000) as u32;
    let all = b.subrange(at, at + 8);
    assert(b.subrange(at, at + 4) =~= all.subrange(0, 4));
    assert(b.subrange(at + 4, at + 8) =~= all.subrange(4, 8));
    assert(all.subrange(0, 4) =~= le32(low));
    assert(all.subrange(4, 8) =~= le32(high));
    lemma_u32_at(b, at, low);
    lemma_u32_at(b, at + 4, high);
}

/// Reading the four bytes of `x` gives `x`.
pub proof fn lemma_u32_at(b: Seq<u8>, at: int, x: u32)
    requires
        0 <= at,
        at + 4 <= b.len(),
        b.subrange(at, at + 4) == le32(x),
    ensures
        u32_at(b, at) == x,
{
    let part = b.subrange(at, at + 4);
    assert(part[0] == b[at] && part[1] == b[at + 1] && part[2] == b[at + 2] && part[3] == b[at
        + 3]);
}

/// The number that four bytes make has those bytes.
pub proof fn lemma_le32_of(b: Seq<u8>, at: int)
    requires
        0 <= at,
        at + 4 <= b.len(),
    ensures
        le32(u32_at(b, at)) == b.subrange(at, at + 4),
{
    let (p, q, r, s) = (b[at] as int, b[at + 1] as int, b[at + 2] as int, b[at + 3] as int);
    let x = p + 256 * q + 65536 * r + 16777216 * s;
    assert(u32_at(b, at) == x);
    assert(x / 256 == q + 256 * r + 65536 * s);
    assert(x / 65536 == r + 256 * s);
    assert(le32(u32_at(b, at)) =~= b.subrange(at, at + 4));
}

/// The number that eight bytes make has those bytes.
pub proof fn lemma_le64_of(b: Seq<u8>, at: int)
    requires
        0 <= at,
        at + 8 <= b.len(),
    ensures
        le64(u64_at(b, at)) == b.subrange(at, at + 8),
{
    lemma_le32_of(b, at);
    lemma_le32_of(b, at + 4);
    let x = u32_at(b, at) + 0x1_0000_0000 * u32_at(b, at + 4);
    assert(u64_at(b, at) == x);
    assert(x % 0x1_0000_0000 == u32_at(b, at));
    assert(x / 0x1_0000_0000 == u32_at(b, at + 4));
    assert(b.subrange(at, at + 8) =~= b.subrange(at, at + 4) + b.subrange(at + 4, at + 8));
}

/// The bits of a signed number give the number back.
pub proof fn lemma_bits_round_trip(x: i32, bits: u32)
    ensures
        signed_of(bits_of(x)) == x,
        bits_of(signed_of(bits)) == bits,
{
}

/// Numbers are written and read with the least significant byte first.
pub proof fn law_least_significant_first(b: &[u8], at: usize, x: u32, y: u64)
    requires
        at + 8 <= b@.len(),
        call_ensures(read_u32, (b, at), x),
        call_ensures(read_u64, (b, at), y),
    ensures
        x == b@[at as int] + 0x100 * b@[at + 1] + 0x1_0000 * b@[at + 2] + 0x100_0000 * b@[at + 3],
        y == x + 0x1_0000_0000 * (b@[at + 4] + 0x100 * b@[at + 5] + 0x1_0000 * b@[at + 6]
            + 0x100_0000 * b@[at + 7]),
{
}

/// What is written at the end of a buffer is read back there, and nothing else changes.
pub proof fn law_written_number_is_read_back(x: u32, y: u64, z: i32)
    ensures
        forall|d: &mut Vec<u8>, out: ()| #[trigger] call_ensures(push_u32, (d, x), out) ==> {
            let (old_len, new) = ((*d)@.len() as int, (*final(d))@);
            &&& new.len() == old_len + 4
            &&& new.take(old_len) == (*d)@
            &&& x == new[old_len] + 0x100 * new[old_len + 1] + 0x1_0000 * new[old_len + 2]
                + 0x100_0000 * new[old_len + 3]
        },
        forall|d: &mut Vec<u8>, out: ()| #[trigger] call_ensures(push_u64, (d, y), out) ==> {
            let (old_len, new) = ((*d)@.len() as int, (*final(d))@);
            &&& new.len() == old_len + 8
            &&& new.take(old_len) == (*d)@
            &&& u64_at(new, old_len) == y
        },
        forall|d: &mut Vec<u8>, out: ()| #[trigger] call_ensures(push_i32, (d, z), out) ==> {
            let (old_len, new) = ((*d)@.len() as int, (*final(d))@);
            &&& new.len() == old_len + 4
            &&& new.take(old_len) == (*d)@
            &&& signed_of(u32_at(new, old_len)) == z
        },
{
    assert forall|d: &mut Vec<u8>, out: ()| #[trigger] call_ensures(push_u32, (d, x), out) implies {
        let (old_len, new) = ((*d)@.len() as int, (*final(d))@);
        &&& new.len() == old_len + 4
        &&& new.take(old_len) == (*d)@
        &&& x == new[old_len] + 0x100 * new[old_len + 1] + 0x1_0000 * new[old_len + 2]
            + 0x100_0000 * new[old_len + 3]
    } by {
        let (old_len, new) = ((*d)@.len() as int, (*final(d))@);
        assert(new.take(old_len) =~= (*d)@);
        assert(new.subrange(old_len, old_len + 4) =~= le32(x));
        lemma_u32_at(new, old_len, x);
    }
    assert forall|d: &mut Vec<u8>, out: ()| #[trigger] call_ensures(push_u64, (d, y), out) implies {
        let (old_len, new) = ((*d)@.len() as int, (*final(d))@);
        &&& new.len() == old_len + 8
        &&& new.take(old_len) == (*d)@
        &&& u64_at(new, old_len) == y
    } by {
        let (old_len, new) = ((*d)@.len() as int, (*final(d))@);
        assert(new.take(old_len) =~= (*d)@);
        assert(new.subrange(old_len, old_len + 8) =~= le64(y));
        lemma_u64_at(new, old_len, y);
    }
    assert forall|d: &mut Vec<u8>, out: ()| #[trigger] call_ensures(push_i32, (d, z), out) implies {
        let (old_len, new) = ((*d)@.len() as int, (*final(d))@);
        &&& new.len() == old_len + 4
        &&& new.take(old_len) == (*d)@
        &&& signed_of(u32_at(new, old_len)) == z
    } by {
        let (old_len, new) = ((*d)@.len() as int, (*final(d))@);
        assert(new.take(old_len) =~= (*d)@);
        assert(new.subrange(old_len, old_len + 4) =~= le32(bits_of(z)));
        lemma_u32_at(new, old_len, bits_of(z));
        lemma_bits_round_trip(z, 0);
    }
}

/// The bits of a number that is not negative are the number, those of minus one are all
/// set, and the upper half of the bit patterns is negative.
pub proof fn law_negative_numbers_are_the_upper_half(x: i32, bits: u32, back: i32)
    requires
        call_ensures(to_bits, (x,), bits),
        call_ensures(from_bits, (bits,), back),
    ensures
        back == x,
        x >= 0 ==> bits == x,
        x < 0 ==> bits == 0x1_0000_0000 + x,
        x < 0 <==> bits >= 0x8000_0000,
{
}

} // verus!
