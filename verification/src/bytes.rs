//! Little-endian integers in byte sequences.

use vstd::prelude::*;

verus! {

/// The 16-bit number whose low byte stands at `at`.
pub open spec fn le16(data: Seq<u8>, at: int) -> int {
    data[at] + 256 * data[at + 1]
}

/// The 32-bit number whose low byte stands at `at`.
pub open spec fn le32(data: Seq<u8>, at: int) -> int {
    data[at] + 256 * data[at + 1] + 65536 * data[at + 2] + 16777216 * data[at + 3]
}

/// The two bytes of a 16-bit number, the low one first.
pub open spec fn bytes16(value: int) -> Seq<u8> {
    seq![(value % 256) as u8, (value / 256 % 256) as u8]
}

/// The four bytes of a 32-bit number, the low one first.
pub open spec fn bytes32(value: int) -> Seq<u8> {
    seq![
        (value % 256) as u8,
        (value / 256 % 256) as u8,
        (value / 65536 % 256) as u8,
        (value / 16777216 % 256) as u8,
    ]
}

/// Whether the four bytes from `at` on are those of `tag`.
pub open spec fn has_tag(data: Seq<u8>, at: int, tag: Seq<u8>) -> bool {
    data.subrange(at, at + 4) =~= tag
}

/// Reads a 16-bit number.
pub fn read_le16(data: &[u8], at: usize) -> (r: u16)
    requires
        at + 2 <= data@.len(),
    ensures
        r == le16(data@, at as int),
{
    data[at] as u16 + 256 * data[at + 1] as u16
}

/// Reads a 32-bit number.
pub fn read_le32(data: &[u8], at: usize) -> (r: u32)
    requires
        at + 4 <= data@.len(),
    ensures
        r == le32(data@, at as int),
{
    data[at] as u32 + 256 * data[at + 1] as u32 + 65536 * data[at + 2] as u32 + 16777216 * data[at
        + 3] as u32
}

/// Appends the two bytes of a 16-bit number.
pub fn push_le16(out: &mut Vec<u8>, value: u16)
    ensures
        final(out)@ == old(out)@ + bytes16(value as int),
{
    out.push((value % 256) as u8);
    out.push((value / 256) as u8);
    assert(out@ =~= old(out)@ + bytes16(value as int));
}

/// Appends the four bytes of a 32-bit number.
pub fn push_le32(out: &mut Vec<u8>, value: u32)
    ensures
        final(out)@ == old(out)@ + bytes32(value as int),
{
    out.push((value % 256) as u8);
    out.push((value / 256 % 256) as u8);
    out.push((value / 65536 % 256) as u8);
    out.push((value / 16777216) as u8);
    assert(out@ =~= old(out)@ + bytes32(value as int));
}

/// Whether the four bytes from `at` on are the given ones.
pub fn is_tag(data: &[u8], at: usize, tag: [u8; 4]) -> (r: bool)
    requires
        at + 4 <= data@.len(),
    ensures
        r == has_tag(data@, at as int, tag@),
{
    let r: bool = data[at] == tag[0] && data[at + 1] == tag[1] && data[at + 2] == tag[2] && data[at
        + 3] == tag[3];
    proof {
        let part = data@.subrange(at as int, at + 4);
        assert(part[0] == data@[at as int]);
        assert(part[1] == data@[at + 1]);
        assert(part[2] == data@[at + 2]);
        assert(part[3] == data@[at + 3]);
        assert(tag@.len() == 4);
        if r {
            assert(part =~= tag@);
        }
    }
    r
}

/// Appends the bytes of `part`.
pub fn push_all(out: &mut Vec<u8>, part: &[u8])
    ensures
        final(out)@ == old(out)@ + part@,
{
    let mut i: usize = 0;
    while i < part.len()
        invariant
            i <= part@.len(),
            out@ == old(out)@ + part@.take(i as int),
        decreases part@.len() - i,
    {
        out.push(part[i]);
        i = i + 1;
        assert(out@ =~= old(out)@ + part@.take(i as int));
    }
    assert(part@.take(i as int) =~= part@);
}

/// The bytes of a 16-bit number, read where they were written, give the number back.
pub proof fn law_le16_round_trip(value: u16)
    ensures
        le16(bytes16(value as int), 0) == value,
{
}

/// The bytes of a 32-bit number, read where they were written, give the number back.
pub proof fn law_le32_round_trip(value: u32)
    ensures
        le32(bytes32(value as int), 0) == value,
{
}

/// The low byte of a number comes first: each byte can be read off the number at its own
/// weight, in the bytes that are written as in those that are read.
pub proof fn law_low_byte_comes_first(value: u32, data: Seq<u8>, at: int)
    ensures
        bytes32(value as int).len() == 4,
        bytes32(value as int)[0] == value % 256,
        bytes32(value as int)[1] == value / 256 % 256,
        bytes32(value as int)[2] == value / 65536 % 256,
        bytes32(value as int)[3] == value / 16777216,
        value < 65536 ==> bytes16(value as int) == seq![(value % 256) as u8, (value / 256) as u8],
        le32(data, at) % 256 == data[at],
        le32(data, at) / 256 % 256 == data[at + 1],
        le32(data, at) / 65536 % 256 == data[at + 2],
        le32(data, at) / 16777216 == data[at + 3],
        le16(data, at) % 256 == data[at],
        le16(data, at) / 256 == data[at + 1],
{
    assert(value < 65536 ==> bytes16(value as int) =~= seq![
        (value % 256) as u8,
        (value / 256) as u8,
    ]);
    lemma_weights(data[at], data[at + 1], data[at + 2], data[at + 3]);
}

proof fn lemma_weights(a: u8, b: u8, c: u8, d: u8)
    ensures
        (a + 256 * b) % 256 == a,
        (a + 256 * b) / 256 == b,
        (a + 256 * b + 65536 * c + 16777216 * d) % 256 == a,
        (a + 256 * b + 65536 * c + 16777216 * d) / 256 % 256 == b,
        (a + 256 * b + 65536 * c + 16777216 * d) / 65536 % 256 == c,
        (a + 256 * b + 65536 * c + 16777216 * d) / 16777216 == d,
{
    let n = a + 256 * b + 65536 * c + 16777216 * d;
    let high = 256 * d + c;
    let upper = 256 * high + b;
    vstd::arithmetic::div_mod::lemma_fundamental_div_mod_converse(
        a + 256 * b,
        256,
        b as int,
        a as int,
    );
    vstd::arithmetic::div_mod::lemma_fundamental_div_mod_converse(n, 256, upper, a as int);
    vstd::arithmetic::div_mod::lemma_fundamental_div_mod_converse(n, 65536, high, a + 256 * b);
    vstd::arithmetic::div_mod::lemma_fundamental_div_mod_converse(
        n,
        16777216,
        d as int,
        a + 256 * b + 65536 * c,
    );
    vstd::arithmetic::div_mod::lemma_fundamental_div_mod_converse(upper, 256, high, b as int);
    vstd::arithmetic::div_mod::lemma_fundamental_div_mod_converse(high, 256, d as int, c as int);
}

/// A tag is found where its four bytes stand, and nowhere else.
pub proof fn law_tag_is_four_bytes(data: Seq<u8>, at: int, tag: Seq<u8>)
    requires
        tag.len() == 4,
        0 <= at,
        at + 4 <= data.len(),
    ensures
        has_tag(data, at, tag) <==> data[at] == tag[0] && data[at + 1] == tag[1] && data[at + 2]
            == tag[2] && data[at + 3] == tag[3],
{
    let part = data.subrange(at, at + 4);
    assert(part[0] == data[at] && part[1] == data[at + 1] && part[2] == data[at + 2] && part[3]
        == data[at + 3]);
    if data[at] == tag[0] && data[at + 1] == tag[1] && data[at + 2] == tag[2] && data[at + 3]
        == tag[3] {
        assert(part =~= tag);
    }
}

} // verus!
