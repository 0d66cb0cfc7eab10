//! Strings as the operating system exchanges them, in UTF-16, and comparisons that leave
//! the case of letters aside.

use vstd::prelude::*;

verus! {

/// What stands for a unit that encodes no character.
pub const REPLACEMENT: char = '\u{FFFD}';

/// Specifies `char::from_u32` of std: it gives the character with that code point, and
/// nothing if there is none, which is so for surrogates and beyond the last code point.
pub assume_specification[ char::from_u32 ](i: u32) -> (r: Option<char>)
    ensures
        match r {
            Some(c) => c as int == i,
            None => 0xD800 <= i <= 0xDFFF || i > 0x10FFFF,
        },
;

/// Specifies `String::push` of std: it appends one character.
pub assume_specification[ String::push ](s: &mut String, c: char)
    ensures
        final(s)@ == old(s)@.push(c),
;

/// The small letter of one of `A` to `Z`; any other character as it is.
pub open spec fn small(c: char) -> char {
    if 'A' <= c <= 'Z' {
        (c as u32 + 32) as char
    } else {
        c
    }
}

/// Whether two strings differ at most in the case of ASCII letters.
pub open spec fn same_ignoring_case(a: Seq<char>, b: Seq<char>) -> bool {
    a.map_values(|c: char| small(c)) =~= b.map_values(|c: char| small(c))
}

/// The UTF-16 units of a character: one, or a pair of surrogates.
pub open spec fn units(c: char) -> Seq<u16> {
    let v = c as int;
    if v < 0x10000 {
        seq![v as u16]
    } else {
        seq![(0xD800 + (v - 0x10000) / 0x400) as u16, (0xDC00 + (v - 0x10000) % 0x400) as u16]
    }
}

/// The UTF-16 units of a string.
pub open spec fn encoded(s: Seq<char>) -> Seq<u16>
    decreases s.len(),
{
    if s.len() == 0 {
        Seq::empty()
    } else {
        encoded(s.drop_last()) + units(s.last())
    }
}

/// Whether a unit is the first of a pair.
pub open spec fn is_high(unit: u16) -> bool {
    0xD800 <= unit <= 0xDBFF
}

/// Whether a unit is the second of a pair.
pub open spec fn is_low(unit: u16) -> bool {
    0xDC00 <= unit <= 0xDFFF
}

/// The number of units that the first character takes.
pub open spec fn first_width(u: Seq<u16>) -> int {
    if is_high(u[0]) && u.len() >= 2 && is_low(u[1]) {
        2
    } else {
        1
    }
}

/// The first character: that of a pair, that of a unit, or the replacement for a
/// surrogate without its partner.
pub open spec fn first_char(u: Seq<u16>) -> char {
    if is_high(u[0]) && u.len() >= 2 && is_low(u[1]) {
        (0x10000 + (u[0] - 0xD800) * 0x400 + (u[1] - 0xDC00)) as char
    } else if is_high(u[0]) || is_low(u[0]) {
        REPLACEMENT
    } else {
        u[0] as char
    }
}

/// The characters of UTF-16 units.
pub open spec fn decoded(u: Seq<u16>) -> Seq<char>
    decreases u.len(),
{
    if u.len() == 0 {
        Seq::empty()
    } else {
        seq![first_char(u)] + decoded(u.skip(first_width(u)))
    }
}

fn small_code(c: char) -> (r: u32)
    ensures
        r == small(c) as u32,
{
    let code: u32 = c as u32;
    if 65 <= code && code <= 90 {
        code + 32
    } else {
        code
    }
}

/// Compares two strings, the case of ASCII letters left aside.
pub fn equal_ignoring_case(a: &str, b: &str) -> (r: bool)
    ensures
        r == same_ignoring_case(a@, b@),
{
    let count: usize = a.unicode_len();
    let ghost small_a = a@.map_values(|c: char| small(c));
    let ghost small_b = b@.map_values(|c: char| small(c));
    if count != b.unicode_len() {
        assert(small_a.len() != small_b.len());
        return false;
    }
    let mut i: usize = 0;
    while i < count
        invariant
            count == a@.len(),
            count == b@.len(),
            i <= count,
            small_a == a@.map_values(|c: char| small(c)),
            small_b == b@.map_values(|c: char| small(c)),
            forall|j: int| 0 <= j < i ==> small_a[j] == small_b[j],
        decreases count - i,
    {
        if small_code(a.get_char(i)) != small_code(b.get_char(i)) {
            assert(small_a[i as int] != small_b[i as int]);
            return false;
        }
        assert(small_a[i as int] as u32 == small_b[i as int] as u32);
        i = i + 1;
    }
    assert(small_a =~= small_b);
    true
}

/// Encodes a string and puts a zero behind it.
pub fn to_wide(s: &str) -> (r: Vec<u16>)
    ensures
        r@ == encoded(s@).push(0),
{
    let mut out: Vec<u16> = Vec::new();
    let count: usize = s.unicode_len();
    let mut i: usize = 0;
    assert(s@.take(0) =~= Seq::<char>::empty());
    while i < count
        invariant
            count == s@.len(),
            i <= count,
            out@ == encoded(s@.take(i as int)),
        decreases count - i,
    {
        let v: u32 = s.get_char(i) as u32;
        if v < 0x10000 {
            out.push(v as u16);
        } else {
            out.push((0xD800 + (v - 0x10000) / 0x400) as u16);
            out.push((0xDC00 + (v - 0x10000) % 0x400) as u16);
        }
        proof {
            let more = s@.take(i + 1);
            assert(more.drop_last() =~= s@.take(i as int));
            assert(more.last() == s@[i as int]);
            assert(out@ =~= encoded(s@.take(i as int)) + units(s@[i as int]));
        }
        i = i + 1;
    }
    assert(s@.take(count as int) =~= s@);
    out.push(0);
    out
}

/// Decodes units; a surrogate without its partner becomes the replacement character.
pub fn from_wide(u: &[u16]) -> (r: String)
    ensures
        r@ == decoded(u@),
{
    let mut out: String = String::new();
    let mut i: usize = 0;
    assert(u@.skip(0) =~= u@);
    assert(out@ + decoded(u@) =~= decoded(u@));
    while i < u.len()
        invariant
            i <= u@.len(),
            out@ + decoded(u@.skip(i as int)) == decoded(u@),
        decreases u@.len() - i,
    {
        let ghost rest = u@.skip(i as int);
        let ghost before = out@;
        let a: u16 = u[i];
        let mut width: usize = 1;
        let mut code: u32 = a as u32;
        if 0xD800 <= a && a <= 0xDFFF {
            code = 0xFFFD;
            if a <= 0xDBFF && u.len() - i >= 2 {
                let b: u16 = u[i + 1];
                if 0xDC00 <= b && b <= 0xDFFF {
                    code = 0x10000 + (a as u32 - 0xD800) * 0x400 + (b as u32 - 0xDC00);
                    width = 2;
                }
            }
        }
        match char::from_u32(code) {
            Some(c) => {
                out.push(c);
                proof {
                    assert(rest.len() >= 2 ==> rest[1] == u@[i + 1]);
                    assert(width == first_width(rest));
                    if is_high(a) && rest.len() >= 2 && is_low(rest[1]) {
                        assert(c as int == first_char(rest) as int);
                    } else if is_high(a) || is_low(a) {
                        assert(c as int == REPLACEMENT as int);
                    } else {
                        assert(c as int == first_char(rest) as int);
                    }
                    assert(c == first_char(rest));
                }
            },
            None => {
                assert(false);
            },
        }
        proof {
            assert(rest.skip(first_width(rest)) =~= u@.skip(i + width));
            assert(out@ + decoded(u@.skip(i + width)) =~= before + decoded(rest));
        }
        i = i + width;
    }
    assert(u@.skip(i as int) =~= Seq::<u16>::empty());
    assert(out@ + Seq::<char>::empty() =~= out@);
    out
}

/// A string that was encoded is decoded to itself.
pub proof fn law_wide_round_trip(s: Seq<char>)
    ensures
        decoded(encoded(s)) == s,
{
    lemma_decode_prefix(s, Seq::empty());
    assert(encoded(s) + Seq::<u16>::empty() =~= encoded(s));
    assert(s + decoded(Seq::<u16>::empty()) =~= s);
}

/// The zero behind an encoded string is the only one, if the string holds none.
pub proof fn law_wide_zero_only_at_the_end(s: Seq<char>)
    requires
        !s.contains('\0'),
    ensures
        !encoded(s).contains(0),
    decreases s.len(),
{
    if s.len() > 0 {
        let front = s.drop_last();
        assert(!front.contains('\0')) by {
            if front.contains('\0') {
                let i = choose|i: int| 0 <= i < front.len() && front[i] == '\0';
                assert(s[i] == '\0');
            }
        }
        law_wide_zero_only_at_the_end(front);
        let last = s.last();
        assert(s[s.len() - 1] == last);
        assert(last != '\0');
        assert forall|i: int| 0 <= i < encoded(s).len() implies encoded(s)[i] != 0 by {
            let head = encoded(front);
            if i < head.len() {
                assert(encoded(s)[i] == head[i]);
                assert(head[i] != 0) by {
                    if head[i] == 0 {
                        assert(head.contains(0));
                    }
                }
            } else {
                assert(encoded(s)[i] == units(last)[i - head.len()]);
                lemma_first_of_units(last, Seq::empty());
                assert(units(last) + Seq::<u16>::empty() =~= units(last));
            }
        }
    }
}

/// A string has at least as many units as characters, and at most twice as many.
pub proof fn law_wide_length(s: Seq<char>)
    ensures
        s.len() <= encoded(s).len() <= 2 * s.len(),
    decreases s.len(),
{
    if s.len() > 0 {
        law_wide_length(s.drop_last());
    }
}

proof fn lemma_decode_prefix(s: Seq<char>, tail: Seq<u16>)
    ensures
        decoded(encoded(s) + tail) == s + decoded(tail),
    decreases s.len(),
{
    if s.len() == 0 {
        assert(encoded(s) + tail =~= tail);
        assert(s + decoded(tail) =~= decoded(tail));
    } else {
        let front = s.drop_last();
        let c = s.last();
        let rest = units(c) + tail;
        lemma_decode_prefix(front, rest);
        assert(encoded(s) + tail =~= encoded(front) + rest);
        lemma_first_of_units(c, tail);
        assert(rest.skip(first_width(rest)) =~= tail);
        assert(decoded(rest) =~= seq![c] + decoded(tail));
        assert(front + (seq![c] + decoded(tail)) =~= s + decoded(tail));
    }
}

proof fn lemma_first_of_units(c: char, tail: Seq<u16>)
    ensures
        c as int != 0 ==> forall|i: int| 0 <= i < units(c).len() ==> units(c)[i] != 0,
        first_width(units(c) + tail) == units(c).len(),
        first_char(units(c) + tail) == c,
{
    let rest = units(c) + tail;
    let v = c as int;
    assert(rest[0] == units(c)[0]);
    if v >= 0x10000 {
        assert(rest[1] == units(c)[1]);
        let k = v - 0x10000;
        assert(0 <= k < 0x100000);
        assert(k == (k / 0x400) * 0x400 + k % 0x400);
    }
}

/// Two strings are the same, the case of letters left aside, if and only if they are equally
/// long and differ nowhere but between a capital letter of `A` to `Z` and its small one.
pub proof fn law_only_ascii_letters_have_a_case(a: Seq<char>, b: Seq<char>)
    ensures
        same_ignoring_case(a, b) <==> a.len() == b.len() && forall|i: int|
            0 <= i < a.len() ==> {
                ||| #[trigger] a[i] == b[i]
                ||| 'A' <= a[i] <= 'Z' && b[i] as u32 == a[i] as u32 + 32
                ||| 'A' <= b[i] <= 'Z' && a[i] as u32 == b[i] as u32 + 32
            },
{
    let small_a = a.map_values(|c: char| small(c));
    let small_b = b.map_values(|c: char| small(c));
    if same_ignoring_case(a, b) {
        assert(small_a == small_b);
        assert(a.len() == small_a.len() && b.len() == small_b.len());
        assert forall|i: int| 0 <= i < a.len() implies {
            ||| #[trigger] a[i] == b[i]
            ||| 'A' <= a[i] <= 'Z' && b[i] as u32 == a[i] as u32 + 32
            ||| 'A' <= b[i] <= 'Z' && a[i] as u32 == b[i] as u32 + 32
        } by {
            assert(small_a[i] == small_b[i]);
            assert(small(a[i]) as u32 == small(b[i]) as u32);
        }
    }
    if a.len() == b.len() && forall|i: int|
        0 <= i < a.len() ==> {
            ||| #[trigger] a[i] == b[i]
            ||| 'A' <= a[i] <= 'Z' && b[i] as u32 == a[i] as u32 + 32
            ||| 'A' <= b[i] <= 'Z' && a[i] as u32 == b[i] as u32 + 32
        } {
        assert forall|i: int| 0 <= i < a.len() implies small_a[i] == small_b[i] by {
            assert(a[i] == b[i] || 'A' <= a[i] <= 'Z' && b[i] as u32 == a[i] as u32 + 32 || 'A'
                <= b[i] <= 'Z' && a[i] as u32 == b[i] as u32 + 32);
            assert(small(a[i]) as u32 == small(b[i]) as u32);
        }
        assert(small_a =~= small_b);
    }
}

/// Being the same but for the case of letters is an equivalence.
pub proof fn law_sameness_is_an_equivalence(a: Seq<char>, b: Seq<char>, c: Seq<char>)
    ensures
        same_ignoring_case(a, a),
        same_ignoring_case(a, b) ==> same_ignoring_case(b, a),
        same_ignoring_case(a, b) && same_ignoring_case(b, c) ==> same_ignoring_case(a, c),
{
}

/// The units of a character: itself as one unit up to 0xFFFF; beyond, the upper ten bits of
/// what is over 0x10000 in a unit from 0xD800 on, then the lower ten in one from 0xDC00 on.
pub proof fn law_units_of_a_character(c: char)
    ensures
        (c as int) < 0x10000 ==> units(c).len() == 1 && units(c)[0] == c as int,
        (c as int) >= 0x10000 ==> units(c).len() == 2 && 0xD800 <= units(c)[0] <= 0xDBFF && 0xDC00
            <= units(c)[1] <= 0xDFFF && 0x10000 + (units(c)[0] - 0xD800) * 0x400 + (units(c)[1]
            - 0xDC00) == c as int,
{
    let v = c as int;
    if v >= 0x10000 {
        let k = v - 0x10000;
        assert(0 <= k < 0x100000);
        assert(k == (k / 0x400) * 0x400 + k % 0x400);
    }
}

/// The units of a text are those of its parts, one after the other.
pub proof fn law_parts_are_encoded_in_turn(a: Seq<char>, b: Seq<char>)
    ensures
        encoded(a + b) == encoded(a) + encoded(b),
        encoded(Seq::<char>::empty()).len() == 0,
        a.len() == 1 ==> encoded(a) == units(a[0]),
    decreases b.len(),
{
    if a.len() == 1 {
        assert(encoded(a.drop_last()) =~= Seq::<u16>::empty());
        assert(encoded(a) =~= units(a[0]));
    }
    if b.len() == 0 {
        assert(a + b =~= a);
        assert(encoded(a) + encoded(b) =~= encoded(a));
    } else {
        law_parts_are_encoded_in_turn(a, b.drop_last());
        assert((a + b).drop_last() =~= a + b.drop_last());
        assert((a + b).last() == b.last());
        assert(encoded(a + b) =~= encoded(a) + encoded(b));
    }
}

/// How units are read: one that is no surrogate is a character of its own, a high surrogate
/// with a low one behind it is one character together with that, and any other surrogate
/// becomes the replacement character 0xFFFD. Then reading goes on behind it.
pub proof fn law_units_are_read_in_turn(u: Seq<u16>)
    ensures
        decoded(Seq::<u16>::empty()).len() == 0,
        u.len() > 0 && !(0xD800 <= u[0] <= 0xDFFF) ==> decoded(u).first() as int == u[0] as int
            && decoded(u).skip(1) == decoded(u.skip(1)),
        u.len() > 1 && 0xD800 <= u[0] <= 0xDBFF && 0xDC00 <= u[1] <= 0xDFFF ==> decoded(
            u,
        ).first() as int == 0x10000 + (u[0] - 0xD800) * 0x400 + (u[1] - 0xDC00) && decoded(u).skip(
            1,
        ) == decoded(u.skip(2)),
        u.len() > 0 && 0xDC00 <= u[0] <= 0xDFFF ==> decoded(u).first() as int == 0xFFFD && decoded(
            u,
        ).skip(1) == decoded(u.skip(1)),
        u.len() > 0 && 0xD800 <= u[0] <= 0xDBFF && !(u.len() > 1 && 0xDC00 <= u[1] <= 0xDFFF)
            ==> decoded(u).first() as int == 0xFFFD && decoded(u).skip(1) == decoded(u.skip(1)),
{
    if u.len() > 0 {
        let rest = decoded(u.skip(first_width(u)));
        assert(decoded(u) == seq![first_char(u)] + rest);
        assert(decoded(u).skip(1) =~= rest);
        assert(decoded(u).first() == first_char(u));
    }
}

} // verus!
