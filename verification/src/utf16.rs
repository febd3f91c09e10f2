//! UTF-16 text as the window system exchanges it: encoding of strings into
//! zero-terminated code-unit buffers, and lossy decoding of returned buffers.

use vstd::prelude::*;

verus! {

broadcast use vstd::string::group_string_axioms;

/// The character that lossy decoding puts in place of an unpaired surrogate.
pub const REPLACEMENT_CHAR: char = '\u{FFFD}';

pub open spec fn is_high_surrogate(u: u16) -> bool {
    0xD800 <= u < 0xDC00
}

pub open spec fn is_low_surrogate(u: u16) -> bool {
    0xDC00 <= u < 0xE000
}

pub open spec fn is_surrogate(u: u16) -> bool {
    0xD800 <= u < 0xE000
}

/// A Unicode scalar value: what `char` can hold.
pub open spec fn is_scalar_value(v: int) -> bool {
    (0 <= v < 0xD800) || (0xE000 <= v <= 0x10FFFF)
}

/// The code units of one character.
pub open spec fn utf16_of_char(c: char) -> Seq<u16> {
    let v = c as int;
    if v < 0x10000 {
        seq![v as u16]
    } else {
        let w = v - 0x10000;
        seq![(0xD800 + w / 0x400) as u16, (0xDC00 + w % 0x400) as u16]
    }
}

/// The code units of a string, character after character.
pub open spec fn utf16_encode(s: Seq<char>) -> Seq<u16>
    decreases s.len(),
{
    if s.len() == 0 {
        seq![]
    } else {
        utf16_encode(s.drop_last()) + utf16_of_char(s.last())
    }
}

/// The character that a surrogate pair stands for.
pub open spec fn pair_value(high: u16, low: u16) -> int {
    0x10000 + (high - 0xD800) * 0x400 + (low - 0xDC00)
}

/// Lossy decoding: a high surrogate followed by a low one is one character,
/// any other surrogate becomes `REPLACEMENT_CHAR`, every other unit is the
/// character of the same value.
pub open spec fn utf16_decode(u: Seq<u16>) -> Seq<char>
    decreases u.len(),
{
    if u.len() == 0 {
        seq![]
    } else if u.len() >= 2 && is_high_surrogate(u[0]) && is_low_surrogate(u[1]) {
        seq![pair_value(u[0], u[1]) as char] + utf16_decode(u.subrange(2, u.len() as int))
    } else if is_surrogate(u[0]) {
        seq![REPLACEMENT_CHAR] + utf16_decode(u.subrange(1, u.len() as int))
    } else {
        seq![u[0] as char] + utf16_decode(u.subrange(1, u.len() as int))
    }
}

proof fn lemma_char_is_scalar(c: char)
    ensures
        is_scalar_value(c as int),
{
}

/// Encoding splits at the first character as well as at the last one.
proof fn lemma_encode_first(s: Seq<char>)
    requires
        s.len() > 0,
    ensures
        utf16_encode(s) == utf16_of_char(s[0]) + utf16_encode(s.drop_first()),
    decreases s.len(),
{
    if s.len() == 1 {
        assert(s.drop_last() =~= seq![]);
        assert(s.drop_first() =~= seq![]);
        assert(utf16_encode(s.drop_first()) =~= seq![]);
        assert(utf16_encode(s) =~= utf16_of_char(s[0]));
    } else {
        lemma_encode_first(s.drop_last());
        assert(s.drop_last().drop_first() =~= s.drop_first().drop_last());
        assert(s.drop_first().last() == s.last());
        assert(s.drop_last()[0] == s[0]);
        assert(utf16_encode(s) =~= utf16_of_char(s[0]) + utf16_encode(s.drop_first()));
    }
}

/// The units of one character decode back to that character, whatever follows.
proof fn lemma_decode_char_then(c: char, rest: Seq<u16>)
    ensures
        utf16_decode(utf16_of_char(c) + rest) == seq![c] + utf16_decode(rest),
{
    lemma_char_is_scalar(c);
    let u = utf16_of_char(c) + rest;
    let v = c as int;
    if v < 0x10000 {
        assert(u.subrange(1, u.len() as int) =~= rest);
        assert(!is_surrogate(u[0]));
        assert((u[0] as int) == v);
    } else {
        let w = v - 0x10000;
        assert(u.subrange(2, u.len() as int) =~= rest);
        assert(is_high_surrogate(u[0]));
        assert(is_low_surrogate(u[1]));
        assert(pair_value(u[0], u[1]) == v);
    }
}

/// Decoding what `utf16_encode` produced gives back the string.
pub proof fn lemma_decode_encode(s: Seq<char>)
    ensures
        utf16_decode(utf16_encode(s)) == s,
    decreases s.len(),
{
    if s.len() == 0 {
        assert(utf16_encode(s) =~= seq![]);
    } else {
        lemma_encode_first(s);
        lemma_decode_char_then(s[0], utf16_encode(s.drop_first()));
        lemma_decode_encode(s.drop_first());
        assert(seq![s[0]] + s.drop_first() =~= s);
    }
}

/// What `wide` produces decodes back to the string once its terminating zero
/// is dropped.
pub proof fn lemma_wide_round_trip(s: Seq<char>)
    ensures
        utf16_decode(utf16_encode(s).push(0u16).drop_last()) == s,
{
    assert(utf16_encode(s).push(0u16).drop_last() =~= utf16_encode(s));
    lemma_decode_encode(s);
}

/// A character below 0x10000 is the one unit of its own value; any other
/// character is two units, a high surrogate carrying the upper ten bits of
/// its offset from 0x10000 and a low surrogate carrying the lower ten.
pub proof fn lemma_char_units(c: char)
    ensures
        (c as int) < 0x10000 ==> utf16_encode(seq![c]) == seq![c as u16],
        (c as int) >= 0x10000 ==> (utf16_encode(seq![c]).len() == 2 && 0xD800 <= utf16_encode(
            seq![c],
        )[0] < 0xDC00 && 0xDC00 <= utf16_encode(seq![c])[1] < 0xE000 && (utf16_encode(seq![c])[0]
            - 0xD800) * 0x400 + (utf16_encode(seq![c])[1] - 0xDC00) + 0x10000 == c as int),
{
    let s = seq![c];
    assert(s.drop_last() =~= Seq::<char>::empty());
    assert(utf16_encode(Seq::<char>::empty()) =~= Seq::<u16>::empty());
    assert(s.last() == c);
    assert(utf16_encode(s) =~= utf16_of_char(c));
    lemma_char_is_scalar(c);
}

/// A unit that is not a surrogate decodes to the character of its value; a
/// lone surrogate decodes to U+FFFD.
pub proof fn lemma_single_unit_decoding(u: u16)
    ensures
        !(0xD800 <= u < 0xE000) ==> utf16_decode(seq![u]) == seq![u as char],
        (0xD800 <= u < 0xE000) ==> utf16_decode(seq![u]) == seq!['\u{FFFD}'],
{
    let s = seq![u];
    assert(s.subrange(1, s.len() as int) =~= Seq::<u16>::empty());
    assert(utf16_decode(Seq::<u16>::empty()) =~= Seq::<char>::empty());
    if 0xD800 <= u < 0xE000 {
        assert(utf16_decode(s) =~= seq![REPLACEMENT_CHAR]);
    } else {
        assert(utf16_decode(s) =~= seq![u as char]);
    }
}

/// `char::from_u32` of std: `Some` of the character with that value exactly
/// when the value is a Unicode scalar value, `None` otherwise.
#[verifier::external_body]
fn char_from_u32(v: u32) -> (c: Option<char>)
    ensures
        is_scalar_value(v as int) ==> c == Some(v as char),
        !is_scalar_value(v as int) ==> c is None,
{
    char::from_u32(v)
}

/// `String::push` of std: appends the character to the string.
#[verifier::external_body]
fn string_push(s: &mut String, c: char)
    ensures
        final(s)@ == old(s)@.push(c),
{
    s.push(c)
}

/// The character whose value is `v`, a scalar value.
fn scalar_char(v: u32) -> (c: char)
    requires
        is_scalar_value(v as int),
    ensures
        c == v as char,
{
    match char_from_u32(v) {
        Some(c) => c,
        None => REPLACEMENT_CHAR,
    }
}

/// The string encoded in UTF-16 and terminated by a zero unit, as the window
/// system takes names and paths.
pub fn wide(s: &str) -> (w: Vec<u16>)
    ensures
        w@ == utf16_encode(s@).push(0u16),
{
    let mut w: Vec<u16> = Vec::new();
    for c in it: s.chars()
        invariant
            it.seq() == s@,
            w@ == utf16_encode(s@.take(it.index() as int)),
    {
        proof {
            lemma_char_is_scalar(c);
            assert(s@.take(it.index() + 1).drop_last() =~= s@.take(it.index() as int));
        }
        let v: u32 = c as u32;
        if v < 0x10000 {
            w.push(v as u16);
        } else {
            let x: u32 = v - 0x10000;
            w.push((0xD800 + x / 0x400) as u16);
            w.push((0xDC00 + x % 0x400) as u16);
        }
        proof {
            assert(w@ =~= utf16_encode(s@.take(it.index() + 1)));
        }
    }
    proof {
        assert(s@.take(s@.len() as int) =~= s@);
    }
    w.push(0);
    w
}

/// Lossy decoding of a code-unit buffer into a string.
pub fn decode_utf16_lossy(units: &[u16]) -> (s: String)
    ensures
        s@ == utf16_decode(units@),
{
    let n = units.len();
    let mut s = String::new();
    let mut i: usize = 0;
    proof {
        assert(units@.subrange(0, n as int) =~= units@);
        assert(s@ + utf16_decode(units@) =~= utf16_decode(units@));
    }
    while i < n
        invariant
            n == units@.len(),
            i <= n,
            s@ + utf16_decode(units@.subrange(i as int, n as int)) == utf16_decode(units@),
        decreases n - i,
    {
        let ghost rest = units@.subrange(i as int, n as int);
        let u = units[i];
        if i + 1 < n && 0xD800 <= u && u < 0xDC00 && 0xDC00 <= units[i + 1] && units[i + 1] < 0xE000 {
            let low = units[i + 1];
            let v: u32 = 0x10000 + ((u - 0xD800) as u32) * 0x400 + ((low - 0xDC00) as u32);
            let c = scalar_char(v);
            string_push(&mut s, c);
            proof {
                assert(rest.subrange(2, rest.len() as int) =~= units@.subrange(i + 2, n as int));
                assert(utf16_decode(rest) == seq![c] + utf16_decode(units@.subrange(i + 2, n as int)));
                assert(s@ + utf16_decode(units@.subrange(i + 2, n as int)) =~= utf16_decode(units@));
            }
            i = i + 2;
        } else {
            if 0xD800 <= u && u < 0xE000 {
                string_push(&mut s, REPLACEMENT_CHAR);
            } else {
                let c = scalar_char(u as u32);
                string_push(&mut s, c);
            }
            proof {
                assert(rest.subrange(1, rest.len() as int) =~= units@.subrange(i + 1, n as int));
                assert(s@ + utf16_decode(units@.subrange(i + 1, n as int)) =~= utf16_decode(units@));
            }
            i = i + 1;
        }
    }
    proof {
        assert(units@.subrange(n as int, n as int) =~= seq![]);
        assert(s@ =~= utf16_decode(units@));
    }
    s
}

/// The window-class name held by the first `n` units of `buf`, where `n` is
/// what the class-name query returned (zero or less on failure: the empty name).
pub fn class_name_from_buffer(buf: &[u16], n: i32) -> (s: String)
    requires
        n <= buf@.len(),
    ensures
        n <= 0 ==> s@ == Seq::<char>::empty(),
        n > 0 ==> s@ == utf16_decode(buf@.take(n as int)),
{
    if n <= 0 {
        String::new()
    } else {
        let units = vstd::slice::slice_subrange(buf, 0, n as usize);
        decode_utf16_lossy(units)
    }
}

/// The locale name ("ru-RU") held by `buf`, where `n` is what the locale-name
/// query returned: the count of units written, the terminating zero included.
/// A count of one or less means that no name was written.
pub fn locale_name_from_buffer(buf: &[u16], n: i32) -> (name: Option<String>)
    requires
        n <= buf@.len() + 1,
    ensures
        n <= 1 ==> name is None,
        n > 1 ==> (name matches Some(s) && s@ == utf16_decode(buf@.take(n - 1))),
{
    if n <= 1 {
        None
    } else {
        let units = vstd::slice::slice_subrange(buf, 0, (n - 1) as usize);
        Some(decode_utf16_lossy(units))
    }
}

} // verus!
