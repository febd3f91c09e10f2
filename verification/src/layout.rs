//! Which keyboard layout is current, and which foreground windows call for
//! special treatment.
//!
//! For an ordinary window the layout is the low word of its thread's layout
//! handle. A console window does not keep that handle up to date, so its
//! layout is read only through the console's layout name, eight hexadecimal
//! digits whose last four are the language identifier; when the console does
//! not answer, the layout is unknown (0) and no flag is shown over it.

use vstd::prelude::*;
use crate::caret::str_equals;

verus! {

broadcast use vstd::string::group_string_axioms;

/// The window class of a console window.
pub open spec fn spec_is_console_class(class: Seq<char>) -> bool {
    class == "ConsoleWindowClass"@
}

/// The window class of a popup menu.
pub open spec fn spec_is_menu_class(class: Seq<char>) -> bool {
    class == "#32768"@
}

pub open spec fn is_hex_digit(u: u16) -> bool {
    (0x30 <= u <= 0x39) || (0x41 <= u <= 0x46) || (0x61 <= u <= 0x66)
}

pub open spec fn hex_digit_value(u: u16) -> int {
    if 0x30 <= u <= 0x39 {
        u - 0x30
    } else if 0x41 <= u <= 0x46 {
        u - 0x41 + 10
    } else {
        u - 0x61 + 10
    }
}

/// The number that a run of hexadecimal digits writes, most significant first.
pub open spec fn hex_value(digits: Seq<u16>) -> int
    decreases digits.len(),
{
    if digits.len() == 0 {
        0
    } else {
        hex_value(digits.drop_last()) * 16 + hex_digit_value(digits.last())
    }
}

/// A console layout name as the window system writes it: eight hexadecimal
/// digits and a terminating zero.
pub open spec fn is_layout_name(buf: Seq<u16>) -> bool {
    &&& buf.len() >= 9
    &&& forall|i: int| 0 <= i < 8 ==> is_hex_digit(#[trigger] buf[i])
    &&& buf[8] == 0
}

/// The layout of the foreground window: for a console, only what the console
/// reported (unknown when it did not answer); otherwise the layout of the
/// window's thread.
pub open spec fn spec_resolve_layout(console: bool, console_langid: Option<u32>, thread_langid: u32) -> u32 {
    if console {
        match console_langid {
            Some(l) => l,
            None => 0,
        }
    } else {
        thread_langid
    }
}

/// Whether the window class is that of a console window.
pub fn is_console_class(class: &str) -> (r: bool)
    ensures
        r == spec_is_console_class(class@),
{
    str_equals(class, "ConsoleWindowClass")
}

/// Whether the window class is that of a popup menu.
pub fn is_menu_class(class: &str) -> (r: bool)
    ensures
        r == spec_is_menu_class(class@),
{
    str_equals(class, "#32768")
}

fn hex_digit(u: u16) -> (v: u32)
    requires
        is_hex_digit(u),
    ensures
        v == hex_digit_value(u),
        v < 16,
{
    if 0x30 <= u && u <= 0x39 {
        (u - 0x30) as u32
    } else if 0x41 <= u && u <= 0x46 {
        (u - 0x41 + 10) as u32
    } else {
        (u - 0x61 + 10) as u32
    }
}

/// The language identifier in a console layout name: the number written by
/// its last four digits. `None` when the buffer does not hold a layout name.
pub fn console_layout_langid(buf: &[u16]) -> (langid: Option<u32>)
    ensures
        !is_layout_name(buf@) ==> langid is None,
        is_layout_name(buf@) ==> langid == Some(hex_value(buf@.subrange(4, 8)) as u32),
        is_layout_name(buf@) ==> hex_value(buf@.subrange(4, 8)) < 0x10000,
{
    if buf.len() < 9 || buf[8] != 0 {
        return None;
    }
    let mut i: usize = 0;
    while i < 8
        invariant
            buf@.len() >= 9,
            i <= 8,
            forall|k: int| 0 <= k < i ==> is_hex_digit(#[trigger] buf@[k]),
        decreases 8 - i,
    {
        let u = buf[i];
        if !((0x30 <= u && u <= 0x39) || (0x41 <= u && u <= 0x46) || (0x61 <= u && u <= 0x66)) {
            return None;
        }
        i = i + 1;
    }
    let mut value: u32 = 0;
    let mut j: usize = 4;
    while j < 8
        invariant
            is_layout_name(buf@),
            4 <= j <= 8,
            value == hex_value(buf@.subrange(4, j as int)),
            value < pow16(j - 4),
        decreases 8 - j,
    {
        let d = hex_digit(buf[j]);
        proof {
            reveal_with_fuel(pow16, 5);
            assert(pow16(j - 4) <= 4096);
            assert(buf@.subrange(4, j + 1).drop_last() =~= buf@.subrange(4, j as int));
            assert(pow16(j + 1 - 4) == pow16(j - 4) * 16);
        }
        value = value * 16 + d;
        j = j + 1;
    }
    proof {
        reveal_with_fuel(pow16, 5);
        assert(buf@.subrange(4, 8) =~= buf@.subrange(4, j as int));
    }
    Some(value)
}

/// Sixteen to the power `n`, for the few powers that a layout name needs.
pub open spec fn pow16(n: int) -> int
    decreases n,
{
    if n <= 0 {
        1
    } else {
        16 * pow16(n - 1)
    }
}

/// The layout of the foreground window (see `spec_resolve_layout`).
pub fn resolve_layout(console: bool, console_langid: Option<u32>, thread_langid: u32) -> (langid: u32)
    ensures
        langid == spec_resolve_layout(console, console_langid, thread_langid),
{
    if console {
        match console_langid {
            Some(l) => l,
            None => 0,
        }
    } else {
        thread_langid
    }
}

/// For a window that is not a console the layout is the thread's language
/// identifier, unchanged, whatever a console answer would say.
pub proof fn lemma_ordinary_window_keeps_thread_layout(console_langid: Option<u32>, thread_langid: u32)
    ensures
        spec_resolve_layout(false, console_langid, thread_langid) == thread_langid,
{
}

/// Exactly the class "ConsoleWindowClass" is a console window, and exactly
/// the class "#32768" a popup menu; other terminals and dialogs are neither.
pub proof fn lemma_special_classes_exact(class: Seq<char>)
    ensures
        spec_is_console_class(class) <==> class == "ConsoleWindowClass"@,
        spec_is_menu_class(class) <==> class == "#32768"@,
{
}

/// The hexadecimal digits and their values: '0' to '9' are 0 to 9, 'A' to
/// 'F' and 'a' to 'f' are 10 to 15, nothing else is a digit.
pub proof fn lemma_hex_digits(u: u16)
    ensures
        is_hex_digit(u) <==> ((0x30 <= u <= 0x39) || (0x41 <= u <= 0x46) || (0x61 <= u <= 0x66)),
        0x30 <= u <= 0x39 ==> hex_digit_value(u) == u - 0x30,
        0x41 <= u <= 0x46 ==> hex_digit_value(u) == u - 0x37,
        0x61 <= u <= 0x66 ==> hex_digit_value(u) == u - 0x57,
{
}

/// The language identifier of a console layout name is the number that its
/// last four digits write, most significant first.
pub proof fn lemma_layout_name_digits(buf: Seq<u16>)
    requires
        is_layout_name(buf),
    ensures
        hex_value(buf.subrange(4, 8)) == 4096 * hex_digit_value(buf[4]) + 256 * hex_digit_value(buf[5])
            + 16 * hex_digit_value(buf[6]) + hex_digit_value(buf[7]),
{
    let d = buf.subrange(4, 8);
    assert(d.drop_last().drop_last().drop_last().drop_last() =~= Seq::<u16>::empty());
    assert(d.drop_last().drop_last().drop_last().last() == buf[4]);
    assert(d.drop_last().drop_last().last() == buf[5]);
    assert(d.drop_last().last() == buf[6]);
    assert(d.last() == buf[7]);
    let d1 = d.drop_last().drop_last().drop_last();
    let d2 = d.drop_last().drop_last();
    let d3 = d.drop_last();
    assert(hex_value(d1) == hex_digit_value(buf[4])) by {
        assert(hex_value(d1.drop_last()) == 0);
    }
    assert(hex_value(d2) == hex_value(d1) * 16 + hex_digit_value(buf[5]));
    assert(hex_value(d3) == hex_value(d2) * 16 + hex_digit_value(buf[6]));
    assert(hex_value(d) == hex_value(d3) * 16 + hex_digit_value(buf[7]));
}

/// A buffer holds a console layout name exactly when its first eight units are
/// hexadecimal digits and its ninth is zero.
pub proof fn lemma_layout_name_shape(buf: Seq<u16>)
    ensures
        is_layout_name(buf) <==> (buf.len() >= 9 && buf[8] == 0 && forall|i: int|
            0 <= i < 8 ==> ((0x30 <= #[trigger] buf[i] <= 0x39) || (0x41 <= buf[i] <= 0x46) || (0x61
                <= buf[i] <= 0x66))),
{
}

/// A console that does not answer leaves the layout unknown, whatever its
/// thread's layout handle says; a console that answers decides alone.
pub proof fn lemma_console_trusts_only_its_own_answer(console_langid: Option<u32>, thread_langid: u32)
    ensures
        console_langid is None ==> spec_resolve_layout(true, console_langid, thread_langid) == 0,
        console_langid matches Some(l) ==> spec_resolve_layout(true, console_langid, thread_langid) == l,
{
}

} // verus!
