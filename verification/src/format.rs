//! Pure field formatters: permission string, type glyph, timestamp,
//! padding, and the size column.

use vstd::prelude::*;

use crate::digits::{dec_digits, two_digits, two_digit_str, u64_to_dec};
use crate::meta::{EntryKind, TimeParts};
use crate::sys::{human_size, human_size_of};

verus! {

/// The shown character for one permission bit.
pub open spec fn perm_bit_char(set: bool, c: char) -> char {
    if set {
        c
    } else {
        '-'
    }
}

/// The nine-character `rwxrwxrwx` permission string for a mode word:
/// owner, group and other read/write/execute bits in fixed order, with
/// `-` for each absent bit.
pub open spec fn perm_chars(mode: u32) -> Seq<char> {
    seq![
        perm_bit_char(mode & 0o400 != 0, 'r'),
        perm_bit_char(mode & 0o200 != 0, 'w'),
        perm_bit_char(mode & 0o100 != 0, 'x'),
        perm_bit_char(mode & 0o040 != 0, 'r'),
        perm_bit_char(mode & 0o020 != 0, 'w'),
        perm_bit_char(mode & 0o010 != 0, 'x'),
        perm_bit_char(mode & 0o004 != 0, 'r'),
        perm_bit_char(mode & 0o002 != 0, 'w'),
        perm_bit_char(mode & 0o001 != 0, 'x'),
    ]
}

/// One permission character as a string.
fn perm_bit_str(set: bool, c: &'static str) -> (r: &'static str)
    requires
        c@.len() == 1,
    ensures
        r@ == seq![perm_bit_char(set, c@[0])],
{
    proof {
        reveal_strlit("-");
    }
    let r: &'static str = if set {
        c
    } else {
        "-"
    };
    proof {
        assert(r@ =~= seq![perm_bit_char(set, c@[0])]);
    }
    r
}

/// Renders the permission string of a mode word.
pub fn format_mode(mode: u32) -> (r: String)
    ensures
        r@ == perm_chars(mode),
{
    proof {
        reveal_strlit("r");
        reveal_strlit("w");
        reveal_strlit("x");
    }
    let mut s = String::new();
    s.append(perm_bit_str(mode & 0o400 != 0, "r"));
    s.append(perm_bit_str(mode & 0o200 != 0, "w"));
    s.append(perm_bit_str(mode & 0o100 != 0, "x"));
    s.append(perm_bit_str(mode & 0o040 != 0, "r"));
    s.append(perm_bit_str(mode & 0o020 != 0, "w"));
    s.append(perm_bit_str(mode & 0o010 != 0, "x"));
    s.append(perm_bit_str(mode & 0o004 != 0, "r"));
    s.append(perm_bit_str(mode & 0o002 != 0, "w"));
    s.append(perm_bit_str(mode & 0o001 != 0, "x"));
    proof {
        assert(s@ =~= perm_chars(mode));
    }
    s
}

/// The one-character type column: `d` for a directory, `l` for a symlink,
/// `-` for anything else.
pub open spec fn type_glyph(kind: EntryKind) -> char {
    match kind {
        EntryKind::Directory => 'd',
        EntryKind::Symlink => 'l',
        _ => '-',
    }
}

/// Renders the type glyph.
pub fn format_type_glyph(kind: EntryKind) -> (r: &'static str)
    ensures
        r@ == seq![type_glyph(kind)],
{
    proof {
        reveal_strlit("d");
        reveal_strlit("l");
        reveal_strlit("-");
    }
    let r: &'static str = match kind {
        EntryKind::Directory => "d",
        EntryKind::Symlink => "l",
        _ => "-",
    };
    proof {
        assert(r@ =~= seq![type_glyph(kind)]);
    }
    r
}

/// The three-letter English month abbreviation, `m` in `1..=12`.
pub open spec fn month_abbrev(m: int) -> Seq<char> {
    if m == 1 {
        "Jan"@
    } else if m == 2 {
        "Feb"@
    } else if m == 3 {
        "Mar"@
    } else if m == 4 {
        "Apr"@
    } else if m == 5 {
        "May"@
    } else if m == 6 {
        "Jun"@
    } else if m == 7 {
        "Jul"@
    } else if m == 8 {
        "Aug"@
    } else if m == 9 {
        "Sep"@
    } else if m == 10 {
        "Oct"@
    } else if m == 11 {
        "Nov"@
    } else {
        "Dec"@
    }
}

/// Renders the month abbreviation.
fn month_str(m: u8) -> (r: &'static str)
    requires
        1 <= m <= 12,
    ensures
        r@ == month_abbrev(m as int),
{
    match m {
        1 => "Jan",
        2 => "Feb",
        3 => "Mar",
        4 => "Apr",
        5 => "May",
        6 => "Jun",
        7 => "Jul",
        8 => "Aug",
        9 => "Sep",
        10 => "Oct",
        11 => "Nov",
        _ => "Dec",
    }
}

/// The displayed modification time: month abbreviation, zero-padded day,
/// and zero-padded 24-hour clock time, as in `Jan 05 14:30`.
pub open spec fn time_display(t: TimeParts) -> Seq<char> {
    month_abbrev(t.month as int) + seq![' '] + two_digits(t.day as int) + seq![' '] + two_digits(
        t.hour as int,
    ) + seq![':'] + two_digits(t.minute as int)
}

/// Renders a broken-down local time for the long format.
pub fn format_time(t: &TimeParts) -> (r: String)
    requires
        t.wf(),
    ensures
        r@ == time_display(*t),
{
    proof {
        reveal_strlit(" ");
        reveal_strlit(":");
    }
    let mut s = String::from_str(month_str(t.month));
    s.append(" ");
    let day = two_digit_str(t.day);
    s.append(day.as_str());
    s.append(" ");
    let hour = two_digit_str(t.hour);
    s.append(hour.as_str());
    s.append(":");
    let minute = two_digit_str(t.minute);
    s.append(minute.as_str());
    proof {
        assert(s@ =~= time_display(*t));
    }
    s
}

/// A run of `n` spaces.
pub open spec fn spaces(n: nat) -> Seq<char>
    decreases n,
{
    if n == 0 {
        Seq::empty()
    } else {
        spaces((n - 1) as nat).push(' ')
    }
}

/// `s` left-padded with spaces to width `w`; a string already at least
/// that wide is unchanged.
pub open spec fn pad_left(s: Seq<char>, w: nat) -> Seq<char> {
    if s.len() >= w {
        s
    } else {
        spaces((w - s.len()) as nat) + s
    }
}

/// `s` right-padded with spaces to width `w`; a string already at least
/// that wide is unchanged.
pub open spec fn pad_right(s: Seq<char>, w: nat) -> Seq<char> {
    if s.len() >= w {
        s
    } else {
        s + spaces((w - s.len()) as nat)
    }
}

/// A string of `n` spaces.
fn space_run(n: usize) -> (r: String)
    ensures
        r@ == spaces(n as nat),
{
    proof {
        reveal_strlit(" ");
    }
    let mut s = String::new();
    let mut k: usize = 0;
    while k < n
        invariant
            k <= n,
            s@ =~= spaces(k as nat),
        decreases n - k,
    {
        s.append(" ");
        k = k + 1;
        proof {
            reveal_strlit(" ");
            assert(s@ =~= spaces(k as nat));
        }
    }
    s
}

/// Left-pads `s` with spaces to width `w` (right-aligned column).
pub fn pad_left_str(s: String, w: usize) -> (r: String)
    ensures
        r@ == pad_left(s@, w as nat),
{
    let len = s.as_str().unicode_len();
    if len >= w {
        s
    } else {
        let pad = space_run(w - len);
        pad.concat(s.as_str())
    }
}

/// Right-pads `s` with spaces to width `w` (left-aligned column).
pub fn pad_right_str(s: String, w: usize) -> (r: String)
    ensures
        r@ == pad_right(s@, w as nat),
{
    let len = s.as_str().unicode_len();
    if len >= w {
        s
    } else {
        let pad = space_run(w - len);
        s.concat(pad.as_str())
    }
}

/// The size column's contents: the exact decimal byte count, or the
/// human-scaled value with its unit.
pub open spec fn size_display(size: u64, exact: bool) -> Seq<char> {
    if exact {
        dec_digits(size as nat)
    } else {
        human_size_of(size)
    }
}

/// Renders an entry's size.
pub fn format_size(size: u64, exact: bool) -> (r: String)
    ensures
        r@ == size_display(size, exact),
{
    if exact {
        u64_to_dec(size)
    } else {
        human_size(size)
    }
}

} // verus!
