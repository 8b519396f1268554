use lsr::digits::{two_digit_str, u64_to_dec};
use lsr::format::{format_mode, format_size, format_time, format_type_glyph, pad_left_str, pad_right_str};
use lsr::meta::{EntryKind, TimeParts};

#[test]
fn decimal_rendering() {
    assert_eq!(u64_to_dec(0), "0");
    assert_eq!(u64_to_dec(7), "7");
    assert_eq!(u64_to_dec(1536), "1536");
    assert_eq!(u64_to_dec(18446744073709551615), "18446744073709551615");
}

#[test]
fn two_digit_rendering() {
    assert_eq!(two_digit_str(0), "00");
    assert_eq!(two_digit_str(5), "05");
    assert_eq!(two_digit_str(14), "14");
    assert_eq!(two_digit_str(59), "59");
}

#[test]
fn permission_string() {
    assert_eq!(format_mode(0o755), "rwxr-xr-x");
    assert_eq!(format_mode(0o644), "rw-r--r--");
    assert_eq!(format_mode(0o000), "---------");
    assert_eq!(format_mode(0o777), "rwxrwxrwx");
    // higher bits (file type, setuid) do not disturb the nine shown bits
    assert_eq!(format_mode(0o100644), "rw-r--r--");
}

#[test]
fn type_glyphs() {
    assert_eq!(format_type_glyph(EntryKind::Directory), "d");
    assert_eq!(format_type_glyph(EntryKind::Symlink), "l");
    assert_eq!(format_type_glyph(EntryKind::Regular), "-");
    assert_eq!(format_type_glyph(EntryKind::Other), "-");
}

#[test]
fn timestamp_rendering() {
    let t = TimeParts { month: 1, day: 5, hour: 14, minute: 30 };
    assert_eq!(format_time(&t), "Jan 05 14:30");
    let t = TimeParts { month: 12, day: 31, hour: 23, minute: 59 };
    assert_eq!(format_time(&t), "Dec 31 23:59");
    let t = TimeParts { month: 9, day: 1, hour: 0, minute: 0 };
    assert_eq!(format_time(&t), "Sep 01 00:00");
}

#[test]
fn size_exact_bytes() {
    assert_eq!(format_size(1536, true), "1536");
    assert_eq!(format_size(0, true), "0");
}

#[test]
fn size_human_scaled() {
    // 1536 bytes scale to the next binary unit with the value >= 1 and < 1024
    assert_eq!(format_size(1536, false), "1.50 KiB");
    // at or below the unit threshold the exact count stays in plain bytes
    assert_eq!(format_size(500, false), "500 B");
    assert_eq!(format_size(1024, false), "1024 B");
    assert_eq!(format_size(0, false), "0 B");
    assert_eq!(format_size(1048576 * 3 / 2, false), "1.50 MiB");
}

#[test]
fn formatting_is_repeatable() {
    let a = format_size(1536, false);
    let b = format_size(1536, false);
    assert_eq!(a, b);
    let t = TimeParts { month: 6, day: 15, hour: 12, minute: 1 };
    assert_eq!(format_time(&t), format_time(&t));
    assert_eq!(format_mode(0o640), format_mode(0o640));
}

#[test]
fn padding() {
    assert_eq!(pad_left_str(String::from("abc"), 5), "  abc");
    assert_eq!(pad_right_str(String::from("abc"), 5), "abc  ");
    assert_eq!(pad_left_str(String::from("abcdef"), 5), "abcdef");
    assert_eq!(pad_right_str(String::from("abcdef"), 5), "abcdef");
}
