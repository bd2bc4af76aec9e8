use ldk_node::lightning::util::scid_utils;
use lightning_js::amount::{low_bits_u32, nanos_to_millis, same_bits_i64, same_bits_u64, u64_to_i64};
use lightning_js::scid::{scid_from_human_readable_string, scid_to_string};
use lightning_js::text::{bytes_to_hex, chars_of, parse_u64, push_decimal, split, to_ascii_upper};

fn number(text: &str) -> Option<u64> {
    parse_u64(&chars_of(text))
}

#[test]
fn bytes_are_shown_in_lowercase_hexadecimal() {
    assert_eq!(bytes_to_hex(&[]), "");
    assert_eq!(bytes_to_hex(&[0x00, 0x0f, 0xa0, 0xff]), "000fa0ff");
    let all: Vec<u8> = (0..=255).collect();
    let expected: String = all.iter().map(|b| format!("{b:02x}")).collect();
    assert_eq!(bytes_to_hex(&all), expected);
}

#[test]
fn different_bytes_have_different_texts() {
    let a = bytes_to_hex(&[0x01, 0x23]);
    let b = bytes_to_hex(&[0x12, 0x03]);
    assert_ne!(a, b);
}

#[test]
fn decimal_numbers_are_written_without_leading_zeros() {
    let mut out = String::from("n=");
    push_decimal(&mut out, 0);
    out.push(' ');
    push_decimal(&mut out, 1_020);
    out.push(' ');
    push_decimal(&mut out, u64::MAX);
    assert_eq!(out, "n=0 1020 18446744073709551615");
}

#[test]
fn numbers_are_read_as_std_reads_them() {
    for text in [
        "0", "7", "0042", "+5", "++5", "+", "-0", "-1", "", " 1", "1 ", "1_000", "12a", "\u{0661}",
        "18446744073709551615", "18446744073709551616", "99999999999999999999999",
        "000000000000000000000000000001",
    ] {
        assert_eq!(number(text), text.parse::<u64>().ok(), "{text:?}");
    }
}

#[test]
fn fields_are_split_as_std_splits_them() {
    for text in ["", "x", "axb", "xx", "1x2x3", "1x2x3x", "no separator", "\u{e9}x\u{1f980}"] {
        let fields: Vec<String> = split(text, 'x').iter().map(|f| f.iter().collect()).collect();
        let expected: Vec<String> = text.split('x').map(|f| f.to_string()).collect();
        assert_eq!(fields, expected, "{text:?}");
    }
}

#[test]
fn only_ascii_letters_change_case() {
    for text in ["", "info", "Info", "\u{df}\u{e9}z{`", "WARN1ng"] {
        assert_eq!(to_ascii_upper(text), text.to_ascii_uppercase());
    }
}

#[test]
fn short_channel_ids_are_shown_as_three_numbers() {
    assert_eq!(scid_to_string(0), "0x0x0");
    assert_eq!(scid_to_string((66051 << 40) | (263430 << 16) | 1800), "66051x263430x1800");
    assert_eq!(scid_to_string(u64::MAX), "16777215x16777215x65535");
    let scid: u64 = (840_000 << 40) | (1_234 << 16) | 5;
    let expected = format!(
        "{}x{}x{}",
        scid_utils::block_from_scid(scid),
        scid_utils::tx_index_from_scid(scid),
        scid_utils::vout_from_scid(scid)
    );
    assert_eq!(scid_to_string(scid), expected);
}

#[test]
fn short_channel_ids_read_back() {
    for scid in [0, 1, 65_535, 65_536, 1 << 40, (840_000 << 40) | (1_234 << 16) | 5, u64::MAX] {
        assert_eq!(scid_from_human_readable_string(&scid_to_string(scid)), Ok(scid));
    }
}

#[test]
fn short_channel_ids_are_put_together_from_their_parts() {
    assert_eq!(
        scid_from_human_readable_string("840000x1234x5"),
        Ok((840_000 << 40) | (1_234 << 16) | 5)
    );
    assert_eq!(scid_from_human_readable_string("+1x02x3"), Ok((1 << 40) | (2 << 16) | 3));
    // What follows the third field is not looked at.
    assert_eq!(scid_from_human_readable_string("1x2x3xanything"), Ok((1 << 40) | (2 << 16) | 3));
    // Parts that do not fit their places run into each other or are cut off.
    assert_eq!(scid_from_human_readable_string("0x0x65536"), Ok(1 << 16));
    assert_eq!(scid_from_human_readable_string("16777216x0x1"), Ok(1));
    assert_eq!(scid_from_human_readable_string("1x16777216x0"), Ok(1 << 40));
}

#[test]
fn texts_that_are_no_short_channel_id_are_refused() {
    for text in ["", "1", "1x2", "1x2x", "x2x3", "1xx3", "1X2X3", "ax2x3", "1x-2x3", "1:2:3",
        "18446744073709551616x0x0"] {
        assert_eq!(scid_from_human_readable_string(text), Err(()), "{text:?}");
    }
}

#[test]
fn amounts_are_cut_off_at_the_largest_signed_number() {
    assert_eq!(u64_to_i64(0), 0);
    assert_eq!(u64_to_i64(i64::MAX as u64), i64::MAX);
    assert_eq!(u64_to_i64(i64::MAX as u64 + 1), i64::MAX);
    assert_eq!(u64_to_i64(u64::MAX), i64::MAX);
}

#[test]
fn conversions_keep_the_bits() {
    assert_eq!(same_bits_i64(5), 5);
    assert_eq!(same_bits_i64(u64::MAX), -1);
    assert_eq!(same_bits_i64(1 << 63), i64::MIN);
    assert_eq!(same_bits_u64(-1), u64::MAX);
    assert_eq!(same_bits_u64(i64::MIN), 1 << 63);
    assert_eq!(same_bits_u64(7), 7);
    assert_eq!(low_bits_u32(3_600), 3_600);
    assert_eq!(low_bits_u32(-1), u32::MAX);
    assert_eq!(low_bits_u32((1 << 32) + 9), 9);
    assert_eq!(nanos_to_millis(1_999_999), 1);
    assert_eq!(nanos_to_millis(60_000_000_000), 60_000);
    assert_eq!(nanos_to_millis((1u128 << 63) * 1_000_000), i64::MIN);
}
