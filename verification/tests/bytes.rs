use mimesniff::bytes::{decode_big_endian_utf32, is_tt, is_ws};
use mimesniff::{sniff_prefix, SNIFF_LEN};

#[test]
fn whitespace_bytes_are_the_five() {
    for b in 0..=255u8 {
        let want = matches!(b, b'\t' | b'\n' | b'\x0c' | b'\r' | b' ');
        assert_eq!(is_ws(b), want, "byte {:#04x}", b);
    }
}

#[test]
fn vertical_tab_is_not_whitespace() {
    assert!(!is_ws(0x0B));
    assert!(!is_ws(0x00));
    assert!(!is_ws(0xA0));
}

#[test]
fn tag_terminators_are_space_and_gt() {
    for b in 0..=255u8 {
        let want = matches!(b, b' ' | b'>');
        assert_eq!(is_tt(b), want, "byte {:#04x}", b);
    }
}

#[test]
fn slash_and_newline_do_not_end_a_tag() {
    assert!(!is_tt(b'/'));
    assert!(!is_tt(b'\n'));
    assert!(!is_tt(b'\t'));
}

#[test]
fn big_endian_most_significant_first() {
    assert_eq!(decode_big_endian_utf32(&[0x12, 0x34, 0x56, 0x78]), 0x1234_5678);
    assert_eq!(decode_big_endian_utf32(&[0, 0, 0, 0x18]), 24);
    assert_eq!(decode_big_endian_utf32(&[0, 0, 1, 0]), 256);
    assert_eq!(decode_big_endian_utf32(&[0, 1, 0, 0]), 65_536);
    assert_eq!(decode_big_endian_utf32(&[1, 0, 0, 0]), 16_777_216);
}

#[test]
fn big_endian_extremes() {
    assert_eq!(decode_big_endian_utf32(&[0, 0, 0, 0]), 0);
    assert_eq!(decode_big_endian_utf32(&[0xFF, 0xFF, 0xFF, 0xFF]), u32::MAX);
    assert_eq!(decode_big_endian_utf32(&[0x80, 0, 0, 0]), 0x8000_0000);
}

#[test]
fn big_endian_reads_four_bytes_only() {
    assert_eq!(decode_big_endian_utf32(&[0, 0, 0, 1, 0xFF, 0xFF]), 1);
}

#[test]
fn prefix_of_empty_is_empty() {
    let (prefix, first_non_ws) = sniff_prefix(b"");
    assert!(prefix.is_empty());
    assert_eq!(first_non_ws, 0);
}

#[test]
fn prefix_keeps_short_input_whole() {
    let data = b"  \t<html>";
    let (prefix, first_non_ws) = sniff_prefix(data);
    assert_eq!(prefix, &data[..]);
    assert_eq!(first_non_ws, 3);
}

#[test]
fn prefix_without_leading_whitespace() {
    let (prefix, first_non_ws) = sniff_prefix(b"abc ");
    assert_eq!(prefix, b"abc ");
    assert_eq!(first_non_ws, 0);
}

#[test]
fn prefix_all_whitespace_ends_at_length() {
    let data = b" \t\n\x0c\r ";
    let (prefix, first_non_ws) = sniff_prefix(data);
    assert_eq!(prefix.len(), 6);
    assert_eq!(first_non_ws, 6);
}

#[test]
fn prefix_stops_at_vertical_tab() {
    let (_, first_non_ws) = sniff_prefix(b" \n\x0b ");
    assert_eq!(first_non_ws, 2);
}

#[test]
fn prefix_is_cut_at_sniff_len() {
    assert_eq!(SNIFF_LEN, 512);
    let mut data = vec![b'a'; 600];
    data[511] = b'b';
    data[512] = b'c';
    let (prefix, first_non_ws) = sniff_prefix(&data);
    assert_eq!(prefix.len(), 512);
    assert_eq!(prefix, &data[..512]);
    assert_eq!(prefix[511], b'b');
    assert_eq!(first_non_ws, 0);
}

#[test]
fn prefix_of_exactly_sniff_len_is_whole() {
    let data = vec![b'x'; 512];
    let (prefix, _) = sniff_prefix(&data);
    assert_eq!(prefix.len(), 512);
    let data = vec![b'x'; 513];
    let (prefix, _) = sniff_prefix(&data);
    assert_eq!(prefix.len(), 512);
    let data = vec![b'x'; 511];
    let (prefix, _) = sniff_prefix(&data);
    assert_eq!(prefix.len(), 511);
}

#[test]
fn whitespace_index_never_passes_the_cut() {
    let data = vec![b' '; 1000];
    let (prefix, first_non_ws) = sniff_prefix(&data);
    assert_eq!(prefix.len(), 512);
    assert_eq!(first_non_ws, 512);
}
