//! Byte classes and the small decoders that the matching rules share.

use vstd::prelude::*;

verus! {

/// The whitespace bytes: horizontal tab, line feed, form feed, carriage
/// return and space.
pub open spec fn is_whitespace_byte(b: u8) -> bool {
    b == 0x09 || b == 0x0A || b == 0x0C || b == 0x0D || b == 0x20
}

/// The bytes that may end an HTML tag opener: space and `>`.
pub open spec fn is_tag_terminator(b: u8) -> bool {
    b == 0x20 || b == 0x3E
}

/// The control bytes that never occur in text: everything below 0x20 except
/// tab, line feed, form feed, carriage return and escape.
pub open spec fn is_binary_byte(b: u8) -> bool {
    b <= 0x08 || b == 0x0B || (0x0E <= b && b <= 0x1A) || (0x1C <= b && b <= 0x1F)
}

/// `b` with an ASCII lower-case letter replaced by its upper-case form, and
/// every other byte left as it is.
pub open spec fn ascii_upper(b: u8) -> u8 {
    if 0x61 <= b && b <= 0x7A {
        (b - 0x20) as u8
    } else {
        b
    }
}

/// The number that the first four bytes of `b` spell, most significant first.
pub open spec fn big_endian_u32(b: Seq<u8>) -> int
    recommends
        b.len() >= 4,
{
    b[0] * 0x100_0000 + b[1] * 0x1_0000 + b[2] * 0x100 + b[3]
}

/// The index of the first byte at or after `from` that is not whitespace, or
/// the length of `data` when there is none.
pub open spec fn ws_end_from(data: Seq<u8>, from: int) -> int
    decreases data.len() - from,
{
    if 0 <= from < data.len() && is_whitespace_byte(data[from]) {
        ws_end_from(data, from + 1)
    } else {
        from
    }
}

/// The index of the first byte of `data` that is not whitespace, or the
/// length of `data` when it is empty or all whitespace.
pub open spec fn ws_end(data: Seq<u8>) -> int {
    ws_end_from(data, 0)
}

/// Whether `i` is where the leading whitespace of `data` ends: every byte
/// before `i` is whitespace, and `i` is the end of `data` or the byte there
/// is not whitespace.
pub open spec fn ends_leading_ws(data: Seq<u8>, i: int) -> bool {
    &&& 0 <= i <= data.len()
    &&& forall|k: int| 0 <= k < i ==> is_whitespace_byte(#[trigger] data[k])
    &&& i < data.len() ==> !is_whitespace_byte(data[i])
}

/// Scanning from `from` stops at an index in `from..=data.len()`, passes only
/// whitespace, and stops at the end or on a byte that is not whitespace.
pub proof fn lemma_ws_end_from(data: Seq<u8>, from: int)
    requires
        0 <= from <= data.len(),
    ensures
        from <= ws_end_from(data, from) <= data.len(),
        forall|k: int|
            from <= k < ws_end_from(data, from) ==> is_whitespace_byte(#[trigger] data[k]),
        ws_end_from(data, from) < data.len() ==> !is_whitespace_byte(
            data[ws_end_from(data, from)],
        ),
    decreases data.len() - from,
{
    if from < data.len() && is_whitespace_byte(data[from]) {
        lemma_ws_end_from(data, from + 1);
    }
}

/// `ws_end(data)` is the one index at which the leading whitespace of
/// `data` ends.
pub proof fn lemma_ws_end_unique(data: Seq<u8>, i: int)
    ensures
        ends_leading_ws(data, ws_end(data)),
        ends_leading_ws(data, i) ==> i == ws_end(data),
{
    lemma_ws_end_from(data, 0);
}

/// Reports whether `b` is a whitespace byte.
pub fn is_ws(b: u8) -> (r: bool)
    ensures
        r == is_whitespace_byte(b),
{
    b == 0x09 || b == 0x0A || b == 0x0C || b == 0x0D || b == 0x20
}

/// Reports whether `b` is a tag-terminating byte.
pub fn is_tt(b: u8) -> (r: bool)
    ensures
        r == is_tag_terminator(b),
{
    b == 0x20 || b == 0x3E
}

/// Reads the first four bytes of `b` as a big-endian 32-bit number.
pub fn decode_big_endian_utf32(b: &[u8]) -> (r: u32)
    requires
        b@.len() >= 4,
    ensures
        r == big_endian_u32(b@),
{
    let b0: u32 = b[0] as u32;
    let b1: u32 = b[1] as u32;
    let b2: u32 = b[2] as u32;
    let b3: u32 = b[3] as u32;
    assert((b3 | b2 << 8 | b1 << 16 | b0 << 24) == b0 * 0x100_0000 + b1 * 0x1_0000 + b2 * 0x100
        + b3) by (bit_vector)
        requires
            b0 < 0x100,
            b1 < 0x100,
            b2 < 0x100,
            b3 < 0x100,
    ;
    b3 | b2 << 8 | b1 << 16 | b0 << 24
}

} // verus!
