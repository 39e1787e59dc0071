//! Leading whitespace: skipped by the signatures that say so, and in the
//! way of the others.

use crate::bytes::{
    big_endian_u32, ends_leading_ws, is_binary_byte, is_whitespace_byte, lemma_ws_end_from,
    lemma_ws_end_unique, ws_end,
};
use crate::laws::order::{
    is_first_match, lemma_deciding_entry, lemma_first_match, lemma_first_match_decides,
};
use crate::laws::origins::{
    lemma_html_answer, lemma_html_origin, lemma_utf16_origin, lemma_xml_origin,
};
use crate::signature::{
    exact_match, html_content_type, mp4_match, text_content_type, text_match, Signature,
};
use crate::table::{
    eot_content_type, eot_signature, signature_table, utf16_be_content_type, utf16_be_signature,
    utf16_le_content_type, utf16_le_signature, xml_content_type, xml_signature,
};
use crate::{content_type_of, fallback_content_type, first_match, prefix_of, SNIFF_LEN};
use vstd::prelude::*;

verus! {

/// Every byte of `w` is whitespace.
pub open spec fn is_whitespace_run(w: Seq<u8>) -> bool {
    forall|i: int| 0 <= i < w.len() ==> is_whitespace_byte(#[trigger] w[i])
}

/// The leading whitespace of a buffer that opens with a run of whitespace
/// ends where that of the rest ends.
pub proof fn lemma_ws_end_after_run(w: Seq<u8>, data: Seq<u8>)
    requires
        is_whitespace_run(w),
    ensures
        ws_end(w + data) == w.len() + ws_end(data),
{
    lemma_ws_end_unique(data, 0);
    let e = ws_end(data);
    let all = w + data;
    assert forall|k: int| 0 <= k < w.len() + e implies is_whitespace_byte(#[trigger] all[k]) by {
        if k < w.len() {
            assert(all[k] == w[k]);
        } else {
            assert(all[k] == data[k - w.len()]);
        }
    }
    if w.len() + e < all.len() {
        assert(all[w.len() + e] == data[e]);
    }
    assert(ends_leading_ws(all, w.len() + e));
    lemma_ws_end_unique(all, w.len() + e);
}

/// Leading whitespace is tolerated by the signatures that skip it: a run of
/// whitespace before a buffer does not change whether such a signature
/// matches it.
pub proof fn lemma_leading_whitespace_skipped(sig: Signature, w: Seq<u8>, data: Seq<u8>)
    requires
        sig.skips_whitespace(),
        is_whitespace_run(w),
    ensures
        sig.matches(w + data, ws_end(w + data)) == sig.matches(data, ws_end(data)),
{
    lemma_ws_end_after_run(w, data);
    lemma_ws_end_from(data, 0);
    let e = ws_end(data);
    let all = w + data;
    assert(all.skip(w.len() + e) =~= data.skip(e));
    if sig is GenericText {
        if text_match(data, e) {
            assert forall|i: int| w.len() + e <= i < all.len() implies !is_binary_byte(
                #[trigger] all[i],
            ) by {
                assert(all[i] == data[i - w.len()]);
            }
        }
        if text_match(all, w.len() + e) {
            assert forall|i: int| e <= i < data.len() implies !is_binary_byte(
                #[trigger] data[i],
            ) by {
                assert(data[i] == all[i + w.len()]);
            }
        }
    }
}

/// The signature is compared from the first byte on, and that byte has to
/// be one given byte that is not whitespace.
pub open spec fn begins_with_non_ws(sig: Signature) -> bool {
    match sig {
        Signature::Exact { sig, .. } => sig.len() > 0 && !is_whitespace_byte(sig[0]),
        Signature::Masked { mask, pat, skip_ws, .. } => {
            &&& !skip_ws
            &&& pat.len() > 0
            &&& mask.len() > 0
            &&& mask[0] == 0xFF
            &&& !is_whitespace_byte(pat[0])
        },
        _ => false,
    }
}

/// Leading whitespace hides the signatures that do not skip it: one that
/// begins with a byte that is not whitespace matches no buffer that begins
/// with whitespace.
pub proof fn lemma_leading_whitespace_hides(sig: Signature, data: Seq<u8>, first_non_ws: int)
    requires
        begins_with_non_ws(sig),
        data.len() > 0,
        is_whitespace_byte(data[0]),
    ensures
        !sig.matches(data, first_non_ws),
{
    match sig {
        Signature::Exact { sig, .. } => {
            if exact_match(sig, data) {
                assert(data.subrange(0, sig.len() as int)[0] == sig[0]);
            }
        },
        Signature::Masked { mask, pat, .. } => {
            let b = data[0];
            assert(b & 0xFF == b) by (bit_vector);
        },
        _ => {},
    }
}

/// The byte order marks are hidden by leading whitespace: a buffer that
/// begins with whitespace is never taken for UTF-16.
pub proof fn lemma_whitespace_hides_utf16(data: Seq<u8>)
    requires
        data.len() > 0,
        is_whitespace_byte(data[0]),
    ensures
        content_type_of(data) != utf16_be_content_type(),
        content_type_of(data) != utf16_le_content_type(),
{
    let table = signature_table();
    let prefix = prefix_of(data);
    let e = ws_end(prefix);
    assert(prefix[0] == data[0]);
    lemma_utf16_origin();
    lemma_first_match(table, prefix, e);
    lemma_leading_whitespace_hides(utf16_be_signature(), prefix, e);
    lemma_leading_whitespace_hides(utf16_le_signature(), prefix, e);
}

/// Leading whitespace does not keep HTML and XML from being found: where a
/// buffer is taken for one of them, so is the buffer with a run of
/// whitespace before it, as long as the two together are no longer than
/// `SNIFF_LEN`.
pub proof fn lemma_leading_whitespace_tolerated(w: Seq<u8>, data: Seq<u8>)
    requires
        is_whitespace_run(w),
        w.len() + data.len() <= SNIFF_LEN,
        content_type_of(data) == html_content_type() || content_type_of(data)
            == xml_content_type(),
    ensures
        content_type_of(w + data) == content_type_of(data),
{
    let table = signature_table();
    let all = w + data;
    let e = ws_end(data);
    let f = ws_end(all);
    assert(prefix_of(data) == data);
    assert(prefix_of(all) == all);
    lemma_html_origin();
    lemma_xml_origin();
    if content_type_of(data) == html_content_type() {
        lemma_html_answer(data);
        lemma_html_answer(all);
        let i = choose|i: int|
            0 <= i < table.len() && (#[trigger] table[i]) is HtmlTag && table[i].matches(data, e);
        lemma_leading_whitespace_skipped(table[i], w, data);
    } else {
        lemma_first_match(table, data, e);
        let i = lemma_deciding_entry(table, data, e);
        assert(table[i] == xml_signature());
        lemma_leading_whitespace_skipped(table[i], w, data);
        assert forall|k: int| 0 <= k < i implies !(#[trigger] table[k]).matches(all, f) by {
            assert(table[k] is HtmlTag);
            lemma_leading_whitespace_skipped(table[k], w, data);
        }
        assert(is_first_match(table, i, all, f));
        lemma_first_match_decides(table, i, all, f);
    }
}

/// The content types that a buffer which begins with whitespace can have:
/// those of the signatures that skip whitespace, that of the one signature
/// whose first bytes do not count, and the fallback.
pub open spec fn found_behind_whitespace(ct: Seq<char>) -> bool {
    ||| ct == html_content_type()
    ||| ct == xml_content_type()
    ||| ct == text_content_type()
    ||| ct == eot_content_type()
    ||| ct == fallback_content_type()
}

/// Leading whitespace hides every magic number: a buffer that begins with
/// whitespace is taken for HTML, XML, text or an Embedded OpenType font, or
/// for nothing in particular.
pub proof fn lemma_whitespace_hides_magic_numbers(data: Seq<u8>)
    requires
        data.len() > 0,
        is_whitespace_byte(data[0]),
    ensures
        found_behind_whitespace(content_type_of(data)),
{
    let table = signature_table();
    let prefix = prefix_of(data);
    let e = ws_end(prefix);
    assert(prefix[0] == data[0]);
    lemma_first_match(table, prefix, e);
    if first_match(table, prefix, e) is Some {
        let i = lemma_deciding_entry(table, prefix, e);
        if begins_with_non_ws(table[i]) {
            lemma_leading_whitespace_hides(table[i], prefix, e);
        }
        assert(big_endian_u32(prefix) >= 0x0900_0000);
        assert(!mp4_match(prefix));
        assert(table[i].skips_whitespace() || table[i] == eot_signature());
    }
}

} // verus!
