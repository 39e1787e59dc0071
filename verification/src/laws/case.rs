//! HTML tags are found whatever the case of their letters.

use crate::bytes::{
    ascii_upper, ends_leading_ws, is_whitespace_byte, lemma_ws_end_from, lemma_ws_end_unique,
    ws_end,
};
use crate::laws::origins::lemma_html_answer;
use crate::signature::{html_content_type, html_tag_match};
use crate::table::signature_table;
use crate::{content_type_of, prefix_of};
use vstd::prelude::*;

verus! {

/// `a` and `b` are one buffer but for the case of ASCII letters.
pub open spec fn same_up_to_case(a: Seq<u8>, b: Seq<u8>) -> bool {
    &&& a.len() == b.len()
    &&& forall|i: int|
        #![trigger a[i]]
        #![trigger b[i]]
        0 <= i < a.len() ==> ascii_upper(a[i]) == ascii_upper(b[i])
}

/// The case of letters does not move the end of the leading whitespace.
pub proof fn lemma_case_keeps_ws_end(a: Seq<u8>, b: Seq<u8>)
    requires
        same_up_to_case(a, b),
    ensures
        ws_end(a) == ws_end(b),
{
    lemma_ws_end_unique(a, 0);
    let e = ws_end(a);
    assert forall|k: int| 0 <= k < e implies is_whitespace_byte(#[trigger] b[k]) by {
        assert(is_whitespace_byte(a[k]));
    }
    if e < a.len() {
        assert(ascii_upper(a[e]) == ascii_upper(b[e]));
    }
    assert(ends_leading_ws(b, e));
    lemma_ws_end_unique(b, e);
}

/// A tag that matches `a` matches every buffer that differs from `a` in the
/// case of letters alone.
proof fn lemma_html_tag_case(tag: Seq<u8>, a: Seq<u8>, b: Seq<u8>, first_non_ws: int)
    requires
        same_up_to_case(a, b),
        0 <= first_non_ws <= a.len(),
        html_tag_match(tag, a, first_non_ws),
    ensures
        html_tag_match(tag, b, first_non_ws),
{
    let rest_a = a.skip(first_non_ws);
    let rest_b = b.skip(first_non_ws);
    assert forall|i: int| 0 <= i < tag.len() implies ascii_upper(#[trigger] rest_b[i])
        == tag[i] by {
        assert(ascii_upper(rest_a[i]) == tag[i]);
        assert(rest_a[i] == a[first_non_ws + i]);
        assert(rest_b[i] == b[first_non_ws + i]);
    }
    let end = tag.len() as int;
    assert(rest_a[end] == a[first_non_ws + end]);
    assert(rest_b[end] == b[first_non_ws + end]);
    assert(ascii_upper(a[first_non_ws + end]) == ascii_upper(b[first_non_ws + end]));
}

/// HTML tags are matched without regard to the case of letters: two buffers
/// that differ in case alone match the same tags.
pub proof fn lemma_html_tag_ignores_case(
    tag: Seq<u8>,
    a: Seq<u8>,
    b: Seq<u8>,
    first_non_ws: int,
)
    requires
        same_up_to_case(a, b),
        0 <= first_non_ws <= a.len(),
    ensures
        html_tag_match(tag, a, first_non_ws) == html_tag_match(tag, b, first_non_ws),
{
    if html_tag_match(tag, a, first_non_ws) {
        lemma_html_tag_case(tag, a, b, first_non_ws);
    }
    if html_tag_match(tag, b, first_non_ws) {
        lemma_html_tag_case(tag, b, a, first_non_ws);
    }
}

/// Whether a buffer is taken for HTML does not depend on the case of its
/// letters.
pub proof fn lemma_html_detection_ignores_case(a: Seq<u8>, b: Seq<u8>)
    requires
        same_up_to_case(a, b),
    ensures
        content_type_of(a) == html_content_type() <==> content_type_of(b) == html_content_type(),
{
    let pa = prefix_of(a);
    let pb = prefix_of(b);
    assert(same_up_to_case(pa, pb));
    lemma_case_keeps_ws_end(pa, pb);
    lemma_ws_end_from(pa, 0);
    let e = ws_end(pa);
    lemma_html_answer(a);
    lemma_html_answer(b);
    let table = signature_table();
    assert forall|i: int|
        0 <= i < table.len() && (#[trigger] table[i]) is HtmlTag implies table[i].matches(pa, e)
        == table[i].matches(pb, e) by {
        lemma_html_tag_ignores_case(table[i]->tag, pa, pb, e);
    }
}

} // verus!
