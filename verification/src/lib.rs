//! Content-type sniffing: the MIME type of a byte buffer, decided from its
//! first bytes alone.
//!
//! [`detect_content_type`] looks at no more than the first [`SNIFF_LEN`]
//! bytes, tries the signatures of [`table::signature_table`] in order, and
//! answers with the content type of the first that matches, or with
//! `application/octet-stream`.

pub mod bytes;
pub mod laws;
pub mod media_type;
pub mod patterns;
pub mod signature;
pub mod table;

use crate::bytes::{ends_leading_ws, is_ws, lemma_ws_end_unique, ws_end, ws_end_from};
use crate::laws::validity::lemma_content_type_is_media_type;
use crate::media_type::is_media_type;
use crate::signature::Signature;
use crate::table::{signature_table, sniff_signatures};
use vstd::prelude::*;
use vstd::slice::slice_subrange;

verus! {

/// The number of leading bytes that decide: no byte after them is looked at.
pub const SNIFF_LEN: usize = 512;

/// The content type of a buffer that no signature matches.
pub open spec fn fallback_content_type() -> Seq<char> {
    "application/octet-stream"@
}

/// The bytes of `data` that decide: all of them, or the first `SNIFF_LEN`.
pub open spec fn prefix_of(data: Seq<u8>) -> Seq<u8> {
    if data.len() > SNIFF_LEN {
        data.take(SNIFF_LEN as int)
    } else {
        data
    }
}

/// The content type of the first signature of `table`, from index `from` on,
/// that matches `data`; nothing where none of them does.
pub open spec fn first_match_from(
    table: Seq<Signature>,
    from: int,
    data: Seq<u8>,
    first_non_ws: int,
) -> Option<Seq<char>>
    decreases table.len() - from,
{
    if 0 <= from < table.len() {
        if table[from].matches(data, first_non_ws) {
            Some(table[from].content_type())
        } else {
            first_match_from(table, from + 1, data, first_non_ws)
        }
    } else {
        None
    }
}

/// The content type of the first signature of `table` that matches `data`.
pub open spec fn first_match(table: Seq<Signature>, data: Seq<u8>, first_non_ws: int) -> Option<
    Seq<char>,
> {
    first_match_from(table, 0, data, first_non_ws)
}

/// The content type of `data`: that of the first signature of the table that
/// matches its deciding bytes, and the fallback where none does.
pub open spec fn content_type_of(data: Seq<u8>) -> Seq<char> {
    let prefix = prefix_of(data);
    match first_match(signature_table(), prefix, ws_end(prefix)) {
        Some(ct) => ct,
        None => fallback_content_type(),
    }
}

/// Cuts `data` down to the bytes that decide, and finds where their leading
/// whitespace ends: at the first byte that is not whitespace, or at the end
/// where there is none.
pub fn sniff_prefix(data: &[u8]) -> (r: (&[u8], usize))
    ensures
        r.0@ == prefix_of(data@),
        r.0@.len() <= SNIFF_LEN,
        r.1 == ws_end(r.0@),
        ends_leading_ws(r.0@, r.1 as int),
{
    proof {
        lemma_ws_end_unique(prefix_of(data@), 0);
    }
    let prefix = if data.len() > SNIFF_LEN {
        slice_subrange(data, 0, SNIFF_LEN)
    } else {
        data
    };
    let mut i: usize = 0;
    while i < prefix.len() && is_ws(prefix[i])
        invariant
            i <= prefix@.len(),
            ws_end(prefix@) == ws_end_from(prefix@, i as int),
        decreases prefix@.len() - i,
    {
        i += 1;
    }
    (prefix, i)
}

/// Determines the content type of `data` from at most its first
/// `SNIFF_LEN` bytes. There is always an answer: where no signature
/// matches, it is `application/octet-stream`.
pub fn detect_content_type(data: &[u8]) -> (ct: &'static str)
    ensures
        ct@ == content_type_of(data@),
        ct@.len() > 0,
        is_media_type(ct@),
{
    let (prefix, first_non_ws) = sniff_prefix(data);
    proof {
        lemma_content_type_is_media_type(data@);
    }
    let table = sniff_signatures();
    let mut i: usize = 0;
    while i < table.len()
        invariant
            i <= table@.len() == signature_table().len(),
            forall|k: int|
                0 <= k < table@.len() ==> (#[trigger] table@[k])@ == signature_table()[k],
            prefix@ == prefix_of(data@),
            is_media_type(content_type_of(data@)),
            first_non_ws == ws_end(prefix@),
            first_non_ws <= prefix@.len(),
            first_match(signature_table(), prefix@, first_non_ws as int) == first_match_from(
                signature_table(),
                i as int,
                prefix@,
                first_non_ws as int,
            ),
        decreases table@.len() - i,
    {
        match table[i].sig_match(prefix, first_non_ws) {
            Some(ct) => {
                return ct;
            },
            None => {},
        }
        i += 1;
    }
    "application/octet-stream"
}

} // verus!
