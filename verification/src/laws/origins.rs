//! What the table holds: the form of its entries, their order, and which of
//! them answers with which content type.

use crate::bytes::{ascii_upper, ws_end};
use crate::laws::order::{lemma_deciding_entry, lemma_first_match, no_match};
use crate::signature::{html_content_type, html_tag_match, Signature};
use crate::table::{
    signature_table, utf16_be_content_type, utf16_be_signature, utf16_le_content_type,
    utf16_le_signature, xml_content_type, xml_signature,
};
use crate::{content_type_of, fallback_content_type, first_match, prefix_of};
use vstd::prelude::*;

verus! {

/// The length of each content type of the table, and of the fallback.
proof fn lemma_content_type_lengths()
    ensures
        "text/html; charset=utf-8"@.len() == 24,
        "text/xml; charset=utf-8"@.len() == 23,
        "application/pdf"@.len() == 15,
        "application/postsript"@.len() == 21,
        "text/plain; charset=utf-16be"@.len() == 28,
        "text/plain; charset=utf-16le"@.len() == 28,
        "text/plain; charset=utf-8"@.len() == 25,
        "image/x-icon"@.len() == 12,
        "image/bmp"@.len() == 9,
        "image/gif"@.len() == 9,
        "image/webp"@.len() == 10,
        "image/png"@.len() == 9,
        "image/jpeg"@.len() == 10,
        "audio/basic"@.len() == 11,
        "audio/aiff"@.len() == 10,
        "audio/mpeg"@.len() == 10,
        "application/ogg"@.len() == 15,
        "audio/midi"@.len() == 10,
        "video/avi"@.len() == 9,
        "audio/wave"@.len() == 10,
        "video/mp4"@.len() == 9,
        "video/webm"@.len() == 10,
        "application/vnd.ms-fontobject"@.len() == 29,
        "font/ttf"@.len() == 8,
        "font/otf"@.len() == 8,
        "font/collection"@.len() == 15,
        "font/woff"@.len() == 9,
        "font/woff2"@.len() == 10,
        "application/x-gzip"@.len() == 18,
        "application/zip"@.len() == 15,
        "application/x-rar-compressed"@.len() == 28,
        "application/wasm"@.len() == 16,
        "application/octet-stream"@.len() == 24,
{
    reveal_strlit("text/html; charset=utf-8");
    reveal_strlit("text/xml; charset=utf-8");
    reveal_strlit("application/pdf");
    reveal_strlit("application/postsript");
    reveal_strlit("text/plain; charset=utf-16be");
    reveal_strlit("text/plain; charset=utf-16le");
    reveal_strlit("text/plain; charset=utf-8");
    reveal_strlit("image/x-icon");
    reveal_strlit("image/bmp");
    reveal_strlit("image/gif");
    reveal_strlit("image/webp");
    reveal_strlit("image/png");
    reveal_strlit("image/jpeg");
    reveal_strlit("audio/basic");
    reveal_strlit("audio/aiff");
    reveal_strlit("audio/mpeg");
    reveal_strlit("application/ogg");
    reveal_strlit("audio/midi");
    reveal_strlit("video/avi");
    reveal_strlit("audio/wave");
    reveal_strlit("video/mp4");
    reveal_strlit("video/webm");
    reveal_strlit("application/vnd.ms-fontobject");
    reveal_strlit("font/ttf");
    reveal_strlit("font/otf");
    reveal_strlit("font/collection");
    reveal_strlit("font/woff");
    reveal_strlit("font/woff2");
    reveal_strlit("application/x-gzip");
    reveal_strlit("application/zip");
    reveal_strlit("application/x-rar-compressed");
    reveal_strlit("application/wasm");
    reveal_strlit("application/octet-stream");
}

/// A signature that is not well formed matches nothing.
pub proof fn lemma_ill_formed_matches_nothing(sig: Signature, data: Seq<u8>, first_non_ws: int)
    requires
        !sig.well_formed(),
    ensures
        !sig.matches(data, first_non_ws),
{
    if let Signature::HtmlTag { tag } = sig {
        let i = choose|i: int| 0 <= i < tag.len() && ascii_upper(#[trigger] tag[i]) != tag[i];
        let rest = data.skip(first_non_ws);
        if html_tag_match(tag, data, first_non_ws) {
            assert(ascii_upper(rest[i]) == tag[i]);
        }
    }
}

/// Every entry of the table is well formed.
pub proof fn lemma_table_well_formed()
    ensures
        forall|i: int|
            0 <= i < signature_table().len() ==> (#[trigger] signature_table()[i]).well_formed(),
{
}

/// The text signature is the last entry of the table, and no other entry
/// is one: whatever else matches goes before it.
pub proof fn lemma_text_comes_last()
    ensures
        forall|i: int|
            0 <= i < signature_table().len() ==> ((#[trigger] signature_table()[i]) is GenericText
                <==> i == signature_table().len() - 1),
{
}

/// The HTML tags come before every other entry of the table.
pub proof fn lemma_html_tags_come_first()
    ensures
        forall|i: int, j: int|
            0 <= i < j < signature_table().len() && (#[trigger] signature_table()[j]) is HtmlTag
                ==> (#[trigger] signature_table()[i]) is HtmlTag,
{
}

/// The content type of HTML is that of the HTML tags and of no other
/// entry, nor is it the fallback.
pub proof fn lemma_html_origin()
    ensures
        forall|i: int|
            0 <= i < signature_table().len() ==> ((#[trigger] signature_table()[i]).content_type()
                == html_content_type() <==> signature_table()[i] is HtmlTag),
        fallback_content_type() != html_content_type(),
{
    lemma_content_type_lengths();
    reveal_strlit("text/html; charset=utf-8");
    reveal_strlit("application/octet-stream");
    assert("application/octet-stream"@[0] != "text/html; charset=utf-8"@[0]);
}

/// The content type of XML is that of the XML declaration and of no other
/// entry, nor is it the fallback; and only HTML tags stand before the XML
/// declaration.
pub proof fn lemma_xml_origin()
    ensures
        forall|i: int|
            0 <= i < signature_table().len() ==> ((#[trigger] signature_table()[i]).content_type()
                == xml_content_type() <==> signature_table()[i] == xml_signature()),
        forall|i: int, k: int|
            0 <= k < i < signature_table().len() && (#[trigger] signature_table()[i])
                == xml_signature() ==> (#[trigger] signature_table()[k]) is HtmlTag,
        fallback_content_type() != xml_content_type(),
{
    lemma_content_type_lengths();
}

/// The content types of UTF-16 are those of the two byte order marks and
/// of no other entry, nor is either the fallback.
pub proof fn lemma_utf16_origin()
    ensures
        forall|i: int|
            0 <= i < signature_table().len() ==> ((#[trigger] signature_table()[i]).content_type()
                == utf16_be_content_type() <==> signature_table()[i] == utf16_be_signature()),
        forall|i: int|
            0 <= i < signature_table().len() ==> ((#[trigger] signature_table()[i]).content_type()
                == utf16_le_content_type() <==> signature_table()[i] == utf16_le_signature()),
        fallback_content_type() != utf16_be_content_type(),
        fallback_content_type() != utf16_le_content_type(),
{
    lemma_content_type_lengths();
    reveal_strlit("text/plain; charset=utf-16be");
    reveal_strlit("text/plain; charset=utf-16le");
    reveal_strlit("application/x-rar-compressed");
    assert("text/plain; charset=utf-16le"@[26] != "text/plain; charset=utf-16be"@[26]);
    assert("application/x-rar-compressed"@[0] != "text/plain; charset=utf-16be"@[0]);
    assert("application/x-rar-compressed"@[0] != "text/plain; charset=utf-16le"@[0]);
}

/// Some HTML tag of the table matches `data`.
pub open spec fn some_html_tag_matches(data: Seq<u8>, first_non_ws: int) -> bool {
    exists|i: int|
        0 <= i < signature_table().len() && (#[trigger] signature_table()[i]) is HtmlTag
            && signature_table()[i].matches(data, first_non_ws)
}

/// The answer is that of HTML exactly where some HTML tag of the table
/// matches the deciding bytes.
pub proof fn lemma_html_answer(data: Seq<u8>)
    ensures
        content_type_of(data) == html_content_type() <==> some_html_tag_matches(
            prefix_of(data),
            ws_end(prefix_of(data)),
        ),
{
    let table = signature_table();
    let prefix = prefix_of(data);
    let e = ws_end(prefix);
    lemma_html_origin();
    lemma_html_tags_come_first();
    lemma_first_match(table, prefix, e);
    if some_html_tag_matches(prefix, e) {
        let i = choose|i: int|
            0 <= i < table.len() && (#[trigger] table[i]) is HtmlTag && table[i].matches(prefix, e);
        assert(!no_match(table, prefix, e));
        let k = lemma_deciding_entry(table, prefix, e);
        if i < k {
            assert(!table[i].matches(prefix, e));
        }
        assert(table[k] is HtmlTag);
    }
    if content_type_of(data) == html_content_type() {
        let k = lemma_deciding_entry(table, prefix, e);
        assert(table[k] is HtmlTag);
    }
}

} // verus!
