//! The signature table. Its order is its meaning: the first signature that
//! matches decides, so none may be moved for speed or tidiness.

use crate::patterns::{
    MAGIC_BMP, MAGIC_CURSOR, MAGIC_GIF87, MAGIC_GIF89, MAGIC_GZIP, MAGIC_ICON, MAGIC_JPEG,
    MAGIC_OTF, MAGIC_PDF, MAGIC_PNG, MAGIC_POSTSCRIPT, MAGIC_RAR4, MAGIC_RAR5, MAGIC_TTC,
    MAGIC_TTF, MAGIC_WASM, MAGIC_WEBM, MAGIC_WOFF, MAGIC_WOFF2, MAGIC_ZIP, MASK_ALL_3, MASK_ALL_4,
    MASK_ALL_5, MASK_ALL_8, MASK_BOM_2, MASK_BOM_3, MASK_CHUNK, MASK_EOT, MASK_WEBP, PAT_AIFF,
    PAT_AVI, PAT_EOT, PAT_ID3, PAT_MIDI, PAT_OGG, PAT_SND, PAT_UTF16_BE, PAT_UTF16_LE, PAT_UTF8,
    PAT_WAVE, PAT_WEBP, PAT_XML, TAG_A, TAG_B, TAG_BODY, TAG_BR, TAG_COMMENT, TAG_DIV,
    TAG_DOCTYPE, TAG_FONT, TAG_H1, TAG_HEAD, TAG_HTML, TAG_IFRAME, TAG_P, TAG_SCRIPT, TAG_STYLE,
    TAG_TABLE, TAG_TITLE,
};
use crate::signature::{ExactSig, HTMLSig, MP4Sig, MaskedSig, Signature, SniffSig, TextSig};
use vstd::prelude::*;

verus! {

/// The number of signatures in the table.
pub const TABLE_LEN: usize = 52;

/// The content type of the XML declaration.
pub open spec fn xml_content_type() -> Seq<char> {
    "text/xml; charset=utf-8"@
}

/// The content type of the big-endian UTF-16 byte order mark.
pub open spec fn utf16_be_content_type() -> Seq<char> {
    "text/plain; charset=utf-16be"@
}

/// The content type of the little-endian UTF-16 byte order mark.
pub open spec fn utf16_le_content_type() -> Seq<char> {
    "text/plain; charset=utf-16le"@
}

/// The content type of an Embedded OpenType font.
pub open spec fn eot_content_type() -> Seq<char> {
    "application/vnd.ms-fontobject"@
}

/// The signature of the XML declaration, which may follow whitespace.
pub open spec fn xml_signature() -> Signature {
    Signature::Masked { mask: MASK_ALL_5@, pat: PAT_XML@, skip_ws: true, ct: xml_content_type() }
}

/// The signature of the big-endian UTF-16 byte order mark.
pub open spec fn utf16_be_signature() -> Signature {
    Signature::Masked {
        mask: MASK_BOM_2@,
        pat: PAT_UTF16_BE@,
        skip_ws: false,
        ct: utf16_be_content_type(),
    }
}

/// The signature of the little-endian UTF-16 byte order mark.
pub open spec fn utf16_le_signature() -> Signature {
    Signature::Masked {
        mask: MASK_BOM_2@,
        pat: PAT_UTF16_LE@,
        skip_ws: false,
        ct: utf16_le_content_type(),
    }
}

/// The signature of an Embedded OpenType font: `LP` after thirty-four bytes
/// of any value.
pub open spec fn eot_signature() -> Signature {
    Signature::Masked { mask: MASK_EOT@, pat: PAT_EOT@, skip_ws: false, ct: eot_content_type() }
}

/// The table, as plain values.
pub open spec fn signature_table() -> Seq<Signature> {
    seq![
        Signature::HtmlTag { tag: TAG_DOCTYPE@ },
        Signature::HtmlTag { tag: TAG_HTML@ },
        Signature::HtmlTag { tag: TAG_HEAD@ },
        Signature::HtmlTag { tag: TAG_SCRIPT@ },
        Signature::HtmlTag { tag: TAG_IFRAME@ },
        Signature::HtmlTag { tag: TAG_H1@ },
        Signature::HtmlTag { tag: TAG_DIV@ },
        Signature::HtmlTag { tag: TAG_FONT@ },
        Signature::HtmlTag { tag: TAG_TABLE@ },
        Signature::HtmlTag { tag: TAG_A@ },
        Signature::HtmlTag { tag: TAG_STYLE@ },
        Signature::HtmlTag { tag: TAG_TITLE@ },
        Signature::HtmlTag { tag: TAG_B@ },
        Signature::HtmlTag { tag: TAG_BODY@ },
        Signature::HtmlTag { tag: TAG_BR@ },
        Signature::HtmlTag { tag: TAG_P@ },
        Signature::HtmlTag { tag: TAG_COMMENT@ },
        xml_signature(),
        Signature::Exact { sig: MAGIC_PDF@, ct: "application/pdf"@ },
        Signature::Exact { sig: MAGIC_POSTSCRIPT@, ct: "application/postsript"@ },
        // Byte order marks.
        utf16_be_signature(),
        utf16_le_signature(),
        Signature::Masked {
            mask: MASK_BOM_3@,
            pat: PAT_UTF8@,
            skip_ws: false,
            ct: "text/plain; charset=utf-8"@,
        },
        // Image types.
        Signature::Exact { sig: MAGIC_ICON@, ct: "image/x-icon"@ },
        Signature::Exact { sig: MAGIC_CURSOR@, ct: "image/x-icon"@ },
        Signature::Exact { sig: MAGIC_BMP@, ct: "image/bmp"@ },
        Signature::Exact { sig: MAGIC_GIF87@, ct: "image/gif"@ },
        Signature::Exact { sig: MAGIC_GIF89@, ct: "image/gif"@ },
        Signature::Masked {
            mask: MASK_WEBP@,
            pat: PAT_WEBP@,
            skip_ws: false,
            ct: "image/webp"@,
        },
        Signature::Exact { sig: MAGIC_PNG@, ct: "image/png"@ },
        Signature::Exact { sig: MAGIC_JPEG@, ct: "image/jpeg"@ },
        // Audio and video types, in the order in which they are to be tried.
        Signature::Masked {
            mask: MASK_ALL_4@,
            pat: PAT_SND@,
            skip_ws: false,
            ct: "audio/basic"@,
        },
        Signature::Masked {
            mask: MASK_CHUNK@,
            pat: PAT_AIFF@,
            skip_ws: false,
            ct: "audio/aiff"@,
        },
        Signature::Masked {
            mask: MASK_ALL_3@,
            pat: PAT_ID3@,
            skip_ws: false,
            ct: "audio/mpeg"@,
        },
        Signature::Masked {
            mask: MASK_ALL_5@,
            pat: PAT_OGG@,
            skip_ws: false,
            ct: "application/ogg"@,
        },
        Signature::Masked {
            mask: MASK_ALL_8@,
            pat: PAT_MIDI@,
            skip_ws: false,
            ct: "audio/midi"@,
        },
        Signature::Masked {
            mask: MASK_CHUNK@,
            pat: PAT_AVI@,
            skip_ws: false,
            ct: "video/avi"@,
        },
        Signature::Masked {
            mask: MASK_CHUNK@,
            pat: PAT_WAVE@,
            skip_ws: false,
            ct: "audio/wave"@,
        },
        Signature::Mp4Container,
        Signature::Exact { sig: MAGIC_WEBM@, ct: "video/webm"@ },
        // Font types.
        eot_signature(),
        Signature::Exact { sig: MAGIC_TTF@, ct: "font/ttf"@ },
        Signature::Exact { sig: MAGIC_OTF@, ct: "font/otf"@ },
        Signature::Exact { sig: MAGIC_TTC@, ct: "font/collection"@ },
        Signature::Exact { sig: MAGIC_WOFF@, ct: "font/woff"@ },
        Signature::Exact { sig: MAGIC_WOFF2@, ct: "font/woff2"@ },
        // Archive types.
        Signature::Exact { sig: MAGIC_GZIP@, ct: "application/x-gzip"@ },
        Signature::Exact { sig: MAGIC_ZIP@, ct: "application/zip"@ },
        Signature::Exact { sig: MAGIC_RAR4@, ct: "application/x-rar-compressed"@ },
        Signature::Exact { sig: MAGIC_RAR5@, ct: "application/x-rar-compressed"@ },
        Signature::Exact { sig: MAGIC_WASM@, ct: "application/wasm"@ },
        // Text comes last: whatever matched above goes before it.
        Signature::GenericText,
    ]
}

/// The table that runs: entry for entry what `signature_table` says.
pub fn sniff_signatures() -> (table: &'static [SniffSig])
    ensures
        table@.len() == TABLE_LEN == signature_table().len(),
        forall|i: int| 0 <= i < table@.len() ==> (#[trigger] table@[i])@ == signature_table()[i],
{
    let table: &'static [SniffSig; TABLE_LEN] = &[
        SniffSig::HTML(HTMLSig(&TAG_DOCTYPE)),
        SniffSig::HTML(HTMLSig(&TAG_HTML)),
        SniffSig::HTML(HTMLSig(&TAG_HEAD)),
        SniffSig::HTML(HTMLSig(&TAG_SCRIPT)),
        SniffSig::HTML(HTMLSig(&TAG_IFRAME)),
        SniffSig::HTML(HTMLSig(&TAG_H1)),
        SniffSig::HTML(HTMLSig(&TAG_DIV)),
        SniffSig::HTML(HTMLSig(&TAG_FONT)),
        SniffSig::HTML(HTMLSig(&TAG_TABLE)),
        SniffSig::HTML(HTMLSig(&TAG_A)),
        SniffSig::HTML(HTMLSig(&TAG_STYLE)),
        SniffSig::HTML(HTMLSig(&TAG_TITLE)),
        SniffSig::HTML(HTMLSig(&TAG_B)),
        SniffSig::HTML(HTMLSig(&TAG_BODY)),
        SniffSig::HTML(HTMLSig(&TAG_BR)),
        SniffSig::HTML(HTMLSig(&TAG_P)),
        SniffSig::HTML(HTMLSig(&TAG_COMMENT)),
        SniffSig::Masked(MaskedSig {
            mask: &MASK_ALL_5,
            pat: &PAT_XML,
            skip_ws: true,
            ct: "text/xml; charset=utf-8",
        }),
        SniffSig::Exact(ExactSig { sig: &MAGIC_PDF, ct: "application/pdf" }),
        SniffSig::Exact(ExactSig { sig: &MAGIC_POSTSCRIPT, ct: "application/postsript" }),
        // Byte order marks.
        SniffSig::Masked(MaskedSig {
            mask: &MASK_BOM_2,
            pat: &PAT_UTF16_BE,
            skip_ws: false,
            ct: "text/plain; charset=utf-16be",
        }),
        SniffSig::Masked(MaskedSig {
            mask: &MASK_BOM_2,
            pat: &PAT_UTF16_LE,
            skip_ws: false,
            ct: "text/plain; charset=utf-16le",
        }),
        SniffSig::Masked(MaskedSig {
            mask: &MASK_BOM_3,
            pat: &PAT_UTF8,
            skip_ws: false,
            ct: "text/plain; charset=utf-8",
        }),
        // Image types.
        SniffSig::Exact(ExactSig { sig: &MAGIC_ICON, ct: "image/x-icon" }),
        SniffSig::Exact(ExactSig { sig: &MAGIC_CURSOR, ct: "image/x-icon" }),
        SniffSig::Exact(ExactSig { sig: &MAGIC_BMP, ct: "image/bmp" }),
        SniffSig::Exact(ExactSig { sig: &MAGIC_GIF87, ct: "image/gif" }),
        SniffSig::Exact(ExactSig { sig: &MAGIC_GIF89, ct: "image/gif" }),
        SniffSig::Masked(MaskedSig {
            mask: &MASK_WEBP,
            pat: &PAT_WEBP,
            skip_ws: false,
            ct: "image/webp",
        }),
        SniffSig::Exact(ExactSig { sig: &MAGIC_PNG, ct: "image/png" }),
        SniffSig::Exact(ExactSig { sig: &MAGIC_JPEG, ct: "image/jpeg" }),
        // Audio and video types, in the order in which they are to be tried.
        SniffSig::Masked(MaskedSig {
            mask: &MASK_ALL_4,
            pat: &PAT_SND,
            skip_ws: false,
            ct: "audio/basic",
        }),
        SniffSig::Masked(MaskedSig {
            mask: &MASK_CHUNK,
            pat: &PAT_AIFF,
            skip_ws: false,
            ct: "audio/aiff",
        }),
        SniffSig::Masked(MaskedSig {
            mask: &MASK_ALL_3,
            pat: &PAT_ID3,
            skip_ws: false,
            ct: "audio/mpeg",
        }),
        SniffSig::Masked(MaskedSig {
            mask: &MASK_ALL_5,
            pat: &PAT_OGG,
            skip_ws: false,
            ct: "application/ogg",
        }),
        SniffSig::Masked(MaskedSig {
            mask: &MASK_ALL_8,
            pat: &PAT_MIDI,
            skip_ws: false,
            ct: "audio/midi",
        }),
        SniffSig::Masked(MaskedSig {
            mask: &MASK_CHUNK,
            pat: &PAT_AVI,
            skip_ws: false,
            ct: "video/avi",
        }),
        SniffSig::Masked(MaskedSig {
            mask: &MASK_CHUNK,
            pat: &PAT_WAVE,
            skip_ws: false,
            ct: "audio/wave",
        }),
        SniffSig::MP4(MP4Sig {}),
        SniffSig::Exact(ExactSig { sig: &MAGIC_WEBM, ct: "video/webm" }),
        // Font types.
        SniffSig::Masked(MaskedSig {
            mask: &MASK_EOT,
            pat: &PAT_EOT,
            skip_ws: false,
            ct: "application/vnd.ms-fontobject",
        }),
        SniffSig::Exact(ExactSig { sig: &MAGIC_TTF, ct: "font/ttf" }),
        SniffSig::Exact(ExactSig { sig: &MAGIC_OTF, ct: "font/otf" }),
        SniffSig::Exact(ExactSig { sig: &MAGIC_TTC, ct: "font/collection" }),
        SniffSig::Exact(ExactSig { sig: &MAGIC_WOFF, ct: "font/woff" }),
        SniffSig::Exact(ExactSig { sig: &MAGIC_WOFF2, ct: "font/woff2" }),
        // Archive types.
        SniffSig::Exact(ExactSig { sig: &MAGIC_GZIP, ct: "application/x-gzip" }),
        SniffSig::Exact(ExactSig { sig: &MAGIC_ZIP, ct: "application/zip" }),
        SniffSig::Exact(ExactSig { sig: &MAGIC_RAR4, ct: "application/x-rar-compressed" }),
        SniffSig::Exact(ExactSig { sig: &MAGIC_RAR5, ct: "application/x-rar-compressed" }),
        SniffSig::Exact(ExactSig { sig: &MAGIC_WASM, ct: "application/wasm" }),
        // Text comes last: whatever matched above goes before it.
        SniffSig::Text(TextSig {}),
    ];
    table
}

} // verus!
