//! The byte patterns and masks of the signature table.
//!
//! Each is written once, here, and read both by the table that the
//! contracts speak of and by the table that runs.

use vstd::prelude::*;

verus! {

// HTML tag openers, in upper case.

/// `<!DOCTYPE HTML`
pub const TAG_DOCTYPE: [u8; 14] = [
    0x3C, 0x21, 0x44, 0x4F, 0x43, 0x54, 0x59, 0x50, 0x45, 0x20, 0x48, 0x54,
    0x4D, 0x4C,
];

/// `<HTML`
pub const TAG_HTML: [u8; 5] = [0x3C, 0x48, 0x54, 0x4D, 0x4C];

/// `<HEAD`
pub const TAG_HEAD: [u8; 5] = [0x3C, 0x48, 0x45, 0x41, 0x44];

/// `<SCRIPT`
pub const TAG_SCRIPT: [u8; 7] = [0x3C, 0x53, 0x43, 0x52, 0x49, 0x50, 0x54];

/// `<IFRAME`
pub const TAG_IFRAME: [u8; 7] = [0x3C, 0x49, 0x46, 0x52, 0x41, 0x4D, 0x45];

/// `<H1`
pub const TAG_H1: [u8; 3] = [0x3C, 0x48, 0x31];

/// `<DIV`
pub const TAG_DIV: [u8; 4] = [0x3C, 0x44, 0x49, 0x56];

/// `<FONT`
pub const TAG_FONT: [u8; 5] = [0x3C, 0x46, 0x4F, 0x4E, 0x54];

/// `<TABLE`
pub const TAG_TABLE: [u8; 6] = [0x3C, 0x54, 0x41, 0x42, 0x4C, 0x45];

/// `<A`
pub const TAG_A: [u8; 2] = [0x3C, 0x41];

/// `<STYLE`
pub const TAG_STYLE: [u8; 6] = [0x3C, 0x53, 0x54, 0x59, 0x4C, 0x45];

/// `<TITLE`
pub const TAG_TITLE: [u8; 6] = [0x3C, 0x54, 0x49, 0x54, 0x4C, 0x45];

/// `<B`
pub const TAG_B: [u8; 2] = [0x3C, 0x42];

/// `<BODY`
pub const TAG_BODY: [u8; 5] = [0x3C, 0x42, 0x4F, 0x44, 0x59];

/// `<BR`
pub const TAG_BR: [u8; 3] = [0x3C, 0x42, 0x52];

/// `<P`
pub const TAG_P: [u8; 2] = [0x3C, 0x50];

/// `<!--`
pub const TAG_COMMENT: [u8; 4] = [0x3C, 0x21, 0x2D, 0x2D];

// Masks.

/// Three bytes, every bit of which counts.
pub const MASK_ALL_3: [u8; 3] = [0xFF, 0xFF, 0xFF];

/// Four bytes, every bit of which counts.
pub const MASK_ALL_4: [u8; 4] = [0xFF, 0xFF, 0xFF, 0xFF];

/// Five bytes, every bit of which counts.
pub const MASK_ALL_5: [u8; 5] = [0xFF, 0xFF, 0xFF, 0xFF, 0xFF];

/// Eight bytes, every bit of which counts.
pub const MASK_ALL_8: [u8; 8] = [0xFF, 0xFF, 0xFF, 0xFF, 0xFF, 0xFF, 0xFF, 0xFF];

/// A byte order mark of two bytes, and two bytes that do not count.
pub const MASK_BOM_2: [u8; 4] = [0xFF, 0xFF, 0x00, 0x00];

/// A byte order mark of three bytes, and one byte that does not count.
pub const MASK_BOM_3: [u8; 4] = [0xFF, 0xFF, 0xFF, 0x00];

/// A container tag, a size field that does not count, and a form type.
pub const MASK_CHUNK: [u8; 12] = [
    0xFF, 0xFF, 0xFF, 0xFF, 0x00, 0x00, 0x00, 0x00, 0xFF, 0xFF, 0xFF, 0xFF,
];

/// A container tag, a size field that does not count, and six bytes of form type.
pub const MASK_WEBP: [u8; 14] = [
    0xFF, 0xFF, 0xFF, 0xFF, 0x00, 0x00, 0x00, 0x00, 0xFF, 0xFF, 0xFF, 0xFF,
    0xFF, 0xFF,
];

/// Thirty-four bytes that do not count, and two that do.
pub const MASK_EOT: [u8; 36] = [
    0x00, 0x00, 0x00, 0x00, 0x00, 0x00, 0x00, 0x00, 0x00, 0x00, 0x00, 0x00,
    0x00, 0x00, 0x00, 0x00, 0x00, 0x00, 0x00, 0x00, 0x00, 0x00, 0x00, 0x00,
    0x00, 0x00, 0x00, 0x00, 0x00, 0x00, 0x00, 0x00, 0x00, 0x00, 0xFF, 0xFF,
];

// Text and document types.

/// `<?xml`
pub const PAT_XML: [u8; 5] = [0x3C, 0x3F, 0x78, 0x6D, 0x6C];

/// `%PDF-`
pub const MAGIC_PDF: [u8; 5] = [0x25, 0x50, 0x44, 0x46, 0x2D];

/// `%!PS-Adobe-`
pub const MAGIC_POSTSCRIPT: [u8; 11] = [
    0x25, 0x21, 0x50, 0x53, 0x2D, 0x41, 0x64, 0x6F, 0x62, 0x65, 0x2D,
];

/// The UTF-16 byte order mark, big-endian.
pub const PAT_UTF16_BE: [u8; 4] = [0xFE, 0xFF, 0x00, 0x00];

/// The UTF-16 byte order mark, little-endian.
pub const PAT_UTF16_LE: [u8; 4] = [0xFF, 0xFE, 0x00, 0x00];

/// The UTF-8 byte order mark.
pub const PAT_UTF8: [u8; 4] = [0xEF, 0xBB, 0xBF, 0x00];

// Image types.

/// A Windows icon.
pub const MAGIC_ICON: [u8; 4] = [0x00, 0x00, 0x01, 0x00];

/// A Windows cursor.
pub const MAGIC_CURSOR: [u8; 4] = [0x00, 0x00, 0x02, 0x00];

/// `BM`
pub const MAGIC_BMP: [u8; 2] = [0x42, 0x4D];

/// `GIF87a`
pub const MAGIC_GIF87: [u8; 6] = [0x47, 0x49, 0x46, 0x38, 0x37, 0x61];

/// `GIF89a`
pub const MAGIC_GIF89: [u8; 6] = [0x47, 0x49, 0x46, 0x38, 0x39, 0x61];

/// `RIFF`, four bytes of size, `WEBPVP`
pub const PAT_WEBP: [u8; 14] = [
    0x52, 0x49, 0x46, 0x46, 0x00, 0x00, 0x00, 0x00, 0x57, 0x45, 0x42, 0x50,
    0x56, 0x50,
];

/// `\x89PNG\r\n\x1A\n`
pub const MAGIC_PNG: [u8; 8] = [0x89, 0x50, 0x4E, 0x47, 0x0D, 0x0A, 0x1A, 0x0A];

/// The JPEG start-of-image marker and the first byte of the next marker.
pub const MAGIC_JPEG: [u8; 3] = [0xFF, 0xD8, 0xFF];

// Audio and video types.

/// `.snd`
pub const PAT_SND: [u8; 4] = [0x2E, 0x73, 0x6E, 0x64];

/// `FORM`, four bytes of size, `AIFF`
pub const PAT_AIFF: [u8; 12] = [
    0x46, 0x4F, 0x52, 0x4D, 0x00, 0x00, 0x00, 0x00, 0x41, 0x49, 0x46, 0x46,
];

/// `ID3`
pub const PAT_ID3: [u8; 3] = [0x49, 0x44, 0x33];

/// `OggS\0`
pub const PAT_OGG: [u8; 5] = [0x4F, 0x67, 0x67, 0x53, 0x00];

/// `MThd`, and a header length of six
pub const PAT_MIDI: [u8; 8] = [0x4D, 0x54, 0x68, 0x64, 0x00, 0x00, 0x00, 0x06];

/// `RIFF`, four bytes of size, `AVI `
pub const PAT_AVI: [u8; 12] = [
    0x52, 0x49, 0x46, 0x46, 0x00, 0x00, 0x00, 0x00, 0x41, 0x56, 0x49, 0x20,
];

/// `RIFF`, four bytes of size, `WAVE`
pub const PAT_WAVE: [u8; 12] = [
    0x52, 0x49, 0x46, 0x46, 0x00, 0x00, 0x00, 0x00, 0x57, 0x41, 0x56, 0x45,
];

/// `ftyp`: the type of the box that opens an ISO base media file.
pub const BOX_FTYP: [u8; 4] = [0x66, 0x74, 0x79, 0x70];

/// `mp4`: how the brands of the MP4 family begin.
pub const BRAND_MP4: [u8; 3] = [0x6D, 0x70, 0x34];

/// The EBML header identifier.
pub const MAGIC_WEBM: [u8; 4] = [0x1A, 0x45, 0xDF, 0xA3];

// Font types.

/// Thirty-four bytes of any value, then `LP`.
pub const PAT_EOT: [u8; 36] = [
    0x00, 0x00, 0x00, 0x00, 0x00, 0x00, 0x00, 0x00, 0x00, 0x00, 0x00, 0x00,
    0x00, 0x00, 0x00, 0x00, 0x00, 0x00, 0x00, 0x00, 0x00, 0x00, 0x00, 0x00,
    0x00, 0x00, 0x00, 0x00, 0x00, 0x00, 0x00, 0x00, 0x00, 0x00, 0x4C, 0x50,
];

/// The TrueType version number 1.0.
pub const MAGIC_TTF: [u8; 4] = [0x00, 0x01, 0x00, 0x00];

/// `OTTO`
pub const MAGIC_OTF: [u8; 4] = [0x4F, 0x54, 0x54, 0x4F];

/// `ttcf`
pub const MAGIC_TTC: [u8; 4] = [0x74, 0x74, 0x63, 0x66];

/// `wOFF`
pub const MAGIC_WOFF: [u8; 4] = [0x77, 0x4F, 0x46, 0x46];

/// `wOF2`
pub const MAGIC_WOFF2: [u8; 4] = [0x77, 0x4F, 0x46, 0x32];

// Archive types.

/// The gzip magic number and the deflate method.
pub const MAGIC_GZIP: [u8; 3] = [0x1F, 0x8B, 0x08];

/// `PK\x03\x04`
pub const MAGIC_ZIP: [u8; 4] = [0x50, 0x4B, 0x03, 0x04];

/// `Rar!\x1A\x07\0`: RAR 1.5 to 4.0
pub const MAGIC_RAR4: [u8; 7] = [0x52, 0x61, 0x72, 0x21, 0x1A, 0x07, 0x00];

/// `Rar!\x1A\x07\x01\0`: RAR 5 and later
pub const MAGIC_RAR5: [u8; 8] = [0x52, 0x61, 0x72, 0x21, 0x1A, 0x07, 0x01, 0x00];

/// `\0asm`
pub const MAGIC_WASM: [u8; 4] = [0x00, 0x61, 0x73, 0x6D];

} // verus!
