//! Signatures: the rules that tie a pattern in the leading bytes of a buffer
//! to a content type, and their matchers.

use crate::bytes::{
    ascii_upper, big_endian_u32, decode_big_endian_utf32, is_binary_byte, is_tag_terminator,
    is_tt,
};
use crate::patterns::{BOX_FTYP, BRAND_MP4};
use vstd::prelude::*;
use vstd::slice::slice_subrange;

verus! {

/// The content type of every HTML tag signature.
pub open spec fn html_content_type() -> Seq<char> {
    "text/html; charset=utf-8"@
}

/// The content type of the MP4 container signature.
pub open spec fn mp4_content_type() -> Seq<char> {
    "video/mp4"@
}

/// The content type of the generic text signature.
pub open spec fn text_content_type() -> Seq<char> {
    "text/plain; charset=utf-8"@
}

/// `data` starts with `sig`, byte for byte.
pub open spec fn exact_match(sig: Seq<u8>, data: Seq<u8>) -> bool {
    sig.is_prefix_of(data)
}

/// `pat` and `mask` have one length, `data` is at least as long, and each of
/// its first bytes, taken through the mask byte at its place, is the byte of
/// `pat` there.
pub open spec fn masked_prefix_match(mask: Seq<u8>, pat: Seq<u8>, data: Seq<u8>) -> bool {
    &&& pat.len() == mask.len()
    &&& pat.len() <= data.len()
    &&& forall|i: int| 0 <= i < pat.len() ==> (#[trigger] data[i]) & mask[i] == pat[i]
}

/// `data` spells `pat` through `mask`: after its leading whitespace when
/// `skip_ws` is set, and from its first byte otherwise.
pub open spec fn masked_match(
    mask: Seq<u8>,
    pat: Seq<u8>,
    skip_ws: bool,
    data: Seq<u8>,
    first_non_ws: int,
) -> bool {
    if skip_ws {
        masked_prefix_match(mask, pat, data.skip(first_non_ws))
    } else {
        masked_prefix_match(mask, pat, data)
    }
}

/// After its leading whitespace `data` spells `tag`, letters in either case,
/// and the byte after it is a tag terminator.
pub open spec fn html_tag_match(tag: Seq<u8>, data: Seq<u8>, first_non_ws: int) -> bool {
    let rest = data.skip(first_non_ws);
    &&& tag.len() < rest.len()
    &&& forall|i: int| 0 <= i < tag.len() ==> ascii_upper(#[trigger] rest[i]) == tag[i]
    &&& is_tag_terminator(rest[tag.len() as int])
}

/// The field at `at` is a brand of the MP4 family: it starts `mp4`.
pub open spec fn is_mp4_brand(data: Seq<u8>, at: int) -> bool {
    data.subrange(at, at + 3) == BRAND_MP4@
}

/// `data` opens with an `ftyp` box that lies within it, whose size is a
/// multiple of four, and one of whose brand fields is of the MP4 family. The
/// brand fields are the four-byte fields of the box from offset 8 on, but for
/// the one at offset 12, which holds the version of the major brand.
pub open spec fn mp4_match(data: Seq<u8>) -> bool {
    let box_size = big_endian_u32(data);
    &&& data.len() >= 12
    &&& box_size <= data.len()
    &&& box_size % 4 == 0
    &&& data.subrange(4, 8) == BOX_FTYP@
    &&& exists|at: int|
        8 <= at < box_size && at % 4 == 0 && at != 12 && #[trigger] is_mp4_brand(data, at)
}

/// No byte of `data` after its leading whitespace is a binary control byte.
pub open spec fn text_match(data: Seq<u8>, first_non_ws: int) -> bool {
    forall|i: int| first_non_ws <= i < data.len() ==> !is_binary_byte(#[trigger] data[i])
}

/// What a signature says, as plain values.
pub enum Signature {
    /// A magic number at the very start.
    Exact { sig: Seq<u8>, ct: Seq<char> },
    /// A pattern compared through a mask, after the leading whitespace where
    /// `skip_ws` is set.
    Masked { mask: Seq<u8>, pat: Seq<u8>, skip_ws: bool, ct: Seq<char> },
    /// An HTML tag opener, in upper case.
    HtmlTag { tag: Seq<u8> },
    /// The ISO base media `ftyp` box with a brand of the MP4 family.
    Mp4Container,
    /// Anything free of binary control bytes.
    GenericText,
}

impl Signature {
    /// Whether the signature is written as the table writes its entries: a
    /// mask as long as its pattern, and a tag without lower-case letters.
    /// The matchers take any signature; one that is not well formed matches
    /// nothing.
    pub open spec fn well_formed(self) -> bool {
        match self {
            Signature::Masked { mask, pat, .. } => mask.len() == pat.len(),
            Signature::HtmlTag { tag } => forall|i: int|
                0 <= i < tag.len() ==> ascii_upper(#[trigger] tag[i]) == tag[i],
            _ => true,
        }
    }

    /// Whether the signature is satisfied by `data`, whose leading whitespace
    /// ends at `first_non_ws`.
    pub open spec fn matches(self, data: Seq<u8>, first_non_ws: int) -> bool {
        match self {
            Signature::Exact { sig, .. } => exact_match(sig, data),
            Signature::Masked { mask, pat, skip_ws, .. } => masked_match(
                mask,
                pat,
                skip_ws,
                data,
                first_non_ws,
            ),
            Signature::HtmlTag { tag } => html_tag_match(tag, data, first_non_ws),
            Signature::Mp4Container => mp4_match(data),
            Signature::GenericText => text_match(data, first_non_ws),
        }
    }

    /// Whether the signature is compared after the leading whitespace, and
    /// so reads `first_non_ws`.
    pub open spec fn skips_whitespace(self) -> bool {
        match self {
            Signature::Exact { .. } => false,
            Signature::Masked { skip_ws, .. } => skip_ws,
            Signature::HtmlTag { .. } => true,
            Signature::Mp4Container => false,
            Signature::GenericText => true,
        }
    }

    /// The content type that the signature stands for.
    pub open spec fn content_type(self) -> Seq<char> {
        match self {
            Signature::Exact { ct, .. } => ct,
            Signature::Masked { ct, .. } => ct,
            Signature::HtmlTag { .. } => html_content_type(),
            Signature::Mp4Container => mp4_content_type(),
            Signature::GenericText => text_content_type(),
        }
    }

    /// The signature's content type where it matches, and nothing where it
    /// does not.
    pub open spec fn outcome(self, data: Seq<u8>, first_non_ws: int) -> Option<Seq<char>> {
        if self.matches(data, first_non_ws) {
            Some(self.content_type())
        } else {
            None
        }
    }
}

/// What a matcher returned, as plain values.
pub open spec fn outcome_view(r: Option<&'static str>) -> Option<Seq<char>> {
    match r {
        Some(ct) => Some(ct@),
        None => None,
    }
}

/// Reports whether `a` and `b` hold the same bytes.
fn same_bytes(a: &[u8], b: &[u8]) -> (r: bool)
    ensures
        r == (a@ == b@),
{
    if a.len() != b.len() {
        return false;
    }
    let mut i: usize = 0;
    while i < a.len()
        invariant
            i <= a@.len() == b@.len(),
            forall|k: int| 0 <= k < i ==> a@[k] == b@[k],
        decreases a@.len() - i,
    {
        if a[i] != b[i] {
            return false;
        }
        i += 1;
    }
    assert(a@ =~= b@);
    true
}

/// Reports whether `data` starts with `prefix`.
fn has_prefix(data: &[u8], prefix: &[u8]) -> (r: bool)
    ensures
        r == prefix@.is_prefix_of(data@),
{
    prefix.len() <= data.len() && same_bytes(slice_subrange(data, 0, prefix.len()), prefix)
}

/// A magic number: the bytes `sig` at the very start stand for `ct`.
#[derive(Debug, Clone, Copy)]
pub struct ExactSig {
    pub sig: &'static [u8],
    pub ct: &'static str,
}

impl View for ExactSig {
    type V = Signature;

    open spec fn view(&self) -> Signature {
        Signature::Exact { sig: self.sig@, ct: self.ct@ }
    }
}

impl ExactSig {
    /// Compares the start of `b` with the magic number.
    pub fn sig_match(&self, b: &[u8], _first_non_ws: usize) -> (r: Option<&'static str>)
        ensures
            outcome_view(r) == self@.outcome(b@, _first_non_ws as int),
    {
        if has_prefix(b, self.sig) {
            return Some(self.ct);
        }
        None
    }
}

/// A pattern with bits that do not count: where the bytes compared, each
/// taken through its byte of `mask`, spell `pat`, they stand for `ct`.
#[derive(Debug, Clone, Copy)]
pub struct MaskedSig {
    pub mask: &'static [u8],
    pub pat: &'static [u8],
    pub skip_ws: bool,
    pub ct: &'static str,
}

impl View for MaskedSig {
    type V = Signature;

    open spec fn view(&self) -> Signature {
        Signature::Masked { mask: self.mask@, pat: self.pat@, skip_ws: self.skip_ws, ct: self.ct@ }
    }
}

impl MaskedSig {
    /// Compares `data` with the pattern through the mask, from
    /// `first_non_ws` on where the signature skips whitespace.
    pub fn sig_match(&self, data: &[u8], first_non_ws: usize) -> (r: Option<&'static str>)
        requires
            self.skip_ws ==> first_non_ws <= data@.len(),
        ensures
            outcome_view(r) == self@.outcome(data@, first_non_ws as int),
    {
        let rest = if self.skip_ws {
            slice_subrange(data, first_non_ws, data.len())
        } else {
            data
        };
        if self.pat.len() != self.mask.len() {
            return None;
        }
        if rest.len() < self.pat.len() {
            return None;
        }
        let mut i: usize = 0;
        while i < self.pat.len()
            invariant
                rest@ == if self.skip_ws {
                    data@.skip(first_non_ws as int)
                } else {
                    data@
                },
                i <= self.pat@.len() <= rest@.len(),
                self.pat@.len() == self.mask@.len(),
                forall|k: int| 0 <= k < i ==> (#[trigger] rest@[k]) & self.mask@[k] == self.pat@[k],
            decreases self.pat@.len() - i,
        {
            let masked_data: u8 = rest[i] & self.mask[i];
            if masked_data != self.pat[i] {
                return None;
            }
            i += 1;
        }
        Some(self.ct)
    }
}

/// An HTML tag opener, written in upper case.
#[derive(Debug, Clone, Copy)]
pub struct HTMLSig(pub &'static [u8]);

impl View for HTMLSig {
    type V = Signature;

    open spec fn view(&self) -> Signature {
        Signature::HtmlTag { tag: self.0@ }
    }
}

impl HTMLSig {
    /// Compares `data` from `first_non_ws` on with the tag, letters in
    /// either case, and asks for a tag terminator after it.
    pub fn sig_match(&self, data: &[u8], first_non_ws: usize) -> (r: Option<&'static str>)
        requires
            first_non_ws <= data@.len(),
        ensures
            outcome_view(r) == self@.outcome(data@, first_non_ws as int),
    {
        let rest = slice_subrange(data, first_non_ws, data.len());
        let h = self.0;
        if rest.len() <= h.len() {
            return None;
        }
        let mut i: usize = 0;
        while i < h.len()
            invariant
                rest@ == data@.skip(first_non_ws as int),
                h@ == self.0@,
                i <= h@.len() < rest@.len(),
                forall|k: int| 0 <= k < i ==> ascii_upper(#[trigger] rest@[k]) == h@[k],
            decreases h@.len() - i,
        {
            let mut db: u8 = rest[i];
            if 0x61 <= db && db <= 0x7A {
                assert(db & 0xDF == db - 0x20) by (bit_vector)
                    requires
                        0x61 <= db && db <= 0x7A,
                ;
                db = db & 0xDF;
            }
            if h[i] != db {
                return None;
            }
            i += 1;
        }
        // The next byte must be a tag terminator.
        if !is_tt(rest[h.len()]) {
            return None;
        }
        Some("text/html; charset=utf-8")
    }
}

/// The signature of the MP4 container format.
#[derive(Debug, Clone, Copy)]
pub struct MP4Sig {}

impl View for MP4Sig {
    type V = Signature;

    open spec fn view(&self) -> Signature {
        Signature::Mp4Container
    }
}

impl MP4Sig {
    /// Scans the brand fields of a leading `ftyp` box for one of the MP4
    /// family.
    pub fn sig_match(&self, data: &[u8], _first_non_ws: usize) -> (r: Option<&'static str>)
        ensures
            outcome_view(r) == self@.outcome(data@, _first_non_ws as int),
    {
        if data.len() < 12 {
            return None;
        }
        let box_size: usize = decode_big_endian_utf32(slice_subrange(data, 0, 4)) as usize;
        assert(box_size == big_endian_u32(data@));
        if data.len() < box_size || box_size % 4 != 0 {
            return None;
        }
        if !same_bytes(slice_subrange(data, 4, 8), &BOX_FTYP) {
            return None;
        }
        let mut st: usize = 8;
        while st < box_size
            invariant
                data@.len() >= 12,
                box_size == big_endian_u32(data@),
                box_size <= data@.len(),
                box_size % 4 == 0,
                data@.subrange(4, 8) == BOX_FTYP@,
                st % 4 == 0,
                8 <= st,
                forall|at: int|
                    8 <= at < st && at % 4 == 0 && at != 12 ==> !#[trigger] is_mp4_brand(
                        data@,
                        at,
                    ),
            decreases box_size - st,
        {
            // The field at offset 12 is the version of the major brand, not a brand.
            if st != 12 && same_bytes(slice_subrange(data, st, st + 3), &BRAND_MP4) {
                assert(is_mp4_brand(data@, st as int));
                return Some("video/mp4");
            }
            st += 4;
        }
        None
    }
}

/// The signature of text: whatever holds no binary control byte.
#[derive(Debug, Clone, Copy)]
pub struct TextSig {}

impl View for TextSig {
    type V = Signature;

    open spec fn view(&self) -> Signature {
        Signature::GenericText
    }
}

impl TextSig {
    /// Looks for a binary control byte in `data` from `first_non_ws` on.
    pub fn sig_match(&self, data: &[u8], first_non_ws: usize) -> (r: Option<&'static str>)
        requires
            first_non_ws <= data@.len(),
        ensures
            outcome_view(r) == self@.outcome(data@, first_non_ws as int),
    {
        let mut i: usize = first_non_ws;
        while i < data.len()
            invariant
                first_non_ws <= i <= data@.len(),
                forall|k: int| first_non_ws <= k < i ==> !is_binary_byte(#[trigger] data@[k]),
            decreases data@.len() - i,
        {
            let b: u8 = data[i];
            if b <= 0x08 || b == 0x0B || (0x0E <= b && b <= 0x1A) || (0x1C <= b && b <= 0x1F) {
                return None;
            }
            i += 1;
        }
        Some("text/plain; charset=utf-8")
    }
}

/// A signature of any of the five kinds.
#[derive(Debug, Clone, Copy)]
pub enum SniffSig {
    Exact(ExactSig),
    Masked(MaskedSig),
    HTML(HTMLSig),
    MP4(MP4Sig),
    Text(TextSig),
}

impl View for SniffSig {
    type V = Signature;

    open spec fn view(&self) -> Signature {
        match self {
            SniffSig::Exact(sig) => sig@,
            SniffSig::Masked(sig) => sig@,
            SniffSig::HTML(sig) => sig@,
            SniffSig::MP4(sig) => sig@,
            SniffSig::Text(sig) => sig@,
        }
    }
}

impl SniffSig {
    /// Runs the matcher of the signature's kind on `b`, whose leading
    /// whitespace ends at `first_non_ws`.
    pub fn sig_match(&self, b: &[u8], first_non_ws: usize) -> (r: Option<&'static str>)
        requires
            self@.skips_whitespace() ==> first_non_ws <= b@.len(),
        ensures
            outcome_view(r) == self@.outcome(b@, first_non_ws as int),
    {
        match self {
            SniffSig::Exact(sig) => sig.sig_match(b, first_non_ws),
            SniffSig::Masked(sig) => sig.sig_match(b, first_non_ws),
            SniffSig::HTML(sig) => sig.sig_match(b, first_non_ws),
            SniffSig::MP4(sig) => sig.sig_match(b, first_non_ws),
            SniffSig::Text(sig) => sig.sig_match(b, first_non_ws),
        }
    }
}

} // verus!
