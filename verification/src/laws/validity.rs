//! Every answer is a media type.

use crate::bytes::ws_end;
use crate::laws::order::lemma_first_match;
use crate::media_type::{is_essence, is_essence_with_parameter, is_media_type};
use crate::table::signature_table;
use crate::{content_type_of, fallback_content_type, prefix_of};
use vstd::prelude::*;

verus! {

/// Every content type of the table, and the fallback, is a media type.
pub proof fn lemma_table_content_types_are_media_types()
    ensures
        forall|i: int|
            0 <= i < signature_table().len() ==> is_media_type(
                (#[trigger] signature_table()[i]).content_type(),
            ),
        is_media_type(fallback_content_type()),
{
    reveal_strlit("text/html; charset=utf-8");
    assert(is_essence_with_parameter("text/html; charset=utf-8"@, 4, 9, 18));
    reveal_strlit("text/xml; charset=utf-8");
    assert(is_essence_with_parameter("text/xml; charset=utf-8"@, 4, 8, 17));
    reveal_strlit("application/pdf");
    assert(is_essence("application/pdf"@, 11));
    reveal_strlit("application/postsript");
    assert(is_essence("application/postsript"@, 11));
    reveal_strlit("text/plain; charset=utf-16be");
    assert(is_essence_with_parameter("text/plain; charset=utf-16be"@, 4, 10, 19));
    reveal_strlit("text/plain; charset=utf-16le");
    assert(is_essence_with_parameter("text/plain; charset=utf-16le"@, 4, 10, 19));
    reveal_strlit("text/plain; charset=utf-8");
    assert(is_essence_with_parameter("text/plain; charset=utf-8"@, 4, 10, 19));
    reveal_strlit("image/x-icon");
    assert(is_essence("image/x-icon"@, 5));
    reveal_strlit("image/bmp");
    assert(is_essence("image/bmp"@, 5));
    reveal_strlit("image/gif");
    assert(is_essence("image/gif"@, 5));
    reveal_strlit("image/webp");
    assert(is_essence("image/webp"@, 5));
    reveal_strlit("image/png");
    assert(is_essence("image/png"@, 5));
    reveal_strlit("image/jpeg");
    assert(is_essence("image/jpeg"@, 5));
    reveal_strlit("audio/basic");
    assert(is_essence("audio/basic"@, 5));
    reveal_strlit("audio/aiff");
    assert(is_essence("audio/aiff"@, 5));
    reveal_strlit("audio/mpeg");
    assert(is_essence("audio/mpeg"@, 5));
    reveal_strlit("application/ogg");
    assert(is_essence("application/ogg"@, 11));
    reveal_strlit("audio/midi");
    assert(is_essence("audio/midi"@, 5));
    reveal_strlit("video/avi");
    assert(is_essence("video/avi"@, 5));
    reveal_strlit("audio/wave");
    assert(is_essence("audio/wave"@, 5));
    reveal_strlit("video/mp4");
    assert(is_essence("video/mp4"@, 5));
    reveal_strlit("video/webm");
    assert(is_essence("video/webm"@, 5));
    reveal_strlit("application/vnd.ms-fontobject");
    assert(is_essence("application/vnd.ms-fontobject"@, 11));
    reveal_strlit("font/ttf");
    assert(is_essence("font/ttf"@, 4));
    reveal_strlit("font/otf");
    assert(is_essence("font/otf"@, 4));
    reveal_strlit("font/collection");
    assert(is_essence("font/collection"@, 4));
    reveal_strlit("font/woff");
    assert(is_essence("font/woff"@, 4));
    reveal_strlit("font/woff2");
    assert(is_essence("font/woff2"@, 4));
    reveal_strlit("application/x-gzip");
    assert(is_essence("application/x-gzip"@, 11));
    reveal_strlit("application/zip");
    assert(is_essence("application/zip"@, 11));
    reveal_strlit("application/x-rar-compressed");
    assert(is_essence("application/x-rar-compressed"@, 11));
    reveal_strlit("application/wasm");
    assert(is_essence("application/wasm"@, 11));
    reveal_strlit("application/octet-stream");
    assert(is_essence("application/octet-stream"@, 11));
}

/// Whatever the input, the answer is a media type.
pub proof fn lemma_content_type_is_media_type(data: Seq<u8>)
    ensures
        is_media_type(content_type_of(data)),
{
    let prefix = prefix_of(data);
    lemma_table_content_types_are_media_types();
    lemma_first_match(signature_table(), prefix, ws_end(prefix));
}

} // verus!
