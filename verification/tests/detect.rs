use mimesniff::detect_content_type;

struct SniffTest(
    &'static str,  // desc
    &'static [u8], // data
    &'static str,  // content-type
);

impl SniffTest {
    fn desc(&self) -> &'static str {
        self.0
    }

    fn data(&self) -> &'static [u8] {
        self.1
    }

    fn content_type(&self) -> &'static str {
        self.2
    }
}

fn sniff_tests() -> Vec<SniffTest> {
    vec![
        // Some nonsense.
        SniffTest("Empty", b"", "text/plain; charset=utf-8"),
        SniffTest("Binary", &[1, 2, 3], "application/octet-stream"),
        SniffTest(
            "HTML document #1",
            b"<HtMl><bOdY>blah blah blah</body></html>",
            "text/html; charset=utf-8",
        ),
        SniffTest("HTML document #2", b"<HTML></HTML>", "text/html; charset=utf-8"),
        SniffTest(
            "HTML document #3 (leading whitespace)",
            b"   <!DOCTYPE HTML>...",
            "text/html; charset=utf-8",
        ),
        SniffTest("HTML document #4 (leading CRLF)", b"\r\n<html>...", "text/html; charset=utf-8"),
        SniffTest(
            "Plain text",
            "This is not HTML. It has \u{2603} though.".as_bytes(),
            "text/plain; charset=utf-8",
        ),
        SniffTest("XML", b"\n<?xml!", "text/xml; charset=utf-8"),
        // Image types.
        SniffTest("Windows icon", b"\x00\x00\x01\x00", "image/x-icon"),
        SniffTest("Windows cursor", b"\x00\x00\x02\x00", "image/x-icon"),
        SniffTest("BMP image", b"BM...", "image/bmp"),
        SniffTest("GIF 87a", b"GIF87a", "image/gif"),
        SniffTest("GIF 89a", b"GIF89a...", "image/gif"),
        SniffTest("WEBP image", b"RIFF\x00\x00\x00\x00WEBPVP", "image/webp"),
        SniffTest("PNG image", b"\x89PNG\x0D\x0A\x1A\x0A", "image/png"),
        SniffTest("JPEG image", b"\xFF\xD8\xFF", "image/jpeg"),
        // Audio types.
        SniffTest("MIDI audio", b"MThd\x00\x00\x00\x06\x00\x01", "audio/midi"),
        SniffTest("MP3 audio/MPEG audio", b"ID3\x03\x00\x00\x00\x00\x0f", "audio/mpeg"),
        SniffTest(
            "WAV audio #1",
            b"RIFFb\xb8\x00\x00WAVEfmt \x12\x00\x00\x00\x06",
            "audio/wave",
        ),
        SniffTest(
            "WAV audio #2",
            b"RIFF,\x00\x00\x00WAVEfmt \x12\x00\x00\x00\x06",
            "audio/wave",
        ),
        SniffTest(
            "AIFF audio #1",
            b"FORM\x00\x00\x00\x00AIFFCOMM\x00\x00\x00\x12\x00\x01\x00\x00\x57\x55\x00\x10\x40\x0d\xf3\x34",
            "audio/aiff",
        ),
        SniffTest(
            "OGG audio",
            b"OggS\x00\x02\x00\x00\x00\x00\x00\x00\x00\x00\x7e\x46\x00\x00\x00\x00\x00\x00\x1f\xf6\xb4\xfc\x01\x1e\x01\x76\x6f\x72",
            "application/ogg",
        ),
        SniffTest("Must not match OGG", b"owow\x00", "application/octet-stream"),
        SniffTest("Must not match OGG", b"oooS\x00", "application/octet-stream"),
        SniffTest("Must not match OGG", b"oggS\x00", "application/octet-stream"),
        // Video types.
        SniffTest(
            "MP4 video",
            b"\x00\x00\x00\x18ftypmp42\x00\x00\x00\x00mp42isom<\x06t\xbfmdat",
            "video/mp4",
        ),
        SniffTest("AVI video #1", "RIFF,O\n\x00AVI LIST\u{c0}".as_bytes(), "video/avi"),
        SniffTest("AVI video #2", "RIFF,\n\x00\x00AVI LIST\u{c0}".as_bytes(), "video/avi"),
        // Font types.
        SniffTest(
            "TTF sample  I",
            b"\x00\x01\x00\x00\x00\x17\x01\x00\x00\x04\x01\x60\x4f",
            "font/ttf",
        ),
        SniffTest(
            "TTF sample II",
            b"\x00\x01\x00\x00\x00\x0e\x00\x80\x00\x03\x00\x60\x46",
            "font/ttf",
        ),
        SniffTest(
            "OTTO sample  I",
            b"\x4f\x54\x54\x4f\x00\x0e\x00\x80\x00\x03\x00\x60\x42\x41\x53\x45",
            "font/otf",
        ),
        SniffTest(
            "woff sample  I",
            b"\x77\x4f\x46\x46\x00\x01\x00\x00\x00\x00\x30\x54\x00\x0d\x00\x00",
            "font/woff",
        ),
        SniffTest("woff2 sample", b"\x77\x4f\x46\x32\x00\x01\x00\x00\x00", "font/woff2"),
        SniffTest("wasm sample", b"\x00\x61\x73\x6d\x01\x00", "application/wasm"),
        // Archive types
        SniffTest("RAR v1.5-v4.0", b"Rar!\x1A\x07\x00", "application/x-rar-compressed"),
        SniffTest("RAR v5+", b"Rar!\x1A\x07\x01\x00", "application/x-rar-compressed"),
        SniffTest("Incorrect RAR v1.5-v4.0", b"Rar \x1A\x07\x00", "application/octet-stream"),
        SniffTest("Incorrect RAR v5+", b"Rar \x1A\x07\x01\x00", "application/octet-stream"),
    ]
}

#[test]
fn test_detect_content_type() {
    for tt in sniff_tests() {
        let ct = detect_content_type(tt.data());
        if !ct.eq(tt.content_type()) {
            panic!(
                "{}: detect_content_type = {}, want {}",
                tt.desc(),
                ct,
                tt.content_type(),
            );
        }
    }
}
