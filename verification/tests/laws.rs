use mimesniff::detect_content_type;
use mimesniff::table::sniff_signatures;

fn is_token_char(c: char) -> bool {
    c.is_ascii_alphanumeric() || "!#$%&'*+-.^_`|~".contains(c)
}

fn is_token(s: &str) -> bool {
    !s.is_empty() && s.chars().all(is_token_char)
}

fn is_media_type(s: &str) -> bool {
    let (essence, parameter) = match s.split_once("; ") {
        Some((essence, parameter)) => (essence, Some(parameter)),
        None => (s, None),
    };
    let essence_ok = match essence.split_once('/') {
        Some((ty, subtype)) => is_token(ty) && is_token(subtype),
        None => false,
    };
    let parameter_ok = match parameter {
        Some(parameter) => match parameter.split_once('=') {
            Some((name, value)) => is_token(name) && is_token(value),
            None => false,
        },
        None => true,
    };
    essence_ok && parameter_ok
}

fn sample_inputs() -> Vec<Vec<u8>> {
    let mut inputs: Vec<Vec<u8>> = vec![
        b"".to_vec(),
        b"<html>".to_vec(),
        b" <?xml".to_vec(),
        b"%PDF-1.7".to_vec(),
        b"\xFE\xFF\x00\x00".to_vec(),
        b"\x00\x00\x00\x18ftypmp42\x00\x00\x00\x00mp42isom".to_vec(),
        b"RIFF\x00\x00\x00\x00WAVE".to_vec(),
        b"plain text".to_vec(),
        vec![0u8; 700],
        vec![b' '; 700],
        vec![0xFFu8; 513],
    ];
    for b in 0..=255u8 {
        inputs.push(vec![b]);
        inputs.push(vec![b, b]);
        inputs.push(vec![b' ', b, b'>']);
        inputs.push(vec![b'<', b, b'>']);
    }
    // A fixed pseudo-random walk over longer inputs.
    let mut state: u32 = 0x2545_F491;
    for len in [3usize, 12, 16, 36, 100, 511, 512, 513, 1024] {
        for _ in 0..8 {
            let mut data = Vec::with_capacity(len);
            for _ in 0..len {
                state ^= state << 13;
                state ^= state >> 17;
                state ^= state << 5;
                data.push((state >> 8) as u8);
            }
            inputs.push(data);
        }
    }
    inputs
}

#[test]
fn answer_is_always_a_media_type() {
    for data in sample_inputs() {
        let ct = detect_content_type(&data);
        assert!(!ct.is_empty());
        assert!(is_media_type(ct), "{:?} for {:?}", ct, data);
    }
}

#[test]
fn malformed_strings_are_no_media_types() {
    assert!(is_media_type("text/plain"));
    assert!(is_media_type("text/plain; charset=utf-8"));
    assert!(!is_media_type(""));
    assert!(!is_media_type("text"));
    assert!(!is_media_type("/plain"));
    assert!(!is_media_type("text/"));
    assert!(!is_media_type("text/plain;"));
    assert!(!is_media_type("text/plain; charset"));
    assert!(!is_media_type("te xt/plain"));
}

#[test]
fn every_content_type_of_the_table_is_a_media_type() {
    for sig in sniff_signatures() {
        let ct = match sig {
            mimesniff::signature::SniffSig::Exact(s) => s.ct,
            mimesniff::signature::SniffSig::Masked(s) => s.ct,
            mimesniff::signature::SniffSig::HTML(_) => "text/html; charset=utf-8",
            mimesniff::signature::SniffSig::MP4(_) => "video/mp4",
            mimesniff::signature::SniffSig::Text(_) => "text/plain; charset=utf-8",
        };
        assert!(is_media_type(ct), "{:?}", ct);
    }
    assert!(is_media_type("application/octet-stream"));
}

#[test]
fn answer_is_the_first_match_of_the_table() {
    let table = sniff_signatures();
    for data in sample_inputs() {
        let (prefix, first_non_ws) = mimesniff::sniff_prefix(&data);
        let mut want = "application/octet-stream";
        for sig in table {
            if let Some(ct) = sig.sig_match(prefix, first_non_ws) {
                want = ct;
                break;
            }
        }
        assert_eq!(detect_content_type(&data), want, "{:?}", data);
    }
}

#[test]
fn bytes_after_the_first_512_do_not_count() {
    for data in sample_inputs() {
        let mut padded = data.clone();
        padded.resize(512.max(data.len()), b'a');
        let want = detect_content_type(&padded);
        for tail in [&b"\x00"[..], b"<html>", b"\x01\x02\x03 more", b"mp42"] {
            let mut longer = padded.clone();
            longer.extend_from_slice(tail);
            assert_eq!(detect_content_type(&longer), want);
        }
        assert_eq!(detect_content_type(&padded[..512]), want);
    }
}

#[test]
fn control_byte_at_the_cut() {
    let mut data = vec![b'a'; 513];
    data[512] = 0x00;
    assert_eq!(detect_content_type(&data), "text/plain; charset=utf-8");
    data[511] = 0x00;
    assert_eq!(detect_content_type(&data), "application/octet-stream");
}

#[test]
fn tag_cut_by_the_limit_is_not_html() {
    let mut data = vec![b' '; 506];
    data.extend_from_slice(b"<html>");
    assert_eq!(data.len(), 512);
    assert_eq!(detect_content_type(&data), "text/html; charset=utf-8");
    data.insert(0, b' ');
    assert_eq!(detect_content_type(&data), "text/plain; charset=utf-8");
}

#[test]
fn mp4_box_longer_than_the_limit_is_not_video() {
    let mut data = b"\x00\x00\x02\x04ftypisom\x00\x00\x00\x00".to_vec();
    data.resize(0x204, 0);
    data[0x200..0x204].copy_from_slice(b"mp42");
    assert_eq!(detect_content_type(&data), "application/octet-stream");
    data[0..4].copy_from_slice(b"\x00\x00\x01\xFC");
    assert_eq!(detect_content_type(&data), "application/octet-stream");
    data[0x1F8..0x1FC].copy_from_slice(b"mp42");
    assert_eq!(detect_content_type(&data), "video/mp4");
}

#[test]
fn cursor_magic_wins_over_a_box_of_512_bytes() {
    // A box size of 512 spells the magic number of a Windows cursor, which
    // stands before the MP4 signature in the table.
    let mut data = b"\x00\x00\x02\x00ftypmp42\x00\x00\x00\x00mp42".to_vec();
    data.resize(512, 0);
    assert_eq!(detect_content_type(&data), "image/x-icon");
    assert_eq!(
        mimesniff::signature::MP4Sig {}.sig_match(&data, 0),
        Some("video/mp4")
    );
}

#[test]
fn case_of_letters_does_not_change_html_detection() {
    for data in sample_inputs() {
        let upper = data.to_ascii_uppercase();
        let lower = data.to_ascii_lowercase();
        let html = detect_content_type(&data) == "text/html; charset=utf-8";
        assert_eq!(detect_content_type(&upper) == "text/html; charset=utf-8", html);
        assert_eq!(detect_content_type(&lower) == "text/html; charset=utf-8", html);
    }
    let docs = [&b"<Title>x"[..], b"<sCrIpT src=a>", b"  <TaBlE>", b"<!DocType Html>", b"<tablex>"];
    for doc in docs {
        let want = detect_content_type(doc);
        assert_eq!(detect_content_type(&doc.to_ascii_uppercase()), want);
        assert_eq!(detect_content_type(&doc.to_ascii_lowercase()), want);
    }
}

#[test]
fn leading_whitespace_keeps_html_and_xml() {
    for doc in [&b"<html>"[..], b"<!-- c -->", b"<a href>", b"<?xml version", b"<BR>"] {
        let want = detect_content_type(doc);
        for run in [&b" "[..], b"\t", b"\n", b"\x0c", b"\r", b" \t\n\x0c\r  \r\n"] {
            let mut data = run.to_vec();
            data.extend_from_slice(doc);
            assert_eq!(detect_content_type(&data), want, "{:?}", data);
        }
    }
}

#[test]
fn leading_whitespace_hides_utf16() {
    for bom in [&b"\xFE\xFF\x00\x00"[..], b"\xFF\xFE\x00\x00", b"\xFE\xFFab", b"\xFF\xFEab"] {
        let found = detect_content_type(bom);
        assert!(found.starts_with("text/plain; charset=utf-16"));
        for ws in [b'\t', b'\n', b'\x0c', b'\r', b' '] {
            let mut data = vec![ws];
            data.extend_from_slice(bom);
            let ct = detect_content_type(&data);
            assert!(!ct.starts_with("text/plain; charset=utf-16"), "{:?}", data);
        }
    }
}

#[test]
fn leading_whitespace_hides_magic_numbers() {
    let behind = [
        "text/html; charset=utf-8",
        "text/xml; charset=utf-8",
        "text/plain; charset=utf-8",
        "application/vnd.ms-fontobject",
        "application/octet-stream",
    ];
    for data in sample_inputs() {
        for ws in [b'\t', b'\n', b'\x0c', b'\r', b' '] {
            let mut shifted = vec![ws];
            shifted.extend_from_slice(&data);
            let ct = detect_content_type(&shifted);
            assert!(behind.contains(&ct), "{:?} for {:?}", ct, shifted);
        }
    }
    let mut font = vec![b' '; 34];
    font.extend_from_slice(b"LP");
    assert_eq!(detect_content_type(&font), "application/vnd.ms-fontobject");
}
