use crawlkit::respond::Respond;

fn make_respond(headers: Vec<(String, String)>, bytes: Vec<u8>) -> Respond {
    Respond::from_parts(
        "https://example.com/".to_string(),
        Some(bytes.len() as u64),
        headers,
        200,
        Some(bytes),
    )
    .unwrap()
}

#[test]
fn materialization_fails_only_without_body() {
    let none = Respond::from_parts("https://example.com/".to_string(), None, vec![], 200, None);
    assert!(none.is_none());
    let some = Respond::from_parts(
        "https://example.com/".to_string(),
        Some(2),
        vec![("content-type".to_string(), "text/html".to_string())],
        404,
        Some(vec![b'h', b'i']),
    )
    .unwrap();
    assert_eq!(some.url, "https://example.com/");
    assert_eq!(some.content_length, Some(2));
    assert_eq!(some.status, 404);
    assert_eq!(some.bytes, vec![b'h', b'i']);
}

#[test]
fn missing_charset_decodes_as_utf8_round_trip() {
    let input = "héllo wörld — ok";
    let resp = make_respond(vec![], input.as_bytes().to_vec());
    assert_eq!(resp.text(), input);
}

#[test]
fn content_type_without_charset_decodes_as_utf8() {
    let input = "plain utf-8 ✓";
    let headers = vec![("content-type".to_string(), "text/html".to_string())];
    let resp = make_respond(headers, input.as_bytes().to_vec());
    assert_eq!(resp.text(), input);
}

#[test]
fn declared_charset_matches_reference_decoding() {
    // 0x93/0x94 are curly quotation marks in windows-1252, invalid in UTF-8.
    let bytes = vec![0x93u8, b'o', b'k', 0x94u8];
    let headers = vec![(
        "content-type".to_string(),
        "text/html; charset=windows-1252".to_string(),
    )];
    let resp = make_respond(headers, bytes.clone());
    let (reference, _, _) = encoding_rs::WINDOWS_1252.decode(&bytes);
    assert_eq!(resp.text(), reference);
    assert_ne!(resp.text(), String::from_utf8_lossy(&bytes));
}

#[test]
fn unknown_charset_falls_back_to_utf8() {
    let input = "fallback";
    let headers = vec![(
        "content-type".to_string(),
        "text/html; charset=no-such-encoding".to_string(),
    )];
    let resp = make_respond(headers, input.as_bytes().to_vec());
    assert_eq!(resp.text(), input);
}

#[test]
fn unparseable_content_type_falls_back_to_utf8() {
    let input = "still fine";
    let headers = vec![("content-type".to_string(), "not a mime type at all;;;".to_string())];
    let resp = make_respond(headers, input.as_bytes().to_vec());
    assert_eq!(resp.text(), input);
}

#[test]
fn leading_utf8_bom_is_stripped() {
    let mut bytes = vec![0xEFu8, 0xBBu8, 0xBFu8];
    bytes.extend_from_slice("hi".as_bytes());
    let resp = make_respond(vec![], bytes);
    assert_eq!(resp.text(), "hi");
}

#[test]
fn invalid_utf8_is_substituted_not_an_error() {
    let bytes = vec![b'a', 0xFFu8, b'b'];
    let resp = make_respond(vec![], bytes);
    let text = resp.text();
    assert!(text.starts_with('a'));
    assert!(text.ends_with('b'));
    assert!(text.contains('\u{FFFD}'));
}

#[test]
fn first_content_type_header_wins() {
    let headers = vec![
        ("content-type".to_string(), "text/html; charset=windows-1252".to_string()),
        ("content-type".to_string(), "text/html; charset=utf-8".to_string()),
    ];
    let bytes = vec![0x93u8];
    let resp = make_respond(headers, bytes.clone());
    let (reference, _, _) = encoding_rs::WINDOWS_1252.decode(&bytes);
    assert_eq!(resp.text(), reference);
}
