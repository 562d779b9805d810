use textify::{extract_content, render_record, ExtractedContent};

#[test]
fn record_layout_is_exact() {
    let content = extract_content(Some(&b"hello docs\n".to_vec()));
    let record = render_record("README.md", 50, &content);
    let delimiter = "=".repeat(80);
    let expected = format!(
        "{}\nFile: README.md\nSize: 50 B\n{}\n\nhello docs\n\n\n",
        delimiter, delimiter
    );
    assert_eq!(record, expected);
}

#[test]
fn record_carries_human_readable_size() {
    let content = extract_content(Some(&b"x".to_vec()));
    let record = render_record("big/file.log", 1536, &content);
    assert!(record.contains("Size: 1.5 KB\n"));
}

#[test]
fn unreadable_file_gets_the_marker() {
    let content = extract_content(None);
    assert!(matches!(content, ExtractedContent::Unreadable));
    let record = render_record("locked.txt", 10, &content);
    assert!(record.contains("\n\n[Binary file or read error]\n\n"));
}

#[test]
fn valid_utf8_is_decoded_unchanged() {
    let bytes = "héllo wörld".as_bytes().to_vec();
    match extract_content(Some(&bytes)) {
        ExtractedContent::Text(t) => assert_eq!(t, "héllo wörld"),
        ExtractedContent::Unreadable => panic!("expected text"),
    }
}

#[test]
fn invalid_utf8_is_decoded_lossily() {
    let bytes = vec![b'h', 0xFF, b'i'];
    match extract_content(Some(&bytes)) {
        ExtractedContent::Text(t) => assert_eq!(t, "h\u{FFFD}i"),
        ExtractedContent::Unreadable => panic!("expected text"),
    }
}

#[test]
fn empty_bytes_decode_to_empty_text() {
    match extract_content(Some(&Vec::new())) {
        ExtractedContent::Text(t) => assert_eq!(t, ""),
        ExtractedContent::Unreadable => panic!("expected text"),
    }
}
