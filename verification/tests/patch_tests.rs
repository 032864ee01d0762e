use zene::patch::{patch_text, PatchError};

#[test]
fn test_patch_exact_match() {
    let content = "line1\nline2\nline3\nline4";
    let original = "line2\nline3";
    let new = "line2_modified\nline3_modified";
    let result = patch_text(content, original, new, None).unwrap();
    assert_eq!(result, "line1\nline2_modified\nline3_modified\nline4");
}

#[test]
fn test_patch_fuzzy_whitespace() {
    let content = "function test() {\n    let a = 1;\n    let b = 2;\n    return a + b;\n}";
    let original = "  let a = 1;\n  let b = 2;";
    let new = "    let a = 10;\n    let b = 20;";
    let result = patch_text(content, original, new, None).unwrap();
    let expected = "function test() {\n    let a = 10;\n    let b = 20;\n    return a + b;\n}";
    assert_eq!(result, expected);
}

#[test]
fn test_patch_start_line_hint() {
    let content = "block1\nstart\nend\n\nblock2\nstart\nend";
    let original = "start\nend";
    let new = "start_2\nend_2";
    let result = patch_text(content, original, new, Some(6)).unwrap();
    assert_eq!(result, "block1\nstart\nend\n\nblock2\nstart_2\nend_2");
}

#[test]
fn test_patch_failure_not_found() {
    let content = "line1\nline2";
    let result = patch_text(content, "line3", "line3_new", None);
    assert!(result.is_err());
    assert_eq!(result.unwrap_err(), PatchError::NotFound);
}

#[test]
fn patch_exact_replaces_first_occurrence_only() {
    let r = patch_text("a b a", "a", "X", None).unwrap();
    assert_eq!(r, "X b a");
}

#[test]
fn patch_crlf_content_is_normalised() {
    let r = patch_text("one\r\ntwo\r\nthree", "two", "2", None).unwrap();
    assert_eq!(r, "one\n2\nthree");
}

#[test]
fn patch_empty_original() {
    // Without a hint the exact search finds the empty snippet at the start.
    assert_eq!(patch_text("abc", "", "x", None).unwrap(), "xabc");
    let r = patch_text("abc", "", "x", Some(1));
    assert_eq!(r.unwrap_err(), PatchError::EmptyOriginal);
    assert_eq!(PatchError::EmptyOriginal.message(), "Original snippet is empty");
    assert_eq!(
        PatchError::NotFound.message(),
        "Original snippet not found (tried exact and fuzzy match)."
    );
}

#[test]
fn patch_negative_hint_not_found() {
    let r = patch_text("  x\n  y", "x\ny", "z", Some(-1));
    assert_eq!(r.unwrap_err(), PatchError::NotFound);
}

#[test]
fn patch_snippet_longer_than_file() {
    // Every line of the file matches the start of the longer snippet.
    let r = patch_text("a\nb", "a\n b\nc", "x", None);
    assert_eq!(r.unwrap_err(), PatchError::RanPastEnd);
    assert_eq!(PatchError::RanPastEnd.message(), "Line-wise match ran past the end of the file");
    // A hint past the first line searches nothing.
    assert_eq!(patch_text("a\nb", "a\n b\nc", "x", Some(2)).unwrap_err(), PatchError::NotFound);
    // A mismatch stops the scan before the end.
    assert_eq!(patch_text("a\nq", "a\nb\nc", "x", None).unwrap_err(), PatchError::NotFound);
}

#[test]
fn patch_keeps_trailing_newline() {
    let r = patch_text("a\nb\nc\n", " b ", "B", Some(1)).unwrap();
    assert_eq!(r, "a\nB\nc\n");
    let r2 = patch_text("a\nb\nc", "b", "B\n", Some(1)).unwrap();
    assert_eq!(r2, "a\nB\nc");
}
