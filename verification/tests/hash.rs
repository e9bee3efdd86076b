use eh::hash::{
    fix_hash_in_content, is_hash_mismatch_error, replace_any_hash, replace_target_hash,
    HashExtractor, RegexHashExtractor,
};

#[test]
fn extracts_new_and_old_hashes() {
    let stderr = "specified: sha256-OLD\n got: sha256-NEW=";
    let extractor = RegexHashExtractor;
    assert_eq!(extractor.extract_hash(stderr), Some("sha256-NEW=".to_string()));
    assert_eq!(extractor.extract_old_hash(stderr), Some("sha256-OLD".to_string()));
}

#[test]
fn replaces_only_matching_old_hash_in_content() {
    let content = "hash = \"sha256-old\";\nsha256 = \"sha256-other\";\n";
    let updated = fix_hash_in_content(content, Some("sha256-old"), "sha256-new").unwrap();
    assert!(updated.contains(r#"hash = "sha256-new""#));
    assert!(updated.contains(r#"sha256 = "sha256-other""#));
}

#[test]
fn replaces_all_hash_attributes_without_old_hash_in_content() {
    let content = "hash = \"a\";\nsha256 = \"b\";\noutputHash = \"c\";\n";
    let updated = fix_hash_in_content(content, None, "sha256-new").unwrap();
    assert_eq!(updated.matches("sha256-new").count(), 3);
}

#[test]
fn unchanged_content_is_reported_as_none() {
    assert_eq!(fix_hash_in_content("{ x = 1; }", None, "sha256-new"), None);
    assert_eq!(
        fix_hash_in_content(r#"hash = "sha256-new";"#, None, "sha256-new"),
        None
    );
}

#[test]
fn replacement_normalises_spacing_and_spans_lines() {
    assert_eq!(
        replace_any_hash("hash\t=  \"x\ny\";", "N"),
        "hash = \"N\";"
    );
    assert_eq!(
        replace_target_hash("sha256 =\"A\"; sha256 = \"B\"", "A", "C"),
        "sha256 = \"C\"; sha256 = \"B\""
    );
}

#[test]
fn unterminated_value_is_left_alone() {
    assert_eq!(replace_any_hash("hash = \"abc", "N"), "hash = \"abc");
}

#[test]
fn mismatch_detection() {
    assert!(is_hash_mismatch_error("error: hash mismatch in fixed-output derivation"));
    assert!(is_hash_mismatch_error("specified: x\ngot: y"));
    assert!(!is_hash_mismatch_error("specified: x"));
}

#[test]
fn hash_extraction_needs_whitespace_and_prefix() {
    let extractor = RegexHashExtractor;
    assert_eq!(extractor.extract_hash("got:sha256-AAA"), None);
    assert_eq!(extractor.extract_hash("got: sha256-"), None);
    assert_eq!(
        extractor.extract_hash("got: nothing\ngot:\u{a0}sha256-X+/=!rest"),
        Some("sha256-X+/=".to_string())
    );
    assert_eq!(
        extractor.extract_hash("have: sha256-H\nactual: sha256-A"),
        Some("sha256-A".to_string())
    );
}

#[test]
fn extracted_hashes_stop_at_the_first_non_base64_character() {
    let extractor = RegexHashExtractor;
    assert_eq!(
        extractor.extract_hash("got:    sha256-ab+/c=;rest"),
        Some("sha256-ab+/c=".to_string())
    );
    assert_eq!(extractor.extract_hash("got: sha256-"), None);
    assert_eq!(extractor.extract_old_hash("specified:\tsha256-Zz9'"), Some("sha256-Zz9".to_string()));
}

#[test]
fn a_got_report_wins_wherever_it_stands() {
    let extractor = RegexHashExtractor;
    assert_eq!(
        extractor.extract_hash("have: sha256-A\ngot: sha256-B"),
        Some("sha256-B".to_string())
    );
    assert_eq!(
        extractor.extract_hash("have: sha256-A\nactual: sha256-C"),
        Some("sha256-C".to_string())
    );
}
