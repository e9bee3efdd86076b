use eh::util::{
    fix_hash_content, DefaultNixErrorClassifier, HashExtractor, NixErrorClassifier,
    RegexHashExtractor,
};

#[test]
fn test_hash_extraction_from_real_nix_errors() {
    let extractor = RegexHashExtractor;

    let test_cases = [
        (
            r#"error: hash mismatch in fixed-output derivation '/nix/store/xxx-foo.drv':
  specified: sha256-AAAAAAAAAAAAAAAAAAAAAAAAAAAAAAAAAAAAAAAAAAA=
       got:    sha256-BBBBBBBBBBBBBBBBBBBBBBBBBBBBBBBBBBBBBBBBBB="#,
            Some("sha256-BBBBBBBBBBBBBBBBBBBBBBBBBBBBBBBBBBBBBBBBBB=".to_string()),
        ),
        ("actual: sha256-abc123def456", Some("sha256-abc123def456".to_string())),
        ("have: sha256-xyz789", Some("sha256-xyz789".to_string())),
        ("no hash here", None),
    ];

    for (input, expected) in test_cases {
        assert_eq!(extractor.extract_hash(input), expected);
    }
}

#[test]
fn test_error_classification_for_retry_logic() {
    let classifier = DefaultNixErrorClassifier;

    let retry_cases = [
        "Package 'discord-1.0.0' has an unfree license ('unfree'), refusing to \
         evaluate.",
        "Package 'openssl-1.1.1' has been marked as insecure, refusing to \
         evaluate.",
        "Package 'broken-1.0' has been marked as broken, refusing to evaluate.",
        "hash mismatch in fixed-output derivation\ngot: sha256-newhash",
    ];

    for error in retry_cases {
        assert!(classifier.should_retry(error), "Should retry: {}", error);
    }

    let no_retry_cases = ["build failed", "random error", "permission denied", "network error"];

    for error in no_retry_cases {
        assert!(!classifier.should_retry(error), "Should not retry: {}", error);
    }
}

#[test]
fn test_hash_fixing_in_nix_content() {
    let nix_content = r#"
stdenv.mkDerivation {
  name = "test-package";
  src = fetchurl {
    url = "https://example.com.tar.gz";
    hash = "sha256-oldhash123";
  };

  buildInputs = [ fetchurl {
    url = "https://deps.com.tar.gz";
    sha256 = "sha256-oldhash456";
  }];

  outputHash = "sha256-oldhash789";
}
"#;
    let new_hash = "sha256-newhashabc";
    let (updated_content, was_fixed) = fix_hash_content(nix_content, None, new_hash);
    assert!(was_fixed, "File should have been modified");
    assert!(updated_content.contains(&format!(r#"hash = "{}""#, new_hash)));
    assert!(updated_content.contains(&format!(r#"sha256 = "{}""#, new_hash)));
    assert!(updated_content.contains(&format!(r#"outputHash = "{}""#, new_hash)));
    assert!(!updated_content.contains("oldhash123"));
    assert!(!updated_content.contains("oldhash456"));
    assert!(!updated_content.contains("oldhash789"));
}
