use eh::error::EhError;
use eh::util::{
    classify_retry_action, fix_hash_content, is_hash_mismatch_error, make_eval_expr,
    package_name, validate_nix_args, DefaultNixErrorClassifier, HashExtractor,
    NixErrorClassifier, RegexHashExtractor, RetryAction,
};

#[test]
fn test_streaming_hash_replacement_in_content() {
    let test_content = r#"stdenv.mkDerivation {
  name = "test-package";
  src = fetchurl {
    url = "https://example.com.tar.gz";
    hash = "sha256-oldhash123";
    sha256 = "sha256-oldhash456";
    outputHash = "sha256-oldhash789";
  };
}"#;
    let (updated, replaced) = fix_hash_content(test_content, None, "sha256-newhash999");
    assert!(replaced, "Hash replacement should return true");
    assert!(updated.contains("sha256-newhash999"));
    assert!(!updated.contains("sha256-oldhash123"));
    assert!(!updated.contains("sha256-oldhash456"));
    assert!(!updated.contains("sha256-oldhash789"));
}

#[test]
fn test_streaming_no_replacement_needed_in_content() {
    let test_content = r#"stdenv.mkDerivation {
  name = "test-package";
  src = fetchurl {
    url = "https://example.com.tar.gz";
  };
}"#;
    let (updated, replaced) = fix_hash_content(test_content, None, "sha256-newhash999");
    assert!(!replaced, "Hash replacement should return false when no patterns found");
    assert_eq!(updated, test_content);
}

#[test]
fn test_targeted_hash_replacement_only_matching_in_content() {
    let test_content = r#"{ pkgs }:
{
  a = pkgs.fetchurl {
    url = "https://example.com/a.tar.gz";
    hash = "sha256-AAAA";
  };
  b = pkgs.fetchurl {
    url = "https://example.com/b.tar.gz";
    hash = "sha256-BBBB";
  };
}"#;
    let (updated, replaced) = fix_hash_content(test_content, Some("sha256-AAAA"), "sha256-NEWW");
    assert!(replaced, "Targeted replacement should return true");
    assert!(updated.contains(r#"hash = "sha256-NEWW""#), "Matching hash should be replaced");
    assert!(updated.contains(r#"hash = "sha256-BBBB""#), "Non-matching hash should be untouched");
}

#[test]
fn test_targeted_hash_replacement_no_match_in_content() {
    let test_content = r#"{ hash = "sha256-XXXX"; }"#;
    let (updated, replaced) = fix_hash_content(test_content, Some("sha256-NOMATCH"), "sha256-NEWW");
    assert!(!replaced, "Should return false when old hash doesn't match");
    assert!(updated.contains("sha256-XXXX"), "The unmatched hash should be untouched");
}

#[test]
fn replacing_a_hash_by_itself_still_counts_as_a_match() {
    let (updated, replaced) = fix_hash_content(r#"hash = "N";"#, None, "N");
    assert!(replaced);
    assert_eq!(updated, r#"hash = "N";"#);
}

#[test]
fn test_input_validation_blocks_dangerous_patterns() {
    let dangerous_args = vec![
        "package; rm -rf /".to_string(),
        "package && echo hacked".to_string(),
        "package || echo hacked".to_string(),
        "package | cat /etc/passwd".to_string(),
        "package `whoami`".to_string(),
        "package $(echo hacked lol!)".to_string(),
        "package ${HOME}/file".to_string(),
    ];

    for arg in dangerous_args {
        let result = validate_nix_args(std::slice::from_ref(&arg));
        assert!(result.is_err(), "Should reject dangerous argument: {}", arg);

        match result.unwrap_err() {
            EhError::InvalidInput { input, reason } => {
                assert_eq!(input, arg);
                assert!(reason.contains("dangerous pattern"));
            },
            _ => panic!("Expected InvalidInput error"),
        }
    }
}

#[test]
fn validation_names_the_first_pattern() {
    let args = vec!["ok".to_string(), "a || b; c".to_string()];
    match validate_nix_args(&args) {
        Err(EhError::InvalidInput { input, reason }) => {
            assert_eq!(input, "a || b; c");
            assert_eq!(reason, "contains potentially dangerous pattern: ;");
        },
        other => panic!("unexpected {:?}", other),
    }
}

#[test]
fn test_input_validation_allows_safe_args() {
    let safe_args = vec![
        "nixpkgs#hello".to_string(),
        "--impure".to_string(),
        "--print-build-logs".to_string(),
        "/path/to/flake".to_string(),
        ".#default".to_string(),
    ];

    let result = validate_nix_args(&safe_args);
    assert!(result.is_ok(), "Should allow safe arguments: {:?}", safe_args);
}

#[test]
fn test_input_validation_empty_args() {
    let result = validate_nix_args(&[]);
    assert!(result.is_ok(), "Empty args should be accepted");
}

#[test]
fn test_hash_extraction_got_pattern() {
    let stderr = "hash mismatch in fixed-output derivation\n  specified: \
                  sha256-AAAA\n  got:    \
                  sha256-BBBBBBBBBBBBBBBBBBBBBBBBBBBBBBBBBBBBBBBBBBBB=";
    let extractor = RegexHashExtractor;
    let hash = extractor.extract_hash(stderr);
    assert!(hash.is_some());
    assert!(hash.unwrap().starts_with("sha256-"));
}

#[test]
fn test_hash_extraction_actual_pattern() {
    let stderr = "hash mismatch\n  actual: \
                  sha256-CCCCCCCCCCCCCCCCCCCCCCCCCCCCCCCCCCCCCCCCCCCC=";
    let extractor = RegexHashExtractor;
    let hash = extractor.extract_hash(stderr);
    assert!(hash.is_some());
    assert!(hash.unwrap().starts_with("sha256-"));
}

#[test]
fn test_hash_extraction_have_pattern() {
    let stderr = "hash mismatch\n  have: \
                  sha256-DDDDDDDDDDDDDDDDDDDDDDDDDDDDDDDDDDDDDDDDDDDD=";
    let extractor = RegexHashExtractor;
    let hash = extractor.extract_hash(stderr);
    assert!(hash.is_some());
    assert!(hash.unwrap().starts_with("sha256-"));
}

#[test]
fn test_hash_extraction_no_match() {
    let stderr = "error: some other nix error without hashes";
    let extractor = RegexHashExtractor;
    assert!(extractor.extract_hash(stderr).is_none());
}

#[test]
fn test_hash_extraction_partial_match() {
    let stderr = "got: some-other-value";
    let extractor = RegexHashExtractor;
    assert!(extractor.extract_hash(stderr).is_none());
}

#[test]
fn test_false_positive_hash_detection() {
    let cases = [
        "evaluating attribute 'sha256' of derivation 'hello'",
        "building '/nix/store/hash-something.drv'",
        "copying path '/nix/store/sha256-abcdef-hello'",
        "this derivation has a hash attribute set",
    ];
    for stderr in &cases {
        assert!(
            !is_hash_mismatch_error(stderr),
            "Should not detect hash mismatch in: {stderr}"
        );
    }
}

#[test]
fn test_genuine_hash_mismatch_detection() {
    assert!(is_hash_mismatch_error("hash mismatch in fixed-output derivation"));
    assert!(is_hash_mismatch_error("specified: sha256-AAAA\n  got: sha256-BBBB"));
}

#[test]
fn test_classify_retry_action_unfree() {
    let stderr = "error: Package 'foo' has an unfree license, refusing to evaluate.";
    assert_eq!(classify_retry_action(stderr), RetryAction::AllowUnfree);
}

#[test]
fn test_classify_retry_action_insecure() {
    let stderr = "error: Package 'bar' has been marked as insecure, refusing to evaluate.";
    assert_eq!(classify_retry_action(stderr), RetryAction::AllowInsecure);
}

#[test]
fn test_classify_retry_action_broken() {
    let stderr = "error: Package 'baz' has been marked as broken, refusing to evaluate.";
    assert_eq!(classify_retry_action(stderr), RetryAction::AllowBroken);
}

#[test]
fn test_classify_retry_action_none() {
    let stderr = "error: attribute 'nonexistent' not found";
    assert_eq!(classify_retry_action(stderr), RetryAction::NoRetry);
}

#[test]
fn test_retry_action_env_overrides() {
    let (var, reason) = RetryAction::AllowUnfree.env_override().unwrap();
    assert_eq!(var, "NIXPKGS_ALLOW_UNFREE");
    assert!(reason.contains("unfree"));

    let (var, reason) = RetryAction::AllowInsecure.env_override().unwrap();
    assert_eq!(var, "NIXPKGS_ALLOW_INSECURE");
    assert!(reason.contains("insecure"));

    let (var, reason) = RetryAction::AllowBroken.env_override().unwrap();
    assert_eq!(var, "NIXPKGS_ALLOW_BROKEN");
    assert!(reason.contains("broken"));

    assert_eq!(RetryAction::NoRetry.env_override(), None);
}

#[test]
fn test_classifier_should_retry() {
    let classifier = DefaultNixErrorClassifier;
    assert!(classifier.should_retry("Package 'x' has an unfree license, refusing to evaluate"));
    assert!(classifier.should_retry("Package 'x' has been marked as insecure, refusing to evaluate"));
    assert!(classifier.should_retry("Package 'x' has been marked as broken, refusing to evaluate"));
    assert!(!classifier.should_retry("error: attribute not found"));
}

#[test]
fn test_old_hash_extraction() {
    let stderr = "hash mismatch in fixed-output derivation\n  specified: \
                  sha256-AAAAAAAAAAAAAAAAAAAAAAAAAAAAAAAAAAAAAAAAAAA=\n  got:    \
                  sha256-BBBB=";
    let extractor = RegexHashExtractor;
    let old = extractor.extract_old_hash(stderr);
    assert!(old.is_some());
    assert_eq!(old.unwrap(), "sha256-AAAAAAAAAAAAAAAAAAAAAAAAAAAAAAAAAAAAAAAAAAA=");
}

#[test]
fn test_old_hash_extraction_missing() {
    let stderr = "hash mismatch\n  got: sha256-BBBB=";
    let extractor = RegexHashExtractor;
    assert!(extractor.extract_old_hash(stderr).is_none());
}

#[test]
fn test_eval_expr_plain_package_name() {
    assert_eq!(
        make_eval_expr("vscode"),
        "nixpkgs#vscode.meta",
        "Plain package names should be prefixed with nixpkgs#"
    );
}

#[test]
fn test_eval_expr_nixpkgs_prefixed() {
    assert_eq!(
        make_eval_expr("nixpkgs#vscode"),
        "nixpkgs#vscode.meta",
        "nixpkgs# prefix should not be duplicated"
    );
}

#[test]
fn test_eval_expr_custom_flake() {
    assert_eq!(
        make_eval_expr("myflake#vscode"),
        "myflake#vscode.meta",
        "Custom flake references should be preserved"
    );
}

#[test]
fn test_eval_expr_github_flake() {
    assert_eq!(
        make_eval_expr("github:owner/repo#vscode"),
        "github:owner/repo#vscode.meta",
        "GitHub flake references should be preserved"
    );
}

#[test]
fn test_eval_expr_path_flake() {
    assert_eq!(
        make_eval_expr("./myflake#vscode"),
        "./myflake#vscode.meta",
        "Path-based flake references should be preserved"
    );
}

#[test]
fn test_eval_expr_special_nixpkg_forms() {
    assert_eq!(
        make_eval_expr("nixpkgs#legacyPackages.x86_64-linux.vscode"),
        "nixpkgs#legacyPackages.x86_64-linux.vscode.meta",
        "Complex nixpkgs references should be preserved"
    );
}

#[test]
fn package_name_defaults_to_unknown() {
    assert_eq!(package_name(&["--impure".to_string()]), "<unknown>");
    assert_eq!(package_name(&["-L".to_string(), "hello".to_string()]), "hello");
}

#[test]
fn test_streaming_large_file_handling_in_content() {
    let mut content = String::from(
        "stdenv.mkDerivation {\n  name = \"large-package\";\n  src = fetchurl {\n    url = \"https://example.com/large.tar.gz\";\n    hash = \"sha256-oldhash\";\n  };\n",
    );
    for i in 0..10000 {
        content.push_str(&format!("  # Large comment line {} to simulate file size\n", i));
    }
    let (updated, replaced) = fix_hash_content(&content, None, "sha256-newhash999");
    assert!(replaced, "Hash replacement should work for large files");
    assert!(updated.contains("sha256-newhash999"));
    assert!(!updated.contains("sha256-oldhash"));
}
