use eh::eh_error::EhError;
use eh::eval::{make_eval_expr, package_arg};

#[test]
fn builds_metadata_eval_expressions() {
    assert_eq!(make_eval_expr("hello").unwrap(), "nixpkgs#hello.meta");
    assert_eq!(make_eval_expr(".").unwrap(), ".#default.meta");
    assert_eq!(make_eval_expr(".#").unwrap(), ".#default.meta");
    assert_eq!(
        make_eval_expr("github:nixos/nixpkgs#hello").unwrap(),
        "github:nixos/nixpkgs#hello.meta"
    );
}

#[test]
fn rejects_empty_eval_expression() {
    assert!(matches!(make_eval_expr(""), Err(EhError::InvalidEvalInput)));
    assert!(matches!(make_eval_expr("   "), Err(EhError::InvalidEvalInput)));
}

#[test]
fn eval_expression_is_trimmed() {
    assert_eq!(make_eval_expr("  hello\t").unwrap(), "nixpkgs#hello.meta");
}

#[test]
fn package_arg_skips_flags() {
    let args = vec!["--impure".to_string(), "-L".to_string(), "nixpkgs#hello".to_string(), "x".to_string()];
    assert_eq!(package_arg(&args), Some("nixpkgs#hello"));
    let flags = vec!["--json".to_string()];
    assert_eq!(package_arg(&flags), None);
    assert_eq!(package_arg(&[]), None);
}
