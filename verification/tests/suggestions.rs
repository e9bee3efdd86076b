use eh::suggestions::{error_suggestions, parse_nix_suggestions};

#[test]
fn parses_nix_suggestions() {
    assert_eq!(
        parse_nix_suggestions("Did you mean one of neovim, hevi, navi, neo or neo4j?"),
        ["neovim", "hevi", "navi", "neo", "neo4j"]
    );
}

#[test]
fn parses_a_single_suggestion() {
    assert_eq!(parse_nix_suggestions("Did you mean hello?"), ["hello"]);
}

#[test]
fn no_question_no_suggestions() {
    assert!(parse_nix_suggestions("error: attribute 'helo' missing").is_empty());
    assert!(parse_nix_suggestions("Did you mean hello").is_empty());
}

#[test]
fn suggestions_come_from_the_line_that_asks() {
    let stderr = "error: flake 'nixpkgs' does not provide attribute 'helo'\n       Did you mean one of hello or help2man?\n";
    assert_eq!(error_suggestions(stderr), ["hello", "help2man"]);
    assert!(error_suggestions("error: something else\n").is_empty());
}

#[test]
fn raw_output_is_decoded_before_reading_suggestions() {
    let bytes = b"error: \xff\xfe bad bytes\nDid you mean hello or help?\n";
    assert_eq!(eh::suggestions::print_error_suggestions(bytes), ["hello", "help"]);
    let bytes = b"Did you mean caf\xc3\xa9 or \xff?";
    assert_eq!(eh::suggestions::print_error_suggestions(bytes), ["caf\u{e9}", "\u{fffd}"]);
}
