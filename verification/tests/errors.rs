use eh::eh_error::EhError as LibError;
use eh::error::EhError;
use eh::nix_command::Error as CommandError;

#[test]
fn lib_test_exit_codes() {
    assert_eq!(LibError::NixCommandFailed { command: "build".into() }.exit_code(), 2);
    assert_eq!(LibError::HashExtractionFailed { stderr: String::new() }.exit_code(), 4);
    assert_eq!(LibError::NoNixFilesFound.exit_code(), 5);
    assert_eq!(LibError::HashFixFailed { path: "x".into() }.exit_code(), 6);
    assert_eq!(
        LibError::PreEvalFailed { expression: "x".into(), stderr: "y".into() }.exit_code(),
        12
    );
    assert_eq!(LibError::ProcessExit { code: 42 }.exit_code(), 42);
    assert_eq!(LibError::JsonParse { detail: "x".into() }.exit_code(), 13);
    assert_eq!(LibError::NoFlakeInputs.exit_code(), 14);
    assert_eq!(LibError::UpdateCancelled.exit_code(), 0);
}

#[test]
fn lib_test_display_messages() {
    let err = LibError::PreEvalFailed {
        expression: "nixpkgs#hello".into(),
        stderr: "attribute not found".into(),
    };
    assert!(err.message().contains("nixpkgs#hello"));
    assert!(err.message().contains("attribute not found"));

    let err = LibError::HashExtractionFailed { stderr: "some output".into() };
    assert!(err.message().contains("could not extract hash"));
}

#[test]
fn lib_test_hints() {
    assert!(LibError::PreEvalFailed { expression: "x".into(), stderr: "y".into() }
        .hint()
        .is_some());
    assert!(LibError::HashExtractionFailed { stderr: String::new() }.hint().is_some());
    assert!(LibError::NoNixFilesFound.hint().is_some());
    assert!(LibError::NixCommandFailed { command: "build".into() }.hint().is_some());
    assert!(LibError::JsonParse { detail: "x".into() }.hint().is_some());
    assert!(LibError::NoFlakeInputs.hint().is_some());
    assert!(LibError::ProcessExit { code: 1 }.hint().is_none());
    assert!(LibError::UpdateCancelled.hint().is_none());
}

#[test]
fn lib_exit_codes_of_lookup_errors() {
    assert_eq!(LibError::MissingBinary.exit_code(), 17);
    assert_eq!(LibError::InvalidBinaryName { binary: "a/b".into() }.exit_code(), 18);
    assert_eq!(LibError::SpamIndex("bad".into()).exit_code(), 19);
    assert_eq!(LibError::BinaryNotFound { binary: "x".into() }.exit_code(), 20);
    assert_eq!(
        LibError::AmbiguousBinary { binary: "x".into(), candidates: vec![] }.exit_code(),
        21
    );
    assert_eq!(
        LibError::ImpureRequired { command: "build".into(), reason: "r".into() }.exit_code(),
        15
    );
    assert_eq!(LibError::InvalidEvalInput.exit_code(), 16);
    assert_eq!(LibError::Io("x".into()).exit_code(), 8);
    assert_eq!(LibError::NixCommand(CommandError::Io("x".into())).exit_code(), 8);
}

#[test]
fn lib_messages_are_exact() {
    assert_eq!(LibError::MissingBinary.message(), "no binary name provided");
    assert_eq!(
        LibError::InvalidBinaryName { binary: "a/b".into() }.message(),
        "invalid binary name 'a/b'"
    );
    assert_eq!(
        LibError::AmbiguousBinary {
            binary: "vi".into(),
            candidates: vec!["neovim".into(), "vim".into()]
        }
        .message(),
        "multiple packages provide binary 'vi': [\"neovim\", \"vim\"]"
    );
    assert_eq!(LibError::ProcessExit { code: -3 }.message(), "process exited with code -3");
    assert_eq!(
        LibError::ImpureRequired { command: "build".into(), reason: "has an unfree license".into() }
            .message(),
        "package has an unfree license but `--impure` is disabled for `build` in config"
    );
    assert_eq!(
        LibError::NixCommand(CommandError::Timeout { command: "build".into(), seconds: 300 })
            .message(),
        "nix build timed out after 300 seconds"
    );
    assert_eq!(
        LibError::NixCommand(CommandError::CommandFailed { command: "eval".into() }).message(),
        "command 'eval' failed"
    );
}

#[test]
fn error_test_exit_codes() {
    assert_eq!(EhError::NixCommandFailed { command: "build".into() }.exit_code(), 2);
    assert_eq!(EhError::CommandFailed { command: "x".into() }.exit_code(), 3);
    assert_eq!(EhError::HashExtractionFailed { stderr: String::new() }.exit_code(), 4);
    assert_eq!(EhError::NoNixFilesFound.exit_code(), 5);
    assert_eq!(EhError::HashFixFailed { path: "x".into() }.exit_code(), 6);
    assert_eq!(EhError::InvalidInput { input: "x".into(), reason: "y".into() }.exit_code(), 7);
    assert_eq!(EhError::Timeout { command: "build".into(), seconds: 300 }.exit_code(), 11);
    assert_eq!(
        EhError::PreEvalFailed { expression: "x".into(), stderr: "y".into() }.exit_code(),
        12
    );
    assert_eq!(EhError::ProcessExit { code: 42 }.exit_code(), 42);
}

#[test]
fn error_test_display_messages() {
    let err = EhError::Timeout { command: "build".into(), seconds: 300 };
    assert_eq!(err.message(), "Command 'build' timed out after 300 seconds");

    let err = EhError::PreEvalFailed {
        expression: "nixpkgs#hello".into(),
        stderr: "attribute not found".into(),
    };
    assert!(err.message().contains("nixpkgs#hello"));
    assert!(err.message().contains("attribute not found"));

    let err = EhError::HashExtractionFailed { stderr: "some output".into() };
    assert!(err.message().contains("could not parse hash"));
}

#[test]
fn error_test_hints() {
    assert!(EhError::PreEvalFailed { expression: "x".into(), stderr: "y".into() }
        .hint()
        .is_some());
    assert!(EhError::HashExtractionFailed { stderr: String::new() }.hint().is_some());
    assert!(EhError::NoNixFilesFound.hint().is_some());
    assert!(EhError::Timeout { command: "x".into(), seconds: 1 }.hint().is_some());
    assert!(EhError::InvalidInput { input: "x".into(), reason: "y".into() }.hint().is_some());
    assert!(EhError::NixCommandFailed { command: "build".into() }.hint().is_some());
    assert!(EhError::CommandFailed { command: "x".into() }.hint().is_none());
    assert!(EhError::ProcessExit { code: 1 }.hint().is_none());
}

#[test]
fn error_messages_are_exact() {
    assert_eq!(
        EhError::NixCommandFailed { command: "build".into() }.message(),
        "Nix command 'nix build' failed"
    );
    assert_eq!(
        EhError::InvalidInput { input: "a;b".into(), reason: "bad".into() }.message(),
        "Invalid input: a;b - bad"
    );
    assert_eq!(EhError::ProcessExit { code: 7 }.message(), "Process exited with code: 7");
    assert_eq!(EhError::Io("disk full".into()).message(), "IO error: disk full");
}

#[test]
fn the_lowest_exit_code_is_rendered() {
    assert_eq!(
        LibError::ProcessExit { code: i32::MIN }.message(),
        "process exited with code -2147483648"
    );
}
