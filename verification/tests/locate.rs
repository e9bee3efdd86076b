use eh::eh_error::EhError;
use eh::eh_locate::{
    extract_candidates, get_package_from_index, query_pattern, select_ambiguous_candidate,
    select_candidate, validate_binary_name, FileRecord, PromptAnswer, Selection,
};

fn record(path: &str, packages: &[&str]) -> FileRecord {
    FileRecord {
        path: path.to_string(),
        packages: packages.iter().map(|p| p.to_string()).collect(),
    }
}

#[test]
fn binary_names_must_not_be_blank_or_paths() {
    assert!(validate_binary_name("hello").is_ok());
    assert!(matches!(
        validate_binary_name("  "),
        Err(EhError::InvalidBinaryName { binary }) if binary == "  "
    ));
    assert!(matches!(
        validate_binary_name("bin/hello"),
        Err(EhError::InvalidBinaryName { .. })
    ));
    assert!(matches!(validate_binary_name(""), Err(EhError::InvalidBinaryName { .. })));
}

#[test]
fn the_query_looks_for_the_binary_under_bin() {
    assert_eq!(query_pattern("rg"), "/bin/rg");
}

#[test]
fn candidates_are_sorted_distinct_and_exact_path_only() {
    let records = vec![
        record("/bin/vim", &["vim", "neovim"]),
        record("/bin/vimdiff", &["vim-full"]),
        record("/share/bin/vim", &["other"]),
        record("/bin/vim", &["neovim", "macvim"]),
    ];
    assert_eq!(extract_candidates(&records, "vim"), ["macvim", "neovim", "vim"]);
    assert!(extract_candidates(&records, "emacs").is_empty());
}

#[test]
fn selection_follows_the_number_of_candidates() {
    assert!(matches!(
        select_candidate("rg", vec![]),
        Err(EhError::BinaryNotFound { binary }) if binary == "rg"
    ));
    assert!(matches!(
        select_candidate("rg", vec!["ripgrep".into()]),
        Ok(Selection::Chosen(c)) if c == "ripgrep"
    ));
    assert!(matches!(
        select_candidate("vim", vec!["neovim".into(), "vim".into()]),
        Ok(Selection::Chosen(c)) if c == "vim"
    ));
    match select_candidate("vi", vec!["neovim".into(), "vim".into()]) {
        Ok(Selection::Ambiguous(v)) => assert_eq!(v, ["neovim", "vim"]),
        _ => panic!("expected a choice"),
    }
}

#[test]
fn ambiguous_choice_needs_a_terminal() {
    let c = vec!["neovim".to_string(), "vim".to_string()];
    assert!(matches!(
        select_ambiguous_candidate("vi", c.clone(), PromptAnswer::NoTerminal),
        Err(EhError::AmbiguousBinary { binary, candidates }) if binary == "vi" && candidates == c
    ));
    assert_eq!(
        select_ambiguous_candidate("vi", c.clone(), PromptAnswer::Picked(1)).unwrap(),
        "vim"
    );
    assert!(matches!(
        select_ambiguous_candidate("vi", c, PromptAnswer::Failed("io".into())),
        Err(EhError::Io(m)) if m == "io"
    ));
}

#[test]
fn lookup_validates_then_selects() {
    let records = vec![record("/bin/rg", &["ripgrep"])];
    assert!(matches!(
        get_package_from_index("a/rg", &records),
        Err(EhError::InvalidBinaryName { .. })
    ));
    assert!(matches!(
        get_package_from_index("rg", &records),
        Ok(Selection::Chosen(c)) if c == "ripgrep"
    ));
    assert!(matches!(
        get_package_from_index("fd", &records),
        Err(EhError::BinaryNotFound { .. })
    ));
}
