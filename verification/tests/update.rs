use eh::eh_config::CommandConfig;
use eh::eh_error::EhError;
use eh::json::Json;
use eh::update::{handle_update, metadata_command, parse_flake_inputs, prompt_input_selection};

fn object(members: Vec<(&str, Json)>) -> Json {
    Json::Object(members.into_iter().map(|(k, v)| (k.to_string(), v)).collect())
}

fn text(s: &str) -> Json {
    Json::Str(s.to_string())
}

fn lock_with_root(root: Json) -> Json {
    object(vec![("locks", object(vec![("nodes", object(vec![("root", root)]))]))])
}

#[test]
fn test_parse_flake_inputs() {
    let doc = lock_with_root(object(vec![(
        "inputs",
        object(vec![
            ("nixpkgs", text("nixpkgs_2")),
            ("home-manager", text("home-manager_2")),
            ("flake-utils", text("flake-utils_2")),
        ]),
    )]));
    let inputs = parse_flake_inputs(&doc).unwrap();
    assert_eq!(inputs, vec!["flake-utils", "home-manager", "nixpkgs"]);
}

#[test]
fn test_parse_flake_inputs_no_inputs() {
    let doc = lock_with_root(object(vec![]));
    assert!(matches!(parse_flake_inputs(&doc), Err(EhError::NoFlakeInputs)));
}

#[test]
fn inputs_that_are_not_an_object_are_no_inputs() {
    let doc = lock_with_root(object(vec![("inputs", Json::Array(vec![]))]));
    assert!(matches!(parse_flake_inputs(&doc), Err(EhError::NoFlakeInputs)));
    assert!(matches!(parse_flake_inputs(&Json::Null), Err(EhError::NoFlakeInputs)));
}

#[test]
fn metadata_is_fetched_quietly_as_json() {
    assert_eq!(metadata_command().argv(), ["nix", "flake", "metadata", "--json"]);
}

#[test]
fn picking_nothing_cancels() {
    let inputs = vec!["a".to_string(), "b".to_string(), "c".to_string()];
    assert!(matches!(prompt_input_selection(&inputs, &[]), Err(EhError::UpdateCancelled)));
    assert_eq!(prompt_input_selection(&inputs, &[2, 0]).unwrap(), ["c", "a"]);
}

#[test]
fn named_inputs_are_updated_in_order() {
    let cfg = CommandConfig::default();
    let args = vec!["nixpkgs".to_string(), "home-manager".to_string()];
    let (cmd, selected) = handle_update(&args, &[], &[], &cfg).unwrap();
    assert_eq!(selected, args);
    assert_eq!(
        cmd.argv(),
        [
            "nix",
            "flake",
            "--print-build-logs",
            "lock",
            "--update-input",
            "nixpkgs",
            "--update-input",
            "home-manager"
        ]
    );
}

#[test]
fn without_names_the_picked_inputs_are_updated() {
    let cfg = CommandConfig::default();
    let inputs = vec!["flake-utils".to_string(), "nixpkgs".to_string()];
    assert!(matches!(handle_update(&[], &[], &[], &cfg), Err(EhError::NoFlakeInputs)));
    assert!(matches!(handle_update(&[], &inputs, &[], &cfg), Err(EhError::UpdateCancelled)));
    let (cmd, selected) = handle_update(&[], &inputs, &[1], &cfg).unwrap();
    assert_eq!(selected, ["nixpkgs"]);
    assert_eq!(cmd.argv().last().map(String::as_str), Some("nixpkgs"));
}

#[test]
fn input_names_come_out_strictly_ascending() {
    let doc = lock_with_root(object(vec![(
        "inputs",
        object(vec![("b", text("x")), ("a", text("y")), ("c", text("z"))]),
    )]));
    assert_eq!(parse_flake_inputs(&doc).unwrap(), ["a", "b", "c"]);
}

#[test]
fn repeated_names_are_listed_once() {
    let doc = lock_with_root(object(vec![(
        "inputs",
        object(vec![("b", text("x")), ("a", text("y")), ("b", text("z"))]),
    )]));
    assert_eq!(parse_flake_inputs(&doc).unwrap(), ["a", "b"]);
}
