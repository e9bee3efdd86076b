use eh::cli::{dispatch_multicall, handle_command, Binary, MulticallAction, Route};
use eh::eh_config::Config;

fn strings(v: &[&str]) -> Vec<String> {
    v.iter().map(|s| s.to_string()).collect()
}

#[test]
fn multicall_binaries_have_short_names() {
    assert_eq!(Binary::Nr.name(), "nr");
    assert_eq!(Binary::Ns.name(), "ns");
    assert_eq!(Binary::Nb.name(), "nb");
}

#[test]
fn shorthands_dispatch_to_their_subcommand() {
    for (app, sub) in [("nb", "build"), ("nr", "run"), ("ns", "shell"), ("nd", "develop"), ("dev", "develop"), ("ni", "info"), ("nu", "update"), (",", "comma")] {
        let m = dispatch_multicall(app, strings(&["hello", "--impure"]));
        match m.action {
            Some(MulticallAction::Run { subcommand, rest }) => {
                assert_eq!(subcommand, sub);
                assert_eq!(rest, ["hello", "--impure"]);
            },
            _ => panic!("{app} should run {sub}"),
        }
    }
    assert!(dispatch_multicall("eh", strings(&["build"])).action.is_none());
}

#[test]
fn verbosity_flags_are_counted_and_removed() {
    let m = dispatch_multicall("nr", strings(&["-vv", "hello", "-q", "--verbose"]));
    assert_eq!(m.verbosity, 2);
    assert!(matches!(m.action, Some(MulticallAction::Run { rest, .. }) if rest == ["hello"]));
    let m = dispatch_multicall("eh", strings(&["-qq", "-vvv"]));
    assert_eq!(m.verbosity, 1);
}

#[test]
fn help_and_version_are_answered_locally() {
    assert!(matches!(
        dispatch_multicall("ns", strings(&["x", "-h"])).action,
        Some(MulticallAction::Help { subcommand }) if subcommand == "shell"
    ));
    assert!(matches!(
        dispatch_multicall("ns", strings(&["--version", "--help"])).action,
        Some(MulticallAction::Help { .. })
    ));
    assert!(matches!(
        dispatch_multicall("nb", strings(&["--version"])).action,
        Some(MulticallAction::Version)
    ));
}

#[test]
fn commands_are_routed_with_all_their_arguments() {
    let cfg = Config::default();
    let plan = handle_command("build", strings(&["hello"]), strings(&["--rebuild"]), &cfg);
    assert_eq!(plan.route, Route::Nix);
    assert_eq!(plan.args, ["hello", "--rebuild"]);
    assert_eq!(handle_command("info", vec![], vec![], &cfg).route, Route::Info);
    assert_eq!(handle_command("update", vec![], vec![], &cfg).route, Route::Update);
    assert_eq!(handle_command("comma", vec![], vec![], &cfg).route, Route::Comma);
    assert_eq!(handle_command("develop", vec![], vec![], &cfg).route, Route::Nix);
}
