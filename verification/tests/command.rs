use eh::command::NixCommand;
use eh::eh_config::CommandConfig;
use eh::eh_log::{enabled, Level, LogKind, LogSettings};
use eh::hash::{is_nix_file, should_skip};
use eh::nix_config::ApplyCommandConfig;
use eh::strmap::StrMap;
use eh::util::is_nix_file_ignoring_case;

#[test]
fn builds_logs_by_default_unless_silenced() {
    let c = NixCommand::new("build").arg("hello");
    assert_eq!(c.argv(), ["nix", "build", "--print-build-logs", "hello"]);
    let c = NixCommand::new("build").arg("--no-build-output");
    assert_eq!(c.argv(), ["nix", "build", "--no-build-output"]);
    let c = NixCommand::new("eval").print_build_logs(false).impure(true);
    assert_eq!(c.argv(), ["nix", "eval", "--impure"]);
}

#[test]
fn arguments_and_environment_keep_their_order() {
    let args = vec!["a".to_string(), "b".to_string()];
    let c = NixCommand::new("run").args(&args).arg("c").env("K", "V").interactive(true);
    assert_eq!(c.argv(), ["nix", "run", "--print-build-logs", "a", "b", "c"]);
    assert_eq!(c.env_pairs(), &vec![("K".to_string(), "V".to_string())]);
    assert!(c.is_interactive());
    assert_eq!(c.subcommand(), "run");
}

#[test]
fn settings_add_impure_and_environment() {
    let mut env = StrMap::new();
    env.insert("FOO".to_string(), "bar".to_string());
    let cfg = CommandConfig { impure: Some(true), env };
    let c = NixCommand::new("develop").apply_config(&cfg);
    assert_eq!(c.argv(), ["nix", "develop", "--print-build-logs", "--impure"]);
    assert_eq!(c.env_pairs(), &vec![("FOO".to_string(), "bar".to_string())]);
    let cfg = CommandConfig { impure: Some(false), env: StrMap::new() };
    assert!(!NixCommand::new("develop").apply_config(&cfg).argv().contains(&"--impure".to_string()));
}

#[test]
fn verbosity_is_a_threshold() {
    assert!(enabled(0, Level::Info));
    assert!(!enabled(0, Level::Debug));
    assert!(enabled(-1, Level::Warn));
    assert!(!enabled(-1, Level::Info));
    assert!(!enabled(-3, Level::Error));
    let mut s = LogSettings::new();
    assert_eq!(s.verbosity(), 0);
    assert!(!s.shows(LogKind::Debug));
    s.set_verbosity(1);
    assert!(s.shows(LogKind::Debug));
    s.set_verbosity(-2);
    assert!(s.shows(LogKind::Error));
    assert!(!s.shows(LogKind::Hint));
    assert_eq!(LogKind::Hint.marker(), "~");
}

#[test]
fn the_nix_file_search_skips_hidden_and_build_directories() {
    assert!(!should_skip(0, true, ".hidden"));
    assert!(should_skip(1, true, ".git"));
    assert!(should_skip(2, true, "node_modules"));
    assert!(should_skip(1, true, "result"));
    assert!(!should_skip(1, false, ".envrc"));
    assert!(!should_skip(1, true, "src"));
    assert!(is_nix_file(true, Some("nix")));
    assert!(!is_nix_file(true, Some("NiX")));
    assert!(is_nix_file_ignoring_case(true, Some("NiX")));
    assert!(!is_nix_file_ignoring_case(true, Some("nixx")));
    assert!(!is_nix_file(false, Some("nix")));
    assert!(!is_nix_file(true, Some("nixx")));
    assert!(!is_nix_file(true, None));
}

#[test]
fn without_a_configuration_nothing_is_added() {
    let cfg = eh::eh_config::Config::default().for_command("build");
    let plain = eh::nix_command::NixCommand::new(eh::nix_command::CommandKind::Build).arg("hello");
    let before = plain.argv();
    let after = plain.apply_config(&cfg);
    assert_eq!(after.argv(), before);
    assert!(after.env_pairs().is_empty());
}
