use eh::eh_config::{load, CommandConfig, Config};
use eh::strmap::StrMap;

fn command(impure: Option<bool>, env: &[(&str, &str)]) -> CommandConfig {
    let mut map = StrMap::new();
    for (k, v) in env {
        map.insert(k.to_string(), v.to_string());
    }
    CommandConfig { impure, env: map }
}

fn config(impure: Option<bool>, commands: Vec<(&str, CommandConfig)>) -> Config {
    let mut map = StrMap::new();
    for (name, cc) in commands {
        map.insert(name.to_string(), cc);
    }
    Config { impure, commands: map }
}

#[test]
fn empty_config_defaults() {
    let cfg = Config::default();
    assert!(cfg.impure.is_none());
    assert!(cfg.commands.is_empty());
}

#[test]
fn command_impure_overrides_global() {
    let cfg = config(Some(false), vec![("build", command(Some(true), &[]))]);
    assert_eq!(cfg.for_command("build").impure, Some(true));
    assert_eq!(cfg.for_command("run").impure, Some(false));
}

#[test]
fn command_env_supports_inline_and_table_syntax() {
    let inline = config(None, vec![("develop", command(None, &[("FOO", "bar")]))]);
    assert_eq!(
        inline.for_command("develop").env.get("FOO"),
        Some(&"bar".to_string())
    );
    let table = config(None, vec![("shell", command(None, &[("MY_VAR", "hello")]))]);
    assert_eq!(
        table.for_command("shell").env.get("MY_VAR"),
        Some(&"hello".to_string())
    );
}

#[test]
fn test_empty_config_defaults() {
    let cfg = Config::default();
    assert!(cfg.impure.is_none());
    assert!(cfg.commands.is_empty());
}

#[test]
fn test_command_config_impure_true() {
    let cfg = config(None, vec![("build", command(Some(true), &[]))]);
    assert_eq!(cfg.for_command("build").impure, Some(true));
    assert_eq!(cfg.for_command("run").impure, None);
}

#[test]
fn test_command_config_impure_false() {
    let cfg = config(None, vec![("build", command(Some(false), &[]))]);
    assert_eq!(cfg.for_command("build").impure, Some(false));
    assert_eq!(cfg.for_command("run").impure, None);
}

#[test]
fn test_global_impure_propagates_to_unconfigured_commands() {
    let cfg = config(Some(true), vec![]);
    assert_eq!(cfg.for_command("build").impure, Some(true));
    assert_eq!(cfg.for_command("nonexistent").impure, Some(true));
}

#[test]
fn test_global_impure_false_propagates_to_unconfigured_commands() {
    let cfg = config(Some(false), vec![]);
    assert_eq!(cfg.for_command("build").impure, Some(false));
}

#[test]
fn test_per_command_impure_overrides_global() {
    let cfg = config(Some(false), vec![("build", command(Some(true), &[]))]);
    assert_eq!(cfg.for_command("build").impure, Some(true));
    assert_eq!(cfg.for_command("run").impure, Some(false));
}

#[test]
fn test_command_config_env() {
    let cfg = config(None, vec![("develop", command(None, &[("FOO", "bar"), ("BAZ", "1")]))]);
    let dev = cfg.for_command("develop");
    assert_eq!(dev.env.get("FOO").map(String::as_str), Some("bar"));
    assert_eq!(dev.env.get("BAZ").map(String::as_str), Some("1"));
}

#[test]
fn test_command_config_env_table_syntax() {
    let cfg = config(None, vec![("shell", command(Some(true), &[("MY_VAR", "hello")]))]);
    let shell = cfg.for_command("shell");
    assert_eq!(shell.impure, Some(true));
    assert_eq!(shell.env.get("MY_VAR").map(String::as_str), Some("hello"));
}

#[test]
fn test_for_command_missing_returns_default() {
    let cfg = Config::default();
    let cc = cfg.for_command("nonexistent");
    assert_eq!(cc.impure, None);
    assert!(cc.env.is_empty());
}

#[test]
fn global_impure_does_not_override_an_explicit_false() {
    let cfg = config(Some(true), vec![("build", command(Some(false), &[]))]);
    assert_eq!(cfg.for_command("build").impure, Some(false));
}

#[test]
fn project_config_wins_over_global() {
    let project = config(Some(true), vec![]);
    let global = config(Some(false), vec![]);
    assert_eq!(load(Some(project), Some(global)).impure, Some(true));
    let global = config(Some(false), vec![]);
    assert_eq!(load(None, Some(global)).impure, Some(false));
    assert_eq!(load(None, None).impure, None);
}

#[test]
fn later_insert_replaces_an_env_entry() {
    let cfg = config(None, vec![("run", command(None, &[("A", "1"), ("A", "2")]))]);
    let run = cfg.for_command("run");
    assert_eq!(run.env.len(), 1);
    assert_eq!(run.env.get("A").map(String::as_str), Some("2"));
}
