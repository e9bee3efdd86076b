use eh::commands::handle_nix_command;
use eh::comma::handle_comma;
use eh::eh_config::CommandConfig;
use eh::eh_error::EhError;
use eh::json::Json;
use eh::retry_flow::{retry_step, CapturedRun, Notice, RetryEvent, RetryRequest, RetryState, RetryStep};

fn strings(v: &[&str]) -> Vec<String> {
    v.iter().map(|s| s.to_string()).collect()
}

fn request(sub: &str, args: &[&str], impure: Option<bool>, ask: bool) -> RetryRequest {
    let mut cfg = CommandConfig::default();
    cfg.impure = impure;
    handle_nix_command(sub, &strings(args), &cfg, ask).unwrap()
}

fn unfree() -> Json {
    Json::Object(vec![("unfree".to_string(), Json::Bool(true))])
}

#[test]
fn unknown_subcommands_are_refused() {
    let cfg = CommandConfig::default();
    assert!(matches!(
        handle_nix_command("frobnicate", &[], &cfg, false),
        Err(EhError::NixCommandFailed { command }) if command == "frobnicate"
    ));
    assert!(handle_nix_command("run", &[], &cfg, false).unwrap().interactive);
    assert!(!handle_nix_command("build", &[], &cfg, false).unwrap().interactive);
}

#[test]
fn comma_runs_the_binary_in_a_shell_of_its_package() {
    let cfg = CommandConfig::default();
    assert!(matches!(handle_comma(&[], "x", &cfg, false), Err(EhError::MissingBinary)));
    let req = handle_comma(&strings(&["rg", "-i", "foo"]), "ripgrep", &cfg, true).unwrap();
    assert_eq!(req.subcommand, "shell");
    assert_eq!(req.args, ["nixpkgs#ripgrep", "-c", "rg", "-i", "foo"]);
    assert!(req.ask);
}

#[test]
fn disabled_impure_refuses_an_unfree_package() {
    let req = request("build", &["hello"], Some(false), false);
    let (state, _, _) = retry_step(&req, RetryState::Start, RetryEvent::Start);
    let (_, step, _) = retry_step(&req, state, RetryEvent::MetaParsed { meta: unfree() });
    assert!(matches!(
        step,
        RetryStep::Finish { result: Err(EhError::ImpureRequired { command, reason }) }
            if command == "build" && reason == "has an unfree license"
    ));
}

#[test]
fn asking_waits_for_a_yes_before_going_impure() {
    let req = request("build", &["hello"], None, true);
    let (state, _, _) = retry_step(&req, RetryState::Start, RetryEvent::Start);
    let (state, step, notices) = retry_step(&req, state, RetryEvent::MetaParsed { meta: unfree() });
    assert!(notices.is_empty());
    assert!(matches!(&step, RetryStep::ConfirmImpure { package, .. } if package == "hello"));
    let (_, step, _) = retry_step(&req, state, RetryEvent::Answered { yes: false });
    assert!(matches!(step, RetryStep::Finish { result: Err(EhError::ProcessExit { code: 1 }) }));

    let (state, _, _) = retry_step(&req, RetryState::Start, RetryEvent::Start);
    let (state, _, _) = retry_step(&req, state, RetryEvent::MetaParsed { meta: unfree() });
    let (_, step, notices) = retry_step(&req, state, RetryEvent::Answered { yes: true });
    assert!(matches!(&notices[..], [Notice::RetryingImpure { .. }]));
    match step {
        RetryStep::Run { command } => {
            assert!(command.argv().contains(&"--impure".to_string()));
        },
        _ => panic!("expected the impure run"),
    }
}

#[test]
fn no_terminal_means_no_hash_fix_unless_asking() {
    let stderr = "specified: sha256-a=\ngot: sha256-b=\n";
    let req = request("build", &["."], None, false);
    let run = CapturedRun::read(false, Some(1), stderr.as_bytes().to_vec());
    let (state, step, _) = retry_step(&req, RetryState::AwaitCapture, RetryEvent::Captured { run });
    assert!(matches!(step, RetryStep::ConfirmHashFix { .. }));
    let (_, step, notices) = retry_step(&req, state, RetryEvent::NoTerminal);
    assert!(matches!(&notices[..], [Notice::SkippingHashFix { .. }]));
    assert!(matches!(step, RetryStep::ShowFailure { .. }));

    let req = request("build", &["."], None, true);
    let run = CapturedRun::read(false, Some(1), stderr.as_bytes().to_vec());
    let (state, _, _) = retry_step(&req, RetryState::AwaitCapture, RetryEvent::Captured { run });
    let (_, step, _) = retry_step(&req, state, RetryEvent::NoTerminal);
    assert!(matches!(step, RetryStep::Finish { result: Err(EhError::Io(_)) }));
}

#[test]
fn an_interactive_success_ends_the_run() {
    let req = request("run", &["hello"], None, false);
    let (state, _, _) = retry_step(&req, RetryState::Start, RetryEvent::Start);
    let (state, _, _) = retry_step(&req, state, RetryEvent::MetaParsed { meta: Json::Object(vec![]) });
    let (state, step, notices) =
        retry_step(&req, state, RetryEvent::Evaluated { success: true, stderr: String::new() });
    assert!(matches!(&notices[..], [Notice::Entering { command }] if command == "nix run hello"));
    assert!(matches!(step, RetryStep::Run { .. }));
    let (_, step, _) = retry_step(&req, state, RetryEvent::Exited { code: Some(0) });
    assert!(matches!(step, RetryStep::Finish { result: Ok(0) }));
}

#[test]
fn a_retry_request_keeps_its_settings() {
    let mut cfg = CommandConfig::default();
    cfg.impure = Some(true);
    let req = eh::retry_flow::handle_nix_with_retry("develop", &strings(&["."]), true, &cfg, true);
    assert_eq!(req.subcommand, "develop");
    assert_eq!(req.args, ["."]);
    assert!(req.interactive && req.ask);
    assert_eq!(req.cfg.impure, Some(true));
}

#[test]
fn enabled_impure_is_passed_from_the_first_run() {
    let req = request("build", &["hello"], Some(true), false);
    let (state, _, _) = retry_step(&req, RetryState::Start, RetryEvent::Start);
    let (state, _, _) = retry_step(&req, state, RetryEvent::MetaParsed { meta: Json::Object(vec![]) });
    let (_, step, _) = retry_step(&req, state, RetryEvent::Evaluated { success: true, stderr: String::new() });
    match step {
        RetryStep::Capture { command } => {
            assert_eq!(command.argv(), ["nix", "build", "--print-build-logs", "--impure", "hello"]);
        },
        _ => panic!("expected the captured build"),
    }
}

#[test]
fn disabled_impure_is_never_passed() {
    let req = request("build", &["hello"], Some(false), false);
    let (state, _, _) = retry_step(&req, RetryState::Start, RetryEvent::Start);
    let (state, _, _) = retry_step(&req, state, RetryEvent::MetaParsed { meta: Json::Object(vec![]) });
    let (_, step, _) = retry_step(&req, state, RetryEvent::Evaluated { success: true, stderr: String::new() });
    match step {
        RetryStep::Capture { command } => assert!(!command.argv().contains(&"--impure".to_string())),
        _ => panic!("expected the captured build"),
    }
}

#[test]
fn a_refusal_in_the_output_also_needs_impure_allowed() {
    let req = request("build", &["hello"], Some(false), false);
    let stderr = "error: Package 'x' has been marked as broken, refusing to evaluate.";
    let (_, step, _) = retry_step(
        &req,
        RetryState::AwaitEval { eval_arg: "hello".into() },
        RetryEvent::Evaluated { success: false, stderr: stderr.into() },
    );
    assert!(matches!(
        step,
        RetryStep::Finish { result: Err(EhError::ImpureRequired { reason, .. }) } if reason == "has been marked as broken"
    ));
}
