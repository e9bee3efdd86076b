use eh::error::EhError;
use eh::guarded_run::{guarded_step, GuardedEvent, GuardedNotice, GuardedState, GuardedStep};
use eh::json::Json;
use eh::retry_flow::CapturedRun;
use eh::run::handle_nix_run;
use eh::shell::handle_nix_shell;

fn strings(v: &[&str]) -> Vec<String> {
    v.iter().map(|s| s.to_string()).collect()
}

fn argv_of(step: &GuardedStep) -> Vec<String> {
    match step {
        GuardedStep::Capture { command } | GuardedStep::Run { command } => command.argv(),
        _ => panic!("expected a command"),
    }
}

#[test]
fn run_and_shell_requests() {
    let r = handle_nix_run(&strings(&["hello"]));
    assert_eq!(r.subcommand, "run");
    assert!(!r.interactive);
    let s = handle_nix_shell(&strings(&["hello"]));
    assert_eq!(s.subcommand, "shell");
    assert!(s.interactive);
}

#[test]
fn dangerous_arguments_stop_the_run_before_nix() {
    let req = handle_nix_run(&strings(&["hello", "x; rm -rf /"]));
    let (state, step, _) = guarded_step(&req, GuardedState::Start, GuardedEvent::Start);
    assert!(matches!(state, GuardedState::Done));
    assert!(matches!(
        step,
        GuardedStep::Finish { result: Err(EhError::InvalidInput { input, reason }) }
            if input == "x; rm -rf /" && reason == "contains potentially dangerous pattern: ;"
    ));
}

#[test]
fn an_unfree_package_is_retried_with_its_variable() {
    let req = handle_nix_run(&strings(&["hello"]));
    let (state, step, _) = guarded_step(&req, GuardedState::Start, GuardedEvent::Start);
    assert_eq!(argv_of(&step), ["nix", "eval", "--json", "nixpkgs#hello.meta"]);
    let meta = Json::Object(vec![("unfree".to_string(), Json::Bool(true))]);
    let (state, step, notices) = guarded_step(&req, state, GuardedEvent::MetaParsed { meta });
    assert!(matches!(
        &notices[..],
        [GuardedNotice::RetryingImpure { env_var, .. }] if env_var == "NIXPKGS_ALLOW_UNFREE"
    ));
    match &step {
        GuardedStep::Run { command } => {
            assert_eq!(command.argv(), ["nix", "run", "--print-build-logs", "--impure", "hello"]);
            assert_eq!(
                command.env_pairs(),
                &vec![("NIXPKGS_ALLOW_UNFREE".to_string(), "1".to_string())]
            );
        },
        _ => panic!("expected a run"),
    }
    let (state, step, _) = guarded_step(&req, state, GuardedEvent::Exited { code: None });
    assert!(matches!(state, GuardedState::Done));
    assert!(matches!(step, GuardedStep::Finish { result: Ok(1) }));
}

#[test]
fn a_clean_build_succeeds_after_one_capture() {
    let req = handle_nix_run(&strings(&["hello"]));
    let (state, _, _) = guarded_step(&req, GuardedState::Start, GuardedEvent::Start);
    let (state, step, notices) =
        guarded_step(&req, state, GuardedEvent::MetaFailed { stderr: "does not provide attribute".into() });
    assert!(notices.is_empty());
    assert_eq!(argv_of(&step), ["nix", "eval", "hello"]);
    let (state, step, _) =
        guarded_step(&req, state, GuardedEvent::Evaluated { success: true, stderr: String::new() });
    assert_eq!(argv_of(&step), ["nix", "run", "--print-build-logs", "hello"]);
    let run = CapturedRun::read(true, Some(0), Vec::new());
    let (_, step, _) = guarded_step(&req, state, GuardedEvent::Captured { run });
    assert!(matches!(step, GuardedStep::Finish { result: Ok(0) }));
}

#[test]
fn a_reported_hash_is_fixed_and_rebuilt() {
    let req = handle_nix_shell(&strings(&["."]));
    let state = GuardedState::AwaitCapture;
    let stderr = "error: hash mismatch\n  specified: sha256-old=\n  got:    sha256-new=\n";
    let run = CapturedRun::read(false, Some(1), stderr.as_bytes().to_vec());
    let (state, step, _) = guarded_step(&req, state, GuardedEvent::Captured { run });
    assert!(matches!(
        &step,
        GuardedStep::FixHashes { old_hash: Some(o), new_hash } if o == "sha256-old=" && new_hash == "sha256-new="
    ));
    let (state, step, notices) = guarded_step(&req, state, GuardedEvent::HashesFixed { changed: true });
    assert!(matches!(&notices[..], [GuardedNotice::HashCorrected { .. }]));
    match &step {
        GuardedStep::Run { command } => assert!(command.is_interactive()),
        _ => panic!("expected a rebuild"),
    }
    let (_, step, _) = guarded_step(&req, state, GuardedEvent::Exited { code: Some(3) });
    assert!(matches!(step, GuardedStep::Finish { result: Ok(3) }));
}

#[test]
fn an_unparsable_mismatch_is_an_error() {
    let req = handle_nix_run(&strings(&["hello"]));
    let run = CapturedRun::read(false, Some(1), b"error: hash mismatch in fixed-output derivation".to_vec());
    let (_, step, _) = guarded_step(&req, GuardedState::AwaitCapture, GuardedEvent::Captured { run });
    assert!(matches!(step, GuardedStep::Finish { result: Err(EhError::HashExtractionFailed { .. }) }));
}

#[test]
fn a_failure_is_shown_then_reported_with_its_code() {
    let req = handle_nix_run(&strings(&["hello"]));
    let run = CapturedRun::read(false, Some(2), b"error: builder failed".to_vec());
    let (state, step, _) = guarded_step(&req, GuardedState::AwaitCapture, GuardedEvent::Captured { run });
    assert!(matches!(&step, GuardedStep::ShowFailure { stderr } if stderr == b"error: builder failed"));
    let (_, step, _) = guarded_step(&req, state, GuardedEvent::FailureShown);
    assert!(matches!(step, GuardedStep::Finish { result: Err(EhError::ProcessExit { code: 2 }) }));
}

#[test]
fn a_failed_pre_evaluation_is_reported_without_its_prefix() {
    let req = handle_nix_run(&strings(&[]));
    let (state, _, _) = guarded_step(&req, GuardedState::Start, GuardedEvent::Start);
    let (state, _, notices) =
        guarded_step(&req, state, GuardedEvent::MetaUnparsable { message: "bad json".into() });
    assert!(matches!(&notices[..], [GuardedNotice::MetadataUnparsable { .. }, GuardedNotice::NoPackage]));
    let (_, step, _) = guarded_step(
        &req,
        state,
        GuardedEvent::Evaluated { success: false, stderr: "  error: attribute missing \n".into() },
    );
    assert!(matches!(
        step,
        GuardedStep::Finish { result: Err(EhError::PreEvalFailed { expression, stderr }) }
            if expression == "." && stderr == "attribute missing"
    ));
}

#[test]
fn a_checked_run_request_keeps_its_arguments() {
    let req = eh::util::handle_nix_with_retry("build", &strings(&[".#pkg", "--rebuild"]), false);
    assert_eq!(req.subcommand, "build");
    assert_eq!(req.args, [".#pkg", "--rebuild"]);
    assert!(!req.interactive);
}

#[test]
fn a_failure_is_shown_as_the_process_wrote_it() {
    let req = handle_nix_run(&strings(&["hello"]));
    let raw = b"error: \xff builder failed".to_vec();
    let run = CapturedRun::read(false, Some(1), raw.clone());
    assert_eq!(run.stderr, "error: \u{fffd} builder failed");
    let (_, step, _) = guarded_step(&req, GuardedState::AwaitCapture, GuardedEvent::Captured { run });
    assert!(matches!(&step, GuardedStep::ShowFailure { stderr } if *stderr == raw));
}

#[test]
fn a_run_can_be_read_by_other_readers() {
    let raw = b"got: sha256-B=".to_vec();
    let run = CapturedRun::read_with(false, Some(1), raw, &eh::hash::RegexHashExtractor, &eh::retry::DefaultNixErrorClassifier);
    assert_eq!(run.new_hash.as_deref(), Some("sha256-B="));
    assert!(!run.should_retry);
}
