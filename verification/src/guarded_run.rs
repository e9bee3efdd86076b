use vstd::prelude::*;
use crate::command::{new_command, CommandView, NixCommand};
use crate::error::{result_view, EhError, ErrorView};
use crate::eval::{package_arg, package_arg_of};
use crate::hash::{hash_mismatch_reported, is_hash_mismatch_error};
use crate::json::Json;
use crate::nix_command::opt_view;
use crate::order::views;
use crate::retry::{
    classify_retry_action, meta_action_of, meta_retry_action, override_of, retry_action_for,
    RetryAction,
};
use crate::retry_flow::{eval_arg_of, pre_eval_message, pre_eval_message_of, CapturedRun, CapturedRunView};
use crate::text::{contains, contains_str, trim, trim_str};
use crate::util::{
    make_eval_expr, meta_expr_of, package_name, package_name_of, validate_nix_args,
    validation_error_of,
};

verus! {

broadcast use vstd::string::group_string_axioms;

// ---------------------------------------------------------------------
// The parties' vocabulary
// ---------------------------------------------------------------------

/// A request to run `nix SUBCOMMAND ARGS…` after checking its arguments,
/// with automatic retries.
pub struct GuardedRequest {
    pub subcommand: String,
    pub args: Vec<String>,
    /// Whether the command runs attached to the terminal.
    pub interactive: bool,
}

/// What happened to the last step, reported back by the driver.
pub enum GuardedEvent {
    /// Nothing has happened yet.
    Start,
    /// `nix eval --json …meta` exited with failure.
    MetaFailed { stderr: String },
    /// `nix eval --json …meta` could not be run.
    MetaUnavailable { message: String },
    /// `nix eval --json …meta` printed this document.
    MetaParsed { meta: Json },
    /// `nix eval --json …meta` printed something that is not JSON.
    MetaUnparsable { message: String },
    /// The plain evaluation finished.
    Evaluated { success: bool, stderr: String },
    /// A streamed or attached run finished.
    Exited { code: Option<i32> },
    /// The captured run finished.
    Captured { run: CapturedRun },
    /// A command could not be run.
    CommandFailed { error: EhError },
    /// The hashes were fixed; whether any file changed.
    HashesFixed { changed: bool },
    /// Fixing the hashes failed.
    HashFixFailed { error: EhError },
    /// The error output was written out.
    FailureShown,
    /// Writing the error output failed.
    ShowFailed { message: String },
}

/// What the driver is asked to do next.
pub enum GuardedStep {
    /// Run the command with its output captured.
    Capture { command: NixCommand },
    /// Run the command with its output streamed (or attached when it is
    /// interactive).
    Run { command: NixCommand },
    /// Fix the hash in the local `.nix` files.
    FixHashes { old_hash: Option<String>, new_hash: String },
    /// Write the captured error output, as the process wrote it.
    ShowFailure { stderr: Vec<u8> },
    /// Stop with this result.
    Finish { result: Result<i32, EhError> },
}

/// Where a run stands.
pub enum GuardedState {
    Start,
    AwaitMeta { eval_arg: String },
    AwaitEval { eval_arg: String },
    AwaitInteractive,
    AwaitCapture,
    AwaitHashFix { run: CapturedRun },
    AwaitFinal,
    AwaitShown { code: Option<i32> },
    Done,
}

/// A message for the user's log.
pub enum GuardedNotice {
    /// Warning: no installable was given, `.` is evaluated.
    NoPackage,
    /// Warning: the package's flags could not be checked.
    FlagCheckFailed { eval_arg: String, detail: String },
    /// Warning: the package's metadata could not be read.
    MetadataUnparsable { eval_arg: String, detail: String },
    /// Warning: the package needs `ENV_VAR=1`, which is being set.
    RetryingImpure { package: String, reason: String, env_var: String },
    /// Information: hashes were corrected, rebuilding.
    HashCorrected { package: String },
    /// Warning: a hash mismatch, but no `.nix` file to fix.
    NoNixFiles { package: String },
}

pub enum GuardedNoticeView {
    NoPackage,
    FlagCheckFailed(Seq<char>, Seq<char>),
    MetadataUnparsable(Seq<char>, Seq<char>),
    RetryingImpure(Seq<char>, Seq<char>, Seq<char>),
    HashCorrected(Seq<char>),
    NoNixFiles(Seq<char>),
}

impl View for GuardedNotice {
    type V = GuardedNoticeView;

    open spec fn view(&self) -> GuardedNoticeView {
        match self {
            GuardedNotice::NoPackage => GuardedNoticeView::NoPackage,
            GuardedNotice::FlagCheckFailed { eval_arg, detail } => GuardedNoticeView::FlagCheckFailed(
                eval_arg@,
                detail@,
            ),
            GuardedNotice::MetadataUnparsable { eval_arg, detail } =>
                GuardedNoticeView::MetadataUnparsable(eval_arg@, detail@),
            GuardedNotice::RetryingImpure { package, reason, env_var } =>
                GuardedNoticeView::RetryingImpure(package@, reason@, env_var@),
            GuardedNotice::HashCorrected { package } => GuardedNoticeView::HashCorrected(package@),
            GuardedNotice::NoNixFiles { package } => GuardedNoticeView::NoNixFiles(package@),
        }
    }
}

pub enum GuardedStepView {
    Capture(CommandView),
    Run(CommandView),
    FixHashes(Option<Seq<char>>, Seq<char>),
    ShowFailure(Seq<u8>),
    Finish(Result<i32, ErrorView>),
}

impl View for GuardedStep {
    type V = GuardedStepView;

    open spec fn view(&self) -> GuardedStepView {
        match self {
            GuardedStep::Capture { command } => GuardedStepView::Capture(command@),
            GuardedStep::Run { command } => GuardedStepView::Run(command@),
            GuardedStep::FixHashes { old_hash, new_hash } => GuardedStepView::FixHashes(
                opt_view(*old_hash),
                new_hash@,
            ),
            GuardedStep::ShowFailure { stderr } => GuardedStepView::ShowFailure(stderr@),
            GuardedStep::Finish { result } => GuardedStepView::Finish(result_view(*result)),
        }
    }
}

pub enum GuardedStateView {
    Start,
    AwaitMeta(Seq<char>),
    AwaitEval(Seq<char>),
    AwaitInteractive,
    AwaitCapture,
    AwaitHashFix(CapturedRunView),
    AwaitFinal,
    AwaitShown(Option<i32>),
    Done,
}

impl View for GuardedState {
    type V = GuardedStateView;

    open spec fn view(&self) -> GuardedStateView {
        match self {
            GuardedState::Start => GuardedStateView::Start,
            GuardedState::AwaitMeta { eval_arg } => GuardedStateView::AwaitMeta(eval_arg@),
            GuardedState::AwaitEval { eval_arg } => GuardedStateView::AwaitEval(eval_arg@),
            GuardedState::AwaitInteractive => GuardedStateView::AwaitInteractive,
            GuardedState::AwaitCapture => GuardedStateView::AwaitCapture,
            GuardedState::AwaitHashFix { run } => GuardedStateView::AwaitHashFix(run@),
            GuardedState::AwaitFinal => GuardedStateView::AwaitFinal,
            GuardedState::AwaitShown { code } => GuardedStateView::AwaitShown(*code),
            GuardedState::Done => GuardedStateView::Done,
        }
    }
}

pub open spec fn guarded_notice_views(ns: Seq<GuardedNotice>) -> Seq<GuardedNoticeView> {
    ns.map_values(|n: GuardedNotice| n@)
}

/// A transition's outcome: the next state, the step, the log messages.
pub struct GuardedOutcome {
    pub state: GuardedStateView,
    pub step: GuardedStepView,
    pub notices: Seq<GuardedNoticeView>,
}

pub open spec fn guarded_meets(
    r: (GuardedState, GuardedStep, Vec<GuardedNotice>),
    o: GuardedOutcome,
) -> bool {
    r.0@ == o.state && r.1@ == o.step && guarded_notice_views(r.2@) == o.notices
}

// ---------------------------------------------------------------------
// The flow, as spec functions of the request
// ---------------------------------------------------------------------

pub open spec fn gargs(req: GuardedRequest) -> Seq<Seq<char>> {
    views(req.args@)
}

pub open spec fn stop(r: Result<i32, ErrorView>, notices: Seq<GuardedNoticeView>) -> GuardedOutcome {
    GuardedOutcome { state: GuardedStateView::Done, step: GuardedStepView::Finish(r), notices }
}

/// `nix eval --json EXPR`, without build logs.
pub open spec fn flags_command(expr: Seq<char>) -> CommandView {
    CommandView { args: seq!["--json"@, expr], print_build_logs: false, ..new_command("eval"@) }
}

/// `nix eval ARG`, without build logs.
pub open spec fn plain_eval_command(arg: Seq<char>) -> CommandView {
    CommandView { args: seq![arg], print_build_logs: false, ..new_command("eval"@) }
}

/// The command that runs the request, with build logs, attached or not,
/// with `ENV_VAR=1` and `--impure` when retrying a refused package.
pub open spec fn guarded_command(req: GuardedRequest, interactive: bool, env_var: Option<Seq<char>>) -> CommandView {
    let base = CommandView { args: gargs(req), interactive, ..new_command(req.subcommand@) };
    match env_var {
        Some(v) => CommandView { env: seq![(v, "1"@)], impure: true, ..base },
        None => base,
    }
}

/// The plain evaluation, with a warning when no installable was named.
pub open spec fn guarded_plain_eval(req: GuardedRequest, eval_arg: Seq<char>, notices: Seq<GuardedNoticeView>) -> GuardedOutcome {
    GuardedOutcome {
        state: GuardedStateView::AwaitEval(eval_arg),
        step: GuardedStepView::Capture(plain_eval_command(eval_arg)),
        notices: if package_arg_of(gargs(req)) is None {
            notices.push(GuardedNoticeView::NoPackage)
        } else {
            notices
        },
    }
}

/// The retry with `ENV_VAR=1` and `--impure`, announced.
pub open spec fn guarded_impure_run(req: GuardedRequest, action: RetryAction, notices: Seq<GuardedNoticeView>) -> GuardedOutcome {
    let (env_var, reason) = override_of(action)->0;
    GuardedOutcome {
        state: GuardedStateView::AwaitFinal,
        step: GuardedStepView::Run(guarded_command(req, req.interactive, Some(env_var))),
        notices: notices.push(
            GuardedNoticeView::RetryingImpure(package_name_of(gargs(req)), reason, env_var),
        ),
    }
}

/// The captured run of the request.
pub open spec fn guarded_capture(req: GuardedRequest) -> GuardedOutcome {
    GuardedOutcome {
        state: GuardedStateView::AwaitCapture,
        step: GuardedStepView::Capture(guarded_command(req, false, None)),
        notices: seq![],
    }
}

/// The run after a clean pre-evaluation: attached first when interactive,
/// captured otherwise.
pub open spec fn guarded_main_run(req: GuardedRequest) -> GuardedOutcome {
    if req.interactive {
        GuardedOutcome {
            state: GuardedStateView::AwaitInteractive,
            step: GuardedStepView::Run(guarded_command(req, true, None)),
            notices: seq![],
        }
    } else {
        guarded_capture(req)
    }
}

/// What follows the hash handling of a captured run: an impure retry when
/// the output calls for one, success, or the failure shown.
pub open spec fn guarded_after_hash(req: GuardedRequest, run: CapturedRunView, notices: Seq<GuardedNoticeView>) -> GuardedOutcome {
    let action = retry_action_for(run.stderr);
    if run.should_retry && override_of(action) is Some {
        guarded_impure_run(req, action, notices)
    } else if run.success {
        stop(Ok(0), notices)
    } else {
        GuardedOutcome {
            state: GuardedStateView::AwaitShown(run.code),
            step: GuardedStepView::ShowFailure(run.output),
            notices,
        }
    }
}

/// Whether the state waits for this kind of event.
pub open spec fn guarded_accepts(state: GuardedState, event: GuardedEvent) -> bool {
    match (state, event) {
        (GuardedState::Start, GuardedEvent::Start) => true,
        (GuardedState::AwaitMeta { .. }, GuardedEvent::MetaFailed { .. }) => true,
        (GuardedState::AwaitMeta { .. }, GuardedEvent::MetaUnavailable { .. }) => true,
        (GuardedState::AwaitMeta { .. }, GuardedEvent::MetaParsed { .. }) => true,
        (GuardedState::AwaitMeta { .. }, GuardedEvent::MetaUnparsable { .. }) => true,
        (GuardedState::AwaitEval { .. }, GuardedEvent::Evaluated { .. }) => true,
        (GuardedState::AwaitEval { .. }, GuardedEvent::CommandFailed { .. }) => true,
        (GuardedState::AwaitInteractive, GuardedEvent::Exited { .. }) => true,
        (GuardedState::AwaitInteractive, GuardedEvent::CommandFailed { .. }) => true,
        (GuardedState::AwaitCapture, GuardedEvent::Captured { .. }) => true,
        (GuardedState::AwaitCapture, GuardedEvent::CommandFailed { .. }) => true,
        (GuardedState::AwaitHashFix { .. }, GuardedEvent::HashesFixed { .. }) => true,
        (GuardedState::AwaitHashFix { .. }, GuardedEvent::HashFixFailed { .. }) => true,
        (GuardedState::AwaitFinal, GuardedEvent::Exited { .. }) => true,
        (GuardedState::AwaitFinal, GuardedEvent::CommandFailed { .. }) => true,
        (GuardedState::AwaitShown { .. }, GuardedEvent::FailureShown) => true,
        (GuardedState::AwaitShown { .. }, GuardedEvent::ShowFailed { .. }) => true,
        _ => false,
    }
}

/// The transition from `state` on `event`.
pub open spec fn guarded_next(req: GuardedRequest, state: GuardedState, event: GuardedEvent) -> GuardedOutcome {
    let empty = Seq::<GuardedNoticeView>::empty();
    let pkg = package_name_of(gargs(req));
    match (state, event) {
        (GuardedState::Start, GuardedEvent::Start) => match validation_error_of(gargs(req)) {
            Some(e) => stop(Err(e), empty),
            None => {
                let arg = eval_arg_of(gargs(req));
                GuardedOutcome {
                    state: GuardedStateView::AwaitMeta(arg),
                    step: GuardedStepView::Capture(flags_command(meta_expr_of(arg))),
                    notices: empty,
                }
            },
        },
        (GuardedState::AwaitMeta { eval_arg }, GuardedEvent::MetaFailed { stderr }) =>
            guarded_plain_eval(
            req,
            eval_arg@,
            if contains(stderr@, "does not provide attribute"@) {
                empty
            } else {
                seq![GuardedNoticeView::FlagCheckFailed(eval_arg@, trim(stderr@))]
            },
        ),
        (GuardedState::AwaitMeta { eval_arg }, GuardedEvent::MetaUnavailable { message: error }) =>
            guarded_plain_eval(
            req,
            eval_arg@,
            seq![GuardedNoticeView::FlagCheckFailed(eval_arg@, error@)],
        ),
        (GuardedState::AwaitMeta { eval_arg }, GuardedEvent::MetaUnparsable { message: error }) =>
            guarded_plain_eval(
            req,
            eval_arg@,
            seq![GuardedNoticeView::MetadataUnparsable(eval_arg@, error@)],
        ),
        (GuardedState::AwaitMeta { eval_arg }, GuardedEvent::MetaParsed { meta }) => {
            let action = meta_action_of(meta);
            if action != RetryAction::NoRetry {
                guarded_impure_run(req, action, empty)
            } else {
                guarded_plain_eval(req, eval_arg@, empty)
            }
        },
        (GuardedState::AwaitEval { .. }, GuardedEvent::CommandFailed { error }) => stop(
            Err(error@),
            empty,
        ),
        (GuardedState::AwaitEval { eval_arg }, GuardedEvent::Evaluated { success, stderr }) => {
            let action = retry_action_for(stderr@);
            if success {
                guarded_main_run(req)
            } else if action != RetryAction::NoRetry {
                guarded_impure_run(req, action, empty)
            } else {
                stop(Err(ErrorView::PreEvalFailed(eval_arg@, pre_eval_message(stderr@))), empty)
            }
        },
        (GuardedState::AwaitInteractive, GuardedEvent::Exited { code }) => if code == Some(0i32) {
            stop(Ok(0), empty)
        } else {
            guarded_capture(req)
        },
        (GuardedState::AwaitInteractive, GuardedEvent::CommandFailed { error }) => stop(
            Err(error@),
            empty,
        ),
        (GuardedState::AwaitCapture, GuardedEvent::CommandFailed { error }) => stop(
            Err(error@),
            empty,
        ),
        (GuardedState::AwaitCapture, GuardedEvent::Captured { run }) => if run@.new_hash is Some {
            GuardedOutcome {
                state: GuardedStateView::AwaitHashFix(run@),
                step: GuardedStepView::FixHashes(run@.old_hash, run@.new_hash->0),
                notices: empty,
            }
        } else if hash_mismatch_reported(run@.stderr) {
            stop(Err(ErrorView::HashExtractionFailed(run@.stderr)), empty)
        } else {
            guarded_after_hash(req, run@, empty)
        },
        (GuardedState::AwaitHashFix { run }, GuardedEvent::HashesFixed { changed }) => if changed {
            GuardedOutcome {
                state: GuardedStateView::AwaitFinal,
                step: GuardedStepView::Run(guarded_command(req, req.interactive, None)),
                notices: seq![GuardedNoticeView::HashCorrected(pkg)],
            }
        } else {
            guarded_after_hash(req, run@, empty)
        },
        (GuardedState::AwaitHashFix { run }, GuardedEvent::HashFixFailed { error }) => if error is NoNixFilesFound {
            guarded_after_hash(req, run@, seq![GuardedNoticeView::NoNixFiles(pkg)])
        } else {
            stop(Err(error@), empty)
        },
        (GuardedState::AwaitFinal, GuardedEvent::Exited { code }) => stop(
            Ok(
                match code {
                    Some(c) => c,
                    None => 1,
                },
            ),
            empty,
        ),
        (GuardedState::AwaitFinal, GuardedEvent::CommandFailed { error }) => stop(
            Err(error@),
            empty,
        ),
        (GuardedState::AwaitShown { code }, GuardedEvent::FailureShown) => stop(
            Err(
                match code {
                    Some(c) => ErrorView::ProcessExit(c),
                    None => ErrorView::NixCommandFailed(req.subcommand@),
                },
            ),
            empty,
        ),
        (GuardedState::AwaitShown { .. }, GuardedEvent::ShowFailed { message: error }) => stop(
            Err(ErrorView::Io(error@)),
            empty,
        ),
        _ => stop(Ok(0), empty),
    }
}

// ---------------------------------------------------------------------
// The flow, executed
// ---------------------------------------------------------------------

type Transition = (GuardedState, GuardedStep, Vec<GuardedNotice>);

fn push_guarded(notices: &mut Vec<GuardedNotice>, n: GuardedNotice)
    ensures
        guarded_notice_views(final(notices)@) == guarded_notice_views(old(notices)@).push(n@),
{
    let ghost before = notices@;
    notices.push(n);
    assert(guarded_notice_views(notices@) =~= guarded_notice_views(before).push(n@));
}

fn no_notices() -> (r: Vec<GuardedNotice>)
    ensures
        guarded_notice_views(r@) == Seq::<GuardedNoticeView>::empty(),
{
    let r: Vec<GuardedNotice> = Vec::new();
    assert(guarded_notice_views(r@) =~= Seq::<GuardedNoticeView>::empty());
    r
}

fn finish_with(result: Result<i32, EhError>, notices: Vec<GuardedNotice>) -> (r: Transition)
    ensures
        r.0 is Done,
        r.1@ == GuardedStepView::Finish(result_view(result)),
        r.2@ == notices@,
{
    (GuardedState::Done, GuardedStep::Finish { result }, notices)
}

fn command_for(req: &GuardedRequest, interactive: bool, env_var: Option<&str>) -> (r: NixCommand)
    ensures
        r@ == guarded_command(*req, interactive, crate::retry_flow::opt_str(env_var)),
{
    proof {
        reveal_strlit("1");
    }
    let base = NixCommand::new(req.subcommand.as_str()).print_build_logs(true).args(
        req.args.as_slice(),
    ).interactive(interactive);
    assert(base@.args =~= gargs(*req));
    match env_var {
        Some(v) => {
            let c = base.env(v, "1").impure(true);
            assert(c@.env =~= seq![(v@, "1"@)]);
            c
        },
        None => base,
    }
}

fn exec_plain_eval(req: &GuardedRequest, eval_arg: String, notices: Vec<GuardedNotice>) -> (r: Transition)
    ensures
        guarded_meets(r, guarded_plain_eval(*req, eval_arg@, guarded_notice_views(notices@))),
{
    let mut notices = notices;
    if package_arg(req.args.as_slice()).is_none() {
        push_guarded(&mut notices, GuardedNotice::NoPackage);
    }
    let command = NixCommand::new("eval").arg(eval_arg.as_str()).print_build_logs(false);
    assert(command@.args =~= seq![eval_arg@]);
    (GuardedState::AwaitEval { eval_arg }, GuardedStep::Capture { command }, notices)
}

fn exec_impure_run(req: &GuardedRequest, action: RetryAction, notices: Vec<GuardedNotice>) -> (r: Transition)
    requires
        override_of(action) is Some,
    ensures
        guarded_meets(r, guarded_impure_run(*req, action, guarded_notice_views(notices@))),
{
    let mut notices = notices;
    let (env_var, reason) = match action.env_override() {
        Some(pair) => pair,
        None => {
            return finish_with(Ok(0), notices);
        },
    };
    let package = package_name(req.args.as_slice()).to_string();
    push_guarded(
        &mut notices,
        GuardedNotice::RetryingImpure {
            package,
            reason: reason.to_string(),
            env_var: env_var.to_string(),
        },
    );
    let command = command_for(req, req.interactive, Some(env_var));
    (GuardedState::AwaitFinal, GuardedStep::Run { command }, notices)
}

fn exec_capture(req: &GuardedRequest) -> (r: Transition)
    ensures
        guarded_meets(r, guarded_capture(*req)),
{
    let command = command_for(req, false, None);
    (GuardedState::AwaitCapture, GuardedStep::Capture { command }, no_notices())
}

fn exec_main_run(req: &GuardedRequest) -> (r: Transition)
    ensures
        guarded_meets(r, guarded_main_run(*req)),
{
    if req.interactive {
        let command = command_for(req, true, None);
        (GuardedState::AwaitInteractive, GuardedStep::Run { command }, no_notices())
    } else {
        exec_capture(req)
    }
}

fn exec_after_hash(req: &GuardedRequest, run: CapturedRun, notices: Vec<GuardedNotice>) -> (r: Transition)
    ensures
        guarded_meets(r, guarded_after_hash(*req, run@, guarded_notice_views(notices@))),
{
    let action = classify_retry_action(run.stderr.as_str());
    if run.should_retry && action.env_override().is_some() {
        return exec_impure_run(req, action, notices);
    }
    if run.success {
        return finish_with(Ok(0), notices);
    }
    (GuardedState::AwaitShown { code: run.code }, GuardedStep::ShowFailure { stderr: run.output }, notices)
}

impl GuardedState {
    /// Whether the state waits for this kind of event.
    pub fn accepts(&self, event: &GuardedEvent) -> (b: bool)
        ensures
            b == guarded_accepts(*self, *event),
    {
        match (self, event) {
            (GuardedState::Start, GuardedEvent::Start) => true,
            (GuardedState::AwaitMeta { .. }, GuardedEvent::MetaFailed { .. }) => true,
            (GuardedState::AwaitMeta { .. }, GuardedEvent::MetaUnavailable { .. }) => true,
            (GuardedState::AwaitMeta { .. }, GuardedEvent::MetaParsed { .. }) => true,
            (GuardedState::AwaitMeta { .. }, GuardedEvent::MetaUnparsable { .. }) => true,
            (GuardedState::AwaitEval { .. }, GuardedEvent::Evaluated { .. }) => true,
            (GuardedState::AwaitEval { .. }, GuardedEvent::CommandFailed { .. }) => true,
            (GuardedState::AwaitInteractive, GuardedEvent::Exited { .. }) => true,
            (GuardedState::AwaitInteractive, GuardedEvent::CommandFailed { .. }) => true,
            (GuardedState::AwaitCapture, GuardedEvent::Captured { .. }) => true,
            (GuardedState::AwaitCapture, GuardedEvent::CommandFailed { .. }) => true,
            (GuardedState::AwaitHashFix { .. }, GuardedEvent::HashesFixed { .. }) => true,
            (GuardedState::AwaitHashFix { .. }, GuardedEvent::HashFixFailed { .. }) => true,
            (GuardedState::AwaitFinal, GuardedEvent::Exited { .. }) => true,
            (GuardedState::AwaitFinal, GuardedEvent::CommandFailed { .. }) => true,
            (GuardedState::AwaitShown { .. }, GuardedEvent::FailureShown) => true,
            (GuardedState::AwaitShown { .. }, GuardedEvent::ShowFailed { .. }) => true,
            _ => false,
        }
    }
}

fn guarded_on_start(req: &GuardedRequest) -> (r: Transition)
    ensures
        guarded_meets(r, guarded_next(*req, GuardedState::Start, GuardedEvent::Start)),
{
    match validate_nix_args(req.args.as_slice()) {
        Err(e) => finish_with(Err(e), no_notices()),
        Ok(()) => {
            proof {
                reveal_strlit(".");
            }
            let arg: &str = match package_arg(req.args.as_slice()) {
                Some(a) => a,
                None => ".",
            };
            let expr = make_eval_expr(arg);
            let command = NixCommand::new("eval").arg("--json").arg(expr.as_str()).print_build_logs(
                false,
            );
            assert(command@.args =~= seq!["--json"@, expr@]);
            (
                GuardedState::AwaitMeta { eval_arg: arg.to_string() },
                GuardedStep::Capture { command },
                no_notices(),
            )
        },
    }
}

fn guarded_on_meta(req: &GuardedRequest, eval_arg: String, event: GuardedEvent) -> (r: Transition)
    requires
        guarded_accepts(GuardedState::AwaitMeta { eval_arg }, event),
    ensures
        guarded_meets(r, guarded_next(*req, GuardedState::AwaitMeta { eval_arg }, event)),
{
    match event {
        GuardedEvent::MetaFailed { stderr } => {
            let mut notices = no_notices();
            if !contains_str(stderr.as_str(), "does not provide attribute") {
                push_guarded(
                    &mut notices,
                    GuardedNotice::FlagCheckFailed {
                        eval_arg: eval_arg.clone(),
                        detail: trim_str(stderr.as_str()),
                    },
                );
                assert(guarded_notice_views(notices@) =~= seq![
                    GuardedNoticeView::FlagCheckFailed(eval_arg@, trim(stderr@)),
                ]);
            }
            exec_plain_eval(req, eval_arg, notices)
        },
        GuardedEvent::MetaUnavailable { message: error } => {
            let mut notices = no_notices();
            push_guarded(
                &mut notices,
                GuardedNotice::FlagCheckFailed { eval_arg: eval_arg.clone(), detail: error },
            );
            exec_plain_eval(req, eval_arg, notices)
        },
        GuardedEvent::MetaUnparsable { message: error } => {
            let mut notices = no_notices();
            push_guarded(
                &mut notices,
                GuardedNotice::MetadataUnparsable { eval_arg: eval_arg.clone(), detail: error },
            );
            exec_plain_eval(req, eval_arg, notices)
        },
        GuardedEvent::MetaParsed { meta } => {
            let action = meta_retry_action(&meta);
            if action != RetryAction::NoRetry {
                exec_impure_run(req, action, no_notices())
            } else {
                exec_plain_eval(req, eval_arg, no_notices())
            }
        },
        _ => finish_with(Ok(0), no_notices()),
    }
}

fn guarded_on_eval(req: &GuardedRequest, eval_arg: String, event: GuardedEvent) -> (r: Transition)
    requires
        guarded_accepts(GuardedState::AwaitEval { eval_arg }, event),
    ensures
        guarded_meets(r, guarded_next(*req, GuardedState::AwaitEval { eval_arg }, event)),
{
    match event {
        GuardedEvent::CommandFailed { error } => finish_with(Err(error), no_notices()),
        GuardedEvent::Evaluated { success, stderr } => {
            let action = classify_retry_action(stderr.as_str());
            if success {
                exec_main_run(req)
            } else if action != RetryAction::NoRetry {
                exec_impure_run(req, action, no_notices())
            } else {
                let message = pre_eval_message_of(stderr.as_str());
                finish_with(
                    Err(EhError::PreEvalFailed { expression: eval_arg, stderr: message }),
                    no_notices(),
                )
            }
        },
        _ => finish_with(Ok(0), no_notices()),
    }
}

fn guarded_on_capture(req: &GuardedRequest, event: GuardedEvent) -> (r: Transition)
    requires
        guarded_accepts(GuardedState::AwaitCapture, event),
    ensures
        guarded_meets(r, guarded_next(*req, GuardedState::AwaitCapture, event)),
{
    match event {
        GuardedEvent::CommandFailed { error } => finish_with(Err(error), no_notices()),
        GuardedEvent::Captured { run } => {
            if run.new_hash.is_some() {
                let new_hash = match &run.new_hash {
                    Some(h) => h.clone(),
                    None => String::new(),
                };
                let old_hash = match &run.old_hash {
                    Some(h) => Some(h.clone()),
                    None => None,
                };
                (
                    GuardedState::AwaitHashFix { run },
                    GuardedStep::FixHashes { old_hash, new_hash },
                    no_notices(),
                )
            } else if is_hash_mismatch_error(run.stderr.as_str()) {
                finish_with(Err(EhError::HashExtractionFailed { stderr: run.stderr }), no_notices())
            } else {
                exec_after_hash(req, run, no_notices())
            }
        },
        _ => finish_with(Ok(0), no_notices()),
    }
}

fn guarded_on_hash_fix(req: &GuardedRequest, run: CapturedRun, event: GuardedEvent) -> (r: Transition)
    requires
        guarded_accepts(GuardedState::AwaitHashFix { run }, event),
    ensures
        guarded_meets(r, guarded_next(*req, GuardedState::AwaitHashFix { run }, event)),
{
    match event {
        GuardedEvent::HashesFixed { changed } => if changed {
            let mut notices = no_notices();
            let package = package_name(req.args.as_slice()).to_string();
            push_guarded(&mut notices, GuardedNotice::HashCorrected { package });
            let command = command_for(req, req.interactive, None);
            (GuardedState::AwaitFinal, GuardedStep::Run { command }, notices)
        } else {
            exec_after_hash(req, run, no_notices())
        },
        GuardedEvent::HashFixFailed { error } => match error {
            EhError::NoNixFilesFound => {
                let mut notices = no_notices();
                let package = package_name(req.args.as_slice()).to_string();
                push_guarded(&mut notices, GuardedNotice::NoNixFiles { package });
                exec_after_hash(req, run, notices)
            },
            other => finish_with(Err(other), no_notices()),
        },
        _ => finish_with(Ok(0), no_notices()),
    }
}

fn guarded_on_exit(req: &GuardedRequest, state: GuardedState, event: GuardedEvent) -> (r: Transition)
    requires
        state is AwaitInteractive || state is AwaitFinal || state is AwaitShown,
        guarded_accepts(state, event),
    ensures
        guarded_meets(r, guarded_next(*req, state, event)),
{
    match (state, event) {
        (GuardedState::AwaitInteractive, GuardedEvent::Exited { code }) => if code == Some(0i32) {
            finish_with(Ok(0), no_notices())
        } else {
            exec_capture(req)
        },
        (GuardedState::AwaitFinal, GuardedEvent::Exited { code }) => finish_with(
            Ok(
                match code {
                    Some(c) => c,
                    None => 1,
                },
            ),
            no_notices(),
        ),
        (GuardedState::AwaitShown { code }, GuardedEvent::FailureShown) => match code {
            Some(c) => finish_with(Err(EhError::ProcessExit { code: c }), no_notices()),
            None => finish_with(
                Err(EhError::NixCommandFailed { command: req.subcommand.clone() }),
                no_notices(),
            ),
        },
        (GuardedState::AwaitShown { .. }, GuardedEvent::ShowFailed { message: error }) => finish_with(
            Err(EhError::Io(error)),
            no_notices(),
        ),
        (_, GuardedEvent::CommandFailed { error }) => finish_with(Err(error), no_notices()),
        _ => finish_with(Ok(0), no_notices()),
    }
}

/// One step of a checked run of `nix SUBCOMMAND ARGS…` with automatic
/// retries: from the state the run is in and what happened last, the next
/// state, what the driver is to do, and what to log first.
///
/// The run refuses arguments that hold shell metacharacters, pre-evaluates
/// the installable (its `meta` flags, then the installable itself), retries
/// a package that nix refuses as unfree, insecure or broken with `--impure`
/// and the matching `NIXPKGS_ALLOW_*=1`, fixes a reported hash mismatch in
/// the local `.nix` files and rebuilds, and otherwise reports nix's own
/// failure.
pub fn guarded_step(req: &GuardedRequest, state: GuardedState, event: GuardedEvent) -> (r: Transition)
    requires
        guarded_accepts(state, event),
    ensures
        guarded_meets(r, guarded_next(*req, state, event)),
{
    match state {
        GuardedState::Start => guarded_on_start(req),
        GuardedState::AwaitMeta { eval_arg } => guarded_on_meta(req, eval_arg, event),
        GuardedState::AwaitEval { eval_arg } => guarded_on_eval(req, eval_arg, event),
        GuardedState::AwaitCapture => guarded_on_capture(req, event),
        GuardedState::AwaitHashFix { run } => guarded_on_hash_fix(req, run, event),
        GuardedState::Done => finish_with(Ok(0), no_notices()),
        other => guarded_on_exit(req, other, event),
    }
}


// ---------------------------------------------------------------------
// Laws
// ---------------------------------------------------------------------

/// How far a state is from the end of the run.
pub open spec fn guarded_rank(s: GuardedStateView) -> nat {
    match s {
        GuardedStateView::Start => 8,
        GuardedStateView::AwaitMeta(_) => 7,
        GuardedStateView::AwaitEval(_) => 6,
        GuardedStateView::AwaitInteractive => 5,
        GuardedStateView::AwaitCapture => 4,
        GuardedStateView::AwaitHashFix(_) => 3,
        GuardedStateView::AwaitShown(_) => 2,
        GuardedStateView::AwaitFinal => 1,
        GuardedStateView::Done => 0,
    }
}

/// Every checked run ends: each step leads to a state nearer the end, so a
/// run takes at most eight steps.
pub proof fn law_guarded_run_ends(req: GuardedRequest, state: GuardedState, event: GuardedEvent)
    requires
        guarded_accepts(state, event),
    ensures
        guarded_rank(guarded_next(req, state, event).state) < guarded_rank(state@),
{
}

/// Arguments that hold a shell metacharacter never reach nix: the first
/// step stops the run with `InvalidInput`, naming an offending argument.
pub proof fn law_dangerous_args_never_run(req: GuardedRequest, i: int, p: int)
    requires
        crate::util::violation_at(gargs(req), i, p),
    ensures
        guarded_next(req, GuardedState::Start, GuardedEvent::Start).state
            == GuardedStateView::Done,
        guarded_next(req, GuardedState::Start, GuardedEvent::Start).step matches
            GuardedStepView::Finish(Err(ErrorView::InvalidInput(input, _))) && gargs(req).contains(
            input,
        ),
{
    crate::util::lemma_minimal_violation_exists(gargs(req), i, p);
    let (j, q) = choose|j: int, q: int| crate::util::minimal_violation(gargs(req), j, q);
    assert(gargs(req)[j] == gargs(req)[j]);
}

/// A hash fix is only ever asked for right after a captured run whose
/// output named the new hash, and it installs exactly that hash.
pub proof fn law_hash_fix_installs_the_reported_hash(
    req: GuardedRequest,
    state: GuardedState,
    event: GuardedEvent,
)
    requires
        guarded_accepts(state, event),
        guarded_next(req, state, event).step is FixHashes,
    ensures
        state is AwaitCapture,
        event matches GuardedEvent::Captured { run } && run@.new_hash matches Some(h)
            && guarded_next(req, state, event).step == GuardedStepView::FixHashes(
            run@.old_hash,
            h,
        ),
{
}

/// An impure retry runs the command with `--impure`, with the variable that
/// allows the package set to `1`, and with the request's own arguments.
pub proof fn law_guarded_impure_retry_allows_the_package(
    req: GuardedRequest,
    action: RetryAction,
    notices: Seq<GuardedNoticeView>,
)
    requires
        override_of(action) is Some,
    ensures
        guarded_impure_run(req, action, notices).step matches GuardedStepView::Run(c) && c.impure
            && c.env == seq![((override_of(action)->0).0, "1"@)] && c.args == gargs(req)
            && c.subcommand == req.subcommand@,
{
}

/// A guarded run ends with the exit code of its last nix run, and with `1`
/// when that run has none: a failed last run is never reported as a
/// success.
pub proof fn law_guarded_final_run_reports_its_exit_code(
    req: GuardedRequest,
    code: Option<i32>,
    r: (GuardedState, GuardedStep, Vec<GuardedNotice>),
)
    requires
        guarded_meets(r, guarded_next(req, GuardedState::AwaitFinal, GuardedEvent::Exited { code })),
    ensures
        code matches Some(c) ==> r.1@ == GuardedStepView::Finish(Ok::<i32, ErrorView>(c)),
        code is None ==> r.1@ == GuardedStepView::Finish(Ok::<i32, ErrorView>(1)),
        r.0@ == GuardedStateView::Done,
{
}

} // verus!
