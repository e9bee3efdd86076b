use vstd::prelude::*;
use crate::eh_config::CommandConfig;
use crate::eh_error::EhError;
use crate::eval::{eval_expr_of, make_eval_expr, package_arg, package_arg_of};
use crate::hash::{
    hash_mismatch_reported, is_hash_mismatch_error, new_hash_of, old_hash_of, HashExtractor,
    RegexHashExtractor,
};
use crate::json::Json;
use crate::nix_command::{fresh_command, kind_named, opt_view, CommandKind, NixCommand, NixCommandView};
use crate::order::views;
use crate::retry::{
    classify_retry_action, command_display, display_of, meta_action_of, meta_retry_action,
    nix_command, override_of, planned_command, retry_action_for, should_retry_for,
    DefaultNixErrorClassifier, NixErrorClassifier, RetryAction,
};
use crate::text::{contains, contains_str, starts_with, starts_with_str, trim, trim_str};
use crate::util::{package_name, package_name_of};
use crate::suggestions::{decode_lossy, lossy_text};

verus! {

broadcast use vstd::string::group_string_axioms;

// ---------------------------------------------------------------------
// The parties' vocabulary
// ---------------------------------------------------------------------

/// A request to run `nix SUBCOMMAND ARGS…` with automatic retries.
pub struct RetryRequest {
    pub subcommand: String,
    pub args: Vec<String>,
    pub cfg: CommandConfig,
    /// Whether the command runs attached to the terminal.
    pub interactive: bool,
    /// Whether to ask before retrying with `--impure`.
    pub ask: bool,
}

/// A run of `nix SUBCOMMAND ARGS…` with automatic retries under the
/// settings `cfg`: the request that [`retry_step`] carries out, step by
/// step, from [`RetryState::Start`].
pub fn handle_nix_with_retry(subcommand: &str, args: &[String], interactive: bool, cfg: &CommandConfig, ask: bool) -> (r: RetryRequest)
    ensures
        r.subcommand@ == subcommand@,
        views(r.args@) == views(args@),
        r.interactive == interactive,
        r.cfg@ == cfg@,
        r.ask == ask,
{
    RetryRequest {
        subcommand: subcommand.to_string(),
        args: crate::nix_command::clone_strings(args),
        cfg: cfg.duplicate(),
        interactive,
        ask,
    }
}

/// What a captured run of the command reported, as read by a hash
/// extractor and an error classifier.
pub struct CapturedRun {
    pub success: bool,
    /// The exit code; `None` when a signal ended the process.
    pub code: Option<i32>,
    /// The error output, as the process wrote it.
    pub output: Vec<u8>,
    /// The error output, decoded lossily.
    pub stderr: String,
    /// The hash the build actually produced, if the output names one.
    pub new_hash: Option<String>,
    /// The hash the source specified, if the output names one.
    pub old_hash: Option<String>,
    /// Whether the classifier calls for another attempt.
    pub should_retry: bool,
}

pub struct CapturedRunView {
    pub success: bool,
    pub code: Option<i32>,
    pub output: Seq<u8>,
    pub stderr: Seq<char>,
    pub new_hash: Option<Seq<char>>,
    pub old_hash: Option<Seq<char>>,
    pub should_retry: bool,
}

impl View for CapturedRun {
    type V = CapturedRunView;

    open spec fn view(&self) -> CapturedRunView {
        CapturedRunView {
            success: self.success,
            code: self.code,
            output: self.output@,
            stderr: self.stderr@,
            new_hash: opt_view(self.new_hash),
            old_hash: opt_view(self.old_hash),
            should_retry: self.should_retry,
        }
    }
}

impl CapturedRun {
    /// The facts about a captured run as [`RegexHashExtractor`] and
    /// [`DefaultNixErrorClassifier`] read them from its raw error output.
    pub fn read(success: bool, code: Option<i32>, output: Vec<u8>) -> (r: Self)
        ensures
            r@ == (CapturedRunView {
                success,
                code,
                output: output@,
                stderr: lossy_text(output@),
                new_hash: new_hash_of(lossy_text(output@)),
                old_hash: old_hash_of(lossy_text(output@)),
                should_retry: should_retry_for(lossy_text(output@)),
            }),
    {
        let stderr = decode_lossy(output.as_slice());
        let extractor = RegexHashExtractor;
        let new_hash = extractor.extract_hash(stderr.as_str());
        let old_hash = extractor.extract_old_hash(stderr.as_str());
        let should_retry = DefaultNixErrorClassifier.should_retry(stderr.as_str());
        CapturedRun { success, code, output, stderr, new_hash, old_hash, should_retry }
    }

    /// The facts about a captured run as `extractor` and `classifier` read
    /// them from its raw error output; what they read is theirs to say.
    pub fn read_with<E: HashExtractor, C: NixErrorClassifier>(
        success: bool,
        code: Option<i32>,
        output: Vec<u8>,
        extractor: &E,
        classifier: &C,
    ) -> (r: Self)
        ensures
            r.success == success,
            r.code == code,
            r.output@ == output@,
            r.stderr@ == lossy_text(output@),
    {
        let stderr = decode_lossy(output.as_slice());
        let new_hash = extractor.extract_hash(stderr.as_str());
        let old_hash = extractor.extract_old_hash(stderr.as_str());
        let should_retry = classifier.should_retry(stderr.as_str());
        CapturedRun { success, code, output, stderr, new_hash, old_hash, should_retry }
    }
}

/// What happened to the last step, reported back by the driver.
pub enum RetryEvent {
    /// Nothing has happened yet.
    Start,
    /// `nix eval --json …meta` exited with failure.
    MetaFailed { stderr: String },
    /// `nix eval --json …meta` could not be run.
    MetaUnavailable { message: String },
    /// `nix eval --json …meta` printed this document.
    MetaParsed { meta: Json },
    /// `nix eval --json …meta` printed something that is not JSON.
    MetaUnparsable { message: String },
    /// The plain evaluation finished.
    Evaluated { success: bool, stderr: String },
    /// A streamed or attached run finished.
    Exited { code: Option<i32> },
    /// The captured run finished.
    Captured { run: CapturedRun },
    /// A command could not be run.
    CommandFailed { error: crate::nix_command::Error },
    /// The user answered a question.
    Answered { yes: bool },
    /// No terminal is attached to ask on.
    NoTerminal,
    /// Asking failed.
    PromptFailed { message: String },
    /// The hashes were fixed; whether any file changed.
    HashesFixed { changed: bool },
    /// Fixing the hashes failed.
    HashFixFailed { error: EhError },
    /// The failure was shown to the user.
    FailureShown,
    /// Showing the failure failed.
    ShowFailed { message: String },
}

/// What the driver is asked to do next.
pub enum RetryStep {
    /// Run the command with its output captured.
    Capture { command: NixCommand },
    /// Run the command with its output streamed (or attached when it is
    /// interactive).
    Run { command: NixCommand },
    /// Ask whether to retry the package with `--impure`.
    ConfirmImpure { package: String, reason: String },
    /// Ask whether to fix the hash in the local `.nix` files.
    ConfirmHashFix { package: String },
    /// Fix the hash in the local `.nix` files.
    FixHashes { old_hash: Option<String>, new_hash: String },
    /// Write the captured error output, as the process wrote it, and the
    /// suggestions it holds.
    ShowFailure { stderr: Vec<u8> },
    /// Stop with this result.
    Finish { result: Result<i32, EhError> },
}

/// Where a retrying run stands.
pub enum RetryState {
    Start,
    AwaitMeta { eval_arg: String },
    AwaitEval { eval_arg: String },
    AwaitImpureConfirm { env_var: String, reason: String },
    AwaitInteractive,
    AwaitCapture,
    AwaitHashConfirm { run: CapturedRun },
    AwaitHashFix { run: CapturedRun },
    AwaitFinal,
    AwaitShown { code: Option<i32> },
    Done,
}

/// A message for the user's log.
pub enum Notice {
    /// Debug: `checking COMMAND`.
    Checking { command: String },
    /// Debug: `entering COMMAND`.
    Entering { command: String },
    /// Debug: `running COMMAND`.
    Running { command: String },
    /// Warning: the package's flags could not be checked.
    FlagCheckFailed { eval_arg: String, detail: String },
    /// Warning: the package's metadata could not be read.
    MetadataUnparsable { eval_arg: String, detail: String },
    /// Warning: the package needs `ENV_VAR=1`, which is being set.
    RetryingImpure { package: String, reason: String, env_var: String },
    /// Information: no hash fix without a terminal.
    SkippingHashFix { package: String },
    /// Warning: the user declined the hash fix.
    HashFixCancelled { package: String },
    /// Information: hashes were corrected, rebuilding.
    HashCorrected { package: String },
}

pub enum NoticeView {
    Checking(Seq<char>),
    Entering(Seq<char>),
    Running(Seq<char>),
    FlagCheckFailed(Seq<char>, Seq<char>),
    MetadataUnparsable(Seq<char>, Seq<char>),
    RetryingImpure(Seq<char>, Seq<char>, Seq<char>),
    SkippingHashFix(Seq<char>),
    HashFixCancelled(Seq<char>),
    HashCorrected(Seq<char>),
}

impl View for Notice {
    type V = NoticeView;

    open spec fn view(&self) -> NoticeView {
        match self {
            Notice::Checking { command } => NoticeView::Checking(command@),
            Notice::Entering { command } => NoticeView::Entering(command@),
            Notice::Running { command } => NoticeView::Running(command@),
            Notice::FlagCheckFailed { eval_arg, detail } => NoticeView::FlagCheckFailed(
                eval_arg@,
                detail@,
            ),
            Notice::MetadataUnparsable { eval_arg, detail } => NoticeView::MetadataUnparsable(
                eval_arg@,
                detail@,
            ),
            Notice::RetryingImpure { package, reason, env_var } => NoticeView::RetryingImpure(
                package@,
                reason@,
                env_var@,
            ),
            Notice::SkippingHashFix { package } => NoticeView::SkippingHashFix(package@),
            Notice::HashFixCancelled { package } => NoticeView::HashFixCancelled(package@),
            Notice::HashCorrected { package } => NoticeView::HashCorrected(package@),
        }
    }
}

pub open spec fn notice_views(ns: Seq<Notice>) -> Seq<NoticeView> {
    ns.map_values(|n: Notice| n@)
}

// ---------------------------------------------------------------------
// The expected outcomes
// ---------------------------------------------------------------------

/// The result a finished run is to have.
pub enum ResultSpec {
    Code(i32),
    InvalidEvalInput,
    CommandError(crate::nix_command::Error),
    PreEvalFailed(Seq<char>, Seq<char>),
    ImpureRequired(Seq<char>, Seq<char>),
    ProcessExit(i32),
    Io(Seq<char>),
    HashExtractionFailed(Seq<char>),
    NixCommandFailed(Seq<char>),
    Passed(EhError),
}

pub open spec fn result_meets(r: Result<i32, EhError>, s: ResultSpec) -> bool {
    match s {
        ResultSpec::Code(c) => r == Ok::<i32, EhError>(c),
        ResultSpec::InvalidEvalInput => r == Err::<i32, EhError>(EhError::InvalidEvalInput),
        ResultSpec::CommandError(e) => r == Err::<i32, EhError>(EhError::NixCommand(e)),
        ResultSpec::PreEvalFailed(x, y) => r matches Err(EhError::PreEvalFailed {
            expression,
            stderr,
        }) && expression@ == x && stderr@ == y,
        ResultSpec::ImpureRequired(c, why) => r matches Err(EhError::ImpureRequired {
            command,
            reason,
        }) && command@ == c && reason@ == why,
        ResultSpec::ProcessExit(c) => r == Err::<i32, EhError>(EhError::ProcessExit { code: c }),
        ResultSpec::Io(m) => r matches Err(EhError::Io(msg)) && msg@ == m,
        ResultSpec::HashExtractionFailed(s) => r matches Err(EhError::HashExtractionFailed {
            stderr,
        }) && stderr@ == s,
        ResultSpec::NixCommandFailed(c) => r matches Err(EhError::NixCommandFailed { command })
            && command@ == c,
        ResultSpec::Passed(e) => r == Err::<i32, EhError>(e),
    }
}

/// The step the driver is to be given.
pub enum StepSpec {
    Capture(NixCommandView),
    Run(NixCommandView),
    ConfirmImpure(Seq<char>, Seq<char>),
    ConfirmHashFix(Seq<char>),
    FixHashes(Option<Seq<char>>, Seq<char>),
    ShowFailure(Seq<u8>),
    Finish(ResultSpec),
}

pub open spec fn step_meets(s: RetryStep, e: StepSpec) -> bool {
    match (s, e) {
        (RetryStep::Capture { command }, StepSpec::Capture(c)) => command@ == c,
        (RetryStep::Run { command }, StepSpec::Run(c)) => command@ == c,
        (RetryStep::ConfirmImpure { package, reason }, StepSpec::ConfirmImpure(p, r)) => package@
            == p && reason@ == r,
        (RetryStep::ConfirmHashFix { package }, StepSpec::ConfirmHashFix(p)) => package@ == p,
        (RetryStep::FixHashes { old_hash, new_hash }, StepSpec::FixHashes(o, n)) => opt_view(
            old_hash,
        ) == o && new_hash@ == n,
        (RetryStep::ShowFailure { stderr }, StepSpec::ShowFailure(s)) => stderr@ == s,
        (RetryStep::Finish { result }, StepSpec::Finish(r)) => result_meets(result, r),
        _ => false,
    }
}

/// The state the run is to move to.
pub enum StateSpec {
    Start,
    AwaitMeta(Seq<char>),
    AwaitEval(Seq<char>),
    AwaitImpureConfirm(Seq<char>, Seq<char>),
    AwaitInteractive,
    AwaitCapture,
    AwaitHashConfirm(CapturedRunView),
    AwaitHashFix(CapturedRunView),
    AwaitFinal,
    AwaitShown(Option<i32>),
    Done,
}

pub open spec fn state_meets(s: RetryState, e: StateSpec) -> bool {
    match (s, e) {
        (RetryState::Start, StateSpec::Start) => true,
        (RetryState::AwaitMeta { eval_arg }, StateSpec::AwaitMeta(a)) => eval_arg@ == a,
        (RetryState::AwaitEval { eval_arg }, StateSpec::AwaitEval(a)) => eval_arg@ == a,
        (RetryState::AwaitImpureConfirm { env_var, reason }, StateSpec::AwaitImpureConfirm(v, r)) =>
            env_var@ == v && reason@ == r,
        (RetryState::AwaitInteractive, StateSpec::AwaitInteractive) => true,
        (RetryState::AwaitCapture, StateSpec::AwaitCapture) => true,
        (RetryState::AwaitHashConfirm { run }, StateSpec::AwaitHashConfirm(r)) => run@ == r,
        (RetryState::AwaitHashFix { run }, StateSpec::AwaitHashFix(r)) => run@ == r,
        (RetryState::AwaitFinal, StateSpec::AwaitFinal) => true,
        (RetryState::AwaitShown { code }, StateSpec::AwaitShown(c)) => code == c,
        (RetryState::Done, StateSpec::Done) => true,
        _ => false,
    }
}

/// A transition's outcome: the next state, the step, the log messages.
pub struct Outcome {
    pub state: StateSpec,
    pub step: StepSpec,
    pub notices: Seq<NoticeView>,
}

pub open spec fn outcome_meets(r: (RetryState, RetryStep, Vec<Notice>), o: Outcome) -> bool {
    state_meets(r.0, o.state) && step_meets(r.1, o.step) && notice_views(r.2@) == o.notices
}

pub open spec fn finish(r: ResultSpec, notices: Seq<NoticeView>) -> Outcome {
    Outcome { state: StateSpec::Done, step: StepSpec::Finish(r), notices }
}

// ---------------------------------------------------------------------
// The flow, as spec functions of the request
// ---------------------------------------------------------------------

pub open spec fn args_of(req: RetryRequest) -> Seq<Seq<char>> {
    views(req.args@)
}

/// The installable that the pre-evaluation looks at: the first non-flag
/// argument, `.` without one.
pub open spec fn eval_arg_of(args: Seq<Seq<char>>) -> Seq<char> {
    match package_arg_of(args) {
        Some(a) => a,
        None => "."@,
    }
}

/// `nix eval --json EXPR`.
pub open spec fn meta_command(expr: Seq<char>) -> NixCommandView {
    NixCommandView { args: seq!["--json"@, expr], ..fresh_command(CommandKind::Eval) }
}

/// `nix eval ARG`.
pub open spec fn eval_command(arg: Seq<char>) -> NixCommandView {
    NixCommandView { args: seq![arg], ..fresh_command(CommandKind::Eval) }
}

/// The command that runs the request, attached or not, with `ENV_VAR=1` and
/// `--impure` when retrying a refused package.
pub open spec fn run_command(req: RetryRequest, interactive: bool, env_var: Option<Seq<char>>) -> Option<NixCommandView> {
    match kind_named(req.subcommand@) {
        Some(k) => {
            let base = planned_command(k, args_of(req), req.cfg@, interactive);
            Some(
                match env_var {
                    Some(v) => NixCommandView {
                        env: base.env.push((v, "1"@)),
                        impure: true,
                        ..base
                    },
                    None => base,
                },
            )
        },
        None => None,
    }
}

/// Runs the request to completion: its exit code is the result.
pub open spec fn final_run(req: RetryRequest, env_var: Option<Seq<char>>, notices: Seq<NoticeView>) -> Outcome {
    match run_command(req, req.interactive, env_var) {
        Some(c) => Outcome {
            state: StateSpec::AwaitFinal,
            step: StepSpec::Run(c),
            notices: if req.interactive {
                notices.push(NoticeView::Entering(display_of(req.subcommand@, args_of(req))))
            } else {
                notices
            },
        },
        None => finish(ResultSpec::NixCommandFailed(req.subcommand@), notices),
    }
}

/// Retries with `ENV_VAR=1`, once the retry is confirmed.
pub open spec fn impure_run(req: RetryRequest, env_var: Seq<char>, reason: Seq<char>, notices: Seq<NoticeView>) -> Outcome {
    final_run(
        req,
        Some(env_var),
        notices.push(
            NoticeView::RetryingImpure(package_name_of(args_of(req)), reason, env_var),
        ),
    )
}

/// Handles a package that needs `--impure`: refused when the settings
/// forbid it, asked about when asking is on, retried otherwise.
pub open spec fn begin_impure(req: RetryRequest, action: RetryAction, notices: Seq<NoticeView>) -> Outcome {
    let (env_var, reason) = override_of(action)->0;
    if req.cfg@.impure == Some(false) {
        finish(ResultSpec::ImpureRequired(req.subcommand@, reason), notices)
    } else if req.ask {
        Outcome {
            state: StateSpec::AwaitImpureConfirm(env_var, reason),
            step: StepSpec::ConfirmImpure(package_name_of(args_of(req)), reason),
            notices,
        }
    } else {
        impure_run(req, env_var, reason, notices)
    }
}

/// The plain evaluation of the installable.
pub open spec fn plain_eval(eval_arg: Seq<char>, notices: Seq<NoticeView>) -> Outcome {
    Outcome {
        state: StateSpec::AwaitEval(eval_arg),
        step: StepSpec::Capture(eval_command(eval_arg)),
        notices,
    }
}

/// The captured run of the request.
pub open spec fn capture_run(req: RetryRequest, notices: Seq<NoticeView>) -> Outcome {
    let ns = notices.push(NoticeView::Running(display_of(req.subcommand@, args_of(req))));
    match run_command(req, false, None) {
        Some(c) => Outcome { state: StateSpec::AwaitCapture, step: StepSpec::Capture(c), notices: ns },
        None => finish(ResultSpec::NixCommandFailed(req.subcommand@), ns),
    }
}

/// The run after a clean pre-evaluation: attached first when interactive,
/// captured otherwise.
pub open spec fn main_run(req: RetryRequest, notices: Seq<NoticeView>) -> Outcome {
    if req.interactive {
        match run_command(req, true, None) {
            Some(c) => Outcome {
                state: StateSpec::AwaitInteractive,
                step: StepSpec::Run(c),
                notices: notices.push(NoticeView::Entering(display_of(req.subcommand@, args_of(req)))),
            },
            None => finish(ResultSpec::NixCommandFailed(req.subcommand@), notices),
        }
    } else {
        capture_run(req, notices)
    }
}

/// What follows the hash handling of a captured run: an impure retry when
/// the output calls for one, success, or the failure shown.
pub open spec fn after_hash(req: RetryRequest, run: CapturedRunView, notices: Seq<NoticeView>) -> Outcome {
    let action = retry_action_for(run.stderr);
    if run.should_retry && override_of(action) is Some {
        begin_impure(req, action, notices)
    } else if run.success {
        finish(ResultSpec::Code(0), notices)
    } else {
        Outcome {
            state: StateSpec::AwaitShown(run.code),
            step: StepSpec::ShowFailure(run.output),
            notices,
        }
    }
}

/// The message of a failed pre-evaluation: the output trimmed, without a
/// leading `error:`.
pub open spec fn pre_eval_message(stderr: Seq<char>) -> Seq<char> {
    let t = trim(stderr);
    if starts_with(t, "error:"@) {
        trim(t.subrange(6, t.len() as int))
    } else {
        trim(t)
    }
}

/// Whether the state waits for this kind of event.
pub open spec fn accepts(state: RetryState, event: RetryEvent) -> bool {
    match (state, event) {
        (RetryState::Start, RetryEvent::Start) => true,
        (RetryState::AwaitMeta { .. }, RetryEvent::MetaFailed { .. }) => true,
        (RetryState::AwaitMeta { .. }, RetryEvent::MetaUnavailable { .. }) => true,
        (RetryState::AwaitMeta { .. }, RetryEvent::MetaParsed { .. }) => true,
        (RetryState::AwaitMeta { .. }, RetryEvent::MetaUnparsable { .. }) => true,
        (RetryState::AwaitEval { .. }, RetryEvent::Evaluated { .. }) => true,
        (RetryState::AwaitEval { .. }, RetryEvent::CommandFailed { .. }) => true,
        (RetryState::AwaitImpureConfirm { .. }, RetryEvent::Answered { .. }) => true,
        (RetryState::AwaitImpureConfirm { .. }, RetryEvent::NoTerminal) => true,
        (RetryState::AwaitImpureConfirm { .. }, RetryEvent::PromptFailed { .. }) => true,
        (RetryState::AwaitInteractive, RetryEvent::Exited { .. }) => true,
        (RetryState::AwaitInteractive, RetryEvent::CommandFailed { .. }) => true,
        (RetryState::AwaitCapture, RetryEvent::Captured { .. }) => true,
        (RetryState::AwaitCapture, RetryEvent::CommandFailed { .. }) => true,
        (RetryState::AwaitHashConfirm { run }, RetryEvent::Answered { .. }) => run.new_hash is Some,
        (RetryState::AwaitHashConfirm { .. }, RetryEvent::NoTerminal) => true,
        (RetryState::AwaitHashConfirm { .. }, RetryEvent::PromptFailed { .. }) => true,
        (RetryState::AwaitHashFix { .. }, RetryEvent::HashesFixed { .. }) => true,
        (RetryState::AwaitHashFix { .. }, RetryEvent::HashFixFailed { .. }) => true,
        (RetryState::AwaitFinal, RetryEvent::Exited { .. }) => true,
        (RetryState::AwaitFinal, RetryEvent::CommandFailed { .. }) => true,
        (RetryState::AwaitShown { .. }, RetryEvent::FailureShown) => true,
        (RetryState::AwaitShown { .. }, RetryEvent::ShowFailed { .. }) => true,
        _ => false,
    }
}

/// The transition from `state` on `event`.
pub open spec fn next(req: RetryRequest, state: RetryState, event: RetryEvent) -> Outcome {
    let empty = Seq::<NoticeView>::empty();
    let pkg = package_name_of(args_of(req));
    match (state, event) {
        (RetryState::Start, RetryEvent::Start) => {
            let ns = seq![NoticeView::Checking(display_of(req.subcommand@, args_of(req)))];
            let arg = eval_arg_of(args_of(req));
            match eval_expr_of(arg) {
                Some(expr) => Outcome {
                    state: StateSpec::AwaitMeta(arg),
                    step: StepSpec::Capture(meta_command(expr)),
                    notices: ns,
                },
                None => finish(ResultSpec::InvalidEvalInput, ns),
            }
        },
        (RetryState::AwaitMeta { eval_arg }, RetryEvent::MetaFailed { stderr }) => plain_eval(
            eval_arg@,
            if contains(stderr@, "does not provide attribute"@) {
                empty
            } else {
                seq![NoticeView::FlagCheckFailed(eval_arg@, trim(stderr@))]
            },
        ),
        (RetryState::AwaitMeta { eval_arg }, RetryEvent::MetaUnavailable { message: error }) => plain_eval(
            eval_arg@,
            seq![NoticeView::FlagCheckFailed(eval_arg@, error@)],
        ),
        (RetryState::AwaitMeta { eval_arg }, RetryEvent::MetaUnparsable { message: error }) => plain_eval(
            eval_arg@,
            seq![NoticeView::MetadataUnparsable(eval_arg@, error@)],
        ),
        (RetryState::AwaitMeta { eval_arg }, RetryEvent::MetaParsed { meta }) => {
            let action = meta_action_of(meta);
            if action != RetryAction::NoRetry {
                begin_impure(req, action, empty)
            } else {
                plain_eval(eval_arg@, empty)
            }
        },
        (RetryState::AwaitEval { .. }, RetryEvent::CommandFailed { error }) => finish(
            ResultSpec::CommandError(error),
            empty,
        ),
        (RetryState::AwaitEval { eval_arg }, RetryEvent::Evaluated { success, stderr }) => {
            let action = retry_action_for(stderr@);
            if success {
                main_run(req, empty)
            } else if action != RetryAction::NoRetry {
                begin_impure(req, action, empty)
            } else {
                finish(ResultSpec::PreEvalFailed(eval_arg@, pre_eval_message(stderr@)), empty)
            }
        },
        (RetryState::AwaitImpureConfirm { env_var, reason }, RetryEvent::Answered { yes }) => if yes {
            impure_run(req, env_var@, reason@, empty)
        } else {
            finish(ResultSpec::ProcessExit(1), empty)
        },
        (RetryState::AwaitImpureConfirm { .. }, RetryEvent::NoTerminal) => finish(
            ResultSpec::Io(
                "cannot prompt for retry confirmation in non-interactive mode (no TTY)"@,
            ),
            empty,
        ),
        (RetryState::AwaitImpureConfirm { .. }, RetryEvent::PromptFailed { message: error }) => finish(
            ResultSpec::Io(error@),
            empty,
        ),
        (RetryState::AwaitInteractive, RetryEvent::Exited { code }) => if code == Some(0i32) {
            finish(ResultSpec::Code(0), empty)
        } else {
            capture_run(req, empty)
        },
        (RetryState::AwaitInteractive, RetryEvent::CommandFailed { error }) => finish(
            ResultSpec::CommandError(error),
            empty,
        ),
        (RetryState::AwaitCapture, RetryEvent::CommandFailed { error }) => finish(
            ResultSpec::CommandError(error),
            empty,
        ),
        (RetryState::AwaitCapture, RetryEvent::Captured { run }) => if run@.new_hash is Some {
            Outcome {
                state: StateSpec::AwaitHashConfirm(run@),
                step: StepSpec::ConfirmHashFix(pkg),
                notices: empty,
            }
        } else if hash_mismatch_reported(run@.stderr) {
            finish(ResultSpec::HashExtractionFailed(run@.stderr), empty)
        } else {
            after_hash(req, run@, empty)
        },
        (RetryState::AwaitHashConfirm { run }, RetryEvent::NoTerminal) => if req.ask {
            finish(
                ResultSpec::Io(
                    "cannot prompt for hash fix confirmation in non-interactive mode (no TTY)"@,
                ),
                empty,
            )
        } else {
            after_hash(req, run@, seq![NoticeView::SkippingHashFix(pkg)])
        },
        (RetryState::AwaitHashConfirm { .. }, RetryEvent::PromptFailed { message: error }) => finish(
            ResultSpec::Io(error@),
            empty,
        ),
        (RetryState::AwaitHashConfirm { run }, RetryEvent::Answered { yes }) => if yes {
            Outcome {
                state: StateSpec::AwaitHashFix(run@),
                step: StepSpec::FixHashes(run@.old_hash, run@.new_hash->0),
                notices: empty,
            }
        } else {
            finish(ResultSpec::ProcessExit(1), seq![NoticeView::HashFixCancelled(pkg)])
        },
        (RetryState::AwaitHashFix { run }, RetryEvent::HashesFixed { changed }) => if changed {
            final_run(req, None, seq![NoticeView::HashCorrected(pkg)])
        } else {
            after_hash(req, run@, empty)
        },
        (RetryState::AwaitHashFix { run }, RetryEvent::HashFixFailed { error }) => if error
            == EhError::NoNixFilesFound {
            after_hash(req, run@, empty)
        } else {
            finish(ResultSpec::Passed(error), empty)
        },
        (RetryState::AwaitFinal, RetryEvent::Exited { code }) => finish(
            ResultSpec::Code(
                match code {
                    Some(c) => c,
                    None => 1,
                },
            ),
            empty,
        ),
        (RetryState::AwaitFinal, RetryEvent::CommandFailed { error }) => finish(
            ResultSpec::CommandError(error),
            empty,
        ),
        (RetryState::AwaitShown { code }, RetryEvent::FailureShown) => finish(
            match code {
                Some(c) => ResultSpec::ProcessExit(c),
                None => ResultSpec::NixCommandFailed(req.subcommand@),
            },
            empty,
        ),
        (RetryState::AwaitShown { .. }, RetryEvent::ShowFailed { message: error }) => finish(
            ResultSpec::Io(error@),
            empty,
        ),
        _ => finish(ResultSpec::Code(0), empty),
    }
}


// ---------------------------------------------------------------------
// The flow, executed
// ---------------------------------------------------------------------

pub open spec fn opt_str(o: Option<&str>) -> Option<Seq<char>> {
    match o {
        Some(s) => Some(s@),
        None => None,
    }
}

fn push_notice(notices: &mut Vec<Notice>, n: Notice)
    ensures
        notice_views(final(notices)@) == notice_views(old(notices)@).push(n@),
{
    let ghost before = notices@;
    notices.push(n);
    assert(notice_views(notices@) =~= notice_views(before).push(n@));
}

fn done(result: Result<i32, EhError>, notices: Vec<Notice>) -> (r: (RetryState, RetryStep, Vec<Notice>))
    ensures
        r.0 is Done,
        r.1 == (RetryStep::Finish { result }),
        r.2@ == notices@,
{
    (RetryState::Done, RetryStep::Finish { result }, notices)
}

fn build_run_command(req: &RetryRequest, interactive: bool, env_var: Option<&str>) -> (r: Result<NixCommand, EhError>)
    ensures
        match r {
            Ok(c) => run_command(*req, interactive, opt_str(env_var)) == Some(c@),
            Err(e) => {
                &&& run_command(*req, interactive, opt_str(env_var)) is None
                &&& e matches EhError::NixCommandFailed { command } && command@ == req.subcommand@
            },
        },
{
    proof {
        reveal_strlit("1");
    }
    let c = nix_command(req.subcommand.as_str(), req.args.as_slice(), &req.cfg, interactive)?;
    match env_var {
        Some(v) => Ok(c.env(v, "1").impure(true)),
        None => Ok(c),
    }
}

fn exec_final_run(req: &RetryRequest, env_var: Option<&str>, notices: Vec<Notice>) -> (r: (RetryState, RetryStep, Vec<Notice>))
    ensures
        outcome_meets(r, final_run(*req, opt_str(env_var), notice_views(notices@))),
{
    let mut notices = notices;
    match build_run_command(req, req.interactive, env_var) {
        Ok(command) => {
            if req.interactive {
                let shown = command_display(req.subcommand.as_str(), req.args.as_slice());
                push_notice(&mut notices, Notice::Entering { command: shown });
            }
            (RetryState::AwaitFinal, RetryStep::Run { command }, notices)
        },
        Err(e) => done(Err(e), notices),
    }
}

fn exec_impure_run(req: &RetryRequest, env_var: &str, reason: &str, notices: Vec<Notice>) -> (r: (RetryState, RetryStep, Vec<Notice>))
    ensures
        outcome_meets(r, impure_run(*req, env_var@, reason@, notice_views(notices@))),
{
    let mut notices = notices;
    let package = package_name(req.args.as_slice()).to_string();
    push_notice(
        &mut notices,
        Notice::RetryingImpure { package, reason: reason.to_string(), env_var: env_var.to_string() },
    );
    exec_final_run(req, Some(env_var), notices)
}

fn exec_begin_impure(req: &RetryRequest, action: RetryAction, notices: Vec<Notice>) -> (r: (RetryState, RetryStep, Vec<Notice>))
    requires
        override_of(action) is Some,
    ensures
        outcome_meets(r, begin_impure(*req, action, notice_views(notices@))),
{
    let (env_var, reason) = match action.env_override() {
        Some(pair) => pair,
        None => {
            return done(Ok(0), notices);
        },
    };
    if req.cfg.impure == Some(false) {
        return done(
            Err(EhError::ImpureRequired { command: req.subcommand.clone(), reason: reason.to_string() }),
            notices,
        );
    }
    if req.ask {
        let package = package_name(req.args.as_slice()).to_string();
        return (
            RetryState::AwaitImpureConfirm { env_var: env_var.to_string(), reason: reason.to_string() },
            RetryStep::ConfirmImpure { package, reason: reason.to_string() },
            notices,
        );
    }
    exec_impure_run(req, env_var, reason, notices)
}

fn eval_command_exec(arg: &str) -> (r: NixCommand)
    ensures
        r@ == eval_command(arg@),
{
    NixCommand::new(CommandKind::Eval).arg(arg)
}

fn exec_plain_eval(eval_arg: String, notices: Vec<Notice>) -> (r: (RetryState, RetryStep, Vec<Notice>))
    ensures
        outcome_meets(r, plain_eval(eval_arg@, notice_views(notices@))),
{
    let command = eval_command_exec(eval_arg.as_str());
    (RetryState::AwaitEval { eval_arg }, RetryStep::Capture { command }, notices)
}

fn exec_capture_run(req: &RetryRequest, notices: Vec<Notice>) -> (r: (RetryState, RetryStep, Vec<Notice>))
    ensures
        outcome_meets(r, capture_run(*req, notice_views(notices@))),
{
    let mut notices = notices;
    let shown = command_display(req.subcommand.as_str(), req.args.as_slice());
    push_notice(&mut notices, Notice::Running { command: shown });
    match build_run_command(req, false, None) {
        Ok(command) => (RetryState::AwaitCapture, RetryStep::Capture { command }, notices),
        Err(e) => done(Err(e), notices),
    }
}

fn exec_main_run(req: &RetryRequest, notices: Vec<Notice>) -> (r: (RetryState, RetryStep, Vec<Notice>))
    ensures
        outcome_meets(r, main_run(*req, notice_views(notices@))),
{
    if req.interactive {
        let mut notices = notices;
        match build_run_command(req, true, None) {
            Ok(command) => {
                let shown = command_display(req.subcommand.as_str(), req.args.as_slice());
                push_notice(&mut notices, Notice::Entering { command: shown });
                (RetryState::AwaitInteractive, RetryStep::Run { command }, notices)
            },
            Err(e) => done(Err(e), notices),
        }
    } else {
        exec_capture_run(req, notices)
    }
}

fn exec_after_hash(req: &RetryRequest, run: CapturedRun, notices: Vec<Notice>) -> (r: (RetryState, RetryStep, Vec<Notice>))
    ensures
        outcome_meets(r, after_hash(*req, run@, notice_views(notices@))),
{
    let action = classify_retry_action(run.stderr.as_str());
    if run.should_retry && action.env_override().is_some() {
        return exec_begin_impure(req, action, notices);
    }
    if run.success {
        return done(Ok(0), notices);
    }
    (RetryState::AwaitShown { code: run.code }, RetryStep::ShowFailure { stderr: run.output }, notices)
}

/// The message of a failed pre-evaluation.
pub fn pre_eval_message_of(stderr: &str) -> (r: String)
    ensures
        r@ == pre_eval_message(stderr@),
{
    let t = trim_str(stderr);
    proof {
        reveal_strlit("error:");
    }
    if starts_with_str(t.as_str(), "error:") {
        let n = t.as_str().unicode_len();
        let rest = t.as_str().substring_char(6, n);
        trim_str(rest)
    } else {
        trim_str(t.as_str())
    }
}

/// The meta-evaluation's failure: a warning unless nix only says that the
/// attribute does not exist.
fn meta_failed(eval_arg: String, stderr: &str) -> (r: (RetryState, RetryStep, Vec<Notice>))
    ensures
        outcome_meets(r, plain_eval(eval_arg@, if contains(stderr@, "does not provide attribute"@) {
            Seq::<NoticeView>::empty()
        } else {
            seq![NoticeView::FlagCheckFailed(eval_arg@, trim(stderr@))]
        })),
{
    let mut notices: Vec<Notice> = Vec::new();
    assert(notice_views(notices@) =~= Seq::<NoticeView>::empty());
    if !contains_str(stderr, "does not provide attribute") {
        push_notice(&mut notices, Notice::FlagCheckFailed { eval_arg: eval_arg.clone(), detail: trim_str(stderr) });
        assert(notice_views(notices@) =~= seq![NoticeView::FlagCheckFailed(eval_arg@, trim(stderr@))]);
    }
    exec_plain_eval(eval_arg, notices)
}

impl RetryState {
    /// Whether the state waits for this kind of event.
    pub fn accepts(&self, event: &RetryEvent) -> (b: bool)
        ensures
            b == accepts(*self, *event),
    {
        match (self, event) {
            (RetryState::Start, RetryEvent::Start) => true,
            (RetryState::AwaitMeta { .. }, RetryEvent::MetaFailed { .. }) => true,
            (RetryState::AwaitMeta { .. }, RetryEvent::MetaUnavailable { .. }) => true,
            (RetryState::AwaitMeta { .. }, RetryEvent::MetaParsed { .. }) => true,
            (RetryState::AwaitMeta { .. }, RetryEvent::MetaUnparsable { .. }) => true,
            (RetryState::AwaitEval { .. }, RetryEvent::Evaluated { .. }) => true,
            (RetryState::AwaitEval { .. }, RetryEvent::CommandFailed { .. }) => true,
            (RetryState::AwaitImpureConfirm { .. }, RetryEvent::Answered { .. }) => true,
            (RetryState::AwaitImpureConfirm { .. }, RetryEvent::NoTerminal) => true,
            (RetryState::AwaitImpureConfirm { .. }, RetryEvent::PromptFailed { .. }) => true,
            (RetryState::AwaitInteractive, RetryEvent::Exited { .. }) => true,
            (RetryState::AwaitInteractive, RetryEvent::CommandFailed { .. }) => true,
            (RetryState::AwaitCapture, RetryEvent::Captured { .. }) => true,
            (RetryState::AwaitCapture, RetryEvent::CommandFailed { .. }) => true,
            (RetryState::AwaitHashConfirm { run }, RetryEvent::Answered { .. }) => run.new_hash.is_some(),
            (RetryState::AwaitHashConfirm { .. }, RetryEvent::NoTerminal) => true,
            (RetryState::AwaitHashConfirm { .. }, RetryEvent::PromptFailed { .. }) => true,
            (RetryState::AwaitHashFix { .. }, RetryEvent::HashesFixed { .. }) => true,
            (RetryState::AwaitHashFix { .. }, RetryEvent::HashFixFailed { .. }) => true,
            (RetryState::AwaitFinal, RetryEvent::Exited { .. }) => true,
            (RetryState::AwaitFinal, RetryEvent::CommandFailed { .. }) => true,
            (RetryState::AwaitShown { .. }, RetryEvent::FailureShown) => true,
            (RetryState::AwaitShown { .. }, RetryEvent::ShowFailed { .. }) => true,
            _ => false,
        }
    }
}

fn on_start(req: &RetryRequest, event: RetryEvent) -> (r: (RetryState, RetryStep, Vec<Notice>))
    requires
        accepts(RetryState::Start, event),
    ensures
        outcome_meets(r, next(*req, RetryState::Start, event)),
{
    let empty: Vec<Notice> = Vec::new();
    assert(notice_views(empty@) =~= Seq::<NoticeView>::empty());
            let mut notices: Vec<Notice> = Vec::new();
        let shown = command_display(req.subcommand.as_str(), req.args.as_slice());
        push_notice(&mut notices, Notice::Checking { command: shown });
        assert(notice_views(notices@) =~= seq![NoticeView::Checking(display_of(req.subcommand@, args_of(*req)))]);
        proof {
            reveal_strlit(".");
        }
        let arg: &str = match package_arg(req.args.as_slice()) {
            Some(a) => a,
            None => ".",
        };
        match make_eval_expr(arg) {
            Ok(expr) => {
                let command = NixCommand::new(CommandKind::Eval).arg("--json").arg(expr.as_str());
                assert(command@.args =~= seq!["--json"@, expr@]);
                (RetryState::AwaitMeta { eval_arg: arg.to_string() }, RetryStep::Capture { command }, notices)
            },
            Err(e) => done(Err(e), notices),
        }
}

fn on_meta(req: &RetryRequest, eval_arg: String, event: RetryEvent) -> (r: (RetryState, RetryStep, Vec<Notice>))
    requires
        accepts(RetryState::AwaitMeta { eval_arg }, event),
    ensures
        outcome_meets(r, next(*req, RetryState::AwaitMeta { eval_arg }, event)),
{
    let empty: Vec<Notice> = Vec::new();
    assert(notice_views(empty@) =~= Seq::<NoticeView>::empty());
    match event {
        RetryEvent::MetaFailed { stderr } => meta_failed(eval_arg, stderr.as_str()),
        RetryEvent::MetaUnavailable { message: error } => {
            let mut notices: Vec<Notice> = Vec::new();
            push_notice(&mut notices, Notice::FlagCheckFailed { eval_arg: eval_arg.clone(), detail: error });
            exec_plain_eval(eval_arg, notices)
        },
        RetryEvent::MetaUnparsable { message: error } => {
            let mut notices: Vec<Notice> = Vec::new();
            push_notice(&mut notices, Notice::MetadataUnparsable { eval_arg: eval_arg.clone(), detail: error });
            exec_plain_eval(eval_arg, notices)
        },
        RetryEvent::MetaParsed { meta } => {
            let action = meta_retry_action(&meta);
            if action != RetryAction::NoRetry {
                exec_begin_impure(req, action, empty)
            } else {
                exec_plain_eval(eval_arg, empty)
            }
        },
        _ => done(Ok(0), empty),
    }
}

fn on_eval(req: &RetryRequest, eval_arg: String, event: RetryEvent) -> (r: (RetryState, RetryStep, Vec<Notice>))
    requires
        accepts(RetryState::AwaitEval { eval_arg }, event),
    ensures
        outcome_meets(r, next(*req, RetryState::AwaitEval { eval_arg }, event)),
{
    let empty: Vec<Notice> = Vec::new();
    assert(notice_views(empty@) =~= Seq::<NoticeView>::empty());
    match event {
        RetryEvent::CommandFailed { error } => done(Err(EhError::NixCommand(error)), empty),
        RetryEvent::Evaluated { success, stderr } => {
            let action = classify_retry_action(stderr.as_str());
            if success {
                exec_main_run(req, empty)
            } else if action != RetryAction::NoRetry {
                exec_begin_impure(req, action, empty)
            } else {
                let message = pre_eval_message_of(stderr.as_str());
                done(Err(EhError::PreEvalFailed { expression: eval_arg, stderr: message }), empty)
            }
        },
        _ => done(Ok(0), empty),
    }
}

fn on_impure_confirm(req: &RetryRequest, env_var: String, reason: String, event: RetryEvent) -> (r: (RetryState, RetryStep, Vec<Notice>))
    requires
        accepts(RetryState::AwaitImpureConfirm { env_var, reason }, event),
    ensures
        outcome_meets(r, next(*req, RetryState::AwaitImpureConfirm { env_var, reason }, event)),
{
    let empty: Vec<Notice> = Vec::new();
    assert(notice_views(empty@) =~= Seq::<NoticeView>::empty());
    match event {
        RetryEvent::Answered { yes } => if yes {
            exec_impure_run(req, env_var.as_str(), reason.as_str(), empty)
        } else {
            done(Err(EhError::ProcessExit { code: 1 }), empty)
        },
        RetryEvent::NoTerminal => done(
            Err(EhError::Io("cannot prompt for retry confirmation in non-interactive mode (no TTY)".to_string())),
            empty,
        ),
        RetryEvent::PromptFailed { message: error } => done(Err(EhError::Io(error)), empty),
        _ => done(Ok(0), empty),
    }
}

fn on_interactive(req: &RetryRequest, event: RetryEvent) -> (r: (RetryState, RetryStep, Vec<Notice>))
    requires
        accepts(RetryState::AwaitInteractive, event),
    ensures
        outcome_meets(r, next(*req, RetryState::AwaitInteractive, event)),
{
    let empty: Vec<Notice> = Vec::new();
    assert(notice_views(empty@) =~= Seq::<NoticeView>::empty());
    match event {
        RetryEvent::Exited { code } => if code == Some(0i32) {
            done(Ok(0), empty)
        } else {
            exec_capture_run(req, empty)
        },
        RetryEvent::CommandFailed { error } => done(Err(EhError::NixCommand(error)), empty),
        _ => done(Ok(0), empty),
    }
}

fn on_capture(req: &RetryRequest, event: RetryEvent) -> (r: (RetryState, RetryStep, Vec<Notice>))
    requires
        accepts(RetryState::AwaitCapture, event),
    ensures
        outcome_meets(r, next(*req, RetryState::AwaitCapture, event)),
{
    let empty: Vec<Notice> = Vec::new();
    assert(notice_views(empty@) =~= Seq::<NoticeView>::empty());
    match event {
        RetryEvent::CommandFailed { error } => done(Err(EhError::NixCommand(error)), empty),
        RetryEvent::Captured { run } => {
            if run.new_hash.is_some() {
                let package = package_name(req.args.as_slice()).to_string();
                (RetryState::AwaitHashConfirm { run }, RetryStep::ConfirmHashFix { package }, empty)
            } else if is_hash_mismatch_error(run.stderr.as_str()) {
                done(Err(EhError::HashExtractionFailed { stderr: run.stderr }), empty)
            } else {
                exec_after_hash(req, run, empty)
            }
        },
        _ => done(Ok(0), empty),
    }
}

fn on_hash_confirm(req: &RetryRequest, run: CapturedRun, event: RetryEvent) -> (r: (RetryState, RetryStep, Vec<Notice>))
    requires
        accepts(RetryState::AwaitHashConfirm { run }, event),
    ensures
        outcome_meets(r, next(*req, RetryState::AwaitHashConfirm { run }, event)),
{
    let empty: Vec<Notice> = Vec::new();
    assert(notice_views(empty@) =~= Seq::<NoticeView>::empty());
    match event {
        RetryEvent::NoTerminal => if req.ask {
            done(
                Err(EhError::Io("cannot prompt for hash fix confirmation in non-interactive mode (no TTY)".to_string())),
                empty,
            )
        } else {
            let mut notices: Vec<Notice> = Vec::new();
            let package = package_name(req.args.as_slice()).to_string();
            push_notice(&mut notices, Notice::SkippingHashFix { package });
            exec_after_hash(req, run, notices)
        },
        RetryEvent::PromptFailed { message: error } => done(Err(EhError::Io(error)), empty),
        RetryEvent::Answered { yes } => if yes {
            let new_hash = match &run.new_hash {
                Some(h) => h.clone(),
                None => String::new(),
            };
            let old_hash = match &run.old_hash {
                Some(h) => Some(h.clone()),
                None => None,
            };
            (RetryState::AwaitHashFix { run }, RetryStep::FixHashes { old_hash, new_hash }, empty)
        } else {
            let mut notices: Vec<Notice> = Vec::new();
            let package = package_name(req.args.as_slice()).to_string();
            push_notice(&mut notices, Notice::HashFixCancelled { package });
            done(Err(EhError::ProcessExit { code: 1 }), notices)
        },
        _ => done(Ok(0), empty),
    }
}

fn on_hash_fix(req: &RetryRequest, run: CapturedRun, event: RetryEvent) -> (r: (RetryState, RetryStep, Vec<Notice>))
    requires
        accepts(RetryState::AwaitHashFix { run }, event),
    ensures
        outcome_meets(r, next(*req, RetryState::AwaitHashFix { run }, event)),
{
    let empty: Vec<Notice> = Vec::new();
    assert(notice_views(empty@) =~= Seq::<NoticeView>::empty());
    match event {
        RetryEvent::HashesFixed { changed } => if changed {
            let mut notices: Vec<Notice> = Vec::new();
            let package = package_name(req.args.as_slice()).to_string();
            push_notice(&mut notices, Notice::HashCorrected { package });
            exec_final_run(req, None, notices)
        } else {
            exec_after_hash(req, run, empty)
        },
        RetryEvent::HashFixFailed { error } => match error {
            EhError::NoNixFilesFound => exec_after_hash(req, run, empty),
            other => done(Err(other), empty),
        },
        _ => done(Ok(0), empty),
    }
}

fn on_final(req: &RetryRequest, event: RetryEvent) -> (r: (RetryState, RetryStep, Vec<Notice>))
    requires
        accepts(RetryState::AwaitFinal, event),
    ensures
        outcome_meets(r, next(*req, RetryState::AwaitFinal, event)),
{
    let empty: Vec<Notice> = Vec::new();
    assert(notice_views(empty@) =~= Seq::<NoticeView>::empty());
    match event {
        RetryEvent::Exited { code } => done(Ok(match code {
            Some(c) => c,
            None => 1,
        }), empty),
        RetryEvent::CommandFailed { error } => done(Err(EhError::NixCommand(error)), empty),
        _ => done(Ok(0), empty),
    }
}

fn on_shown(req: &RetryRequest, code: Option<i32>, event: RetryEvent) -> (r: (RetryState, RetryStep, Vec<Notice>))
    requires
        accepts(RetryState::AwaitShown { code }, event),
    ensures
        outcome_meets(r, next(*req, RetryState::AwaitShown { code }, event)),
{
    let empty: Vec<Notice> = Vec::new();
    assert(notice_views(empty@) =~= Seq::<NoticeView>::empty());
    match event {
        RetryEvent::FailureShown => match code {
            Some(c) => done(Err(EhError::ProcessExit { code: c }), empty),
            None => done(Err(EhError::NixCommandFailed { command: req.subcommand.clone() }), empty),
        },
        RetryEvent::ShowFailed { message: error } => done(Err(EhError::Io(error)), empty),
        _ => done(Ok(0), empty),
    }
}

/// One step of a run of `nix SUBCOMMAND ARGS…` with automatic retries: from
/// the state the run is in and what happened last, the next state, what the
/// driver is to do, and what to log first.
///
/// The run pre-evaluates the installable (its `meta`, then the installable
/// itself), retries a package that nix refuses as unfree, insecure or
/// broken with `--impure` and the matching `NIXPKGS_ALLOW_*=1` (unless the
/// settings forbid it, and after asking when asking is on), offers to fix a
/// reported hash mismatch in the local `.nix` files and rebuild, and
/// otherwise reports nix's own failure.
pub fn retry_step(req: &RetryRequest, state: RetryState, event: RetryEvent) -> (r: (RetryState, RetryStep, Vec<Notice>))
    requires
        accepts(state, event),
    ensures
        outcome_meets(r, next(*req, state, event)),
{
    match state {
        RetryState::Start => on_start(req, event),
        RetryState::AwaitMeta { eval_arg } => on_meta(req, eval_arg, event),
        RetryState::AwaitEval { eval_arg } => on_eval(req, eval_arg, event),
        RetryState::AwaitImpureConfirm { env_var, reason } => on_impure_confirm(req, env_var, reason, event),
        RetryState::AwaitInteractive => on_interactive(req, event),
        RetryState::AwaitCapture => on_capture(req, event),
        RetryState::AwaitHashConfirm { run } => on_hash_confirm(req, run, event),
        RetryState::AwaitHashFix { run } => on_hash_fix(req, run, event),
        RetryState::AwaitFinal => on_final(req, event),
        RetryState::AwaitShown { code } => on_shown(req, code, event),
        RetryState::Done => {
            let empty: Vec<Notice> = Vec::new();
            done(Ok(0), empty)
        },
    }
}

// ---------------------------------------------------------------------
// Laws
// ---------------------------------------------------------------------

/// How far a state is from the end of the run.
pub open spec fn rank(s: StateSpec) -> nat {
    match s {
        StateSpec::Start => 10,
        StateSpec::AwaitMeta(_) => 9,
        StateSpec::AwaitEval(_) => 8,
        StateSpec::AwaitInteractive => 7,
        StateSpec::AwaitCapture => 6,
        StateSpec::AwaitHashConfirm(_) => 5,
        StateSpec::AwaitHashFix(_) => 4,
        StateSpec::AwaitImpureConfirm(_, _) => 3,
        StateSpec::AwaitShown(_) => 2,
        StateSpec::AwaitFinal => 1,
        StateSpec::Done => 0,
    }
}

pub open spec fn rank_of(s: RetryState) -> nat {
    match s {
        RetryState::Start => 10,
        RetryState::AwaitMeta { .. } => 9,
        RetryState::AwaitEval { .. } => 8,
        RetryState::AwaitInteractive => 7,
        RetryState::AwaitCapture => 6,
        RetryState::AwaitHashConfirm { .. } => 5,
        RetryState::AwaitHashFix { .. } => 4,
        RetryState::AwaitImpureConfirm { .. } => 3,
        RetryState::AwaitShown { .. } => 2,
        RetryState::AwaitFinal => 1,
        RetryState::Done => 0,
    }
}

/// Every run ends: each step leads to a state nearer the end, so a run takes
/// at most ten steps.
pub proof fn law_every_run_ends(req: RetryRequest, state: RetryState, event: RetryEvent)
    requires
        accepts(state, event),
    ensures
        rank(next(req, state, event).state) < rank_of(state),
{
}

/// Whether a notice announces an impure retry.
pub open spec fn announces_impure_retry(n: NoticeView) -> bool {
    n is RetryingImpure
}

/// With asking on, an impure retry only follows a yes: no step but the
/// answer to the question announces one.
pub proof fn law_ask_gates_impure_retries(req: RetryRequest, state: RetryState, event: RetryEvent)
    requires
        accepts(state, event),
        req.ask,
        !(state is AwaitImpureConfirm && event is Answered && event->yes),
    ensures
        forall|i: int|
            0 <= i < next(req, state, event).notices.len() ==> !announces_impure_retry(
                #[trigger] next(req, state, event).notices[i],
            ),
{
}

/// With `impure = false` in the settings, the run never asks whether to
/// retry with `--impure`.
pub proof fn law_disabled_impure_never_asks(req: RetryRequest, state: RetryState, event: RetryEvent)
    requires
        accepts(state, event),
        req.cfg@.impure == Some(false),
    ensures
        !(next(req, state, event).state is AwaitImpureConfirm),
        !(next(req, state, event).step is ConfirmImpure),
{
}

/// With `impure = false` in the settings, no command the run issues carries
/// `--impure`: from every state such a run can be in (it never waits for
/// an impure retry to be confirmed, by the law above).
pub proof fn law_disabled_impure_is_never_passed(req: RetryRequest, state: RetryState, event: RetryEvent)
    requires
        accepts(state, event),
        req.cfg@.impure == Some(false),
        !(state is AwaitImpureConfirm),
    ensures
        match next(req, state, event).step {
            StepSpec::Run(c) => !c.impure,
            StepSpec::Capture(c) => !c.impure,
            _ => true,
        },
{
}

/// A package that needs `--impure` for a command whose settings forbid it
/// stops the run with `ImpureRequired`, naming the command and the reason,
/// whether the pre-evaluation found it in the package's metadata or in
/// nix's refusal.
pub proof fn law_disabled_impure_is_refused_with_reason(
    req: RetryRequest,
    state: RetryState,
    event: RetryEvent,
)
    requires
        accepts(state, event),
        req.cfg@.impure == Some(false),
    ensures
        (state is AwaitMeta && event is MetaParsed && meta_action_of(event->meta)
            != RetryAction::NoRetry) ==> next(req, state, event).step == StepSpec::Finish(
            ResultSpec::ImpureRequired(
                req.subcommand@,
                (override_of(meta_action_of(event->meta))->0).1,
            ),
        ),
        (state is AwaitEval && event is Evaluated && !event->success
            && retry_action_for(event->Evaluated_stderr@) != RetryAction::NoRetry) ==> next(req, state, event).step
            == StepSpec::Finish(
            ResultSpec::ImpureRequired(
                req.subcommand@,
                (override_of(retry_action_for(event->Evaluated_stderr@))->0).1,
            ),
        ),
{
}

/// An impure retry runs the command with `--impure` and the variable that
/// allows the package set to `1`.
pub proof fn law_impure_retry_allows_the_package(
    req: RetryRequest,
    env_var: Seq<char>,
    reason: Seq<char>,
    notices: Seq<NoticeView>,
)
    requires
        kind_named(req.subcommand@) is Some,
    ensures
        impure_run(req, env_var, reason, notices).step matches StepSpec::Run(c) && c.impure
            && c.env.last() == (env_var, "1"@),
{
}


/// With `impure = true` in the settings, every run of the requested
/// command carries `--impure`, the first one too.
pub proof fn law_enabled_impure_is_always_passed(req: RetryRequest, state: RetryState, event: RetryEvent)
    requires
        accepts(state, event),
        req.cfg@.impure == Some(true),
    ensures
        next(req, state, event).step matches StepSpec::Run(c) ==> c.impure,
        next(req, state, event).state is AwaitCapture ==> (next(req, state, event).step matches StepSpec::Capture(c)
            && c.impure),
{
}

/// The run ends with the exit code of its last nix run (the impure retry
/// or the rebuild after a hash fix), and with `1` when that run was killed
/// by a signal and has none: a failed last run is never reported as a
/// success.
pub proof fn law_final_run_reports_its_exit_code(
    req: RetryRequest,
    code: Option<i32>,
    r: (RetryState, RetryStep, Vec<Notice>),
)
    requires
        outcome_meets(r, next(req, RetryState::AwaitFinal, RetryEvent::Exited { code })),
    ensures
        code matches Some(c) ==> next(req, RetryState::AwaitFinal, RetryEvent::Exited { code }).step
            == StepSpec::Finish(ResultSpec::Code(c)),
        code is None ==> next(req, RetryState::AwaitFinal, RetryEvent::Exited { code }).step
            == StepSpec::Finish(ResultSpec::Code(1)),
        next(req, RetryState::AwaitFinal, RetryEvent::Exited { code }).state is Done,
        code matches Some(c) ==> r.1 == (RetryStep::Finish { result: Ok::<i32, EhError>(c) }),
        code is None ==> r.1 == (RetryStep::Finish { result: Ok::<i32, EhError>(1) }),
        r.0 is Done,
{
}

/// When the last nix run could not be started, the run ends with that
/// failure, never with an exit code.
pub proof fn law_final_run_failure_is_reported(
    req: RetryRequest,
    error: crate::nix_command::Error,
    r: (RetryState, RetryStep, Vec<Notice>),
)
    requires
        outcome_meets(r, next(req, RetryState::AwaitFinal, RetryEvent::CommandFailed { error })),
    ensures
        r.1 == (RetryStep::Finish { result: Err::<i32, EhError>(EhError::NixCommand(error)) }),
        r.0 is Done,
{
}

} // verus!
