use vstd::prelude::*;
use crate::eh_config::{CommandConfig, CommandConfigView};
use crate::eh_error::EhError;
use crate::hash::{hash_mismatch_reported, is_hash_mismatch_error};
use crate::json::{json_bool, json_get, Json};
use crate::nix_command::{fresh_command, kind_named, CommandKind, NixCommand, NixCommandView};
use crate::nix_config::{with_config, ApplyCommandConfig};
use crate::order::views;
use crate::text::{contains, contains_str, join, join_strings};

verus! {

broadcast use vstd::string::group_string_axioms;

/// How a failed evaluation can be retried.
#[derive(Debug, PartialEq, Eq, Clone, Copy, Structural)]
pub enum RetryAction {
    /// The package has an unfree license: retry with `NIXPKGS_ALLOW_UNFREE=1`.
    AllowUnfree,
    /// The package is marked insecure: retry with `NIXPKGS_ALLOW_INSECURE=1`.
    AllowInsecure,
    /// The package is marked broken: retry with `NIXPKGS_ALLOW_BROKEN=1`.
    AllowBroken,
    /// No retry applies.
    NoRetry,
}

/// The retry that nix's error output calls for: nix refused the package and
/// said why.
pub open spec fn retry_action_for(stderr: Seq<char>) -> RetryAction {
    if contains(stderr, "refusing"@) && contains(stderr, "has an unfree license"@) {
        RetryAction::AllowUnfree
    } else if contains(stderr, "refusing"@) && contains(stderr, "has been marked as insecure"@) {
        RetryAction::AllowInsecure
    } else if contains(stderr, "refusing"@) && contains(stderr, "has been marked as broken"@) {
        RetryAction::AllowBroken
    } else {
        RetryAction::NoRetry
    }
}

/// The environment variable that allows the package, and the reason shown.
pub open spec fn override_of(a: RetryAction) -> Option<(Seq<char>, Seq<char>)> {
    match a {
        RetryAction::AllowUnfree => Some(("NIXPKGS_ALLOW_UNFREE"@, "has an unfree license"@)),
        RetryAction::AllowInsecure => Some(
            ("NIXPKGS_ALLOW_INSECURE"@, "has been marked as insecure"@),
        ),
        RetryAction::AllowBroken => Some(("NIXPKGS_ALLOW_BROKEN"@, "has been marked as broken"@)),
        RetryAction::NoRetry => None,
    }
}

impl RetryAction {
    /// `(env_var, reason)` for this action.
    pub fn env_override(&self) -> (r: Option<(&'static str, &'static str)>)
        ensures
            match r {
                Some((v, why)) => override_of(*self) == Some((v@, why@)),
                None => override_of(*self) is None,
            },
    {
        match self {
            RetryAction::AllowUnfree => Some(("NIXPKGS_ALLOW_UNFREE", "has an unfree license")),
            RetryAction::AllowInsecure => Some(
                ("NIXPKGS_ALLOW_INSECURE", "has been marked as insecure"),
            ),
            RetryAction::AllowBroken => Some(("NIXPKGS_ALLOW_BROKEN", "has been marked as broken")),
            RetryAction::NoRetry => None,
        }
    }
}

pub fn classify_retry_action(stderr: &str) -> (r: RetryAction)
    ensures
        r == retry_action_for(stderr@),
{
    let refusing = contains_str(stderr, "refusing");
    if refusing && contains_str(stderr, "has an unfree license") {
        RetryAction::AllowUnfree
    } else if refusing && contains_str(stderr, "has been marked as insecure") {
        RetryAction::AllowInsecure
    } else if refusing && contains_str(stderr, "has been marked as broken") {
        RetryAction::AllowBroken
    } else {
        RetryAction::NoRetry
    }
}

/// Decides whether nix's error output calls for another attempt.
pub trait NixErrorClassifier {
    fn should_retry(&self, stderr: &str) -> bool;
}

/// The output calls for another attempt: nix refused an unfree, insecure or
/// broken package, or reported a hash mismatch.
pub open spec fn should_retry_for(stderr: Seq<char>) -> bool {
    retry_action_for(stderr) != RetryAction::NoRetry || hash_mismatch_reported(stderr)
}

/// Retries refused packages and hash mismatches.
pub struct DefaultNixErrorClassifier;

impl NixErrorClassifier for DefaultNixErrorClassifier {
    fn should_retry(&self, stderr: &str) -> (b: bool)
        ensures
            b == should_retry_for(stderr@),
    {
        classify_retry_action(stderr) != RetryAction::NoRetry || is_hash_mismatch_error(stderr)
    }
}

/// The retry that a package's `meta` calls for: the first of `unfree`,
/// `insecure`, `broken` that is `true`.
pub open spec fn meta_action_of(meta: Json) -> RetryAction {
    if json_bool(json_get(meta, "unfree"@)) == Some(true) {
        RetryAction::AllowUnfree
    } else if json_bool(json_get(meta, "insecure"@)) == Some(true) {
        RetryAction::AllowInsecure
    } else if json_bool(json_get(meta, "broken"@)) == Some(true) {
        RetryAction::AllowBroken
    } else {
        RetryAction::NoRetry
    }
}

fn meta_flag(meta: &Json, key: &str) -> (b: bool)
    ensures
        b == (json_bool(json_get(*meta, key@)) == Some(true)),
{
    match meta.get(key) {
        Some(v) => v.as_bool() == Some(true),
        None => false,
    }
}

/// The retry that a package's evaluated `meta` calls for.
pub fn meta_retry_action(meta: &Json) -> (r: RetryAction)
    ensures
        r == meta_action_of(*meta),
{
    if meta_flag(meta, "unfree") {
        RetryAction::AllowUnfree
    } else if meta_flag(meta, "insecure") {
        RetryAction::AllowInsecure
    } else if meta_flag(meta, "broken") {
        RetryAction::AllowBroken
    } else {
        RetryAction::NoRetry
    }
}

/// The subcommand `subcommand`, or the failure of an unknown one.
pub fn command_kind(subcommand: &str) -> (r: Result<CommandKind, EhError>)
    ensures
        match r {
            Ok(k) => kind_named(subcommand@) == Some(k),
            Err(e) => {
                &&& kind_named(subcommand@) is None
                &&& e matches EhError::NixCommandFailed { command } && command@ == subcommand@
            },
        },
{
    match CommandKind::try_from(subcommand) {
        Ok(k) => Ok(k),
        Err(_) => Err(EhError::NixCommandFailed { command: subcommand.to_string() }),
    }
}

/// The command `nix SUBCOMMAND ARGS…` with the settings applied.
pub open spec fn planned_command(
    kind: CommandKind,
    args: Seq<Seq<char>>,
    cfg: CommandConfigView,
    interactive: bool,
) -> NixCommandView {
    let c = fresh_command(kind);
    NixCommandView {
        interactive,
        ..with_config(NixCommandView { args: c.args + args, ..c }, cfg)
    }
}

/// The command `nix SUBCOMMAND ARGS…` with the settings applied.
pub fn nix_command(subcommand: &str, args: &[String], cfg: &CommandConfig, interactive: bool) -> (r:
    Result<NixCommand, EhError>)
    ensures
        match r {
            Ok(c) => kind_named(subcommand@) matches Some(k) && c@ == planned_command(
                k,
                views(args@),
                cfg@,
                interactive,
            ),
            Err(e) => {
                &&& kind_named(subcommand@) is None
                &&& e matches EhError::NixCommandFailed { command } && command@ == subcommand@
            },
        },
{
    let kind = command_kind(subcommand)?;
    Ok(NixCommand::new(kind).args_ref(args).apply_config(cfg).interactive(interactive))
}

/// `nix SUBCOMMAND`, followed by the arguments when there are any.
pub open spec fn display_of(subcommand: Seq<char>, args: Seq<Seq<char>>) -> Seq<char> {
    if args.len() == 0 {
        "nix "@ + subcommand
    } else {
        "nix "@ + subcommand + " "@ + join(args, " "@)
    }
}

/// How the command is shown in messages.
pub fn command_display(subcommand: &str, args: &[String]) -> (r: String)
    ensures
        r@ == display_of(subcommand@, views(args@)),
{
    let mut r = "nix ".to_string();
    r.append(subcommand);
    if args.len() != 0 {
        r.append(" ");
        let joined = join_strings(args, " ");
        r.append(joined.as_str());
    }
    r
}

/// Impure retries are refused for a command whose settings set `impure`
/// to `false`.
pub fn ensure_impure_allowed(cfg: &CommandConfig, subcommand: &str, reason: &str) -> (r: Result<
    (),
    EhError,
>)
    ensures
        match r {
            Ok(()) => cfg@.impure != Some(false),
            Err(e) => {
                &&& cfg@.impure == Some(false)
                &&& e matches EhError::ImpureRequired { command, reason: why } && command@
                    == subcommand@ && why@ == reason@
            },
        },
{
    if cfg.impure == Some(false) {
        return Err(
            EhError::ImpureRequired { command: subcommand.to_string(), reason: reason.to_string() },
        );
    }
    Ok(())
}

/// `s` in upper case (ASCII letters only).
pub open spec fn ascii_upper(s: Seq<char>) -> Seq<char> {
    s.map_values(|c: char| if 'a' <= c && c <= 'z' { ((c as int) - 32) as char } else { c })
}

/// The flag of a package's `meta` named `flag` is `true`.
pub open spec fn meta_flag_set(meta: Json, flag: Seq<char>) -> bool {
    json_bool(json_get(meta, flag)) == Some(true)
}

/// A package's `meta` is retried with `NIXPKGS_ALLOW_` followed by the name
/// of its first flag among `unfree`, `insecure` and `broken` that is
/// `true`, in upper case, set to `1`, for the reason nix gives for that
/// flag; with no such flag there is no retry.
pub proof fn law_meta_retry_allows_the_first_set_flag(meta: Json)
    ensures
        meta_flag_set(meta, "unfree"@) ==> meta_action_of(meta) == RetryAction::AllowUnfree
            && override_of(meta_action_of(meta)) == Some(
            ("NIXPKGS_ALLOW_"@ + ascii_upper("unfree"@), "has an unfree license"@),
        ),
        !meta_flag_set(meta, "unfree"@) && meta_flag_set(meta, "insecure"@) ==> meta_action_of(meta)
            == RetryAction::AllowInsecure && override_of(meta_action_of(meta)) == Some(
            ("NIXPKGS_ALLOW_"@ + ascii_upper("insecure"@), "has been marked as insecure"@),
        ),
        !meta_flag_set(meta, "unfree"@) && !meta_flag_set(meta, "insecure"@) && meta_flag_set(
            meta,
            "broken"@,
        ) ==> meta_action_of(meta) == RetryAction::AllowBroken && override_of(meta_action_of(meta))
            == Some(("NIXPKGS_ALLOW_"@ + ascii_upper("broken"@), "has been marked as broken"@)),
        !meta_flag_set(meta, "unfree"@) && !meta_flag_set(meta, "insecure"@) && !meta_flag_set(
            meta,
            "broken"@,
        ) ==> meta_action_of(meta) == RetryAction::NoRetry && override_of(meta_action_of(meta))
            is None,
{
    reveal_strlit("unfree");
    reveal_strlit("insecure");
    reveal_strlit("broken");
    reveal_strlit("NIXPKGS_ALLOW_");
    reveal_strlit("NIXPKGS_ALLOW_UNFREE");
    reveal_strlit("NIXPKGS_ALLOW_INSECURE");
    reveal_strlit("NIXPKGS_ALLOW_BROKEN");
    assert("NIXPKGS_ALLOW_"@ + ascii_upper("unfree"@) =~= "NIXPKGS_ALLOW_UNFREE"@);
    assert("NIXPKGS_ALLOW_"@ + ascii_upper("insecure"@) =~= "NIXPKGS_ALLOW_INSECURE"@);
    assert("NIXPKGS_ALLOW_"@ + ascii_upper("broken"@) =~= "NIXPKGS_ALLOW_BROKEN"@);
}

/// Nix's refusal of a package is retried with the variable for the reason
/// it gives, the first of an unfree license, an insecure mark and a broken
/// mark; output without a refusal is not retried.
pub proof fn law_refusal_retry_allows_the_given_reason(stderr: Seq<char>)
    ensures
        !contains(stderr, "refusing"@) ==> retry_action_for(stderr) == RetryAction::NoRetry,
        contains(stderr, "refusing"@) && contains(stderr, "has an unfree license"@) ==> override_of(
            retry_action_for(stderr),
        ) == Some(("NIXPKGS_ALLOW_"@ + ascii_upper("unfree"@), "has an unfree license"@)),
        contains(stderr, "refusing"@) && !contains(stderr, "has an unfree license"@) && contains(
            stderr,
            "has been marked as insecure"@,
        ) ==> override_of(retry_action_for(stderr)) == Some(
            ("NIXPKGS_ALLOW_"@ + ascii_upper("insecure"@), "has been marked as insecure"@),
        ),
        contains(stderr, "refusing"@) && !contains(stderr, "has an unfree license"@) && !contains(
            stderr,
            "has been marked as insecure"@,
        ) && contains(stderr, "has been marked as broken"@) ==> override_of(retry_action_for(stderr))
            == Some(("NIXPKGS_ALLOW_"@ + ascii_upper("broken"@), "has been marked as broken"@)),
        !contains(stderr, "has an unfree license"@) && !contains(stderr, "has been marked as insecure"@)
            && !contains(stderr, "has been marked as broken"@) ==> retry_action_for(stderr)
            == RetryAction::NoRetry,
{
    reveal_strlit("unfree");
    reveal_strlit("insecure");
    reveal_strlit("broken");
    reveal_strlit("NIXPKGS_ALLOW_");
    reveal_strlit("NIXPKGS_ALLOW_UNFREE");
    reveal_strlit("NIXPKGS_ALLOW_INSECURE");
    reveal_strlit("NIXPKGS_ALLOW_BROKEN");
    assert("NIXPKGS_ALLOW_"@ + ascii_upper("unfree"@) =~= "NIXPKGS_ALLOW_UNFREE"@);
    assert("NIXPKGS_ALLOW_"@ + ascii_upper("insecure"@) =~= "NIXPKGS_ALLOW_INSECURE"@);
    assert("NIXPKGS_ALLOW_"@ + ascii_upper("broken"@) =~= "NIXPKGS_ALLOW_BROKEN"@);
}

} // verus!
