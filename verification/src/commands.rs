use vstd::prelude::*;
use crate::eh_config::CommandConfig;
use crate::eh_error::EhError;
use crate::nix_command::{kind_interactive, kind_named};
use crate::order::views;
use crate::retry::command_kind;
use crate::retry_flow::{handle_nix_with_retry, RetryRequest};

verus! {

broadcast use vstd::string::group_string_axioms;

/// A run of `nix COMMAND ARGS…` with automatic retries, for a subcommand
/// that nix knows; attached to the terminal when the subcommand is.
pub fn handle_nix_command(command: &str, args: &[String], cfg: &CommandConfig, ask: bool) -> (r: Result<RetryRequest, EhError>)
    ensures
        match kind_named(command@) {
            Some(k) => r matches Ok(req) && req.subcommand@ == command@ && views(req.args@) == views(
                args@,
            ) && req.cfg@ == cfg@ && req.interactive == kind_interactive(k) && req.ask == ask,
            None => r matches Err(EhError::NixCommandFailed { command: c }) && c@ == command@,
        },
{
    let kind = command_kind(command)?;
    Ok(handle_nix_with_retry(command, args, kind.spec().interactive, cfg, ask))
}

} // verus!
