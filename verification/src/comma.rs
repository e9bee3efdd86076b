use vstd::prelude::*;
use crate::eh_config::CommandConfig;
use crate::eh_error::EhError;
use crate::order::views;
use crate::retry_flow::{handle_nix_with_retry, RetryRequest};

verus! {

broadcast use vstd::string::group_string_axioms;

/// The binary to run: the first argument.
pub fn comma_binary(args: &[String]) -> (r: Result<String, EhError>)
    ensures
        args.len() == 0 ==> r == Err::<String, EhError>(EhError::MissingBinary),
        args.len() > 0 ==> (r matches Ok(b) && b@ == args@[0]@),
{
    if args.len() == 0 {
        Err(EhError::MissingBinary)
    } else {
        Ok(args[0].clone())
    }
}

/// `nix shell` arguments that run the binary from `installable`:
/// `nixpkgs#INSTALLABLE -c BINARY REST…`.
pub open spec fn comma_args(args: Seq<Seq<char>>, installable: Seq<char>) -> Seq<Seq<char>> {
    seq!["nixpkgs#"@ + installable, "-c"@, args[0]] + args.skip(1)
}

/// The `comma` subcommand: runs `args[0]` with the rest of `args` in a
/// shell of `nixpkgs#INSTALLABLE`, the package that the index found for it.
pub fn handle_comma(args: &[String], installable: &str, cfg: &CommandConfig, ask: bool) -> (r: Result<RetryRequest, EhError>)
    ensures
        args.len() == 0 ==> r == Err::<RetryRequest, EhError>(EhError::MissingBinary),
        args.len() > 0 ==> (r matches Ok(req) && req.subcommand@ == "shell"@ && views(req.args@)
            == comma_args(views(args@), installable@) && req.cfg@ == cfg@ && req.interactive
            && req.ask == ask),
{
    let binary = comma_binary(args)?;
    let mut shell_args: Vec<String> = Vec::new();
    let mut target = "nixpkgs#".to_string();
    target.append(installable);
    shell_args.push(target);
    shell_args.push("-c".to_string());
    shell_args.push(binary);
    let ghost head = shell_args@;
    for i in 1..args.len()
        invariant
            1 <= args.len(),
            shell_args@ == head + args@.subrange(1, i as int),
    {
        shell_args.push(args[i].clone());
        assert(shell_args@ =~= head + args@.subrange(1, i + 1));
    }
    proof {
        assert(args@.subrange(1, args@.len() as int) =~= args@.skip(1));
        assert(views(shell_args@) =~= comma_args(views(args@), installable@));
    }
    Ok(handle_nix_with_retry("shell", shell_args.as_slice(), true, cfg, ask))
}

} // verus!
