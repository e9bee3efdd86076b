use vstd::prelude::*;
use crate::guarded_run::GuardedRequest;
use crate::order::views;

verus! {

/// A checked `nix shell` of `args`, attached to the terminal, with
/// automatic retries: the request that
/// [`crate::guarded_run::guarded_step`] carries out.
pub fn handle_nix_shell(args: &[String]) -> (r: GuardedRequest)
    ensures
        r.subcommand@ == "shell"@,
        views(r.args@) == views(args@),
        r.interactive,
{
    crate::util::handle_nix_with_retry("shell", args, true)
}

} // verus!
