use vstd::prelude::*;
use crate::guarded_run::GuardedRequest;
use crate::order::views;

verus! {

/// A checked, captured `nix run` of `args`, with automatic retries: the
/// request that [`crate::guarded_run::guarded_step`] carries out.
pub fn handle_nix_run(args: &[String]) -> (r: GuardedRequest)
    ensures
        r.subcommand@ == "run"@,
        views(r.args@) == views(args@),
        !r.interactive,
{
    crate::util::handle_nix_with_retry("run", args, false)
}

} // verus!
