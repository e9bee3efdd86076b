use vstd::prelude::*;
use crate::eh_config::{CommandConfig, CommandConfigView};
use crate::nix_command::{NixCommand, NixCommandView};
use crate::command::CommandView;

verus! {

/// Applies a command's settings to a command under construction.
pub trait ApplyCommandConfig: Sized {
    fn apply_config(self, cfg: &CommandConfig) -> Self;
}

/// `c` with `cfg` applied: `--impure` when the settings ask for it, and the
/// settings' environment after the command's own.
pub open spec fn with_config(c: NixCommandView, cfg: CommandConfigView) -> NixCommandView {
    NixCommandView {
        impure: if cfg.impure == Some(true) {
            true
        } else {
            c.impure
        },
        env: c.env + cfg.env,
        ..c
    }
}

impl ApplyCommandConfig for NixCommand {
    fn apply_config(self, cfg: &CommandConfig) -> (r: Self)
        ensures
            r@ == with_config(self@, cfg@),
    {
        let mut this = self;
        if cfg.impure == Some(true) {
            this = this.impure(true);
        }
        let entries = cfg.env.entries();
        let r = this.envs(entries.as_slice());
        assert(crate::nix_command::pair_views(entries@) =~= cfg@.env);
        r
    }
}


/// `c` with `cfg` applied, for a command named by its text.
pub open spec fn with_settings(c: CommandView, cfg: CommandConfigView) -> CommandView {
    CommandView {
        impure: if cfg.impure == Some(true) {
            true
        } else {
            c.impure
        },
        env: c.env + cfg.env,
        ..c
    }
}

impl ApplyCommandConfig for crate::command::NixCommand {
    fn apply_config(self, cfg: &CommandConfig) -> (r: Self)
        ensures
            r@ == with_settings(self@, cfg@),
    {
        let mut this = self;
        if cfg.impure == Some(true) {
            this = this.impure(true);
        }
        let entries = cfg.env.entries();
        let ghost start = this@;
        for i in 0..entries.len()
            invariant
                this@ == (CommandView { env: start.env + crate::nix_command::pair_views(entries@.take(i as int)), ..start }),
        {
            let (k, v) = &entries[i];
            this = this.env(k.as_str(), v.as_str());
            assert(crate::nix_command::pair_views(entries@.take(i + 1)) =~= crate::nix_command::pair_views(
                entries@.take(i as int),
            ).push((k@, v@)));
        }
        assert(entries@.take(entries@.len() as int) =~= entries@);
        assert(crate::nix_command::pair_views(entries@) =~= cfg@.env);
        this
    }
}


/// With no configuration file, applying a command's settings changes
/// nothing: no extra flag and no extra variable reaches nix.
pub proof fn law_default_settings_change_nothing(c: NixCommandView, command: Seq<char>)
    ensures
        with_config(c, crate::eh_config::resolve(crate::eh_config::empty_config(), command)) == c,
{
    assert(c.env + Seq::<(Seq<char>, Seq<char>)>::empty() =~= c.env);
}

/// Applying a command's settings appends the settings' environment, in its
/// order, after the command's own variables, which stay as they were: every
/// configured variable reaches nix with its value. `--impure` is passed
/// when the settings ask for it or the command already had it; nothing
/// else changes.
pub proof fn law_settings_environment_reaches_nix(c: NixCommandView, cfg: CommandConfigView)
    ensures
        with_config(c, cfg).env.len() == c.env.len() + cfg.env.len(),
        forall|i: int| 0 <= i < c.env.len() ==> #[trigger] with_config(c, cfg).env[i] == c.env[i],
        forall|k: int|
            0 <= k < cfg.env.len() ==> with_config(c, cfg).env[c.env.len() + k] == #[trigger] cfg.env[k],
        forall|p: (Seq<char>, Seq<char>)| #[trigger] cfg.env.contains(p) ==> with_config(c, cfg).env.contains(p),
        with_config(c, cfg).impure == (cfg.impure == Some(true) || c.impure),
        with_config(c, cfg).args == c.args,
        with_config(c, cfg).kind == c.kind,
{
    assert forall|p: (Seq<char>, Seq<char>)| #[trigger] cfg.env.contains(p) implies with_config(c, cfg).env.contains(p) by {
        let k = choose|k: int| 0 <= k < cfg.env.len() && cfg.env[k] == p;
        assert(with_config(c, cfg).env[c.env.len() + k] == p);
    }
}

/// The same for a command named by its text: the settings' environment
/// comes after the command's own, every configured variable with its value.
pub proof fn law_settings_environment_reaches_the_command(c: CommandView, cfg: CommandConfigView)
    ensures
        with_settings(c, cfg).env.len() == c.env.len() + cfg.env.len(),
        forall|i: int| 0 <= i < c.env.len() ==> #[trigger] with_settings(c, cfg).env[i] == c.env[i],
        forall|k: int|
            0 <= k < cfg.env.len() ==> with_settings(c, cfg).env[c.env.len() + k] == #[trigger] cfg.env[k],
        forall|p: (Seq<char>, Seq<char>)| #[trigger] cfg.env.contains(p) ==> with_settings(c, cfg).env.contains(p),
        with_settings(c, cfg).impure == (cfg.impure == Some(true) || c.impure),
        with_settings(c, cfg).args == c.args,
{
    assert forall|p: (Seq<char>, Seq<char>)| #[trigger] cfg.env.contains(p) implies with_settings(c, cfg).env.contains(p) by {
        let k = choose|k: int| 0 <= k < cfg.env.len() && cfg.env[k] == p;
        assert(with_settings(c, cfg).env[c.env.len() + k] == p);
    }
}

} // verus!
