use vstd::prelude::*;
use crate::strmap::{lookup, StrMap};

verus! {

/// Settings for one command.
#[derive(Clone, Debug)]
pub struct CommandConfig {
    /// `Some(true)` passes `--impure` to the command; `Some(false)` blocks
    /// automatic impure retries; `None` leaves retries automatic.
    pub impure: Option<bool>,
    /// Extra environment variables for the command.
    pub env: StrMap<String>,
}

/// What a [`CommandConfig`] holds.
pub struct CommandConfigView {
    pub impure: Option<bool>,
    pub env: Seq<(Seq<char>, Seq<char>)>,
}

impl View for CommandConfig {
    type V = CommandConfigView;

    open spec fn view(&self) -> CommandConfigView {
        CommandConfigView { impure: self.impure, env: self.env@ }
    }
}

/// The settings of a command that has no entry of its own.
pub open spec fn empty_command_config() -> CommandConfigView {
    CommandConfigView { impure: None, env: seq![] }
}

impl Default for CommandConfig {
    fn default() -> (r: Self)
        ensures
            r@ == empty_command_config(),
    {
        CommandConfig { impure: None, env: StrMap::new() }
    }
}

impl CommandConfig {
    /// A copy of these settings.
    pub fn duplicate(&self) -> (r: Self)
        ensures
            r@ == self@,
    {
        CommandConfig { impure: self.impure, env: self.env.duplicate() }
    }
}

/// The whole configuration: global settings and per-command ones.
#[derive(Debug)]
pub struct Config {
    /// `Some(true)` passes `--impure` to every command; `Some(false)` blocks
    /// impure retries for every command; `None` leaves them automatic.
    pub impure: Option<bool>,
    pub commands: StrMap<CommandConfig>,
}

/// What a [`Config`] holds.
pub struct ConfigView {
    pub impure: Option<bool>,
    pub commands: Seq<(Seq<char>, CommandConfigView)>,
}

impl View for Config {
    type V = ConfigView;

    open spec fn view(&self) -> ConfigView {
        ConfigView { impure: self.impure, commands: self.commands@ }
    }
}

/// The configuration that applies when no file is found.
pub open spec fn empty_config() -> ConfigView {
    ConfigView { impure: None, commands: seq![] }
}

impl Default for Config {
    fn default() -> (r: Self)
        ensures
            r@ == empty_config(),
    {
        Config { impure: None, commands: StrMap::new() }
    }
}

/// The settings that apply to `command`: its own entry (or empty settings),
/// with the global `impure` filled in where the entry sets none.
pub open spec fn resolve(c: ConfigView, command: Seq<char>) -> CommandConfigView {
    let own = match lookup(c.commands, command) {
        Some(cc) => cc,
        None => empty_command_config(),
    };
    CommandConfigView {
        impure: match own.impure {
            Some(b) => Some(b),
            None => c.impure,
        },
        env: own.env,
    }
}

impl Config {
    /// The settings that apply to `command`.
    pub fn for_command(&self, command: &str) -> (r: CommandConfig)
        ensures
            r@ == resolve(self@, command@),
    {
        let mut cmd = match self.commands.get(command) {
            Some(cc) => cc.duplicate(),
            None => CommandConfig::default(),
        };
        if cmd.impure.is_none() {
            cmd.impure = self.impure;
        }
        cmd
    }
}

/// The configuration in effect: the project file's if it was read, else
/// the global file's, else the defaults.
pub fn load(project: Option<Config>, global: Option<Config>) -> (r: Config)
    ensures
        r@ == match (project, global) {
            (Some(p), _) => p@,
            (None, Some(g)) => g@,
            (None, None) => empty_config(),
        },
{
    match project {
        Some(p) => p,
        None => match global {
            Some(g) => g,
            None => Config::default(),
        },
    }
}

/// A command's own `impure` setting takes precedence over the global one.
pub proof fn law_command_impure_overrides_global(c: ConfigView, command: Seq<char>)
    requires
        lookup(c.commands, command) matches Some(cc) && cc.impure is Some,
    ensures
        resolve(c, command).impure == lookup(c.commands, command)->0.impure,
{
}

/// A command without an `impure` setting of its own takes the global one.
pub proof fn law_global_impure_fills_in(c: ConfigView, command: Seq<char>)
    requires
        match lookup(c.commands, command) {
            Some(cc) => cc.impure is None,
            None => true,
        },
    ensures
        resolve(c, command).impure == c.impure,
{
}

/// A command without an entry gets no extra environment.
pub proof fn law_unconfigured_command_has_no_env(c: ConfigView, command: Seq<char>)
    requires
        lookup(c.commands, command) is None,
    ensures
        resolve(c, command).env == Seq::<(Seq<char>, Seq<char>)>::empty(),
{
}

} // verus!
