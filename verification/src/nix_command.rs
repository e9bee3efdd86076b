use vstd::prelude::*;
use crate::order::views;
use crate::text::{decimal, decimal_string, str_eq};

verus! {

broadcast use vstd::string::group_string_axioms;

/// What can go wrong when a Nix command is run.
#[derive(Debug, PartialEq, Eq)]
pub enum Error {
    /// An I/O failure, with the text of the underlying error.
    Io(String),
    CommandFailed { command: String },
    Timeout { command: String, seconds: u64 },
}

/// The text an [`Error`] is shown with.
pub open spec fn error_message_of(e: Error) -> Seq<char> {
    match e {
        Error::Io(m) => "io: "@ + m@,
        Error::CommandFailed { command } => "command '"@ + command@ + "' failed"@,
        Error::Timeout { command, seconds } => "nix "@ + command@ + " timed out after "@ + decimal(
            seconds as nat,
        ) + " seconds"@,
    }
}

impl Error {
    /// The text the error is shown with.
    pub fn message(&self) -> (r: String)
        ensures
            r@ == error_message_of(*self),
    {
        match self {
            Error::Io(m) => {
                let mut s = "io: ".to_string();
                s.append(m.as_str());
                s
            },
            Error::CommandFailed { command } => {
                let mut s = "command '".to_string();
                s.append(command.as_str());
                s.append("' failed");
                s
            },
            Error::Timeout { command, seconds } => {
                let mut s = "nix ".to_string();
                s.append(command.as_str());
                s.append(" timed out after ");
                s.append(decimal_string(*seconds).as_str());
                s.append(" seconds");
                s
            },
        }
    }
}

/// How long a command may run before it is stopped, in seconds.
pub const DEFAULT_TIMEOUT_SECS: u64 = 300;

/// The Nix subcommands that the tool drives.
#[derive(Clone, Copy, Debug, PartialEq, Eq, Structural)]
pub enum CommandKind {
    Build,
    Develop,
    Eval,
    Flake,
    Run,
    Shell,
}

/// The fixed facts about one subcommand.
#[derive(Clone, Copy, Debug)]
pub struct CommandSpec {
    pub name: &'static str,
    pub print_build_logs: bool,
    pub interactive: bool,
}

/// The subcommand's name on the `nix` command line.
pub open spec fn kind_name(k: CommandKind) -> Seq<char> {
    match k {
        CommandKind::Build => "build"@,
        CommandKind::Develop => "develop"@,
        CommandKind::Eval => "eval"@,
        CommandKind::Flake => "flake"@,
        CommandKind::Run => "run"@,
        CommandKind::Shell => "shell"@,
    }
}

/// Whether build logs are printed by default.
pub open spec fn kind_prints_build_logs(k: CommandKind) -> bool {
    match k {
        CommandKind::Eval | CommandKind::Flake => false,
        _ => true,
    }
}

/// Whether the subcommand runs attached to the terminal by default.
pub open spec fn kind_interactive(k: CommandKind) -> bool {
    match k {
        CommandKind::Develop | CommandKind::Run | CommandKind::Shell => true,
        _ => false,
    }
}

/// The kind whose name is `s`, if any.
pub open spec fn kind_named(s: Seq<char>) -> Option<CommandKind> {
    if s == "build"@ {
        Some(CommandKind::Build)
    } else if s == "develop"@ {
        Some(CommandKind::Develop)
    } else if s == "eval"@ {
        Some(CommandKind::Eval)
    } else if s == "flake"@ {
        Some(CommandKind::Flake)
    } else if s == "run"@ {
        Some(CommandKind::Run)
    } else if s == "shell"@ {
        Some(CommandKind::Shell)
    } else {
        None
    }
}

/// The name that is not a known subcommand.
#[derive(Debug, PartialEq, Eq)]
pub struct UnknownCommand {
    pub command: String,
}

impl CommandKind {
    pub fn as_str(self) -> (r: &'static str)
        ensures
            r@ == kind_name(self),
    {
        self.spec().name
    }

    pub fn spec(self) -> (r: CommandSpec)
        ensures
            r.name@ == kind_name(self),
            r.print_build_logs == kind_prints_build_logs(self),
            r.interactive == kind_interactive(self),
    {
        match self {
            CommandKind::Build => CommandSpec { name: "build", print_build_logs: true, interactive: false },
            CommandKind::Develop => CommandSpec { name: "develop", print_build_logs: true, interactive: true },
            CommandKind::Eval => CommandSpec { name: "eval", print_build_logs: false, interactive: false },
            CommandKind::Flake => CommandSpec { name: "flake", print_build_logs: false, interactive: false },
            CommandKind::Run => CommandSpec { name: "run", print_build_logs: true, interactive: true },
            CommandKind::Shell => CommandSpec { name: "shell", print_build_logs: true, interactive: true },
        }
    }

    /// The kind named `value`, or the name back as an error.
    pub fn try_from(value: &str) -> (r: Result<CommandKind, UnknownCommand>)
        ensures
            r matches Ok(k) ==> kind_named(value@) == Some(k),
            r matches Err(e) ==> kind_named(value@) is None && e.command@ == value@,
    {
        if str_eq(value, "build") {
            Ok(CommandKind::Build)
        } else if str_eq(value, "develop") {
            Ok(CommandKind::Develop)
        } else if str_eq(value, "eval") {
            Ok(CommandKind::Eval)
        } else if str_eq(value, "flake") {
            Ok(CommandKind::Flake)
        } else if str_eq(value, "run") {
            Ok(CommandKind::Run)
        } else if str_eq(value, "shell") {
            Ok(CommandKind::Shell)
        } else {
            Err(UnknownCommand { command: value.to_string() })
        }
    }
}

/// The specs of all subcommands, in declaration order.
pub fn command_specs() -> (r: Vec<CommandSpec>)
    ensures
        r.len() == 6,
        r[0].name@ == kind_name(CommandKind::Build),
        r[1].name@ == kind_name(CommandKind::Develop),
        r[2].name@ == kind_name(CommandKind::Eval),
        r[3].name@ == kind_name(CommandKind::Flake),
        r[4].name@ == kind_name(CommandKind::Run),
        r[5].name@ == kind_name(CommandKind::Shell),
        forall|i: int|
            0 <= i < 6 ==> #[trigger] r[i].print_build_logs == kind_prints_build_logs(
                all_kinds()[i],
            ) && r[i].interactive == kind_interactive(all_kinds()[i]) && r[i].name@ == kind_name(
                all_kinds()[i],
            ),
{
    let mut r = Vec::new();
    r.push(CommandKind::Build.spec());
    r.push(CommandKind::Develop.spec());
    r.push(CommandKind::Eval.spec());
    r.push(CommandKind::Flake.spec());
    r.push(CommandKind::Run.spec());
    r.push(CommandKind::Shell.spec());
    r
}

/// Every kind, in declaration order.
pub open spec fn all_kinds() -> Seq<CommandKind> {
    seq![
        CommandKind::Build,
        CommandKind::Develop,
        CommandKind::Eval,
        CommandKind::Flake,
        CommandKind::Run,
        CommandKind::Shell,
    ]
}

/// Parsing a kind's name gives the kind back.
pub proof fn law_kind_name_round_trip(k: CommandKind)
    ensures
        kind_named(kind_name(k)) == Some(k),
{
    reveal_strlit("build");
    reveal_strlit("develop");
    reveal_strlit("eval");
    reveal_strlit("flake");
    reveal_strlit("run");
    reveal_strlit("shell");
    let b = "build"@;
    let d = "develop"@;
    let e = "eval"@;
    let f = "flake"@;
    let r = "run"@;
    let s = "shell"@;
    assert(b[0] != d[0] && b[0] != e[0] && b[0] != f[0] && b[0] != r[0] && b[0] != s[0]);
    assert(d[0] != e[0] && d[0] != f[0] && d[0] != r[0] && d[0] != s[0]);
    assert(e[0] != f[0] && e[0] != r[0] && e[0] != s[0]);
    assert(f[0] != r[0] && f[0] != s[0]);
    assert(r[0] != s[0]);
}


/// The text of an optional string.
pub open spec fn opt_view(o: Option<String>) -> Option<Seq<char>> {
    match o {
        Some(s) => Some(s@),
        None => None,
    }
}

/// The text of a list of `(name, value)` pairs.
pub open spec fn pair_views(v: Seq<(String, String)>) -> Seq<(Seq<char>, Seq<char>)> {
    v.map_values(|p: (String, String)| (p.0@, p.1@))
}

/// Copies of a list of strings.
pub fn clone_strings(v: &[String]) -> (r: Vec<String>)
    ensures
        views(r@) == views(v@),
{
    let mut r: Vec<String> = Vec::new();
    for i in 0..v.len()
        invariant
            r@.len() == i,
            forall|j: int| 0 <= j < i ==> #[trigger] r@[j] == v@[j],
    {
        r.push(v[i].clone());
    }
    assert(r@ =~= v@);
    r
}

/// Copies of a list of `(name, value)` pairs.
pub fn clone_pairs(v: &[(String, String)]) -> (r: Vec<(String, String)>)
    ensures
        pair_views(r@) == pair_views(v@),
{
    let mut r: Vec<(String, String)> = Vec::new();
    for i in 0..v.len()
        invariant
            r@.len() == i,
            forall|j: int| 0 <= j < i ==> #[trigger] r@[j] == v@[j],
    {
        let (k, x) = &v[i];
        r.push((k.clone(), x.clone()));
    }
    assert(r@ =~= v@);
    r
}

/// A `nix` invocation under construction.
pub struct NixCommand {
    kind: CommandKind,
    binary: Option<String>,
    args: Vec<String>,
    env: Vec<(String, String)>,
    impure: bool,
    print_build_logs: bool,
    interactive: bool,
    eval_profiler_mode: Option<String>,
    eval_profiler_frequency: Option<u32>,
    eval_profile_file: Option<String>,
}

/// What a [`NixCommand`] holds.
pub struct NixCommandView {
    pub kind: CommandKind,
    pub binary: Option<Seq<char>>,
    pub args: Seq<Seq<char>>,
    pub env: Seq<(Seq<char>, Seq<char>)>,
    pub impure: bool,
    pub print_build_logs: bool,
    pub interactive: bool,
    pub eval_profiler_mode: Option<Seq<char>>,
    pub eval_profiler_frequency: Option<u32>,
    pub eval_profile_file: Option<Seq<char>>,
}

impl View for NixCommand {
    type V = NixCommandView;

    closed spec fn view(&self) -> NixCommandView {
        NixCommandView {
            kind: self.kind,
            binary: opt_view(self.binary),
            args: views(self.args@),
            env: pair_views(self.env@),
            impure: self.impure,
            print_build_logs: self.print_build_logs,
            interactive: self.interactive,
            eval_profiler_mode: opt_view(self.eval_profiler_mode),
            eval_profiler_frequency: self.eval_profiler_frequency,
            eval_profile_file: opt_view(self.eval_profile_file),
        }
    }
}

/// A fresh command of kind `kind`, with the kind's defaults.
pub open spec fn fresh_command(kind: CommandKind) -> NixCommandView {
    NixCommandView {
        kind,
        binary: None,
        args: seq![],
        env: seq![],
        impure: false,
        print_build_logs: kind_prints_build_logs(kind),
        interactive: kind_interactive(kind),
        eval_profiler_mode: None,
        eval_profiler_frequency: None,
        eval_profile_file: None,
    }
}

/// The program that runs.
pub open spec fn program_of(c: NixCommandView) -> Seq<char> {
    match c.binary {
        Some(b) => b,
        None => "nix"@,
    }
}

/// `--print-build-logs`, when logs are wanted and not silenced by an argument.
pub open spec fn logs_part(c: NixCommandView) -> Seq<Seq<char>> {
    if c.print_build_logs && !c.args.contains("--no-build-output"@) {
        seq!["--print-build-logs"@]
    } else {
        seq![]
    }
}

/// `--impure`, when asked for.
pub open spec fn impure_part(c: NixCommandView) -> Seq<Seq<char>> {
    if c.impure {
        seq!["--impure"@]
    } else {
        seq![]
    }
}

/// The evaluation profiler flags that are set.
pub open spec fn profiler_part(c: NixCommandView) -> Seq<Seq<char>> {
    (match c.eval_profiler_mode {
        Some(m) => seq!["--eval-profiler"@, m],
        None => seq![],
    }) + (match c.eval_profiler_frequency {
        Some(hz) => seq!["--eval-profiler-frequency"@, decimal(hz as nat)],
        None => seq![],
    }) + (match c.eval_profile_file {
        Some(p) => seq!["--eval-profile-file"@, p],
        None => seq![],
    })
}

/// The command line of `c`: the program, the subcommand, the flags that its
/// settings call for, then the arguments.
pub open spec fn argv_of(c: NixCommandView) -> Seq<Seq<char>> {
    seq![program_of(c), kind_name(c.kind)] + logs_part(c) + impure_part(c) + profiler_part(c)
        + c.args
}

/// Appends copies of `extra` to `v`.
pub fn push_all(v: &mut Vec<String>, extra: &[String])
    ensures
        final(v)@ == old(v)@ + extra@,
{
    let ghost start = v@;
    for i in 0..extra.len()
        invariant
            v@ == start + extra@.take(i as int),
    {
        v.push(extra[i].clone());
        assert(v@ =~= start + extra@.take(i + 1));
    }
    assert(extra@.take(extra@.len() as int) =~= extra@);
}

/// Whether some argument is exactly `flag`.
pub fn has_arg(args: &[String], flag: &str) -> (b: bool)
    ensures
        b == views(args@).contains(flag@),
{
    for i in 0..args.len()
        invariant
            forall|j: int| 0 <= j < i ==> views(args@)[j] != flag@,
    {
        if str_eq(args[i].as_str(), flag) {
            assert(views(args@)[i as int] == flag@);
            return true;
        }
    }
    false
}

impl NixCommand {
    pub fn new(kind: CommandKind) -> (r: Self)
        ensures
            r@ == fresh_command(kind),
    {
        let spec = kind.spec();
        let r = NixCommand {
            kind,
            binary: None,
            args: Vec::new(),
            env: Vec::new(),
            impure: false,
            print_build_logs: spec.print_build_logs,
            interactive: spec.interactive,
            eval_profiler_mode: None,
            eval_profiler_frequency: None,
            eval_profile_file: None,
        };
        assert(r@.args =~= seq![]);
        assert(r@.env =~= seq![]);
        r
    }

    pub fn arg(self, arg: &str) -> (r: Self)
        ensures
            r@ == (NixCommandView { args: self@.args.push(arg@), ..self@ }),
    {
        let mut this = self;
        let ghost before = this@;
        this.args.push(arg.to_string());
        assert(views(this.args@) =~= before.args.push(arg@));
        this
    }

    pub fn args_ref(self, args: &[String]) -> (r: Self)
        ensures
            r@ == (NixCommandView { args: self@.args + views(args@), ..self@ }),
    {
        let mut this = self;
        let ghost before = this@;
        let ghost start = this.args@;
        for i in 0..args.len()
            invariant
                this@ == (NixCommandView { args: this@.args, ..before }),
                this.args@ == start + args@.take(i as int),
                before.args == views(start),
        {
            this.args.push(args[i].clone());
            assert(this.args@ =~= start + args@.take(i + 1));
        }
        assert(args@.take(args@.len() as int) =~= args@);
        assert(views(start + args@) =~= views(start) + views(args@));
        this
    }

    pub fn env(self, key: &str, value: &str) -> (r: Self)
        ensures
            r@ == (NixCommandView { env: self@.env.push((key@, value@)), ..self@ }),
    {
        let mut this = self;
        let ghost before = this@;
        this.env.push((key.to_string(), value.to_string()));
        assert(pair_views(this.env@) =~= before.env.push((key@, value@)));
        this
    }

    pub fn envs(self, env: &[(String, String)]) -> (r: Self)
        ensures
            r@ == (NixCommandView { env: self@.env + pair_views(env@), ..self@ }),
    {
        let mut this = self;
        let ghost before = this@;
        let ghost start = this.env@;
        for i in 0..env.len()
            invariant
                this@ == (NixCommandView { env: this@.env, ..before }),
                this.env@ == start + env@.take(i as int),
                before.env == pair_views(start),
        {
            let (k, v) = &env[i];
            this.env.push((k.clone(), v.clone()));
            assert(this.env@ =~= start + env@.take(i + 1));
        }
        assert(env@.take(env@.len() as int) =~= env@);
        assert(pair_views(start + env@) =~= pair_views(start) + pair_views(env@));
        this
    }

    pub fn impure(self, yes: bool) -> (r: Self)
        ensures
            r@ == (NixCommandView { impure: yes, ..self@ }),
    {
        let mut this = self;
        this.impure = yes;
        this
    }

    pub fn binary(self, path: &str) -> (r: Self)
        ensures
            r@ == (NixCommandView { binary: Some(path@), ..self@ }),
    {
        let mut this = self;
        this.binary = Some(path.to_string());
        this
    }

    pub fn interactive(self, yes: bool) -> (r: Self)
        ensures
            r@ == (NixCommandView { interactive: yes, ..self@ }),
    {
        let mut this = self;
        this.interactive = yes;
        this
    }

    pub fn print_build_logs(self, yes: bool) -> (r: Self)
        ensures
            r@ == (NixCommandView { print_build_logs: yes, ..self@ }),
    {
        let mut this = self;
        this.print_build_logs = yes;
        this
    }

    pub fn eval_profiler(self, mode: &str) -> (r: Self)
        ensures
            r@ == (NixCommandView { eval_profiler_mode: Some(mode@), ..self@ }),
    {
        let mut this = self;
        this.eval_profiler_mode = Some(mode.to_string());
        this
    }

    pub fn eval_profiler_frequency(self, hz: u32) -> (r: Self)
        ensures
            r@ == (NixCommandView { eval_profiler_frequency: Some(hz), ..self@ }),
    {
        let mut this = self;
        this.eval_profiler_frequency = Some(hz);
        this
    }

    pub fn eval_profile_file(self, path: &str) -> (r: Self)
        ensures
            r@ == (NixCommandView { eval_profile_file: Some(path@), ..self@ }),
    {
        let mut this = self;
        this.eval_profile_file = Some(path.to_string());
        this
    }

    fn logs_flags(&self) -> (r: Vec<String>)
        ensures
            views(r@) == logs_part(self@),
    {
        let mut r: Vec<String> = Vec::new();
        if self.print_build_logs && !has_arg(self.args.as_slice(), "--no-build-output") {
            r.push("--print-build-logs".to_string());
        }
        assert(views(r@) =~= logs_part(self@));
        r
    }

    fn impure_flags(&self) -> (r: Vec<String>)
        ensures
            views(r@) == impure_part(self@),
    {
        let mut r: Vec<String> = Vec::new();
        if self.impure {
            r.push("--impure".to_string());
        }
        assert(views(r@) =~= impure_part(self@));
        r
    }

    fn profiler_flags(&self) -> (r: Vec<String>)
        ensures
            views(r@) == profiler_part(self@),
    {
        let mut r: Vec<String> = Vec::new();
        let ghost mut expected: Seq<Seq<char>> = seq![];
        match &self.eval_profiler_mode {
            Some(mode) => {
                r.push("--eval-profiler".to_string());
                r.push(mode.clone());
                proof { expected = seq!["--eval-profiler"@, mode@]; }
            },
            None => {},
        }
        assert(views(r@) =~= expected);
        match self.eval_profiler_frequency {
            Some(hz) => {
                r.push("--eval-profiler-frequency".to_string());
                r.push(decimal_string(hz as u64));
                proof { expected = expected + seq!["--eval-profiler-frequency"@, decimal(hz as nat)]; }
            },
            None => {
                proof { expected = expected + seq![]; }
            },
        }
        assert(views(r@) =~= expected);
        match &self.eval_profile_file {
            Some(path) => {
                r.push("--eval-profile-file".to_string());
                r.push(path.clone());
                proof { expected = expected + seq!["--eval-profile-file"@, path@]; }
            },
            None => {
                proof { expected = expected + seq![]; }
            },
        }
        assert(views(r@) =~= expected);
        assert(expected =~= profiler_part(self@));
        r
    }

    /// The full command line, program first.
    pub fn argv(&self) -> (r: Vec<String>)
        ensures
            views(r@) == argv_of(self@),
    {
        proof {
            reveal_strlit("nix");
        }
        let program = match &self.binary {
            Some(b) => b.clone(),
            None => "nix".to_string(),
        };
        let mut argv: Vec<String> = Vec::new();
        argv.push(program);
        argv.push(self.kind.as_str().to_string());
        assert(views(argv@) =~= seq![program_of(self@), kind_name(self.kind)]);
        let logs = self.logs_flags();
        push_all(&mut argv, logs.as_slice());
        let imp = self.impure_flags();
        push_all(&mut argv, imp.as_slice());
        let prof = self.profiler_flags();
        push_all(&mut argv, prof.as_slice());
        let ghost before_args = argv@;
        push_all(&mut argv, self.args.as_slice());
        proof {
            assert(views(argv@) =~= seq![program_of(self@), kind_name(self.kind)] + logs_part(self@)
                + impure_part(self@) + profiler_part(self@) + self@.args);
        }
        argv
    }

    /// The environment variables set for the command, in order.
    pub fn env_pairs(&self) -> (r: &Vec<(String, String)>)
        ensures
            pair_views(r@) == self@.env,
    {
        &self.env
    }

    /// Whether the command runs attached to the terminal.
    pub fn is_interactive(&self) -> (r: bool)
        ensures
            r == self@.interactive,
    {
        self.interactive
    }

    /// The subcommand.
    pub fn kind(&self) -> (r: CommandKind)
        ensures
            r == self@.kind,
    {
        self.kind
    }

    /// The error for a command whose output pipes could not be taken.
    pub fn command_failed(&self) -> (e: Error)
        ensures
            e matches Error::CommandFailed { command } && command@ == kind_name(self@.kind),
    {
        Error::CommandFailed { command: self.kind.as_str().to_string() }
    }

    /// The error for a command that ran past the time limit.
    pub fn timeout(&self) -> (e: Error)
        ensures
            e matches Error::Timeout { command, seconds } && command@ == kind_name(self@.kind)
                && seconds == DEFAULT_TIMEOUT_SECS,
    {
        Error::Timeout { command: self.kind.as_str().to_string(), seconds: DEFAULT_TIMEOUT_SECS }
    }
}

} // verus!
