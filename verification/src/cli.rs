use vstd::prelude::*;
use crate::eh_config::{resolve, CommandConfig, Config};
use crate::order::views;
use crate::text::str_eq;

verus! {

broadcast use vstd::string::group_string_axioms;

/// The shells that completions are generated for.
#[derive(Clone, Copy, Debug, PartialEq, Eq, Structural)]
pub enum Shell {
    Bash,
    Zsh,
    Fish,
}

/// The multicall binaries that the build installs next to `eh`.
#[derive(Clone, Copy, Debug, PartialEq, Eq, Structural)]
pub enum Binary {
    Nr,
    Ns,
    Nb,
}

pub open spec fn binary_name(b: Binary) -> Seq<char> {
    match b {
        Binary::Nr => "nr"@,
        Binary::Ns => "ns"@,
        Binary::Nb => "nb"@,
    }
}

impl Binary {
    /// The file name the binary is installed under.
    pub fn name(self) -> (r: &'static str)
        ensures
            r@ == binary_name(self),
    {
        match self {
            Binary::Nr => "nr",
            Binary::Ns => "ns",
            Binary::Nb => "nb",
        }
    }
}

// ---------------------------------------------------------------------
// Subcommands
// ---------------------------------------------------------------------

/// Which handler a subcommand goes to.
#[derive(Clone, Copy, Debug, PartialEq, Eq, Structural)]
pub enum Route {
    Info,
    Update,
    /// A nix subcommand run with retries.
    Nix,
    Comma,
}

pub open spec fn route_of(command: Seq<char>) -> Option<Route> {
    if command == "info"@ {
        Some(Route::Info)
    } else if command == "update"@ {
        Some(Route::Update)
    } else if command == "run"@ || command == "shell"@ || command == "build"@ || command
        == "develop"@ {
        Some(Route::Nix)
    } else if command == "comma"@ {
        Some(Route::Comma)
    } else {
        None
    }
}

/// The handler of `command`, if it has one.
pub fn route(command: &str) -> (r: Option<Route>)
    ensures
        r == route_of(command@),
{
    proof {
        reveal_strlit("info");
        reveal_strlit("update");
        reveal_strlit("comma");
        reveal_strlit("run");
        reveal_strlit("shell");
        reveal_strlit("build");
        reveal_strlit("develop");
    }
    if str_eq(command, "info") {
        Some(Route::Info)
    } else if str_eq(command, "update") {
        Some(Route::Update)
    } else if str_eq(command, "run") || str_eq(command, "shell") || str_eq(command, "build")
        || str_eq(command, "develop") {
        Some(Route::Nix)
    } else if str_eq(command, "comma") {
        Some(Route::Comma)
    } else {
        None
    }
}

/// A subcommand ready for its handler: where it goes, all its arguments,
/// and the settings that apply to it.
pub struct CommandPlan {
    pub route: Route,
    pub command: String,
    pub args: Vec<String>,
    pub cfg: CommandConfig,
}

/// Routes the subcommand `command` with its arguments and the arguments
/// after `--` to its handler, with the settings that apply to it.
pub fn handle_command(command: &str, args: Vec<String>, nix_args: Vec<String>, cfg: &Config) -> (r: CommandPlan)
    requires
        route_of(command@) is Some,
    ensures
        r.route == route_of(command@)->0,
        r.command@ == command@,
        views(r.args@) == views(args@) + views(nix_args@),
        r.cfg@ == resolve(cfg@, command@),
{
    let mut all_args = args;
    let mut extra = nix_args;
    let ghost a = all_args@;
    let ghost b = extra@;
    all_args.append(&mut extra);
    assert(views(all_args@) =~= views(a) + views(b));
    let cmd_cfg = cfg.for_command(command);
    proof {
        reveal_strlit("info");
        reveal_strlit("update");
        reveal_strlit("comma");
        reveal_strlit("run");
        reveal_strlit("shell");
        reveal_strlit("build");
        reveal_strlit("develop");
        // The names differ in their first letter.
        assert("info"@[0] != "update"@[0]);
        assert("comma"@[0] != "info"@[0] && "comma"@[0] != "update"@[0]);
        assert("comma"@[0] != "run"@[0] && "comma"@[0] != "shell"@[0]);
        assert("comma"@[0] != "build"@[0] && "comma"@[0] != "develop"@[0]);
    }
    let route = if str_eq(command, "info") {
        Route::Info
    } else if str_eq(command, "update") {
        Route::Update
    } else if str_eq(command, "comma") {
        Route::Comma
    } else {
        Route::Nix
    };
    CommandPlan { route, command: command.to_string(), args: all_args, cfg: cmd_cfg }
}

// ---------------------------------------------------------------------
// Multicall
// ---------------------------------------------------------------------

/// How a verbosity flag changes the verbosity; `None` for other arguments.
pub open spec fn flag_delta(a: Seq<char>) -> Option<int> {
    if a == "-v"@ || a == "--verbose"@ {
        Some(1)
    } else if a == "-vv"@ {
        Some(2)
    } else if a == "-vvv"@ {
        Some(3)
    } else if a == "-q"@ || a == "--quiet"@ {
        Some(-1)
    } else if a == "-qq"@ {
        Some(-2)
    } else {
        None
    }
}

/// The verbosity that the flags among `args` set, from `0`.
pub open spec fn verbosity_of(args: Seq<Seq<char>>) -> int
    decreases args.len(),
{
    if args.len() == 0 {
        0
    } else {
        verbosity_of(args.drop_last()) + match flag_delta(args.last()) {
            Some(d) => d,
            None => 0,
        }
    }
}

/// The arguments that are not verbosity flags, in order.
pub open spec fn rest_of(args: Seq<Seq<char>>) -> Seq<Seq<char>>
    decreases args.len(),
{
    if args.len() == 0 {
        seq![]
    } else {
        rest_of(args.drop_last()) + if flag_delta(args.last()) is Some {
            seq![]
        } else {
            seq![args.last()]
        }
    }
}

/// The count stays within an `i8` as the flags are read.
pub open spec fn verbosity_fits(args: Seq<Seq<char>>) -> bool {
    forall|k: int| 0 <= k <= args.len() ==> -128 <= #[trigger] verbosity_of(args.take(k)) <= 127
}

/// The subcommand that a multicall name stands for.
pub open spec fn multicall_subcommand(app_name: Seq<char>) -> Option<Seq<char>> {
    if app_name == "nr"@ {
        Some("run"@)
    } else if app_name == "ns"@ {
        Some("shell"@)
    } else if app_name == "nb"@ {
        Some("build"@)
    } else if app_name == "nd"@ || app_name == "dev"@ {
        Some("develop"@)
    } else if app_name == "ni"@ {
        Some("info"@)
    } else if app_name == "nu"@ {
        Some("update"@)
    } else if app_name == ","@ {
        Some("comma"@)
    } else {
        None
    }
}

/// What a multicall invocation asks for.
pub enum MulticallAction {
    /// Print the short usage of the shorthand.
    Help { subcommand: &'static str },
    /// Print the version.
    Version,
    /// Run the subcommand with these arguments.
    Run { subcommand: &'static str, rest: Vec<String> },
}

/// The verbosity the flags set, and what the invocation asks for when the
/// program runs under a multicall name.
pub struct Multicall {
    pub verbosity: i8,
    pub action: Option<MulticallAction>,
}

fn flag_delta_exec(a: &str) -> (r: Option<i8>)
    ensures
        match r {
            Some(d) => flag_delta(a@) == Some(d as int),
            None => flag_delta(a@) is None,
        },
{
    proof {
        reveal_strlit("-v");
        reveal_strlit("--verbose");
        reveal_strlit("-vv");
        reveal_strlit("-vvv");
        reveal_strlit("-q");
        reveal_strlit("--quiet");
        reveal_strlit("-qq");
    }
    if str_eq(a, "-v") || str_eq(a, "--verbose") {
        Some(1)
    } else if str_eq(a, "-vv") {
        Some(2)
    } else if str_eq(a, "-vvv") {
        Some(3)
    } else if str_eq(a, "-q") || str_eq(a, "--quiet") {
        Some(-1)
    } else if str_eq(a, "-qq") {
        Some(-2)
    } else {
        None
    }
}

fn multicall_subcommand_exec(app_name: &str) -> (r: Option<&'static str>)
    ensures
        match r {
            Some(s) => multicall_subcommand(app_name@) == Some(s@),
            None => multicall_subcommand(app_name@) is None,
        },
{
    proof {
        reveal_strlit("nr");
        reveal_strlit("ns");
        reveal_strlit("nb");
        reveal_strlit("nd");
        reveal_strlit("dev");
        reveal_strlit("ni");
        reveal_strlit("nu");
        reveal_strlit(",");
    }
    if str_eq(app_name, "nr") {
        Some("run")
    } else if str_eq(app_name, "ns") {
        Some("shell")
    } else if str_eq(app_name, "nb") {
        Some("build")
    } else if str_eq(app_name, "nd") || str_eq(app_name, "dev") {
        Some("develop")
    } else if str_eq(app_name, "ni") {
        Some("info")
    } else if str_eq(app_name, "nu") {
        Some("update")
    } else if str_eq(app_name, ",") {
        Some("comma")
    } else {
        None
    }
}

/// Whether the verbosity count of `args` stays within an `i8` all along.
pub fn flags_fit(args: &[String]) -> (b: bool)
    ensures
        b == verbosity_fits(views(args@)),
{
    let ghost v = views(args@);
    let mut total: i16 = 0;
    assert(v.take(0) =~= Seq::<Seq<char>>::empty());
    for i in 0..args.len()
        invariant
            v == views(args@),
            total == verbosity_of(v.take(i as int)),
            forall|k: int| 0 <= k <= i ==> -128 <= #[trigger] verbosity_of(v.take(k)) <= 127,
    {
        proof {
            assert(v.take(i + 1).drop_last() =~= v.take(i as int));
            assert(v.take(i + 1).last() == v[i as int]);
        }
        match flag_delta_exec(args[i].as_str()) {
            Some(d) => {
                total = total + d as i16;
            },
            None => {},
        }
        assert(total == verbosity_of(v.take(i + 1)));
        if total < -128 || total > 127 {
            assert(!(-128 <= verbosity_of(v.take(i + 1)) <= 127));
            return false;
        }
    }
    assert(v.take(v.len() as int) =~= v);
    true
}

/// Whether some argument is `--help` or `-h`.
pub open spec fn asks_help(rest: Seq<Seq<char>>) -> bool {
    rest.contains("--help"@) || rest.contains("-h"@)
}

/// Reads the verbosity flags out of `args`, and, when `app_name` is one of
/// the shorthands (`nr`, `ns`, `nb`, `nd`/`dev`, `ni`, `nu`, `,`), what the
/// invocation asks for: help, the version, or the subcommand with the
/// remaining arguments.
pub fn dispatch_multicall(app_name: &str, args: Vec<String>) -> (r: Multicall)
    requires
        verbosity_fits(views(args@)),
    ensures
        r.verbosity == verbosity_of(views(args@)),
        match multicall_subcommand(app_name@) {
            None => r.action is None,
            Some(sub) => if asks_help(rest_of(views(args@))) {
                r.action matches Some(MulticallAction::Help { subcommand }) && subcommand@ == sub
            } else if rest_of(views(args@)).contains("--version"@) {
                r.action matches Some(MulticallAction::Version)
            } else {
                r.action matches Some(MulticallAction::Run { subcommand, rest }) && subcommand@ == sub
                    && views(rest@) == rest_of(views(args@))
            },
        },
{
    let ghost v = views(args@);
    let mut verbosity: i8 = 0;
    let mut rest: Vec<String> = Vec::new();
    assert(v.take(0) =~= Seq::<Seq<char>>::empty());
    for i in 0..args.len()
        invariant
            v == views(args@),
            verbosity_fits(v),
            verbosity == verbosity_of(v.take(i as int)),
            views(rest@) == rest_of(v.take(i as int)),
    {
        proof {
            assert(v.take(i + 1).drop_last() =~= v.take(i as int));
            assert(v.take(i + 1).last() == v[i as int]);
            assert(-128 <= verbosity_of(v.take(i + 1)) <= 127);
        }
        match flag_delta_exec(args[i].as_str()) {
            Some(d) => {
                verbosity = verbosity + d;
            },
            None => {
                rest.push(args[i].clone());
            },
        }
        assert(views(rest@) =~= rest_of(v.take(i + 1)));
    }
    assert(v.take(v.len() as int) =~= v);
    let subcommand = match multicall_subcommand_exec(app_name) {
        Some(s) => s,
        None => {
            return Multicall { verbosity, action: None };
        },
    };
    proof {
        reveal_strlit("--help");
        reveal_strlit("-h");
        reveal_strlit("--version");
    }
    let help = crate::nix_command::has_arg(rest.as_slice(), "--help") || crate::nix_command::has_arg(
        rest.as_slice(),
        "-h",
    );
    if help {
        return Multicall { verbosity, action: Some(MulticallAction::Help { subcommand }) };
    }
    if crate::nix_command::has_arg(rest.as_slice(), "--version") {
        return Multicall { verbosity, action: Some(MulticallAction::Version) };
    }
    Multicall { verbosity, action: Some(MulticallAction::Run { subcommand, rest }) }
}

/// Every shorthand stands for a subcommand that has a handler.
pub proof fn law_shorthands_are_routed(app_name: Seq<char>)
    requires
        multicall_subcommand(app_name) is Some,
    ensures
        route_of(multicall_subcommand(app_name)->0) is Some,
{
    reveal_strlit("info");
    reveal_strlit("update");
    reveal_strlit("comma");
    reveal_strlit("run");
    reveal_strlit("shell");
    reveal_strlit("build");
    reveal_strlit("develop");
}

} // verus!
