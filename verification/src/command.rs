use vstd::prelude::*;
use crate::nix_command::{has_arg, pair_views, push_all};
use crate::order::views;

verus! {

broadcast use vstd::string::group_string_axioms;

/// Receives the output of a running command, chunk by chunk.
pub trait LogInterceptor {
    fn on_stderr(&mut self, chunk: &[u8]);

    fn on_stdout(&mut self, chunk: &[u8]);
}

/// A `nix` invocation named by its subcommand's text.
pub struct NixCommand {
    subcommand: String,
    args: Vec<String>,
    env: Vec<(String, String)>,
    impure: bool,
    print_build_logs: bool,
    interactive: bool,
}

/// What a [`NixCommand`] holds.
pub struct CommandView {
    pub subcommand: Seq<char>,
    pub args: Seq<Seq<char>>,
    pub env: Seq<(Seq<char>, Seq<char>)>,
    pub impure: bool,
    pub print_build_logs: bool,
    pub interactive: bool,
}

impl View for NixCommand {
    type V = CommandView;

    closed spec fn view(&self) -> CommandView {
        CommandView {
            subcommand: self.subcommand@,
            args: views(self.args@),
            env: pair_views(self.env@),
            impure: self.impure,
            print_build_logs: self.print_build_logs,
            interactive: self.interactive,
        }
    }
}

/// A fresh command: build logs on, not impure, not attached.
pub open spec fn new_command(subcommand: Seq<char>) -> CommandView {
    CommandView {
        subcommand,
        args: seq![],
        env: seq![],
        impure: false,
        print_build_logs: true,
        interactive: false,
    }
}

/// The command line of `c`: `nix`, the subcommand, `--print-build-logs`
/// unless switched off or silenced by `--no-build-output`, `--impure` when
/// asked for, then the arguments.
pub open spec fn command_line(c: CommandView) -> Seq<Seq<char>> {
    seq!["nix"@, c.subcommand] + (if c.print_build_logs && !c.args.contains("--no-build-output"@) {
        seq!["--print-build-logs"@]
    } else {
        seq![]
    }) + (if c.impure {
        seq!["--impure"@]
    } else {
        seq![]
    }) + c.args
}

impl NixCommand {
    pub fn new(subcommand: &str) -> (r: Self)
        ensures
            r@ == new_command(subcommand@),
    {
        let r = NixCommand {
            subcommand: subcommand.to_string(),
            args: Vec::new(),
            env: Vec::new(),
            impure: false,
            print_build_logs: true,
            interactive: false,
        };
        assert(r@.args =~= seq![]);
        assert(r@.env =~= seq![]);
        r
    }

    pub fn arg(self, arg: &str) -> (r: Self)
        ensures
            r@ == (CommandView { args: self@.args.push(arg@), ..self@ }),
    {
        let mut this = self;
        let ghost before = this@;
        this.args.push(arg.to_string());
        assert(views(this.args@) =~= before.args.push(arg@));
        this
    }

    pub fn args(self, args: &[String]) -> (r: Self)
        ensures
            r@ == (CommandView { args: self@.args + views(args@), ..self@ }),
    {
        let mut this = self;
        let ghost before = this@;
        let ghost start = this.args@;
        push_all(&mut this.args, args);
        assert(views(start + args@) =~= views(start) + views(args@));
        this
    }

    pub fn env(self, key: &str, value: &str) -> (r: Self)
        ensures
            r@ == (CommandView { env: self@.env.push((key@, value@)), ..self@ }),
    {
        let mut this = self;
        let ghost before = this@;
        this.env.push((key.to_string(), value.to_string()));
        assert(pair_views(this.env@) =~= before.env.push((key@, value@)));
        this
    }

    pub fn impure(self, yes: bool) -> (r: Self)
        ensures
            r@ == (CommandView { impure: yes, ..self@ }),
    {
        let mut this = self;
        this.impure = yes;
        this
    }

    pub fn interactive(self, yes: bool) -> (r: Self)
        ensures
            r@ == (CommandView { interactive: yes, ..self@ }),
    {
        let mut this = self;
        this.interactive = yes;
        this
    }

    pub fn print_build_logs(self, yes: bool) -> (r: Self)
        ensures
            r@ == (CommandView { print_build_logs: yes, ..self@ }),
    {
        let mut this = self;
        this.print_build_logs = yes;
        this
    }

    /// The full command line, `nix` first.
    pub fn argv(&self) -> (r: Vec<String>)
        ensures
            views(r@) == command_line(self@),
    {
        proof {
            reveal_strlit("nix");
        }
        let mut argv: Vec<String> = Vec::new();
        argv.push("nix".to_string());
        argv.push(self.subcommand.clone());
        let ghost head = argv@;
        let logs = self.print_build_logs && !has_arg(self.args.as_slice(), "--no-build-output");
        if logs {
            argv.push("--print-build-logs".to_string());
        }
        let ghost with_logs = argv@;
        if self.impure {
            argv.push("--impure".to_string());
        }
        let ghost with_impure = argv@;
        push_all(&mut argv, self.args.as_slice());
        proof {
            let lp: Seq<Seq<char>> = if logs { seq!["--print-build-logs"@] } else { seq![] };
            let ip: Seq<Seq<char>> = if self.impure { seq!["--impure"@] } else { seq![] };
            assert(views(head) =~= seq!["nix"@, self.subcommand@]);
            assert(views(with_logs) =~= views(head) + lp);
            assert(views(with_impure) =~= views(with_logs) + ip);
            assert(views(argv@) =~= views(with_impure) + self@.args);
        }
        argv
    }

    /// The environment variables set for the command, in order.
    pub fn env_pairs(&self) -> (r: &Vec<(String, String)>)
        ensures
            pair_views(r@) == self@.env,
    {
        &self.env
    }

    /// Whether the command runs attached to the terminal.
    pub fn is_interactive(&self) -> (r: bool)
        ensures
            r == self@.interactive,
    {
        self.interactive
    }

    /// The subcommand's text.
    pub fn subcommand(&self) -> (r: &str)
        ensures
            r@ == self@.subcommand,
    {
        self.subcommand.as_str()
    }
}

} // verus!
