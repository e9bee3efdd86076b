use vstd::prelude::*;

verus! {

/// How important a log message is.
#[derive(Clone, Copy, Debug, PartialEq, Eq, Structural)]
pub enum Level {
    Error,
    Warn,
    Info,
    Debug,
}

/// The verbosity from which on a level is shown.
pub open spec fn level_rank(l: Level) -> int {
    match l {
        Level::Error => -2,
        Level::Warn => -1,
        Level::Info => 0,
        Level::Debug => 1,
    }
}

impl Level {
    /// The verbosity from which on this level is shown.
    pub fn rank(self) -> (r: i8)
        ensures
            r == level_rank(self),
    {
        match self {
            Level::Error => -2,
            Level::Warn => -1,
            Level::Info => 0,
            Level::Debug => 1,
        }
    }
}

/// The kinds of message the tool logs.
#[derive(Clone, Copy, Debug, PartialEq, Eq, Structural)]
pub enum LogKind {
    Info,
    Debug,
    Warn,
    Error,
    Hint,
}

/// The level each kind of message is logged at.
pub open spec fn kind_level(k: LogKind) -> Level {
    match k {
        LogKind::Info | LogKind::Hint => Level::Info,
        LogKind::Debug => Level::Debug,
        LogKind::Warn => Level::Warn,
        LogKind::Error => Level::Error,
    }
}

/// The marker printed before each kind of message.
pub open spec fn kind_marker(k: LogKind) -> Seq<char> {
    match k {
        LogKind::Info | LogKind::Warn => "->"@,
        LogKind::Debug => "*"@,
        LogKind::Error => "!"@,
        LogKind::Hint => "~"@,
    }
}

impl LogKind {
    pub fn level(self) -> (r: Level)
        ensures
            r == kind_level(self),
    {
        match self {
            LogKind::Info | LogKind::Hint => Level::Info,
            LogKind::Debug => Level::Debug,
            LogKind::Warn => Level::Warn,
            LogKind::Error => Level::Error,
        }
    }

    pub fn marker(self) -> (r: &'static str)
        ensures
            r@ == kind_marker(self),
    {
        match self {
            LogKind::Info | LogKind::Warn => "->",
            LogKind::Debug => "*",
            LogKind::Error => "!",
            LogKind::Hint => "~",
        }
    }
}

/// Whether a message at `level` is shown at `verbosity`.
pub fn enabled(verbosity: i8, level: Level) -> (b: bool)
    ensures
        b == (verbosity >= level_rank(level)),
{
    verbosity >= level.rank()
}

/// The verbosity a process logs at: `0` by default, raised by `-v`,
/// lowered by `-q`.
pub struct LogSettings {
    verbosity: i8,
}

impl View for LogSettings {
    type V = i8;

    closed spec fn view(&self) -> i8 {
        self.verbosity
    }
}

impl LogSettings {
    pub fn new() -> (r: Self)
        ensures
            r@ == 0,
    {
        LogSettings { verbosity: 0 }
    }

    pub fn set_verbosity(&mut self, verbosity: i8)
        ensures
            final(self)@ == verbosity,
    {
        self.verbosity = verbosity;
    }

    pub fn verbosity(&self) -> (r: i8)
        ensures
            r == self@,
    {
        self.verbosity
    }

    /// Whether a message of kind `kind` is shown.
    pub fn shows(&self, kind: LogKind) -> (b: bool)
        ensures
            b == (self@ >= level_rank(kind_level(kind))),
    {
        enabled(self.verbosity, kind.level())
    }
}

/// Raising the verbosity never hides a message that was shown.
pub proof fn law_more_verbose_shows_more(v: i8, w: i8, level: Level)
    requires
        v <= w,
        v >= level_rank(level),
    ensures
        w >= level_rank(level),
{
}

} // verus!
