use vstd::prelude::*;
use crate::nix_command::error_message_of;
use crate::order::views;
use crate::text::{signed_decimal, signed_decimal_string};

verus! {

/// Everything that can stop a command of the tool.
#[derive(Debug, PartialEq, Eq)]
pub enum EhError {
    MissingBinary,
    InvalidBinaryName { binary: String },
    /// The package database could not be read; the database's error text.
    SpamIndex(String),
    BinaryNotFound { binary: String },
    AmbiguousBinary { binary: String, candidates: Vec<String> },
    NixCommandFailed { command: String },
    /// An I/O failure; the text of the underlying error.
    Io(String),
    NixCommand(crate::nix_command::Error),
    /// A pattern failed to compile; the text of the underlying error.
    Regex(String),
    /// Output was not UTF-8; the text of the underlying error.
    Utf8(String),
    HashExtractionFailed { stderr: String },
    NoNixFilesFound,
    HashFixFailed { path: String },
    ProcessExit { code: i32 },
    PreEvalFailed { expression: String, stderr: String },
    JsonParse { detail: String },
    NoFlakeInputs,
    UpdateCancelled,
    InvalidEvalInput,
    ImpureRequired { command: String, reason: String },
}

pub type Result<T> = std::result::Result<T, EhError>;

/// The process exit code for each error.
pub open spec fn exit_code_of(e: EhError) -> i32 {
    match e {
        EhError::ProcessExit { code } => code,
        EhError::NixCommandFailed { .. } => 2,
        EhError::HashExtractionFailed { .. } => 4,
        EhError::NoNixFilesFound => 5,
        EhError::HashFixFailed { .. } => 6,
        EhError::Io(_) | EhError::NixCommand(_) => 8,
        EhError::Regex(_) => 9,
        EhError::Utf8(_) => 10,
        EhError::PreEvalFailed { .. } => 12,
        EhError::JsonParse { .. } => 13,
        EhError::NoFlakeInputs => 14,
        EhError::UpdateCancelled => 0,
        EhError::ImpureRequired { .. } => 15,
        EhError::InvalidEvalInput => 16,
        EhError::MissingBinary => 17,
        EhError::InvalidBinaryName { .. } => 18,
        EhError::SpamIndex(_) => 19,
        EhError::BinaryNotFound { .. } => 20,
        EhError::AmbiguousBinary { .. } => 21,
    }
}

/// The advice printed under each error, where there is one.
pub open spec fn hint_of(e: EhError) -> Option<Seq<char>> {
    match e {
        EhError::MissingBinary => Some("pass a binary name, for example `eh comma hello`"@),
        EhError::InvalidBinaryName { .. } => Some("pass the executable name without a path"@),
        EhError::SpamIndex(_) => Some(
            "run `spam index` to generate or refresh the local database"@,
        ),
        EhError::BinaryNotFound { .. } => Some(
            "run `spam index` to refresh the local database or check the binary name"@,
        ),
        EhError::AmbiguousBinary { .. } => Some(
            "run one of the listed installables directly with `eh shell nixpkgs#<package-name> -c <binary>`"@,
        ),
        EhError::NixCommandFailed { .. } => Some("run with --show-trace for more details"@),
        EhError::PreEvalFailed { .. } => Some(
            "check that the expression exists and is spelled correctly"@,
        ),
        EhError::HashExtractionFailed { .. } => Some(
            "nix reported a hash mismatch but the hash could not be parsed"@,
        ),
        EhError::NoNixFilesFound => Some(
            "run this command from a directory containing .nix files"@,
        ),
        EhError::JsonParse { .. } => Some(
            "ensure 'nix flake metadata --json' produces valid output"@,
        ),
        EhError::NoFlakeInputs => Some(
            "run this from a directory with a flake.lock that has inputs"@,
        ),
        EhError::ImpureRequired { .. } => Some(
            "set `impure = true` for this command (or globally) in .eh.toml or ~/.config/eh/config.toml, or pass `--impure` manually"@,
        ),
        EhError::InvalidEvalInput => Some("pass a package name, flake reference, or path"@),
        _ => None,
    }
}

impl EhError {
    pub fn exit_code(&self) -> (r: i32)
        ensures
            r == exit_code_of(*self),
    {
        match self {
            EhError::ProcessExit { code } => *code,
            EhError::NixCommandFailed { .. } => 2,
            EhError::HashExtractionFailed { .. } => 4,
            EhError::NoNixFilesFound => 5,
            EhError::HashFixFailed { .. } => 6,
            EhError::Io(_) | EhError::NixCommand(_) => 8,
            EhError::Regex(_) => 9,
            EhError::Utf8(_) => 10,
            EhError::PreEvalFailed { .. } => 12,
            EhError::JsonParse { .. } => 13,
            EhError::NoFlakeInputs => 14,
            EhError::UpdateCancelled => 0,
            EhError::ImpureRequired { .. } => 15,
            EhError::InvalidEvalInput => 16,
            EhError::MissingBinary => 17,
            EhError::InvalidBinaryName { .. } => 18,
            EhError::SpamIndex(_) => 19,
            EhError::BinaryNotFound { .. } => 20,
            EhError::AmbiguousBinary { .. } => 21,
        }
    }

    pub fn hint(&self) -> (r: Option<&'static str>)
        ensures
            match r {
                Some(h) => hint_of(*self) == Some(h@),
                None => hint_of(*self) is None,
            },
    {
        match self {
            EhError::MissingBinary => Some("pass a binary name, for example `eh comma hello`"),
            EhError::InvalidBinaryName { .. } => Some("pass the executable name without a path"),
            EhError::SpamIndex(_) => Some(
                "run `spam index` to generate or refresh the local database",
            ),
            EhError::BinaryNotFound { .. } => Some(
                "run `spam index` to refresh the local database or check the binary name",
            ),
            EhError::AmbiguousBinary { .. } => Some(
                "run one of the listed installables directly with `eh shell nixpkgs#<package-name> -c <binary>`",
            ),
            EhError::NixCommandFailed { .. } => Some("run with --show-trace for more details"),
            EhError::PreEvalFailed { .. } => Some(
                "check that the expression exists and is spelled correctly",
            ),
            EhError::HashExtractionFailed { .. } => Some(
                "nix reported a hash mismatch but the hash could not be parsed",
            ),
            EhError::NoNixFilesFound => Some(
                "run this command from a directory containing .nix files",
            ),
            EhError::JsonParse { .. } => Some(
                "ensure 'nix flake metadata --json' produces valid output",
            ),
            EhError::NoFlakeInputs => Some(
                "run this from a directory with a flake.lock that has inputs",
            ),
            EhError::ImpureRequired { .. } => Some(
                "set `impure = true` for this command (or globally) in .eh.toml or ~/.config/eh/config.toml, or pass `--impure` manually",
            ),
            EhError::InvalidEvalInput => Some("pass a package name, flake reference, or path"),
            _ => None,
        }
    }
}


/// The text that `{:?}` gives for a list of strings.
pub uninterp spec fn debug_list_text(items: Seq<Seq<char>>) -> Seq<char>;

/// The list rendered by its `Debug` implementation, as `format!("{:?}", ..)`
/// gives it.
#[verifier::external_body]
fn debug_list(items: &Vec<String>) -> (r: String)
    ensures
        r@ == debug_list_text(views(items@)),
{
    format!("{:?}", items)
}

/// The text each error is shown with.
pub open spec fn message_of(e: EhError) -> Seq<char> {
    match e {
        EhError::MissingBinary => "no binary name provided"@,
        EhError::InvalidBinaryName { binary } => "invalid binary name '"@ + binary@ + "'"@,
        EhError::SpamIndex(m) => "spam-db database error: "@ + m@,
        EhError::BinaryNotFound { binary } => "no package found providing binary '"@ + binary@
            + "'"@,
        EhError::AmbiguousBinary { binary, candidates } => "multiple packages provide binary '"@
            + binary@ + "': "@ + debug_list_text(views(candidates@)),
        EhError::NixCommandFailed { command } => "nix "@ + command@ + " failed"@,
        EhError::Io(m) => "io: "@ + m@,
        EhError::NixCommand(inner) => error_message_of(inner),
        EhError::Regex(m) => "regex: "@ + m@,
        EhError::Utf8(m) => "utf-8 conversion: "@ + m@,
        EhError::HashExtractionFailed { .. } => "could not extract hash from nix output"@,
        EhError::NoNixFilesFound => "no .nix files found in the current directory"@,
        EhError::HashFixFailed { path } => "could not update hash in "@ + path@,
        EhError::ProcessExit { code } => "process exited with code "@ + signed_decimal(code as int),
        EhError::PreEvalFailed { expression, stderr } => "'"@ + expression@ + "' failed to evaluate: "@
            + stderr@,
        EhError::JsonParse { detail } => "failed to parse JSON from nix output: "@ + detail@,
        EhError::NoFlakeInputs => "no flake inputs found in lock file"@,
        EhError::UpdateCancelled => "no inputs selected"@,
        EhError::InvalidEvalInput => "empty nix expression"@,
        EhError::ImpureRequired { command, reason } => "package "@ + reason@
            + " but `--impure` is disabled for `"@ + command@ + "` in config"@,
    }
}

fn joined2(a: &str, b: &str) -> (r: String)
    ensures
        r@ == a@ + b@,
{
    let mut s = a.to_string();
    s.append(b);
    s
}

fn joined3(a: &str, b: &str, c: &str) -> (r: String)
    ensures
        r@ == a@ + b@ + c@,
{
    let mut s = a.to_string();
    s.append(b);
    s.append(c);
    s
}

impl EhError {
    /// The text the error is shown with.
    pub fn message(&self) -> (r: String)
        ensures
            r@ == message_of(*self),
    {
        match self {
            EhError::MissingBinary => "no binary name provided".to_string(),
            EhError::InvalidBinaryName { binary } => joined3("invalid binary name '", binary.as_str(), "'"),
            EhError::SpamIndex(m) => joined2("spam-db database error: ", m.as_str()),
            EhError::BinaryNotFound { binary } => joined3(
                "no package found providing binary '",
                binary.as_str(),
                "'",
            ),
            EhError::AmbiguousBinary { binary, candidates } => {
                let head = joined3("multiple packages provide binary '", binary.as_str(), "': ");
                let list = debug_list(candidates);
                joined2(head.as_str(), list.as_str())
            },
            EhError::NixCommandFailed { command } => joined3("nix ", command.as_str(), " failed"),
            EhError::Io(m) => joined2("io: ", m.as_str()),
            EhError::NixCommand(inner) => inner.message(),
            EhError::Regex(m) => joined2("regex: ", m.as_str()),
            EhError::Utf8(m) => joined2("utf-8 conversion: ", m.as_str()),
            EhError::HashExtractionFailed { .. } => "could not extract hash from nix output".to_string(),
            EhError::NoNixFilesFound => "no .nix files found in the current directory".to_string(),
            EhError::HashFixFailed { path } => joined2("could not update hash in ", path.as_str()),
            EhError::ProcessExit { code } => {
                let digits = signed_decimal_string(*code);
                joined2("process exited with code ", digits.as_str())
            },
            EhError::PreEvalFailed { expression, stderr } => {
                let head = joined3("'", expression.as_str(), "' failed to evaluate: ");
                joined2(head.as_str(), stderr.as_str())
            },
            EhError::JsonParse { detail } => joined2(
                "failed to parse JSON from nix output: ",
                detail.as_str(),
            ),
            EhError::NoFlakeInputs => "no flake inputs found in lock file".to_string(),
            EhError::UpdateCancelled => "no inputs selected".to_string(),
            EhError::InvalidEvalInput => "empty nix expression".to_string(),
            EhError::ImpureRequired { command, reason } => {
                let head = joined3("package ", reason.as_str(), " but `--impure` is disabled for `");
                joined3(head.as_str(), command.as_str(), "` in config")
            },
        }
    }
}

} // verus!
