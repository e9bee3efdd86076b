use vstd::prelude::*;
use crate::text::{decimal, decimal_string, signed_decimal, signed_decimal_string};

verus! {

/// The errors of the retrying command runner in [`crate::util`].
#[derive(Debug, PartialEq, Eq)]
pub enum EhError {
    NixCommandFailed { command: String },
    /// An I/O failure; the text of the underlying error.
    Io(String),
    /// A pattern failed to compile; the text of the underlying error.
    Regex(String),
    /// Output was not UTF-8; the text of the underlying error.
    Utf8(String),
    HashExtractionFailed { stderr: String },
    NoNixFilesFound,
    HashFixFailed { path: String },
    ProcessExit { code: i32 },
    CommandFailed { command: String },
    Timeout { command: String, seconds: u64 },
    PreEvalFailed { expression: String, stderr: String },
    InvalidInput { input: String, reason: String },
}

pub type Result<T> = std::result::Result<T, EhError>;

/// What an [`EhError`] holds, as text.
pub enum ErrorView {
    NixCommandFailed(Seq<char>),
    Io(Seq<char>),
    Regex(Seq<char>),
    Utf8(Seq<char>),
    HashExtractionFailed(Seq<char>),
    NoNixFilesFound,
    HashFixFailed(Seq<char>),
    ProcessExit(i32),
    CommandFailed(Seq<char>),
    Timeout(Seq<char>, u64),
    PreEvalFailed(Seq<char>, Seq<char>),
    InvalidInput(Seq<char>, Seq<char>),
}

impl View for EhError {
    type V = ErrorView;

    open spec fn view(&self) -> ErrorView {
        match self {
            EhError::NixCommandFailed { command } => ErrorView::NixCommandFailed(command@),
            EhError::Io(m) => ErrorView::Io(m@),
            EhError::Regex(m) => ErrorView::Regex(m@),
            EhError::Utf8(m) => ErrorView::Utf8(m@),
            EhError::HashExtractionFailed { stderr } => ErrorView::HashExtractionFailed(stderr@),
            EhError::NoNixFilesFound => ErrorView::NoNixFilesFound,
            EhError::HashFixFailed { path } => ErrorView::HashFixFailed(path@),
            EhError::ProcessExit { code } => ErrorView::ProcessExit(*code),
            EhError::CommandFailed { command } => ErrorView::CommandFailed(command@),
            EhError::Timeout { command, seconds } => ErrorView::Timeout(command@, *seconds),
            EhError::PreEvalFailed { expression, stderr } => ErrorView::PreEvalFailed(
                expression@,
                stderr@,
            ),
            EhError::InvalidInput { input, reason } => ErrorView::InvalidInput(input@, reason@),
        }
    }
}

/// The text view of a result.
pub open spec fn result_view(r: Result<i32>) -> std::result::Result<i32, ErrorView> {
    match r {
        Ok(c) => Ok(c),
        Err(e) => Err(e@),
    }
}

/// The process exit code for each error.
pub open spec fn exit_code_of(e: EhError) -> i32 {
    match e {
        EhError::ProcessExit { code } => code,
        EhError::NixCommandFailed { .. } => 2,
        EhError::CommandFailed { .. } => 3,
        EhError::HashExtractionFailed { .. } => 4,
        EhError::NoNixFilesFound => 5,
        EhError::HashFixFailed { .. } => 6,
        EhError::InvalidInput { .. } => 7,
        EhError::Io(_) => 8,
        EhError::Regex(_) => 9,
        EhError::Utf8(_) => 10,
        EhError::Timeout { .. } => 11,
        EhError::PreEvalFailed { .. } => 12,
    }
}

/// The advice printed under each error, where there is one.
pub open spec fn hint_of(e: EhError) -> Option<Seq<char>> {
    match e {
        EhError::NixCommandFailed { .. } => Some(
            "Run with --show-trace for more details from nix"@,
        ),
        EhError::PreEvalFailed { .. } => Some(
            "Check that the expression exists in the flake and is spelled correctly"@,
        ),
        EhError::HashExtractionFailed { .. } => Some(
            "The nix output contained a hash mismatch but the hash could not be parsed"@,
        ),
        EhError::NoNixFilesFound => Some(
            "Run this command from a directory containing .nix files"@,
        ),
        EhError::Timeout { .. } => Some(
            "The command took too long; try a faster network or a smaller derivation"@,
        ),
        EhError::InvalidInput { .. } => Some("Avoid shell metacharacters in nix arguments"@),
        _ => None,
    }
}

impl EhError {
    pub fn exit_code(&self) -> (r: i32)
        ensures
            r == exit_code_of(*self),
    {
        match self {
            EhError::ProcessExit { code } => *code,
            EhError::NixCommandFailed { .. } => 2,
            EhError::CommandFailed { .. } => 3,
            EhError::HashExtractionFailed { .. } => 4,
            EhError::NoNixFilesFound => 5,
            EhError::HashFixFailed { .. } => 6,
            EhError::InvalidInput { .. } => 7,
            EhError::Io(_) => 8,
            EhError::Regex(_) => 9,
            EhError::Utf8(_) => 10,
            EhError::Timeout { .. } => 11,
            EhError::PreEvalFailed { .. } => 12,
        }
    }

    pub fn hint(&self) -> (r: Option<&'static str>)
        ensures
            match r {
                Some(h) => hint_of(*self) == Some(h@),
                None => hint_of(*self) is None,
            },
    {
        match self {
            EhError::NixCommandFailed { .. } => Some(
                "Run with --show-trace for more details from nix",
            ),
            EhError::PreEvalFailed { .. } => Some(
                "Check that the expression exists in the flake and is spelled correctly",
            ),
            EhError::HashExtractionFailed { .. } => Some(
                "The nix output contained a hash mismatch but the hash could not be parsed",
            ),
            EhError::NoNixFilesFound => Some(
                "Run this command from a directory containing .nix files",
            ),
            EhError::Timeout { .. } => Some(
                "The command took too long; try a faster network or a smaller derivation",
            ),
            EhError::InvalidInput { .. } => Some("Avoid shell metacharacters in nix arguments"),
            _ => None,
        }
    }
}


/// The text each error is shown with.
pub open spec fn message_of(e: EhError) -> Seq<char> {
    match e {
        EhError::NixCommandFailed { command } => "Nix command 'nix "@ + command@ + "' failed"@,
        EhError::Io(m) => "IO error: "@ + m@,
        EhError::Regex(m) => "Regex error: "@ + m@,
        EhError::Utf8(m) => "UTF-8 conversion error: "@ + m@,
        EhError::HashExtractionFailed { .. } =>
            "Hash extraction failed: could not parse hash from nix output"@,
        EhError::NoNixFilesFound => "No Nix files found in the current directory"@,
        EhError::HashFixFailed { path } => "Failed to fix hash in file: "@ + path@,
        EhError::ProcessExit { code } => "Process exited with code: "@ + signed_decimal(code as int),
        EhError::CommandFailed { command } => "Command execution failed: "@ + command@,
        EhError::Timeout { command, seconds } => "Command '"@ + command@ + "' timed out after "@
            + decimal(seconds as nat) + " seconds"@,
        EhError::PreEvalFailed { expression, stderr } => "Pre-evaluation of '"@ + expression@
            + "' failed: "@ + stderr@,
        EhError::InvalidInput { input, reason } => "Invalid input: "@ + input@ + " - "@ + reason@,
    }
}

fn concat2(a: &str, b: &str) -> (r: String)
    ensures
        r@ == a@ + b@,
{
    let mut s = a.to_string();
    s.append(b);
    s
}

fn concat3(a: &str, b: &str, c: &str) -> (r: String)
    ensures
        r@ == a@ + b@ + c@,
{
    let mut s = a.to_string();
    s.append(b);
    s.append(c);
    s
}

impl EhError {
    /// The text the error is shown with.
    pub fn message(&self) -> (r: String)
        ensures
            r@ == message_of(*self),
    {
        match self {
            EhError::NixCommandFailed { command } => concat3("Nix command 'nix ", command.as_str(), "' failed"),
            EhError::Io(m) => concat2("IO error: ", m.as_str()),
            EhError::Regex(m) => concat2("Regex error: ", m.as_str()),
            EhError::Utf8(m) => concat2("UTF-8 conversion error: ", m.as_str()),
            EhError::HashExtractionFailed { .. } => "Hash extraction failed: could not parse hash from nix output".to_string(),
            EhError::NoNixFilesFound => "No Nix files found in the current directory".to_string(),
            EhError::HashFixFailed { path } => concat2("Failed to fix hash in file: ", path.as_str()),
            EhError::ProcessExit { code } => {
                let digits = signed_decimal_string(*code);
                concat2("Process exited with code: ", digits.as_str())
            },
            EhError::CommandFailed { command } => concat2("Command execution failed: ", command.as_str()),
            EhError::Timeout { command, seconds } => {
                let head = concat3("Command '", command.as_str(), "' timed out after ");
                let digits = decimal_string(*seconds);
                concat3(head.as_str(), digits.as_str(), " seconds")
            },
            EhError::PreEvalFailed { expression, stderr } => {
                let head = concat3("Pre-evaluation of '", expression.as_str(), "' failed: ");
                concat2(head.as_str(), stderr.as_str())
            },
            EhError::InvalidInput { input, reason } => {
                let head = concat3("Invalid input: ", input.as_str(), " - ");
                concat2(head.as_str(), reason.as_str())
            },
        }
    }
}

} // verus!
