//! The errors that every module can report.

use crate::text::{decimal_string, decimal_text};
use vstd::prelude::*;
use vstd::string::*;

verus! {

/// Errors shared by every module. Operating-system errors and paths are
/// held as the text that describes them.
#[derive(Clone, Debug, PartialEq, Eq)]
pub enum BaseErr {
    TerminalInitFailed(String),
    TerminalRestoreFailed(String),
    TerminalTooSmall { width: u16, height: u16, min_width: u16, min_height: u16 },
    Io(String),
    DirectoryResolutionFailed(String),
    ConfigNotFound { path: String },
    ConfigParseError { path: String, reason: String },
    Serialization(String),
}

/// The message that describes `e`.
pub open spec fn base_err_text(e: BaseErr) -> Seq<char> {
    match e {
        BaseErr::TerminalInitFailed(m) => "Failed to initialize terminal: "@ + m@,
        BaseErr::TerminalRestoreFailed(m) => "Failed to restore terminal state: "@ + m@,
        BaseErr::TerminalTooSmall { width, height, min_width, min_height } =>
            "Terminal window size too small: current "@ + decimal_text(width as nat) + "x"@
                + decimal_text(height as nat) + ", required min "@ + decimal_text(
                min_width as nat,
            ) + "x"@ + decimal_text(min_height as nat),
        BaseErr::Io(m) => "Standard I/O error: "@ + m@,
        BaseErr::DirectoryResolutionFailed(m) => "Failed to resolve application directory: "@
            + m@,
        BaseErr::ConfigNotFound { path } => "Configuration file not found at "@ + path@,
        BaseErr::ConfigParseError { path, reason } => "Failed to parse configuration: "@
            + reason@,
        BaseErr::Serialization(m) => "Serialization error: "@ + m@,
    }
}

/// `prefix` followed by `rest`.
pub fn prefixed(prefix: &str, rest: &str) -> (r: String)
    ensures
        r@ == prefix@ + rest@,
{
    let mut s = String::from_str(prefix);
    s.append(rest);
    s
}

impl BaseErr {
    /// The message that describes this error.
    pub fn message(&self) -> (r: String)
        ensures
            r@ == base_err_text(*self),
    {
        match self {
            BaseErr::TerminalInitFailed(m) => prefixed(
                "Failed to initialize terminal: ",
                m.as_str(),
            ),
            BaseErr::TerminalRestoreFailed(m) => prefixed(
                "Failed to restore terminal state: ",
                m.as_str(),
            ),
            BaseErr::TerminalTooSmall { width, height, min_width, min_height } => {
                let mut s = prefixed(
                    "Terminal window size too small: current ",
                    decimal_string(*width as u64).as_str(),
                );
                s.append("x");
                s.append(decimal_string(*height as u64).as_str());
                s.append(", required min ");
                s.append(decimal_string(*min_width as u64).as_str());
                s.append("x");
                s.append(decimal_string(*min_height as u64).as_str());
                s
            },
            BaseErr::Io(m) => prefixed("Standard I/O error: ", m.as_str()),
            BaseErr::DirectoryResolutionFailed(m) => prefixed(
                "Failed to resolve application directory: ",
                m.as_str(),
            ),
            BaseErr::ConfigNotFound { path } => prefixed(
                "Configuration file not found at ",
                path.as_str(),
            ),
            BaseErr::ConfigParseError { path, reason } => prefixed(
                "Failed to parse configuration: ",
                reason.as_str(),
            ),
            BaseErr::Serialization(m) => prefixed("Serialization error: ", m.as_str()),
        }
    }
}

} // verus!
