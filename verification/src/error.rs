//! The errors of the launcher and of a running session.

use vstd::prelude::*;

verus! {

/// Why a session could not be started.
#[derive(Debug, Clone, Copy, PartialEq, Eq, Structural)]
pub enum RunnyError {
    /// An input or output operation failed with this operating system error number.
    RunnyIoError(i32),
    /// The command line names no program, or cannot be split into words.
    NoCommandSpecified,
    /// A terminal or process call failed with this error number.
    NixError(i32),
}

/// Why an operation on a running session failed.
#[derive(Debug, Clone, Copy, PartialEq, Eq, Structural)]
pub enum RunningError {
    /// An input or output operation failed with this operating system error number.
    RunningIoError(i32),
    /// A signal could not be delivered; the payload is the error number.
    RunningNixError(i32),
}

/// Whether `text` is `label` followed by the decimal form of `code`.
pub open spec fn labelled(text: Seq<char>, label: Seq<char>, code: i32) -> bool {
    exists|digits: String| #[trigger]
        vstd::string::to_string_from_display_ensures::<i32>(&code, digits) && text == label
            + digits@
}

/// `label` followed by the decimal form of `code`.
fn with_code(label: &str, code: i32) -> (text: String)
    ensures
        labelled(text@, label@, code),
{
    let digits = code.to_string();
    let text = String::from_str(label).concat(digits.as_str());
    assert(vstd::string::to_string_from_display_ensures::<i32>(&code, digits) && text@ == label@
        + digits@);
    text
}

impl RunnyError {
    /// A line of text that says what went wrong.
    pub fn describe(&self) -> (text: String)
        ensures
            match *self {
                RunnyError::RunnyIoError(code) => labelled(text@, "I/O error: "@, code),
                RunnyError::NoCommandSpecified => text@ == "No command was specified"@,
                RunnyError::NixError(code) => labelled(text@, "Nix library error: "@, code),
            },
    {
        match *self {
            RunnyError::RunnyIoError(code) => with_code("I/O error: ", code),
            RunnyError::NoCommandSpecified => String::from_str("No command was specified"),
            RunnyError::NixError(code) => with_code("Nix library error: ", code),
        }
    }
}

impl RunningError {
    /// A line of text that says what went wrong.
    pub fn describe(&self) -> (text: String)
        ensures
            match *self {
                RunningError::RunningIoError(code) => labelled(
                    text@,
                    "Running I/O error: "@,
                    code,
                ),
                RunningError::RunningNixError(code) => labelled(
                    text@,
                    "Running Nix error: "@,
                    code,
                ),
            },
    {
        match *self {
            RunningError::RunningIoError(code) => with_code("Running I/O error: ", code),
            RunningError::RunningNixError(code) => with_code("Running Nix error: ", code),
        }
    }
}

} // verus!
