//! Screenshots: how the capture tool is called, and what its end means.
//!
//! The caller runs the tool. This module says with which arguments, and turns
//! what the run came to into the answer for the user.

use vstd::prelude::*;
use vstd::string::*;

verus! {

/// The capture tool.
pub const SCREENCAPTURE: &'static str = "/usr/sbin/screencapture";

/// What a run of the capture tool came to.
#[derive(Clone, Debug, PartialEq, Eq)]
pub enum CaptureOutcome {
    /// The tool could not be started.
    SpawnFailed { message: String },
    /// The tool was started and waiting for its end failed.
    WaitFailed { message: String },
    /// The tool ended, with this exit code where it has one.
    Exited { success: bool, code: Option<i32> },
}

/// An exit code as the text that debug formatting gives for it.
pub uninterp spec fn exit_code_text(code: Option<i32>) -> Seq<char>;

/// Formats an exit code with `format!` and `{:?}`. The contract only names
/// the result.
#[verifier::external_body]
fn format_exit_code(code: Option<i32>) -> (text: String)
    ensures
        text@ == exit_code_text(code),
{
    format!("{:?}", code)
}

/// The arguments of the capture tool: interactive, silent, into `filename`.
pub fn capture_arguments(filename: &str) -> (arguments: Vec<String>)
    ensures
        arguments@.len() == 3,
        arguments@[0]@ == "-i"@,
        arguments@[1]@ == "-x"@,
        arguments@[2]@ == filename@,
{
    let mut arguments: Vec<String> = Vec::new();
    arguments.push(String::from_str("-i"));
    arguments.push(String::from_str("-x"));
    arguments.push(String::from_str(filename));
    arguments
}

/// The answer for the user, given what the run of the capture tool came to:
/// the name of the file where the tool ended with success, else what went
/// wrong.
pub open spec fn spec_take_screenshot(filename: Seq<char>, outcome: CaptureOutcome) -> Result<
    Seq<char>,
    Seq<char>,
> {
    match outcome {
        CaptureOutcome::SpawnFailed { message } => Err("Failed to take screenshot: "@ + message@),
        CaptureOutcome::WaitFailed { message } => Err(
            "Failed to wait for screenshot process: "@ + message@,
        ),
        CaptureOutcome::Exited { success, code } => if success {
            Ok(filename)
        } else {
            Err("Screenshot process failed with exit code: "@ + exit_code_text(code))
        },
    }
}

/// Turns what a run of the capture tool came to into the answer for the user.
pub fn take_screenshot(filename: &str, outcome: CaptureOutcome) -> (r: Result<String, String>)
    ensures
        match r {
            Ok(name) => spec_take_screenshot(filename@, outcome) == Ok::<Seq<char>, Seq<char>>(
                name@,
            ),
            Err(text) => spec_take_screenshot(filename@, outcome) == Err::<Seq<char>, Seq<char>>(
                text@,
            ),
        },
{
    match outcome {
        CaptureOutcome::SpawnFailed { message } => {
            let mut text = String::from_str("Failed to take screenshot: ");
            text.append(message.as_str());
            Err(text)
        },
        CaptureOutcome::WaitFailed { message } => {
            let mut text = String::from_str("Failed to wait for screenshot process: ");
            text.append(message.as_str());
            Err(text)
        },
        CaptureOutcome::Exited { success, code } => {
            if success {
                Ok(String::from_str(filename))
            } else {
                let mut text = String::from_str("Screenshot process failed with exit code: ");
                text.append(format_exit_code(code).as_str());
                Err(text)
            }
        },
    }
}

} // verus!
