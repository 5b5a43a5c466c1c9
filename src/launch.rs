//! What is reported once the browser was asked to open a URL.

use vstd::prelude::*;

verus! {

/// Where a message goes.
#[derive(Debug, Clone, Copy, PartialEq, Eq, Structural)]
pub enum Channel {
    Stdout,
    Stderr,
}

/// The one message to print, where to print it, and the process's exit status.
#[derive(Debug)]
pub struct Report {
    pub exit_code: i32,
    pub channel: Channel,
    pub message: String,
}

/// Printed when the browser was asked to open the URL.
pub const OPENED: &'static str = "✓ Opened";

/// Printed before the reason when the browser could not be asked.
pub const OPEN_FAILED: &'static str = "✗ Failed to open browser: ";

/// The report for the outcome of asking the system to open the URL: success
/// on standard output with status 0; a failure, with its description, on
/// standard error with status 1 and nothing on standard output.
pub fn report(outcome: &Result<(), String>) -> (r: Report)
    ensures
        outcome is Ok ==> r.exit_code == 0 && r.channel == Channel::Stdout && r.message@
            == OPENED@,
        outcome matches Err(e) ==> r.exit_code == 1 && r.channel == Channel::Stderr
            && r.message@ == OPEN_FAILED@ + e@,
{
    match outcome {
        Ok(()) => Report { exit_code: 0, channel: Channel::Stdout, message: String::from_str(OPENED) },
        Err(e) => {
            let mut message = String::from_str(OPEN_FAILED);
            message.append(e.as_str());
            Report { exit_code: 1, channel: Channel::Stderr, message }
        },
    }
}

} // verus!
