//! Log records: what the supervisor hands to the log sink.

use vstd::prelude::*;
use vstd::string::*;

verus! {

/// How grave a log record is.
#[derive(Clone, Copy, Debug, PartialEq, Eq)]
pub enum Severity {
    Debug,
    Info,
    Warn,
    Error,
}

/// One record for the log.
#[derive(Clone, Debug, PartialEq, Eq)]
pub struct LogRecord {
    pub severity: Severity,
    pub message: String,
}

impl View for LogRecord {
    type V = (Severity, Seq<char>);

    open spec fn view(&self) -> (Severity, Seq<char>) {
        (self.severity, self.message@)
    }
}

impl LogRecord {
    /// A record whose message is `tag` followed by `text`.
    pub fn tagged(severity: Severity, tag: &str, text: &str) -> (record: LogRecord)
        ensures
            record@ == (severity, tag@ + text@),
    {
        let mut message = String::from_str(tag);
        message.append(text);
        LogRecord { severity, message }
    }
}

} // verus!
