//! Log line formatting. Printing itself is left to the embedding
//! program; the library only builds the text.

use vstd::prelude::*;
use vstd::string::StringExecFns;
use crate::color::{color_text, spec_foreground, Color};

verus! {

/// How severe a diagnostic is.
#[derive(Clone, Copy, Debug, PartialEq, Eq, Structural)]
pub enum LogLevel {
    Info,
    Warning,
    Error,
}

/// The text of one log line: informational messages as they are,
/// warnings and errors behind a colored severity tag.
pub open spec fn spec_log_line(level: LogLevel, msg: Seq<char>) -> Seq<char> {
    match level {
        LogLevel::Info => msg,
        LogLevel::Warning => spec_foreground(Color::BrightYellow) + "warning"@ + "\u{1b}["@
            + "0"@ + "m"@ + ": "@ + msg,
        LogLevel::Error => spec_foreground(Color::BrightRed) + "error"@ + "\u{1b}["@ + "0"@
            + "m"@ + ": "@ + msg,
    }
}

/// Builds the text of one log line.
pub fn format_log_line(level: LogLevel, msg: &str) -> (r: String)
    ensures
        r@ == spec_log_line(level, msg@),
{
    match level {
        LogLevel::Info => msg.to_owned(),
        LogLevel::Warning => {
            let mut s = color_text("warning", Color::BrightYellow);
            s.append(": ");
            s.append(msg);
            s
        },
        LogLevel::Error => {
            let mut s = color_text("error", Color::BrightRed);
            s.append(": ");
            s.append(msg);
            s
        },
    }
}

} // verus!
