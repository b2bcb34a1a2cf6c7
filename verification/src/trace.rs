//! The lines of the startup trace log.
//!
//! Every entry of the trace log is one line: the local time at which it was
//! written, between square brackets, and the message.

use vstd::prelude::*;
use vstd::string::*;

verus! {

/// The `strftime` pattern of the time stamps: year, month, day, hour, minute, second.
pub open spec fn stamp_format() -> Seq<char> {
    "%Y-%m-%d %H:%M:%S"@
}

/// A character that can occur in a time stamp: a digit, one of the separators
/// of the pattern, or the sign of a year with more than four digits.
pub open spec fn is_stamp_char(c: char) -> bool {
    ('0' <= c && c <= '9') || c == '-' || c == ' ' || c == ':' || c == '+'
}

/// What holds of every time stamp, whatever the time: it is made of the
/// characters above, at least nineteen of them.
pub open spec fn is_stamp(stamp: Seq<char>) -> bool {
    &&& stamp.len() >= 19
    &&& forall|i: int| 0 <= i < stamp.len() ==> is_stamp_char(#[trigger] stamp[i])
}

/// The trace log line that holds `message`, written at the time `stamp`.
pub open spec fn trace_line_text(stamp: Seq<char>, message: Seq<char>) -> Seq<char> {
    "["@ + stamp + "] "@ + message + "\n"@
}

/// Reads the clock with `chrono::Local::now` and formats the local time with
/// `chrono::DateTime::format`. The text depends on the clock and on the time
/// zone of the machine, so the contract says only what the pattern fixes: which
/// characters occur, and the least length. The pattern is pinned because chrono
/// fails on a malformed one. chrono also panics where the clock stands before
/// 1970; no contract can rule that out.
#[verifier::external_body]
fn local_time_text(format: &str) -> (stamp: String)
    requires
        format@ == stamp_format(),
    ensures
        is_stamp(stamp@),
{
    chrono::Local::now().format(format).to_string()
}

/// The trace log line for `message` with the time stamp `stamp`.
pub fn trace_line(stamp: &str, message: &str) -> (line: String)
    ensures
        line@ == trace_line_text(stamp@, message@),
{
    let mut line = String::from_str("[");
    line.append(stamp);
    line.append("] ");
    line.append(message);
    line.append("\n");
    line
}

/// The trace log line for `message`, stamped with the local time of the call.
pub fn stamped_line(message: &str) -> (line: String)
    ensures
        exists|stamp: Seq<char>| is_stamp(stamp) && line@ == #[trigger] trace_line_text(stamp, message@),
{
    let stamp = local_time_text("%Y-%m-%d %H:%M:%S");
    trace_line(stamp.as_str(), message)
}

} // verus!
