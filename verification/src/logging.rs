//! Log lines of the server.
use vstd::prelude::*;

verus! {

/// The timestamp written when the clock cannot be formatted.
pub open spec fn fallback_timestamp() -> Seq<char> {
    "0000-00-00 00:00:00"@
}

/// The timestamp written when the clock cannot be formatted.
pub fn fallback_time() -> (t: String)
    ensures
        t@ == fallback_timestamp(),
{
    String::from_str("0000-00-00 00:00:00")
}

/// A log message with its timestamp: the timestamp in brackets in yellow,
/// then the message in magenta.
pub open spec fn timed(timestamp: Seq<char>, msg: Seq<char>) -> Seq<char> {
    "\x1b[33m["@ + timestamp + "]\x1b[35m "@ + msg + "\x1b[0m"@
}

/// Creates the timestamped log line of a message.
pub fn timed_message(timestamp: &str, msg: &str) -> (line: String)
    ensures
        line@ == timed(timestamp@, msg@),
{
    let mut line = String::from_str("\x1b[33m[");
    line.append(timestamp);
    line.append("]\x1b[35m ");
    line.append(msg);
    line.append("\x1b[0m");
    line
}

/// The log line of a replaced item: its index and the debug text of the
/// item that was there.
pub open spec fn replaced_item_log(index: usize, old_item: Seq<char>) -> Seq<char> {
    "Replaced item "@ + crate::text::decimal(index as nat) + ": was "@ + old_item
}

/// The log line of a replaced item.
pub fn replaced_item_message(index: usize, old_item: &str) -> (line: String)
    ensures
        line@ == replaced_item_log(index, old_item@),
{
    let mut line = String::from_str("Replaced item ");
    crate::text::push_decimal(&mut line, index);
    line.append(": was ");
    line.append(old_item);
    line
}

} // verus!
