//! The lines that the bridge writes to the standard error stream.
//!
//! Every line starts with the same tag, so that a reader of a shared stream
//! can tell who wrote it. A line is returned without its line break.

use crate::decimal::{decimal, decimal_text};
use vstd::prelude::*;

verus! {

/// The tag that every line of the bridge starts with.
pub open spec fn tag() -> Seq<char> {
    "bootc-bridge: "@
}

/// The line for a call that is turned away: the tag, then the complaint with
/// the argument count that the caller gave, in decimal.
pub open spec fn invalid_arguments_text(argc: int) -> Seq<char> {
    tag() + "invalid arguments (argc="@ + decimal(argc) + ")"@
}

/// The line for a failure of the engine: the tag, then the engine's own
/// description, unchanged.
pub open spec fn failure_text(description: Seq<char>) -> Seq<char> {
    tag() + description
}

/// Builds the line for a call that is turned away.
pub fn invalid_arguments_line(argc: i32) -> (line: String)
    ensures
        line@ == invalid_arguments_text(argc as int),
{
    let mut line: String = String::from_str("bootc-bridge: ");
    line.append("invalid arguments (argc=");
    let count: String = decimal_text(argc);
    line.append(count.as_str());
    line.append(")");
    line
}

/// Builds the line for a failure that the engine described as `description`.
pub fn failure_line(description: &str) -> (line: String)
    ensures
        line@ == failure_text(description@),
{
    let mut line: String = String::from_str("bootc-bridge: ");
    line.append(description);
    line
}

/// Every line of the bridge starts with the tag, which is not empty, and a
/// failure line goes on with the engine's description and nothing else.
pub proof fn lines_start_with_tag(argc: int, description: Seq<char>)
    ensures
        tag().len() > 0,
        tag().is_prefix_of(invalid_arguments_text(argc)),
        tag().is_prefix_of(failure_text(description)),
        failure_text(description).skip(tag().len() as int) == description,
{
    reveal_strlit("bootc-bridge: ");
    assert(failure_text(description).skip(tag().len() as int) =~= description);
}

} // verus!
