//! Rendering one record into one output line.
//!
//! The output file is UTF-8 text, one line per record, in the shape
//! `<timestamp> [<LEVEL>] <message>` followed by a newline.

use vstd::prelude::*;
use vstd::string::*;
use crate::level::Level;

verus! {

/// The body of a rendered line: everything before the terminating newline.
pub open spec fn line_body(stamp: Seq<char>, level: Level, text: Seq<char>) -> Seq<char> {
    stamp + " ["@ + level.label() + "] "@ + text
}

/// One full rendered line, newline included.
pub open spec fn line_of(stamp: Seq<char>, level: Level, text: Seq<char>) -> Seq<char> {
    line_body(stamp, level, text) + "\n"@
}

/// Renders one record, already realized to its `text`, into the line that the
/// writer appends to the sink.
pub fn format_line(stamp: &str, level: Level, text: &str) -> (r: String)
    ensures
        r@ == line_of(stamp@, level, text@),
{
    let mut r = String::from_str(stamp);
    r.append(" [");
    r.append(level.as_str());
    r.append("] ");
    r.append(text);
    r.append("\n");
    proof {
        assert(r@ =~= line_of(stamp@, level, text@));
    }
    r
}

} // verus!
