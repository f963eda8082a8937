//! The small tables the printed reports go by: which sign and which colour
//! stands for a kind of fact or of link.

use crate::text::{decimal, push_decimal, same_text};
use vstd::prelude::*;

verus! {

/// The sign before a kind of fact in the statistics.
pub open spec fn fact_icon_of(kind: Seq<char>) -> Seq<char> {
    if kind == "world"@ {
        "🌍"@
    } else if kind == "agent"@ {
        "🤖"@
    } else if kind == "opinion"@ {
        "💭"@
    } else {
        "•"@
    }
}

/// The sign before a kind of link in the statistics.
pub open spec fn link_icon_of(kind: Seq<char>) -> Seq<char> {
    if kind == "temporal"@ {
        "⏰"@
    } else if kind == "semantic"@ {
        "🔤"@
    } else if kind == "entity"@ {
        "🏷️"@
    } else {
        "•"@
    }
}

/// The sign before a fact that is printed on its own; a fact of no known
/// kind gets a note.
pub open spec fn fact_marker_of(kind: Seq<char>) -> Seq<char> {
    if kind == "world"@ {
        "🌍"@
    } else if kind == "agent"@ {
        "🤖"@
    } else if kind == "opinion"@ {
        "💭"@
    } else {
        "📝"@
    }
}

/// The name of the colour a kind of fact is printed in.
pub open spec fn fact_color_of(kind: Seq<char>) -> Seq<char> {
    if kind == "world"@ {
        "cyan"@
    } else if kind == "agent"@ {
        "magenta"@
    } else if kind == "opinion"@ {
        "yellow"@
    } else {
        "white"@
    }
}

/// The sign before a kind of fact in the statistics.
pub fn fact_icon(kind: &str) -> (icon: &'static str)
    ensures
        icon@ == fact_icon_of(kind@),
{
    if same_text(kind, "world") {
        "🌍"
    } else if same_text(kind, "agent") {
        "🤖"
    } else if same_text(kind, "opinion") {
        "💭"
    } else {
        "•"
    }
}

/// The sign before a kind of link in the statistics.
pub fn link_icon(kind: &str) -> (icon: &'static str)
    ensures
        icon@ == link_icon_of(kind@),
{
    if same_text(kind, "temporal") {
        "⏰"
    } else if same_text(kind, "semantic") {
        "🔤"
    } else if same_text(kind, "entity") {
        "🏷️"
    } else {
        "•"
    }
}

/// The sign before a fact that is printed on its own.
pub fn fact_marker(kind: &str) -> (marker: &'static str)
    ensures
        marker@ == fact_marker_of(kind@),
{
    if same_text(kind, "world") {
        "🌍"
    } else if same_text(kind, "agent") {
        "🤖"
    } else if same_text(kind, "opinion") {
        "💭"
    } else {
        "📝"
    }
}

/// The name of the colour a kind of fact is printed in.
pub fn fact_color(kind: &str) -> (color: &'static str)
    ensures
        color@ == fact_color_of(kind@),
{
    if same_text(kind, "world") {
        "cyan"
    } else if same_text(kind, "agent") {
        "magenta"
    } else if same_text(kind, "opinion") {
        "yellow"
    } else {
        "white"
    }
}

/// Pending and failed operations are reported only when there are any.
pub fn shows_operations(pending: i64, failed: i64) -> (shown: bool)
    ensures
        shown == (pending > 0 || failed > 0),
{
    pending > 0 || failed > 0
}

/// The line that says how many banks were found.
pub fn bank_count_line(count: usize) -> (line: String)
    ensures
        line@ == "Found "@ + decimal(count as nat) + " bank(s)"@,
{
    let mut line = String::from_str("Found ");
    push_decimal(&mut line, count as u64);
    line.append(" bank(s)");
    line
}

} // verus!
