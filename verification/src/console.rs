//! How console lines are coloured: by the tag they start with.

use vstd::prelude::*;
use crate::message::{error_line, error_tag, finished_line, system_tag};
use crate::text::{has_prefix, text_starts_with};

verus! {

/// The colour family of a console line.
#[derive(Clone, Copy, Debug, PartialEq, Eq)]
pub enum LineKind {
    /// A line tagged `[ERROR]`.
    Error,
    /// A line tagged `[SYSTEM]`.
    System,
    /// Any other line, as the decompiler wrote it.
    Plain,
}

/// The kind of a console line: an `[ERROR]` tag wins over a `[SYSTEM]` tag.
pub open spec fn line_kind(line: Seq<char>) -> LineKind {
    if text_starts_with(line, error_tag()) {
        LineKind::Error
    } else if text_starts_with(line, system_tag()) {
        LineKind::System
    } else {
        LineKind::Plain
    }
}

/// The kind of a console line, which decides its colour.
pub fn classify_line(line: &str) -> (k: LineKind)
    ensures
        k == line_kind(line@),
{
    if has_prefix(line, "[ERROR]") {
        LineKind::Error
    } else if has_prefix(line, "[SYSTEM]") {
        LineKind::System
    } else {
        LineKind::Plain
    }
}

/// Every error text the front end writes to the console is shown as an error.
pub proof fn lemma_error_lines_are_errors(e: Seq<char>)
    ensures
        line_kind(error_line(e)) == LineKind::Error,
{
    reveal_strlit("[ERROR] ");
    reveal_strlit("[ERROR]");
    assert(error_line(e).subrange(0, 7) =~= error_tag());
}

/// A line that starts with the `[SYSTEM]` tag is shown as a system line.
pub proof fn lemma_system_tagged_lines_are_system(line: Seq<char>)
    requires
        text_starts_with(line, system_tag()),
    ensures
        line_kind(line) == LineKind::System,
{
    reveal_strlit("[SYSTEM]");
    reveal_strlit("[ERROR]");
    assert(line[1] == line.subrange(0, 8)[1]);
    assert(line.subrange(0, 8)[1] == system_tag()[1]);
    assert(line.subrange(0, 7)[1] != error_tag()[1]);
}

/// The line that reports a finished run is shown as a system line.
pub proof fn lemma_finished_line_is_system()
    ensures
        line_kind(finished_line()) == LineKind::System,
{
    reveal_strlit("[SYSTEM] Decompilation finished successfully!");
    reveal_strlit("[SYSTEM]");
    assert(finished_line().subrange(0, 8) =~= system_tag());
    lemma_system_tagged_lines_are_system(finished_line());
}

/// A line's kind is decided by its first characters alone: a line that
/// starts with `[ERROR]` is an error line; one that starts with `[SYSTEM]`
/// (and so not with `[ERROR]`) is a system line; any other line, whatever it
/// holds after its start, is plain.
pub proof fn lemma_kind_by_tag(line: Seq<char>)
    ensures
        (line.len() >= 7 && line.subrange(0, 7) == "[ERROR]"@) ==> line_kind(line) == LineKind::Error,
        (line.len() >= 8 && line.subrange(0, 8) == "[SYSTEM]"@) ==> line_kind(line) == LineKind::System,
        !(line.len() >= 7 && line.subrange(0, 7) == "[ERROR]"@) && !(line.len() >= 8 && line.subrange(0, 8)
            == "[SYSTEM]"@) ==> line_kind(line) == LineKind::Plain,
{
    reveal_strlit("[ERROR]");
    reveal_strlit("[SYSTEM]");
    if line.len() >= 8 && line.subrange(0, 8) == "[SYSTEM]"@ {
        lemma_system_tagged_lines_are_system(line);
    }
}

} // verus!
