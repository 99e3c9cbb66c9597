//! What the background worker reports, and how each report is written to the console.

use vstd::prelude::*;
use crate::text::join_text;

verus! {

/// A report of the background worker to the interface.
#[derive(Clone, Debug, PartialEq)]
pub enum DecompileMessage {
    /// A line of the decompiler's output.
    Log(String),
    /// The decompiler exited successfully.
    Success,
    /// The run failed, with the reason.
    Error(String),
}

/// The mathematical value of a [`DecompileMessage`].
pub enum MessageView {
    Log(Seq<char>),
    Success,
    Error(Seq<char>),
}

impl View for DecompileMessage {
    type V = MessageView;

    open spec fn view(&self) -> MessageView {
        match self {
            DecompileMessage::Log(l) => MessageView::Log(l@),
            DecompileMessage::Success => MessageView::Success,
            DecompileMessage::Error(e) => MessageView::Error(e@),
        }
    }
}

/// The prefix of console lines that report errors.
pub open spec fn error_tag() -> Seq<char> {
    "[ERROR]"@
}

/// The prefix of console lines written by the front end itself.
pub open spec fn system_tag() -> Seq<char> {
    "[SYSTEM]"@
}

/// The console line that reports a successful run.
pub open spec fn finished_line() -> Seq<char> {
    "[SYSTEM] Decompilation finished successfully!"@
}

/// An error text as written to the console.
pub open spec fn error_line(e: Seq<char>) -> Seq<char> {
    "[ERROR] "@ + e
}

/// Whether a message ends the run.
pub open spec fn ends_run(m: MessageView) -> bool {
    m is Success || m is Error
}

/// The console line that a message adds.
pub open spec fn message_line(m: MessageView) -> Seq<char> {
    match m {
        MessageView::Log(l) => l,
        MessageView::Success => finished_line(),
        MessageView::Error(e) => error_line(e),
    }
}

/// Writes an error text as a console line: `[ERROR] ` followed by the text.
pub fn error_console_line(e: &str) -> (r: String)
    ensures
        r@ == error_line(e@),
{
    join_text("[ERROR] ", e)
}

impl DecompileMessage {
    /// Whether this message ends the run.
    pub fn ends_run(&self) -> (r: bool)
        ensures
            r == ends_run(self@),
    {
        match self {
            DecompileMessage::Log(_) => false,
            _ => true,
        }
    }

    /// The console line that this message adds.
    pub fn console_line(&self) -> (r: String)
        ensures
            r@ == message_line(self@),
    {
        match self {
            DecompileMessage::Log(l) => l.clone(),
            DecompileMessage::Success => String::from_str(
                "[SYSTEM] Decompilation finished successfully!",
            ),
            DecompileMessage::Error(e) => error_console_line(e.as_str()),
        }
    }
}

} // verus!
