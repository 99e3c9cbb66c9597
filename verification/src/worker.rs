//! The background worker's decisions: which command it runs, whether the
//! embedded decompiler must be written out first, and which message it sends
//! for each thing that happens to the subprocess.

use vstd::prelude::*;
use crate::message::{DecompileMessage, MessageView, ends_run, error_line};
use crate::text::join_text;

verus! {

/// A program to run and its arguments.
#[derive(Clone, Debug, PartialEq)]
pub struct DecompileCommand {
    pub program: String,
    pub args: Vec<String>,
}

/// The arguments that run the CFR jar at `jar` on `source`, writing into `dest`.
pub open spec fn decompiler_args(jar: Seq<char>, source: Seq<char>, dest: Seq<char>) -> Seq<Seq<char>> {
    seq!["-jar"@, jar, source, "--outputdir"@, dest]
}

/// The reason given when the Java runtime cannot be started.
pub open spec fn spawn_failed_text(e: Seq<char>) -> Seq<char> {
    "Failed to spawn Java. Is Java installed and in your PATH? Error: "@ + e
}

/// The reason given when the decompiler exits with a failure status.
pub open spec fn exit_failed_text(status: Seq<char>) -> Seq<char> {
    "CFR Decompiler exited with error code: "@ + status
}

/// The reason given when waiting for the decompiler fails.
pub open spec fn wait_failed_text(e: Seq<char>) -> Seq<char> {
    "Failed to wait for decompiler process: "@ + e
}

/// The command that decompiles `source` into `dest` with the CFR jar at `jar`:
/// `java -jar <jar> <source> --outputdir <dest>`.
pub fn decompiler_command(jar: &str, source: &str, dest: &str) -> (c: DecompileCommand)
    ensures
        c.program@ == "java"@,
        c.args.deep_view() == decompiler_args(jar@, source@, dest@),
{
    let mut args: Vec<String> = Vec::new();
    args.push(String::from_str("-jar"));
    args.push(String::from_str(jar));
    args.push(String::from_str(source));
    args.push(String::from_str("--outputdir"));
    args.push(String::from_str(dest));
    assert(args.deep_view() =~= decompiler_args(jar@, source@, dest@));
    DecompileCommand { program: String::from_str("java"), args }
}

/// The embedded jar must be written to disk when no file is there or the
/// file there has another length than the embedded bytes.
pub open spec fn jar_write_needed(existing_len: Option<u64>, embedded_len: u64) -> bool {
    existing_len != Some(embedded_len)
}

/// Whether the embedded jar must be written to disk; `existing_len` is the
/// length of the file already there, if any.
pub fn jar_needs_write(existing_len: Option<u64>, embedded_len: u64) -> (r: bool)
    ensures
        r == jar_write_needed(existing_len, embedded_len),
{
    match existing_len {
        Some(n) => n != embedded_len,
        None => true,
    }
}

/// Once the jar has been written, it is not written again: a file of the
/// embedded length is kept, and any other file is replaced.
pub proof fn lemma_written_jar_is_kept(existing_len: Option<u64>, embedded_len: u64)
    ensures
        !jar_write_needed(Some(embedded_len), embedded_len),
        jar_write_needed(existing_len, embedded_len) <==> existing_len != Some(embedded_len),
{
}

/// The message for a line that the decompiler wrote to its standard output.
pub fn stdout_message(line: String) -> (m: DecompileMessage)
    ensures
        m@ == MessageView::Log(line@),
{
    DecompileMessage::Log(line)
}

/// The message for a line that the decompiler wrote to its error output:
/// the line, tagged as an error.
pub fn stderr_message(line: &str) -> (m: DecompileMessage)
    ensures
        m@ == MessageView::Log(error_line(line@)),
{
    DecompileMessage::Log(join_text("[ERROR] ", line))
}

/// The message sent when the Java runtime cannot be started.
pub fn spawn_failed_message(err: &str) -> (m: DecompileMessage)
    ensures
        m@ == MessageView::Error(spawn_failed_text(err@)),
{
    DecompileMessage::Error(
        join_text("Failed to spawn Java. Is Java installed and in your PATH? Error: ", err),
    )
}

/// The message sent when the decompiler exits: success, or the exit status
/// `status` as the reason of the failure.
pub fn exit_message(success: bool, status: &str) -> (m: DecompileMessage)
    ensures
        success ==> m@ == MessageView::Success,
        !success ==> m@ == MessageView::Error(exit_failed_text(status@)),
{
    if success {
        DecompileMessage::Success
    } else {
        DecompileMessage::Error(join_text("CFR Decompiler exited with error code: ", status))
    }
}

/// The message sent when waiting for the decompiler fails.
pub fn wait_failed_message(err: &str) -> (m: DecompileMessage)
    ensures
        m@ == MessageView::Error(wait_failed_text(err@)),
{
    DecompileMessage::Error(join_text("Failed to wait for decompiler process: ", err))
}

/// Where the worker stands in its run.
#[derive(Clone, Copy, Debug, PartialEq, Eq)]
pub enum WorkerPhase {
    /// The decompiler has not been started yet.
    Starting,
    /// The decompiler runs.
    Running,
    /// The worker has sent the run's outcome.
    Finished,
}

/// Something that happens to the worker's subprocess.
#[derive(Clone, Debug, PartialEq)]
pub enum WorkerEvent {
    /// The Java runtime could not be started, for the given reason.
    SpawnFailed(String),
    /// The decompiler started.
    Spawned,
    /// A line on the decompiler's standard output.
    OutputLine(String),
    /// A line on the decompiler's error output.
    ErrorLine(String),
    /// The decompiler exited, successfully or not, with its exit status.
    Exited { success: bool, status: String },
    /// Waiting for the decompiler failed, for the given reason.
    WaitFailed(String),
}

/// The mathematical value of a [`WorkerEvent`].
pub enum EventView {
    SpawnFailed(Seq<char>),
    Spawned,
    OutputLine(Seq<char>),
    ErrorLine(Seq<char>),
    Exited { success: bool, status: Seq<char> },
    WaitFailed(Seq<char>),
}

impl View for WorkerEvent {
    type V = EventView;

    open spec fn view(&self) -> EventView {
        match self {
            WorkerEvent::SpawnFailed(e) => EventView::SpawnFailed(e@),
            WorkerEvent::Spawned => EventView::Spawned,
            WorkerEvent::OutputLine(l) => EventView::OutputLine(l@),
            WorkerEvent::ErrorLine(l) => EventView::ErrorLine(l@),
            WorkerEvent::Exited { success, status } => EventView::Exited {
                success: *success,
                status: status@,
            },
            WorkerEvent::WaitFailed(e) => EventView::WaitFailed(e@),
        }
    }
}

/// The worker's decision on an event: its next phase and the message it sends, if any.
/// A failed start, an exit and a failed wait end a run that has not ended
/// yet; output lines are forwarded whenever they come, as the readers of
/// the pipes run beside the worker; any other event changes nothing.
pub open spec fn worker_next(p: WorkerPhase, e: EventView) -> (WorkerPhase, Option<MessageView>) {
    match e {
        EventView::OutputLine(l) => (p, Some(MessageView::Log(l))),
        EventView::ErrorLine(l) => (p, Some(MessageView::Log(error_line(l)))),
        EventView::SpawnFailed(err) => if p is Starting {
            (WorkerPhase::Finished, Some(MessageView::Error(spawn_failed_text(err))))
        } else {
            (p, None)
        },
        EventView::Spawned => if p is Starting {
            (WorkerPhase::Running, None)
        } else {
            (p, None)
        },
        EventView::Exited { success, status } => if p is Running {
            (
                WorkerPhase::Finished,
                Some(
                    if success {
                        MessageView::Success
                    } else {
                        MessageView::Error(exit_failed_text(status))
                    },
                ),
            )
        } else {
            (p, None)
        },
        EventView::WaitFailed(err) => if p is Running {
            (WorkerPhase::Finished, Some(MessageView::Error(wait_failed_text(err))))
        } else {
            (p, None)
        },
    }
}

/// The view of an optional message.
pub open spec fn opt_message_view(m: Option<DecompileMessage>) -> Option<MessageView> {
    match m {
        Some(x) => Some(x@),
        None => None,
    }
}

/// Decides what the worker does on `event` in phase `phase`.
pub fn worker_step(phase: WorkerPhase, event: WorkerEvent) -> (r: (WorkerPhase, Option<DecompileMessage>))
    ensures
        (r.0, opt_message_view(r.1)) == worker_next(phase, event@),
{
    match event {
        WorkerEvent::OutputLine(l) => (phase, Some(stdout_message(l))),
        WorkerEvent::ErrorLine(l) => (phase, Some(stderr_message(l.as_str()))),
        WorkerEvent::SpawnFailed(err) => match phase {
            WorkerPhase::Starting => (WorkerPhase::Finished, Some(spawn_failed_message(err.as_str()))),
            _ => (phase, None),
        },
        WorkerEvent::Spawned => match phase {
            WorkerPhase::Starting => (WorkerPhase::Running, None),
            _ => (phase, None),
        },
        WorkerEvent::Exited { success, status } => match phase {
            WorkerPhase::Running => (WorkerPhase::Finished, Some(exit_message(success, status.as_str()))),
            _ => (phase, None),
        },
        WorkerEvent::WaitFailed(err) => match phase {
            WorkerPhase::Running => (WorkerPhase::Finished, Some(wait_failed_message(err.as_str()))),
            _ => (phase, None),
        },
    }
}

/// The phase reached and the messages sent after a sequence of events.
pub open spec fn worker_run(p: WorkerPhase, es: Seq<EventView>) -> (WorkerPhase, Seq<MessageView>)
    decreases es.len(),
{
    if es.len() == 0 {
        (p, Seq::empty())
    } else {
        let before = worker_run(p, es.drop_last());
        let step = worker_next(before.0, es.last());
        (
            step.0,
            match step.1 {
                Some(m) => before.1.push(m),
                None => before.1,
            },
        )
    }
}

/// How many of the messages end the run.
pub open spec fn ending_count(ms: Seq<MessageView>) -> nat
    decreases ms.len(),
{
    if ms.len() == 0 {
        0
    } else {
        ending_count(ms.drop_last()) + if ends_run(ms.last()) {
            1nat
        } else {
            0nat
        }
    }
}

/// A worker ends its run with exactly one final message: from the start,
/// whatever happens to the subprocess, it has sent one message that ends the
/// run once it is finished and none before, and once finished it stays so.
pub proof fn lemma_one_final_message(es: Seq<EventView>)
    ensures
        ending_count(worker_run(WorkerPhase::Starting, es).1) == (if worker_run(
            WorkerPhase::Starting,
            es,
        ).0 is Finished {
            1nat
        } else {
            0nat
        }),
    decreases es.len(),
{
    if es.len() > 0 {
        lemma_one_final_message(es.drop_last());
        let before = worker_run(WorkerPhase::Starting, es.drop_last());
        let step = worker_next(before.0, es.last());
        if let Some(m) = step.1 {
            assert(before.1.push(m).drop_last() =~= before.1);
        }
    }
}

/// Once the worker has finished, no event makes it send another final message.
pub proof fn lemma_finished_stays_finished(e: EventView)
    ensures
        worker_next(WorkerPhase::Finished, e).0 is Finished,
        match worker_next(WorkerPhase::Finished, e).1 {
            Some(m) => !ends_run(m),
            None => true,
        },
{
}

/// The decompiler is handed exactly five arguments: `-jar`, the jar's path,
/// the source path, `--outputdir` and the output path, each path verbatim,
/// whatever characters it holds.
pub proof fn lemma_command_passes_paths_verbatim(jar: Seq<char>, source: Seq<char>, dest: Seq<char>)
    ensures
        decompiler_args(jar, source, dest).len() == 5,
        decompiler_args(jar, source, dest)[0] == "-jar"@,
        decompiler_args(jar, source, dest)[1] == jar,
        decompiler_args(jar, source, dest)[2] == source,
        decompiler_args(jar, source, dest)[3] == "--outputdir"@,
        decompiler_args(jar, source, dest)[4] == dest,
{
}

/// Output lines reach the console in every phase, before the run ends and
/// after it, and never change the phase: a line of standard output as it is,
/// a line of error output behind the `[ERROR] ` tag.
pub proof fn lemma_lines_forwarded_in_every_phase(p: WorkerPhase, l: Seq<char>)
    ensures
        worker_next(p, EventView::OutputLine(l)) == (p, Some(MessageView::Log(l))),
        worker_next(p, EventView::ErrorLine(l)) == (p, Some(MessageView::Log("[ERROR] "@ + l))),
{
}

/// The events that end a run each send their one final message: a failed
/// start the spawn failure, an exit its success or its exit status, a failed
/// wait its reason; each leaves the worker finished.
pub proof fn lemma_final_messages(err: Seq<char>, status: Seq<char>)
    ensures
        worker_next(WorkerPhase::Starting, EventView::SpawnFailed(err)) == (
            WorkerPhase::Finished,
            Some(MessageView::Error(
                "Failed to spawn Java. Is Java installed and in your PATH? Error: "@ + err,
            )),
        ),
        worker_next(WorkerPhase::Starting, EventView::Spawned) == (WorkerPhase::Running, None::<MessageView>),
        worker_next(WorkerPhase::Running, EventView::Exited { success: true, status }) == (
            WorkerPhase::Finished,
            Some(MessageView::Success),
        ),
        worker_next(WorkerPhase::Running, EventView::Exited { success: false, status }) == (
            WorkerPhase::Finished,
            Some(MessageView::Error("CFR Decompiler exited with error code: "@ + status)),
        ),
        worker_next(WorkerPhase::Running, EventView::WaitFailed(err)) == (
            WorkerPhase::Finished,
            Some(MessageView::Error("Failed to wait for decompiler process: "@ + err)),
        ),
{
}

} // verus!
