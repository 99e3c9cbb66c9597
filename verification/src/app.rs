//! The front end's state and every decision it makes on it.

use vstd::prelude::*;
use crate::console::{
    LineKind, classify_line, line_kind, lemma_error_lines_are_errors, lemma_finished_line_is_system,
    lemma_system_tagged_lines_are_system,
};
use crate::message::{
    DecompileMessage, MessageView, ends_run, error_tag, message_line, system_tag,
};
use crate::palette::{
    Rgb, button_highlight_color, highlight_color, kind_color, line_kind_color, path_color,
    path_label_color, placeholder_line_color, tone_color,
};
use crate::status::{DecompileStatus, StatusPill, StatusView, pill_label, pill_tone};
use crate::text::{blank_text, is_blank, join_text, white_space};
use crate::worker::{DecompileCommand, decompiler_args, decompiler_command};

verus! {

/// The mathematical value of a [`DecompilerApp`].
pub struct AppView {
    /// The jar to decompile.
    pub source: Seq<char>,
    /// The directory to write into.
    pub dest: Seq<char>,
    pub status: StatusView,
    /// The console, oldest line first.
    pub log: Seq<Seq<char>>,
    /// Whether the front end listens to a background worker.
    pub listening: bool,
}

/// What a path field shows: the chosen path, or a placeholder in a dimmer colour.
#[derive(Clone, Debug, PartialEq)]
pub struct PathLabel {
    pub text: String,
    pub placeholder: bool,
    pub color: Rgb,
}

/// The main action button: whether it can be pressed, its caption, and
/// whether it is drawn in the highlight colour.
#[derive(Clone, Debug, PartialEq)]
pub struct DecompileButton {
    pub enabled: bool,
    pub label: String,
    pub highlighted: bool,
    /// The fill colour, when the button is highlighted.
    pub fill: Option<Rgb>,
}

/// A label of the console: its text and its colour.
#[derive(Clone, Debug, PartialEq)]
pub struct ConsoleRow {
    pub text: String,
    pub color: Rgb,
}

/// The text that stands in an empty console.
pub open spec fn console_placeholder_text() -> Seq<char> {
    "Console is empty. Select inputs and click Decompile to start."@
}

/// The console line written when a run begins.
pub open spec fn extracting_line() -> Seq<char> {
    "[SYSTEM] Extracting embedded CFR decompiler..."@
}

/// The console line written once the decompiler jar is on disk.
pub open spec fn extracted_line() -> Seq<char> {
    "[SYSTEM] Successfully extracted CFR decompiler."@
}

/// The console line written when the decompiler is about to start.
pub open spec fn starting_line() -> Seq<char> {
    "[SYSTEM] Starting CFR subprocess..."@
}

/// The reason of a run that failed because the jar could not be written.
pub open spec fn extraction_error_text(e: Seq<char>) -> Seq<char> {
    "Extraction error: "@ + e
}

/// The console line that reports that the jar could not be written.
pub open spec fn extraction_failed_line(e: Seq<char>) -> Seq<char> {
    "[ERROR] Failed to extract decompiler JAR: "@ + e
}

/// The placeholder of the source path field.
pub open spec fn no_source_text() -> Seq<char> {
    "No JAR file selected"@
}

/// The placeholder of the output path field.
pub open spec fn no_dest_text() -> Seq<char> {
    "No output directory selected"@
}

/// The state of a fresh window.
pub open spec fn initial_view() -> AppView {
    AppView {
        source: Seq::empty(),
        dest: Seq::empty(),
        status: StatusView::Idle,
        log: Seq::empty(),
        listening: false,
    }
}

/// While a run is under way, the front end listens to its worker, so that
/// the run can end.
pub open spec fn listens_while_running(v: AppView) -> bool {
    v.status is Decompiling ==> v.listening
}

/// The front end listens to a worker exactly while a run is under way.
pub open spec fn synced(v: AppView) -> bool {
    v.listening == (v.status is Decompiling)
}

/// Both paths hold something other than white space.
pub open spec fn inputs_given(v: AppView) -> bool {
    !blank_text(v.source) && !blank_text(v.dest)
}

/// The decompile button can be pressed: no run is under way and both paths are given.
pub open spec fn can_start(v: AppView) -> bool {
    !(v.status is Decompiling) && inputs_given(v)
}

/// The views of a sequence of messages.
pub open spec fn message_views(ms: Seq<DecompileMessage>) -> Seq<MessageView> {
    Seq::new(ms.len(), |i: int| ms[i]@)
}

/// The console lines that a sequence of messages adds, in order.
pub open spec fn message_lines(ms: Seq<MessageView>) -> Seq<Seq<char>> {
    ms.map_values(|m: MessageView| message_line(m))
}

/// Whether some message of the sequence ends the run.
pub open spec fn any_ends_run(ms: Seq<MessageView>) -> bool {
    exists|i: int| 0 <= i < ms.len() && #[trigger] ends_run(ms[i])
}

/// The status after a message: the run's outcome for a message that ends it,
/// the same status for a log line.
pub open spec fn status_after_message(s: StatusView, m: MessageView) -> StatusView {
    match m {
        MessageView::Log(_) => s,
        MessageView::Success => StatusView::Success,
        MessageView::Error(e) => StatusView::Error(e),
    }
}

/// The status after a sequence of messages, taken in order.
pub open spec fn status_after(s: StatusView, ms: Seq<MessageView>) -> StatusView
    decreases ms.len(),
{
    if ms.len() == 0 {
        s
    } else {
        status_after_message(status_after(s, ms.drop_last()), ms.last())
    }
}

/// The state after the messages of a poll, for a front end that listens:
/// one console line per message, the status of the last message that ended
/// the run, and no more listening once one did.
pub open spec fn after_messages(v: AppView, ms: Seq<MessageView>) -> AppView {
    AppView {
        log: v.log + message_lines(ms),
        status: status_after(v.status, ms),
        listening: v.listening && !any_ends_run(ms),
        ..v
    }
}

/// The state after a run began and its jar could not be written out.
pub open spec fn after_failed_extraction(v: AppView, e: Seq<char>) -> AppView {
    AppView {
        status: StatusView::Error(extraction_error_text(e)),
        log: seq![extracting_line(), extraction_failed_line(e)],
        ..v
    }
}

/// The state after a run began and its decompiler was handed to a worker.
pub open spec fn after_started(v: AppView) -> AppView {
    AppView {
        status: StatusView::Decompiling,
        log: seq![extracting_line(), extracted_line(), starting_line()],
        listening: true,
        ..v
    }
}

/// The state after the console was cleared.
pub open spec fn after_clear(v: AppView) -> AppView {
    AppView {
        log: Seq::empty(),
        status: if v.status is Decompiling { v.status } else { StatusView::Idle },
        ..v
    }
}

/// The front end's state: the chosen paths, the run's status, the console,
/// and whether it listens to a background worker.
pub struct DecompilerApp {
    source_path: String,
    dest_path: String,
    status: DecompileStatus,
    log_messages: Vec<String>,
    listening: bool,
}

impl View for DecompilerApp {
    type V = AppView;

    closed spec fn view(&self) -> AppView {
        AppView {
            source: self.source_path@,
            dest: self.dest_path@,
            status: self.status@,
            log: self.log_messages.deep_view(),
            listening: self.listening,
        }
    }
}

impl Default for DecompilerApp {
    fn default() -> (app: Self)
        ensures
            app@ == initial_view(),
    {
        DecompilerApp::new()
    }
}

impl DecompilerApp {
    /// A fresh window: no paths, idle, an empty console, no worker.
    pub fn new() -> (app: Self)
        ensures
            app@ == initial_view(),
    {
        let app = DecompilerApp {
            source_path: String::new(),
            dest_path: String::new(),
            status: DecompileStatus::Idle,
            log_messages: Vec::new(),
            listening: false,
        };
        assert(app@.log =~= Seq::<Seq<char>>::empty());
        app
    }

    /// The chosen jar.
    pub fn source_path(&self) -> (r: &str)
        ensures
            r@ == self@.source,
    {
        self.source_path.as_str()
    }

    /// The chosen output directory.
    pub fn dest_path(&self) -> (r: &str)
        ensures
            r@ == self@.dest,
    {
        self.dest_path.as_str()
    }

    /// The status of the run.
    pub fn status(&self) -> (r: &DecompileStatus)
        ensures
            r@ == self@.status,
    {
        &self.status
    }

    /// The console, oldest line first.
    pub fn log_messages(&self) -> (r: &Vec<String>)
        ensures
            r.deep_view() == self@.log,
    {
        &self.log_messages
    }

    /// Whether the front end listens to a background worker.
    pub fn is_listening(&self) -> (r: bool)
        ensures
            r == self@.listening,
    {
        self.listening
    }
}

impl DecompilerApp {
    /// Takes in the messages that a poll of the worker's channel returned, in
    /// order. A front end that listens to no worker has no channel and takes
    /// in nothing. Otherwise each message adds its console line, a message
    /// that ends the run sets the status to its outcome, and once one did the
    /// front end stops listening (after the whole poll).
    pub fn handle_messages(&mut self, msgs: &Vec<DecompileMessage>)
        ensures
            !old(self)@.listening ==> final(self)@ == old(self)@,
            old(self)@.listening ==> final(self)@ == after_messages(
                old(self)@,
                message_views(msgs@),
            ),
            listens_while_running(old(self)@) ==> listens_while_running(final(self)@),
            synced(old(self)@) ==> synced(final(self)@),
    {
        if !self.listening {
            return;
        }
        let ghost v0 = self@;
        let ghost ms = message_views(msgs@);
        let mut ended = false;
        let mut i: usize = 0;
        while i < msgs.len()
            invariant
                i <= msgs.len(),
                ms == message_views(msgs@),
                v0.listening,
                self.listening,
                self@.source == v0.source,
                self@.dest == v0.dest,
                self@.log == v0.log + message_lines(ms.take(i as int)),
                self@.status == status_after(v0.status, ms.take(i as int)),
                ended == any_ends_run(ms.take(i as int)),
            decreases msgs.len() - i,
        {
            let m = &msgs[i];
            let line = m.console_line();
            let ghost log_before = self.log_messages.deep_view();
            self.log_messages.push(line);
            assert(self.log_messages.deep_view() =~= log_before.push(line@));
            match m {
                DecompileMessage::Log(_) => {},
                DecompileMessage::Success => {
                    self.status = DecompileStatus::Success;
                },
                DecompileMessage::Error(e) => {
                    self.status = DecompileStatus::Error(e.clone());
                },
            }
            if m.ends_run() {
                ended = true;
            }
            proof {
                let t = ms.take(i + 1);
                assert(t.drop_last() =~= ms.take(i as int));
                assert(t.last() == m@);
                assert(message_lines(t) =~= message_lines(ms.take(i as int)).push(message_line(m@)));
                if ends_run(m@) {
                    assert(ends_run(t[i as int]));
                }
                if any_ends_run(ms.take(i as int)) {
                    let k = choose|k: int| 0 <= k < i && #[trigger] ends_run(ms.take(i as int)[k]);
                    assert(ends_run(t[k]));
                }
                if any_ends_run(t) {
                    let k = choose|k: int| 0 <= k < i + 1 && #[trigger] ends_run(t[k]);
                    if k < i {
                        assert(ends_run(ms.take(i as int)[k]));
                    }
                }
            }
            i = i + 1;
        }
        if ended {
            self.listening = false;
        }
        proof {
            assert(ms.take(msgs@.len() as int) =~= ms);
            lemma_status_after_running(v0.status, ms);
        }
    }
}

/// From a running status, the status after some messages is still running
/// exactly when none of them ended the run.
proof fn lemma_status_after_running(s: StatusView, ms: Seq<MessageView>)
    ensures
        (s is Decompiling && !any_ends_run(ms)) ==> status_after(s, ms) is Decompiling,
        any_ends_run(ms) ==> !(status_after(s, ms) is Decompiling),
    decreases ms.len(),
{
    if ms.len() > 0 {
        let init = ms.drop_last();
        lemma_status_after_running(s, init);
        if any_ends_run(init) {
            let k = choose|k: int| 0 <= k < init.len() && #[trigger] ends_run(init[k]);
            assert(ends_run(ms[k]));
        }
        if any_ends_run(ms) && !ends_run(ms.last()) {
            let k = choose|k: int| 0 <= k < ms.len() && #[trigger] ends_run(ms[k]);
            assert(k < ms.len() - 1);
            assert(ends_run(init[k]));
        }
        if !any_ends_run(ms) {
            assert(!ends_run(ms[ms.len() - 1]));
            if any_ends_run(init) {
                let k = choose|k: int| 0 <= k < init.len() && #[trigger] ends_run(init[k]);
                assert(ends_run(ms[k]));
            }
        }
    }
}

impl DecompilerApp {
    /// Begins a run. The console is cleared and the status becomes running;
    /// `extraction` is the outcome of writing the embedded decompiler jar to
    /// disk: its path, or the reason it could not be written. On failure the
    /// run fails at once and no worker is started. On success the command
    /// that runs the decompiler on the chosen paths is returned, for a worker
    /// to run, and the front end listens to that worker.
    pub fn start_decompilation(&mut self, extraction: Result<String, String>) -> (job: Option<
        DecompileCommand,
    >)
        ensures
            match extraction {
                Err(e) => {
                    &&& job is None
                    &&& final(self)@ == after_failed_extraction(old(self)@, e@)
                },
                Ok(jar) => {
                    &&& final(self)@ == after_started(old(self)@)
                    &&& job matches Some(c) && c.program@ == "java"@ && c.args.deep_view()
                        == decompiler_args(jar@, old(self)@.source, old(self)@.dest)
                },
            },
            listens_while_running(final(self)@),
            synced(old(self)@) && !(old(self)@.status is Decompiling) ==> synced(final(self)@),
    {
        self.status = DecompileStatus::Decompiling;
        self.log_messages = Vec::new();
        self.log_messages.push(String::from_str("[SYSTEM] Extracting embedded CFR decompiler..."));
        match extraction {
            Err(e) => {
                self.status = DecompileStatus::Error(join_text("Extraction error: ", e.as_str()));
                self.log_messages.push(
                    join_text("[ERROR] Failed to extract decompiler JAR: ", e.as_str()),
                );
                assert(self@.log =~= seq![extracting_line(), extraction_failed_line(e@)]);
                None
            },
            Ok(jar) => {
                self.log_messages.push(
                    String::from_str("[SYSTEM] Successfully extracted CFR decompiler."),
                );
                self.log_messages.push(String::from_str("[SYSTEM] Starting CFR subprocess..."));
                self.listening = true;
                assert(self@.log =~= seq![extracting_line(), extracted_line(), starting_line()]);
                Some(decompiler_command(jar.as_str(), self.source_path.as_str(), self.dest_path.as_str()))
            },
        }
    }

    /// Clears the console. A finished or failed run is forgotten (the status
    /// goes back to idle); a run under way goes on.
    pub fn clear_console(&mut self)
        ensures
            final(self)@ == after_clear(old(self)@),
            listens_while_running(old(self)@) ==> listens_while_running(final(self)@),
            synced(old(self)@) ==> synced(final(self)@),
    {
        self.log_messages = Vec::new();
        if !self.status.is_decompiling() {
            self.status = DecompileStatus::Idle;
        }
        assert(self@.log =~= Seq::<Seq<char>>::empty());
    }

    /// Whether the path pickers can be used: not while a run is under way.
    pub fn pickers_enabled(&self) -> (r: bool)
        ensures
            r == !(self@.status is Decompiling),
    {
        !self.status.is_decompiling()
    }

    /// Takes the outcome of the jar picker: a chosen file replaces the source
    /// path, a cancelled dialog (`None`) changes nothing, and while a run is
    /// under way the picker cannot be used.
    pub fn pick_source(&mut self, picked: Option<String>)
        ensures
            final(self)@ == (match picked {
                Some(p) if !(old(self)@.status is Decompiling) => AppView { source: p@, ..old(self)@ },
                _ => old(self)@,
            }),
            listens_while_running(old(self)@) ==> listens_while_running(final(self)@),
            synced(old(self)@) ==> synced(final(self)@),
    {
        if self.pickers_enabled() {
            if let Some(p) = picked {
                self.source_path = p;
            }
        }
    }

    /// Takes the outcome of the folder picker, as [`Self::pick_source`] does
    /// for the jar.
    pub fn pick_dest(&mut self, picked: Option<String>)
        ensures
            final(self)@ == (match picked {
                Some(p) if !(old(self)@.status is Decompiling) => AppView { dest: p@, ..old(self)@ },
                _ => old(self)@,
            }),
            listens_while_running(old(self)@) ==> listens_while_running(final(self)@),
            synced(old(self)@) ==> synced(final(self)@),
    {
        if self.pickers_enabled() {
            if let Some(p) = picked {
                self.dest_path = p;
            }
        }
    }

    /// What the source path field shows: the path, or a placeholder when none
    /// is chosen.
    pub fn source_label(&self) -> (l: PathLabel)
        ensures
            l.placeholder == (self@.source.len() == 0),
            l.color == path_color(l.placeholder),
            l.text@ == if self@.source.len() == 0 { no_source_text() } else { self@.source },
    {
        if self.source_path.as_str().is_empty() {
            PathLabel { text: String::from_str("No JAR file selected"), placeholder: true, color: path_label_color(true) }
        } else {
            PathLabel { text: self.source_path.clone(), placeholder: false, color: path_label_color(false) }
        }
    }

    /// What the output path field shows: the path, or a placeholder when none
    /// is chosen.
    pub fn dest_label(&self) -> (l: PathLabel)
        ensures
            l.placeholder == (self@.dest.len() == 0),
            l.color == path_color(l.placeholder),
            l.text@ == if self@.dest.len() == 0 { no_dest_text() } else { self@.dest },
    {
        if self.dest_path.as_str().is_empty() {
            PathLabel { text: String::from_str("No output directory selected"), placeholder: true, color: path_label_color(true) }
        } else {
            PathLabel { text: self.dest_path.clone(), placeholder: false, color: path_label_color(false) }
        }
    }

    /// Whether both paths hold something once surrounding white space is trimmed.
    pub fn has_inputs(&self) -> (r: bool)
        ensures
            r == inputs_given(self@),
    {
        !is_blank(self.source_path.as_str()) && !is_blank(self.dest_path.as_str())
    }

    /// The decompile button: it can be pressed, and is highlighted, when no run
    /// is under way and both paths are given; its caption says whether a run
    /// is under way.
    pub fn decompile_button(&self) -> (b: DecompileButton)
        ensures
            b.enabled == can_start(self@),
            b.highlighted == b.enabled,
            b.fill == (if b.enabled { Some(highlight_color()) } else { None }),
            b.label@ == if self@.status is Decompiling { "Decompiling..."@ } else { "Decompile"@ },
    {
        let busy = self.status.is_decompiling();
        let enabled = !busy && self.has_inputs();
        let label = if busy {
            String::from_str("Decompiling...")
        } else {
            String::from_str("Decompile")
        };
        let fill = if enabled {
            Some(button_highlight_color())
        } else {
            None
        };
        DecompileButton { enabled, label, highlighted: enabled, fill }
    }

    /// The status pill for the current status.
    pub fn status_pill(&self) -> (p: StatusPill)
        ensures
            p.label@ == pill_label(self@.status),
            p.strong == !(self@.status is Idle),
            p.tone == pill_tone(self@.status),
            p.color == tone_color(pill_tone(self@.status)),
    {
        self.status.pill()
    }

    /// Whether the window must be redrawn continuously, so that the console
    /// follows the worker: while a run is under way.
    pub fn needs_repaint(&self) -> (r: bool)
        ensures
            r == (self@.status is Decompiling),
    {
        self.status.is_decompiling()
    }

    /// Whether the console holds no line, so that its placeholder is shown.
    pub fn console_is_empty(&self) -> (r: bool)
        ensures
            r == (self@.log.len() == 0),
    {
        self.log_messages.len() == 0
    }

    /// What the console shows, one row per label: when the console is empty,
    /// its placeholder text alone in the placeholder colour; otherwise each
    /// line in order, in the colour of its kind.
    pub fn console_rows(&self) -> (rows: Vec<ConsoleRow>)
        ensures
            self@.log.len() == 0 ==> rows@.len() == 1 && rows@[0].text@ == console_placeholder_text()
                && rows@[0].color == placeholder_line_color(),
            self@.log.len() > 0 ==> rows@.len() == self@.log.len(),
            self@.log.len() > 0 ==> forall|i: int|
                0 <= i < rows@.len() ==> (#[trigger] rows@[i]).text@ == self@.log[i] && rows@[i].color
                    == kind_color(line_kind(self@.log[i])),
    {
        let mut rows: Vec<ConsoleRow> = Vec::new();
        let n = self.log_messages.len();
        if n == 0 {
            rows.push(
                ConsoleRow {
                    text: String::from_str("Console is empty. Select inputs and click Decompile to start."),
                    color: Rgb { r: 80, g: 80, b: 95 },
                },
            );
            return rows;
        }
        let mut i: usize = 0;
        while i < n
            invariant
                n == self.log_messages@.len(),
                n == self@.log.len(),
                i <= n,
                rows@.len() == i,
                forall|j: int|
                    0 <= j < i ==> (#[trigger] rows@[j]).text@ == self@.log[j] && rows@[j].color
                        == kind_color(line_kind(self@.log[j])),
            decreases n - i,
        {
            let line = &self.log_messages[i];
            let kind = classify_line(line.as_str());
            rows.push(ConsoleRow { text: line.clone(), color: line_kind_color(kind) });
            i = i + 1;
        }
        rows
    }
}

/// The status after the messages of `a` and then those of `b` is the status
/// after the messages of `a` followed by `b`.
proof fn lemma_status_after_concat(s: StatusView, a: Seq<MessageView>, b: Seq<MessageView>)
    ensures
        status_after(s, a + b) == status_after(status_after(s, a), b),
    decreases b.len(),
{
    if b.len() == 0 {
        assert(a + b =~= a);
    } else {
        assert((a + b).drop_last() =~= a + b.drop_last());
        assert((a + b).last() == b.last());
        lemma_status_after_concat(s, a, b.drop_last());
    }
}

/// Polls can be split: while the run goes on, taking in the messages of one
/// poll and then those of the next gives the state that taking in both in a
/// single poll gives. (Once a message has ended the run, the front end stops
/// listening, so later polls take in nothing, while the rest of the same poll
/// is still taken in: the law needs that `a` does not end the run.)
pub proof fn lemma_polls_compose(v: AppView, a: Seq<MessageView>, b: Seq<MessageView>)
    requires
        v.listening,
        !any_ends_run(a),
    ensures
        after_messages(after_messages(v, a), b) == after_messages(v, a + b),
{
    lemma_status_after_concat(v.status, a, b);
    assert(message_lines(a + b) =~= message_lines(a) + message_lines(b));
    assert(v.log + message_lines(a) + message_lines(b) =~= v.log + (message_lines(a) + message_lines(b)));
    if any_ends_run(a + b) {
        let k = choose|k: int| 0 <= k < (a + b).len() && #[trigger] ends_run((a + b)[k]);
        if k >= a.len() {
            assert(ends_run(b[k - a.len()]));
        } else {
            assert(ends_run(a[k]));
        }
    }
    if any_ends_run(b) {
        let k = choose|k: int| 0 <= k < b.len() && #[trigger] ends_run(b[k]);
        assert(ends_run((a + b)[a.len() + k]));
    }
}

/// A poll whose last message ends the run leaves the run with that
/// message's outcome: the status is its success or its reason of failure,
/// the front end no longer listens, and the window no longer needs
/// continuous redrawing.
pub proof fn lemma_run_ends_with_last_outcome(v: AppView, ms: Seq<MessageView>)
    requires
        ms.len() > 0,
        ends_run(ms.last()),
    ensures
        after_messages(v, ms).status == (match ms.last() {
            MessageView::Error(e) => StatusView::Error(e),
            _ => StatusView::Success,
        }),
        !after_messages(v, ms).listening,
        !(after_messages(v, ms).status is Decompiling),
        after_messages(v, ms).log.last() == message_line(ms.last()),
{
    assert(ends_run(ms[ms.len() - 1]));
}

/// Every line that the front end writes to the console itself carries its
/// tag: the lines that report progress are system lines, the lines that
/// report errors are error lines.
pub proof fn lemma_own_lines_are_tagged(e: Seq<char>)
    ensures
        line_kind(extracting_line()) == LineKind::System,
        line_kind(extracted_line()) == LineKind::System,
        line_kind(starting_line()) == LineKind::System,
        line_kind(extraction_failed_line(e)) == LineKind::Error,
        line_kind(message_line(MessageView::Success)) == LineKind::System,
        line_kind(message_line(MessageView::Error(e))) == LineKind::Error,
{
    reveal_strlit("[SYSTEM]");
    reveal_strlit("[ERROR]");
    reveal_strlit("[SYSTEM] Extracting embedded CFR decompiler...");
    reveal_strlit("[SYSTEM] Successfully extracted CFR decompiler.");
    reveal_strlit("[SYSTEM] Starting CFR subprocess...");
    reveal_strlit("[ERROR] Failed to extract decompiler JAR: ");
    assert(extracting_line().subrange(0, 8) =~= system_tag());
    assert(extracted_line().subrange(0, 8) =~= system_tag());
    assert(starting_line().subrange(0, 8) =~= system_tag());
    assert(extraction_failed_line(e).subrange(0, 7) =~= error_tag());
    lemma_system_tagged_lines_are_system(extracting_line());
    lemma_system_tagged_lines_are_system(extracted_line());
    lemma_system_tagged_lines_are_system(starting_line());
    lemma_finished_line_is_system();
    lemma_error_lines_are_errors(e);
}

/// Clearing the console twice is clearing it once.
pub proof fn lemma_clear_is_idempotent(v: AppView)
    ensures
        after_clear(after_clear(v)) == after_clear(v),
{
}

/// A log line never changes the status, whatever the status.
pub proof fn lemma_log_keeps_status(s: StatusView, l: Seq<char>)
    ensures
        status_after_message(s, MessageView::Log(l)) == s,
{
}

/// The status after messages is that of the last message that ends the run,
/// or the old status when only log lines came.
proof fn lemma_status_after_last_outcome(s: StatusView, ms: Seq<MessageView>)
    ensures
        (forall|j: int| 0 <= j < ms.len() ==> #[trigger] ms[j] is Log) ==> status_after(s, ms) == s,
        forall|k: int|
            0 <= k < ms.len() && !(#[trigger] ms[k] is Log) && (forall|j: int|
                k < j < ms.len() ==> ms[j] is Log) ==> status_after(s, ms) == (match ms[k] {
                MessageView::Error(e) => StatusView::Error(e),
                _ => StatusView::Success,
            }),
    decreases ms.len(),
{
    if ms.len() > 0 {
        let init = ms.drop_last();
        lemma_status_after_last_outcome(s, init);
        if forall|j: int| 0 <= j < ms.len() ==> #[trigger] ms[j] is Log {
            assert(ms[ms.len() - 1] is Log);
            assert(forall|j: int| 0 <= j < init.len() ==> #[trigger] init[j] is Log ==> ms[j] is Log);
        }
        assert forall|k: int|
            0 <= k < ms.len() && !(#[trigger] ms[k] is Log) && (forall|j: int|
                k < j < ms.len() ==> ms[j] is Log) implies status_after(s, ms) == (match ms[k] {
            MessageView::Error(e) => StatusView::Error(e),
            _ => StatusView::Success,
        }) by {
            if k < ms.len() - 1 {
                assert(ms[ms.len() - 1] is Log);
                assert(init[k] == ms[k]);
                assert(forall|j: int| k < j < init.len() ==> init[j] == ms[j]);
                assert(forall|j: int| k < j < init.len() ==> #[trigger] init[j] is Log);
            }
        }
    }
}

/// What a poll does to a front end that listens, over all messages: it adds
/// exactly one console line per message, in order (a log line as it is, a
/// success as the finishing line, an error behind the `[ERROR] ` tag); the
/// status becomes the outcome of the last message that ends the run, or
/// stays as it was when only log lines came, whatever log lines follow that
/// message; listening stops exactly when some message ends the run; the
/// paths are kept.
pub proof fn lemma_poll_outcome(v: AppView, ms: Seq<MessageView>)
    requires
        v.listening,
    ensures
        after_messages(v, ms).source == v.source,
        after_messages(v, ms).dest == v.dest,
        after_messages(v, ms).log.len() == v.log.len() + ms.len(),
        forall|i: int| 0 <= i < v.log.len() ==> after_messages(v, ms).log[i] == v.log[i],
        forall|i: int|
            0 <= i < ms.len() ==> after_messages(v, ms).log[v.log.len() + i] == (match #[trigger] ms[i] {
                MessageView::Log(l) => l,
                MessageView::Success => "[SYSTEM] Decompilation finished successfully!"@,
                MessageView::Error(e) => "[ERROR] "@ + e,
            }),
        after_messages(v, ms).listening == (forall|j: int| 0 <= j < ms.len() ==> #[trigger] ms[j] is Log),
        (forall|j: int| 0 <= j < ms.len() ==> #[trigger] ms[j] is Log) ==> after_messages(v, ms).status
            == v.status,
        forall|k: int|
            0 <= k < ms.len() && !(#[trigger] ms[k] is Log) && (forall|j: int|
                k < j < ms.len() ==> ms[j] is Log) ==> after_messages(v, ms).status == (match ms[k] {
                MessageView::Error(e) => StatusView::Error(e),
                _ => StatusView::Success,
            }),
{
    lemma_status_after_last_outcome(v.status, ms);
    let a = after_messages(v, ms);
    assert forall|i: int| 0 <= i < ms.len() implies a.log[v.log.len() + i] == (match #[trigger] ms[i] {
        MessageView::Log(l) => l,
        MessageView::Success => "[SYSTEM] Decompilation finished successfully!"@,
        MessageView::Error(e) => "[ERROR] "@ + e,
    }) by {
        assert(message_lines(ms)[i] == message_line(ms[i]));
    }
    if any_ends_run(ms) {
        let k = choose|k: int| 0 <= k < ms.len() && #[trigger] ends_run(ms[k]);
        assert(!(ms[k] is Log));
    }
    if !(forall|j: int| 0 <= j < ms.len() ==> #[trigger] ms[j] is Log) {
        let k = choose|k: int| 0 <= k < ms.len() && !(#[trigger] ms[k] is Log);
        assert(ends_run(ms[k]));
    }
}

/// The decompile button is enabled exactly when no run is under way and each
/// path holds a character that is not white space, whatever the outcome of
/// the last run: after a failure or a success the user can start again.
pub proof fn lemma_button_enabled_exactly(v: AppView)
    ensures
        can_start(v) == (!(v.status is Decompiling) && (exists|i: int|
            0 <= i < v.source.len() && !white_space(#[trigger] v.source[i])) && (exists|i: int|
            0 <= i < v.dest.len() && !white_space(#[trigger] v.dest[i]))),
        (v.status is Error || v.status is Success || v.status is Idle) ==> can_start(v) == (
        !blank_text(v.source) && !blank_text(v.dest)),
{
}

/// Starting a run replaces the console and keeps the paths. When the jar
/// could not be written, the run fails at once with the extraction error,
/// the console holds the start line and the failure, and listening is as it
/// was; otherwise the run is under way, the console holds the three progress
/// lines, and the front end listens.
pub proof fn lemma_start_outcome(v: AppView, e: Seq<char>)
    ensures
        after_failed_extraction(v, e).status == StatusView::Error("Extraction error: "@ + e),
        after_failed_extraction(v, e).log == seq![
            "[SYSTEM] Extracting embedded CFR decompiler..."@,
            "[ERROR] Failed to extract decompiler JAR: "@ + e,
        ],
        after_failed_extraction(v, e).listening == v.listening,
        after_failed_extraction(v, e).source == v.source,
        after_failed_extraction(v, e).dest == v.dest,
        after_started(v).status is Decompiling,
        after_started(v).log == seq![
            "[SYSTEM] Extracting embedded CFR decompiler..."@,
            "[SYSTEM] Successfully extracted CFR decompiler."@,
            "[SYSTEM] Starting CFR subprocess..."@,
        ],
        after_started(v).listening,
        after_started(v).source == v.source,
        after_started(v).dest == v.dest,
{
}

/// Clearing the console empties it and keeps the paths and the listening;
/// a run under way stays under way, any other status goes back to idle.
pub proof fn lemma_clear_outcome(v: AppView)
    ensures
        after_clear(v).log.len() == 0,
        after_clear(v).source == v.source,
        after_clear(v).dest == v.dest,
        after_clear(v).listening == v.listening,
        v.status is Decompiling ==> after_clear(v).status == v.status,
        !(v.status is Decompiling) ==> after_clear(v).status is Idle,
{
}

} // verus!
