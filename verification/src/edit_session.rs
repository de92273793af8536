//! One edit session, from the hotkey to the paste: the session decides each
//! step from what the step before gave, and a driver carries the steps out.

use crate::config::{Config, TerminalConfig, TerminalConfigView};
use crate::diff::{
    content_digest, hash_content, outcome_of, strip_newline, strip_trailing_newline, Outcome,
};
use crate::terminal::{terminal_of, Completion, Terminal};
use crate::text::{lowercase, opt_text};
use vstd::prelude::*;

verus! {

/// The suffix of the name of a scratch file.
pub const SCRATCH_SUFFIX: &'static str = ".txt";

/// How long the driver waits after the copy gesture before it reads the
/// clipboard, in milliseconds.
pub const COPY_SETTLE_MS: u64 = 50;

/// How long the driver waits before the paste where the application that had
/// the focus is not known, in milliseconds.
pub const FOCUS_SETTLE_MS: u64 = 100;

/// Why a session failed. A failure ends the session and nothing else, and
/// but for a failed paste the clipboard is put back as it was found.
#[derive(Debug, Clone, Copy, PartialEq, Eq, Structural)]
pub enum SessionError {
    /// The copy gesture could not be made.
    CopyFailed,
    /// The clipboard could not be read after the copy gesture.
    ClipboardUnreadable,
    /// The scratch file could not be created, written or flushed.
    StageFailed,
    /// The settings name no supported terminal.
    InvalidTerminal,
    /// The terminal of the settings is not installed.
    TerminalNotInstalled(Terminal),
    /// The editor was not found.
    EditorNotFound,
    /// The terminal could not be started.
    LaunchFailed,
    /// Waiting for the terminal's process failed.
    WaitFailed,
    /// The scratch file was not saved within the hour.
    Timeout,
    /// The scratch file could not be read back.
    ReadFailed,
    /// The edited text could not be put on the clipboard.
    ClipboardWriteFailed,
    /// The paste gesture could not be made.
    PasteFailed,
}

/// Why a step could not be carried out, as far as the session tells
/// failures apart.
#[derive(Debug, Clone, Copy, PartialEq, Eq, Structural)]
pub enum Failure {
    /// The clipboard could not be read or written.
    Clipboard,
    /// The editor was not found.
    EditorNotFound,
    /// The time was up.
    TimedOut,
    /// Anything else.
    Other,
}

/// Where a session stands: the step that it has asked for, or its end.
#[derive(Debug, Clone, Copy, PartialEq, Eq, Structural)]
pub enum Phase {
    /// The focus and the clipboard are being noted.
    Snapshot,
    /// The selection is being copied and read.
    Capture,
    /// The selection is being written to the scratch file.
    Stage,
    /// The terminal of the settings is being looked for.
    Probe(Terminal),
    /// The editor is being opened in the terminal.
    Launch(Terminal),
    /// The end of the edit is being waited for.
    Await(Terminal),
    /// The scratch file is being read back.
    Read,
    /// The edited text is being put on the clipboard.
    WriteBack,
    /// The focus is being brought back, as far as it can be.
    Refocus,
    /// The edited text is being pasted.
    Paste,
    /// The session has ended in this way.
    Ended(Outcome),
    /// The session has failed in this way.
    Failed(SessionError),
}

/// What the session asks its driver to do.
#[derive(Debug, PartialEq, Eq)]
pub enum Action {
    /// Note which application has the focus and what the clipboard holds,
    /// each as far as it can be had, and report `Snapshot`.
    TakeSnapshot,
    /// Make the copy gesture, wait `settle_ms` milliseconds, read the
    /// clipboard, and report `Captured`.
    CopySelection { settle_ms: u64 },
    /// Write this text to a fresh scratch file whose name ends in
    /// `SCRATCH_SUFFIX`, flush it, and report `Staged`.
    StageText(String),
    /// Look whether this terminal is installed, and report `Present`.
    ProbeTerminal(Terminal),
    /// Find the editor and open it on this file in this terminal, with this
    /// window size in columns and rows.
    Launch { terminal: Terminal, file: String, width: u32, height: u32 },
    /// Wait for the end of the edit in this way: for the process that the
    /// launch started, or for this file to move past this modification time.
    AwaitEdit { completion: Completion, file: String, baseline: u128 },
    /// Read this file back, and report `Edited`.
    ReadScratch(String),
    /// Put this text on the clipboard.
    SetClipboard(String),
    /// Bring this application back to the front. The paste follows whether
    /// this could be done or not.
    Activate(String),
    /// Wait this long, in milliseconds.
    Settle { millis: u64 },
    /// Make the paste gesture.
    Paste,
    /// Put `restore` back on the clipboard, if there is one and as far as it
    /// can be done, and end the session with `result`.
    Finish { restore: Option<String>, result: Result<Outcome, SessionError> },
}

/// What the driver reports back.
#[derive(Debug, PartialEq, Eq)]
pub enum Event {
    /// The application that had the focus and the text that the clipboard
    /// held, each if it could be had.
    Snapshot { app: Option<String>, clipboard: Option<String> },
    /// The text that the clipboard holds after the copy gesture.
    Captured(String),
    /// The path of the scratch file, and its modification time after the
    /// flush, counted in nanoseconds from a fixed origin.
    Staged { file: String, modified: u128 },
    /// Whether the terminal is installed.
    Present(bool),
    /// The text read back from the scratch file.
    Edited(String),
    /// The step was carried out and has nothing to report.
    Done,
    /// The step could not be carried out.
    Failed(Failure),
}

/// What an `Action` holds, as mathematical values.
pub enum ActionView {
    TakeSnapshot,
    CopySelection { settle_ms: u64 },
    StageText(Seq<char>),
    ProbeTerminal(Terminal),
    Launch { terminal: Terminal, file: Seq<char>, width: u32, height: u32 },
    AwaitEdit { completion: Completion, file: Seq<char>, baseline: u128 },
    ReadScratch(Seq<char>),
    SetClipboard(Seq<char>),
    Activate(Seq<char>),
    Settle { millis: u64 },
    Paste,
    Finish { restore: Option<Seq<char>>, result: Result<Outcome, SessionError> },
}

/// What an `Event` holds, as mathematical values.
pub enum EventView {
    Snapshot { app: Option<Seq<char>>, clipboard: Option<Seq<char>> },
    Captured(Seq<char>),
    Staged { file: Seq<char>, modified: u128 },
    Present(bool),
    Edited(Seq<char>),
    Done,
    Failed(Failure),
}

impl View for Action {
    type V = ActionView;

    open spec fn view(&self) -> ActionView {
        match self {
            Action::TakeSnapshot => ActionView::TakeSnapshot,
            Action::CopySelection { settle_ms } => ActionView::CopySelection {
                settle_ms: *settle_ms,
            },
            Action::StageText(text) => ActionView::StageText(text@),
            Action::ProbeTerminal(terminal) => ActionView::ProbeTerminal(*terminal),
            Action::Launch { terminal, file, width, height } => ActionView::Launch {
                terminal: *terminal,
                file: file@,
                width: *width,
                height: *height,
            },
            Action::AwaitEdit { completion, file, baseline } => ActionView::AwaitEdit {
                completion: *completion,
                file: file@,
                baseline: *baseline,
            },
            Action::ReadScratch(file) => ActionView::ReadScratch(file@),
            Action::SetClipboard(text) => ActionView::SetClipboard(text@),
            Action::Activate(app) => ActionView::Activate(app@),
            Action::Settle { millis } => ActionView::Settle { millis: *millis },
            Action::Paste => ActionView::Paste,
            Action::Finish { restore, result } => ActionView::Finish {
                restore: opt_text(*restore),
                result: *result,
            },
        }
    }
}

impl View for Event {
    type V = EventView;

    open spec fn view(&self) -> EventView {
        match self {
            Event::Snapshot { app, clipboard } => EventView::Snapshot {
                app: opt_text(*app),
                clipboard: opt_text(*clipboard),
            },
            Event::Captured(text) => EventView::Captured(text@),
            Event::Staged { file, modified } => EventView::Staged {
                file: file@,
                modified: *modified,
            },
            Event::Present(present) => EventView::Present(*present),
            Event::Edited(text) => EventView::Edited(text@),
            Event::Done => EventView::Done,
            Event::Failed(failure) => EventView::Failed(*failure),
        }
    }
}

/// One edit session.
#[derive(Debug)]
pub struct EditSession {
    terminal: TerminalConfig,
    phase: Phase,
    original_app: Option<String>,
    original_clipboard: Option<String>,
    captured: String,
    scratch: String,
    baseline: u128,
    edited: String,
}

/// What an `EditSession` holds, as mathematical values.
pub struct EditSessionView {
    /// The terminal of the settings, as the session found them at its start.
    pub terminal: TerminalConfigView,
    /// Where the session stands.
    pub phase: Phase,
    /// The application that had the focus, if it could be told.
    pub original_app: Option<Seq<char>>,
    /// What the clipboard held before the session, if it could be read.
    pub original_clipboard: Option<Seq<char>>,
    /// The selected text; empty until it is captured.
    pub captured: Seq<char>,
    /// The path of the scratch file; empty until the text is staged.
    pub scratch: Seq<char>,
    /// The modification time of the scratch file before the launch.
    pub baseline: u128,
    /// The edited text without the newline at its end; empty until it is
    /// read back and found changed.
    pub edited: Seq<char>,
}

impl View for EditSession {
    type V = EditSessionView;

    closed spec fn view(&self) -> EditSessionView {
        EditSessionView {
            terminal: self.terminal@,
            phase: self.phase,
            original_app: opt_text(self.original_app),
            original_clipboard: opt_text(self.original_clipboard),
            captured: self.captured@,
            scratch: self.scratch@,
            baseline: self.baseline,
            edited: self.edited@,
        }
    }
}

/// A session at its start, for these settings.
pub open spec fn fresh_session(terminal: TerminalConfigView) -> EditSessionView {
    EditSessionView {
        terminal,
        phase: Phase::Snapshot,
        original_app: None,
        original_clipboard: None,
        captured: Seq::empty(),
        scratch: Seq::empty(),
        baseline: 0,
        edited: Seq::empty(),
    }
}

/// The failure of the session that the failure of a step brings, in each
/// phase whose step can fail the session. Bringing the focus back is not
/// among them: the session goes on to the paste where that could not be
/// done.
pub open spec fn failure_in(phase: Phase, failure: Failure) -> Option<SessionError> {
    match phase {
        Phase::Capture => Some(
            if failure == Failure::Clipboard {
                SessionError::ClipboardUnreadable
            } else {
                SessionError::CopyFailed
            },
        ),
        Phase::Stage => Some(SessionError::StageFailed),
        Phase::Launch(_) => Some(
            if failure == Failure::EditorNotFound {
                SessionError::EditorNotFound
            } else {
                SessionError::LaunchFailed
            },
        ),
        Phase::Await(_) => Some(
            if failure == Failure::TimedOut {
                SessionError::Timeout
            } else {
                SessionError::WaitFailed
            },
        ),
        Phase::Read => Some(SessionError::ReadFailed),
        Phase::WriteBack => Some(SessionError::ClipboardWriteFailed),
        Phase::Paste => Some(SessionError::PasteFailed),
        _ => None,
    }
}

/// The session after an event. An event that does not answer the step that
/// the session asked for leaves the session as it is. Every step that fails
/// ends the session with a failure, but for bringing the focus back, after
/// which the paste follows in any case.
pub open spec fn after_event(state: EditSessionView, event: EventView) -> EditSessionView {
    match (state.phase, event) {
        (Phase::Snapshot, EventView::Snapshot { app, clipboard }) => EditSessionView {
            phase: Phase::Capture,
            original_app: app,
            original_clipboard: clipboard,
            ..state
        },
        (Phase::Capture, EventView::Captured(text)) => if text.len() == 0 {
            EditSessionView { phase: Phase::Ended(Outcome::Aborted), ..state }
        } else {
            EditSessionView { phase: Phase::Stage, captured: text, ..state }
        },
        (Phase::Stage, EventView::Staged { file, modified }) => {
            let staged = EditSessionView { scratch: file, baseline: modified, ..state };
            match terminal_of(lowercase(state.terminal.name)) {
                Some(terminal) => EditSessionView { phase: Phase::Probe(terminal), ..staged },
                None => EditSessionView {
                    phase: Phase::Failed(SessionError::InvalidTerminal),
                    ..staged
                },
            }
        },
        (Phase::Probe(terminal), EventView::Present(present)) => if present {
            EditSessionView { phase: Phase::Launch(terminal), ..state }
        } else {
            EditSessionView {
                phase: Phase::Failed(SessionError::TerminalNotInstalled(terminal)),
                ..state
            }
        },
        (Phase::Launch(terminal), EventView::Done) => EditSessionView {
            phase: Phase::Await(terminal),
            ..state
        },
        (Phase::Await(_), EventView::Done) => EditSessionView { phase: Phase::Read, ..state },
        (Phase::Read, EventView::Edited(text)) => {
            let edited = strip_newline(text);
            match outcome_of(content_digest(state.captured), content_digest(edited)) {
                Outcome::Applied => EditSessionView { phase: Phase::WriteBack, edited, ..state },
                _ => EditSessionView { phase: Phase::Ended(Outcome::Unchanged), ..state },
            }
        },
        (Phase::WriteBack, EventView::Done) => EditSessionView { phase: Phase::Refocus, ..state },
        (Phase::Refocus, EventView::Done) => EditSessionView { phase: Phase::Paste, ..state },
        (Phase::Refocus, EventView::Failed(_)) => EditSessionView { phase: Phase::Paste, ..state },
        (Phase::Paste, EventView::Done) => EditSessionView {
            phase: Phase::Ended(Outcome::Applied),
            ..state
        },
        (phase, EventView::Failed(failure)) => match failure_in(phase, failure) {
            Some(error) => EditSessionView { phase: Phase::Failed(error), ..state },
            None => state,
        },
        _ => state,
    }
}

/// How the session ended, once it has.
pub open spec fn result_of(phase: Phase) -> Option<Result<Outcome, SessionError>> {
    match phase {
        Phase::Ended(outcome) => Some(Ok(outcome)),
        Phase::Failed(error) => Some(Err(error)),
        _ => None,
    }
}

/// Whether the clipboard is put back as it was when a session ends in this
/// way: whenever the session has not brought the edited text as far as the
/// paste. That is where nothing was selected, where the edit changed
/// nothing, and after every failure but that of the paste itself, which
/// leaves the edited text on the clipboard for the user to paste.
pub open spec fn restores_clipboard(result: Result<Outcome, SessionError>) -> bool {
    result != Ok::<Outcome, SessionError>(Outcome::Applied) && result != Err::<
        Outcome,
        SessionError,
    >(SessionError::PasteFailed)
}

/// What the session asks of its driver.
pub open spec fn action_in(state: EditSessionView) -> ActionView {
    match state.phase {
        Phase::Snapshot => ActionView::TakeSnapshot,
        Phase::Capture => ActionView::CopySelection { settle_ms: COPY_SETTLE_MS },
        Phase::Stage => ActionView::StageText(state.captured),
        Phase::Probe(terminal) => ActionView::ProbeTerminal(terminal),
        Phase::Launch(terminal) => ActionView::Launch {
            terminal,
            file: state.scratch,
            width: state.terminal.width,
            height: state.terminal.height,
        },
        Phase::Await(terminal) => ActionView::AwaitEdit {
            completion: terminal.completion_of(),
            file: state.scratch,
            baseline: state.baseline,
        },
        Phase::Read => ActionView::ReadScratch(state.scratch),
        Phase::WriteBack => ActionView::SetClipboard(state.edited),
        Phase::Refocus => match state.original_app {
            Some(app) => ActionView::Activate(app),
            None => ActionView::Settle { millis: FOCUS_SETTLE_MS },
        },
        Phase::Paste => ActionView::Paste,
        Phase::Ended(_) | Phase::Failed(_) => {
            let result = result_of(state.phase)->0;
            ActionView::Finish {
                restore: if restores_clipboard(result) {
                    state.original_clipboard
                } else {
                    None
                },
                result,
            }
        },
    }
}

/// A copy of a text that may be absent.
fn clone_opt(text: &Option<String>) -> (copy: Option<String>)
    ensures
        opt_text(copy) == opt_text(*text),
{
    match text {
        Some(t) => Some(t.clone()),
        None => None,
    }
}

impl EditSession {
    /// A session at its start. It reads the settings once and keeps what it
    /// needs of them.
    pub fn start(config: &Config) -> (session: Self)
        ensures
            session@ == fresh_session(config@.terminal),
    {
        EditSession {
            terminal: config.terminal.clone(),
            phase: Phase::Snapshot,
            original_app: None,
            original_clipboard: None,
            captured: String::new(),
            scratch: String::new(),
            baseline: 0,
            edited: String::new(),
        }
    }

    /// Where the session stands.
    pub fn phase(&self) -> (phase: Phase)
        ensures
            phase == self@.phase,
    {
        self.phase
    }

    /// How the session ended, once it has.
    pub fn result(&self) -> (result: Option<Result<Outcome, SessionError>>)
        ensures
            result == result_of(self@.phase),
    {
        match self.phase {
            Phase::Ended(outcome) => Some(Ok(outcome)),
            Phase::Failed(error) => Some(Err(error)),
            _ => None,
        }
    }

    /// What the session asks of its driver now.
    pub fn pending_action(&self) -> (action: Action)
        ensures
            action@ == action_in(self@),
    {
        match self.phase {
            Phase::Snapshot => Action::TakeSnapshot,
            Phase::Capture => Action::CopySelection { settle_ms: COPY_SETTLE_MS },
            Phase::Stage => Action::StageText(self.captured.clone()),
            Phase::Probe(terminal) => Action::ProbeTerminal(terminal),
            Phase::Launch(terminal) => Action::Launch {
                terminal,
                file: self.scratch.clone(),
                width: self.terminal.width,
                height: self.terminal.height,
            },
            Phase::Await(terminal) => Action::AwaitEdit {
                completion: terminal.completion(),
                file: self.scratch.clone(),
                baseline: self.baseline,
            },
            Phase::Read => Action::ReadScratch(self.scratch.clone()),
            Phase::WriteBack => Action::SetClipboard(self.edited.clone()),
            Phase::Refocus => match &self.original_app {
                Some(app) => Action::Activate(app.clone()),
                None => Action::Settle { millis: FOCUS_SETTLE_MS },
            },
            Phase::Paste => Action::Paste,
            Phase::Ended(outcome) => {
                let restore = match outcome {
                    Outcome::Applied => None,
                    _ => clone_opt(&self.original_clipboard),
                };
                Action::Finish { restore, result: Ok(outcome) }
            },
            Phase::Failed(error) => {
                let restore = match error {
                    SessionError::PasteFailed => None,
                    _ => clone_opt(&self.original_clipboard),
                };
                Action::Finish { restore, result: Err(error) }
            },
        }
    }

    /// Takes the driver's report and says what to do next.
    pub fn step(&mut self, event: Event) -> (action: Action)
        ensures
            final(self)@ == after_event(old(self)@, event@),
            action@ == action_in(final(self)@),
    {
        match event {
            Event::Snapshot { app, clipboard } => {
                if self.phase == Phase::Snapshot {
                    self.original_app = app;
                    self.original_clipboard = clipboard;
                    self.phase = Phase::Capture;
                }
            },
            Event::Captured(text) => {
                if self.phase == Phase::Capture {
                    if text.as_str().is_empty() {
                        self.phase = Phase::Ended(Outcome::Aborted);
                    } else {
                        self.captured = text;
                        self.phase = Phase::Stage;
                    }
                }
            },
            Event::Staged { file, modified } => {
                if self.phase == Phase::Stage {
                    self.scratch = file;
                    self.baseline = modified;
                    match Terminal::from_name(self.terminal.name.as_str()) {
                        Some(terminal) => {
                            self.phase = Phase::Probe(terminal);
                        },
                        None => {
                            self.phase = Phase::Failed(SessionError::InvalidTerminal);
                        },
                    }
                }
            },
            Event::Present(present) => {
                match self.phase {
                    Phase::Probe(terminal) => {
                        if present {
                            self.phase = Phase::Launch(terminal);
                        } else {
                            self.phase = Phase::Failed(
                                SessionError::TerminalNotInstalled(terminal),
                            );
                        }
                    },
                    _ => {},
                }
            },
            Event::Edited(text) => {
                if self.phase == Phase::Read {
                    let edited = strip_trailing_newline(text.as_str());
                    if hash_content(self.captured.as_str()) == hash_content(edited) {
                        self.phase = Phase::Ended(Outcome::Unchanged);
                    } else {
                        self.edited = edited.to_owned();
                        self.phase = Phase::WriteBack;
                    }
                }
            },
            Event::Done => {
                match self.phase {
                    Phase::Launch(terminal) => {
                        self.phase = Phase::Await(terminal);
                    },
                    Phase::Await(_) => {
                        self.phase = Phase::Read;
                    },
                    Phase::WriteBack => {
                        self.phase = Phase::Refocus;
                    },
                    Phase::Refocus => {
                        self.phase = Phase::Paste;
                    },
                    Phase::Paste => {
                        self.phase = Phase::Ended(Outcome::Applied);
                    },
                    _ => {},
                }
            },
            Event::Failed(failure) => {
                match self.phase {
                    Phase::Refocus => {
                        self.phase = Phase::Paste;
                    },
                    phase => {
                        match Self::failure(phase, failure) {
                            Some(error) => {
                                self.phase = Phase::Failed(error);
                            },
                            None => {},
                        }
                    },
                }
            },
        }
        self.pending_action()
    }

    /// The failure of the session that the failure of a step brings.
    pub fn failure(phase: Phase, failure: Failure) -> (error: Option<SessionError>)
        ensures
            error == failure_in(phase, failure),
    {
        match phase {
            Phase::Capture => Some(
                match failure {
                    Failure::Clipboard => SessionError::ClipboardUnreadable,
                    _ => SessionError::CopyFailed,
                },
            ),
            Phase::Stage => Some(SessionError::StageFailed),
            Phase::Launch(_) => Some(
                match failure {
                    Failure::EditorNotFound => SessionError::EditorNotFound,
                    _ => SessionError::LaunchFailed,
                },
            ),
            Phase::Await(_) => Some(
                match failure {
                    Failure::TimedOut => SessionError::Timeout,
                    _ => SessionError::WaitFailed,
                },
            ),
            Phase::Read => Some(SessionError::ReadFailed),
            Phase::WriteBack => Some(SessionError::ClipboardWriteFailed),
            Phase::Paste => Some(SessionError::PasteFailed),
            _ => None,
        }
    }
}

impl SessionError {
    /// The error as a line for the log.
    pub open spec fn message_of(self) -> Seq<char> {
        match self {
            SessionError::CopyFailed => "Failed to simulate copy"@,
            SessionError::ClipboardUnreadable => "Failed to read selected text from clipboard"@,
            SessionError::StageFailed => "Failed to write to temp file"@,
            SessionError::InvalidTerminal => "Invalid terminal name in config"@,
            SessionError::TerminalNotInstalled(terminal) => "Terminal '"@
                + terminal.display_name_of()
                + "' is not installed. Please install it or change the terminal in config."@,
            SessionError::EditorNotFound => "Helix editor (hx) not found. Install with: brew install helix"@,
            SessionError::LaunchFailed => "Failed to launch terminal"@,
            SessionError::WaitFailed => "Failed to wait for terminal"@,
            SessionError::Timeout => "Timeout waiting for edit to complete (1 hour)"@,
            SessionError::ReadFailed => "Failed to read edited file"@,
            SessionError::ClipboardWriteFailed => "Failed to set clipboard with edited text"@,
            SessionError::PasteFailed => "Failed to simulate paste"@,
        }
    }

    /// The error as a line for the log. The line about a terminal that is
    /// not installed names the terminal.
    pub fn message(&self) -> (line: String)
        ensures
            line@ == self.message_of(),
    {
        match self {
            SessionError::CopyFailed => "Failed to simulate copy".to_owned(),
            SessionError::ClipboardUnreadable => "Failed to read selected text from clipboard".to_owned(),
            SessionError::StageFailed => "Failed to write to temp file".to_owned(),
            SessionError::InvalidTerminal => "Invalid terminal name in config".to_owned(),
            SessionError::TerminalNotInstalled(terminal) => {
                let mut line = "Terminal '".to_owned();
                line.append(terminal.display_name());
                line.append(
                    "' is not installed. Please install it or change the terminal in config.",
                );
                line
            },
            SessionError::EditorNotFound => "Helix editor (hx) not found. Install with: brew install helix".to_owned(),
            SessionError::LaunchFailed => "Failed to launch terminal".to_owned(),
            SessionError::WaitFailed => "Failed to wait for terminal".to_owned(),
            SessionError::Timeout => "Timeout waiting for edit to complete (1 hour)".to_owned(),
            SessionError::ReadFailed => "Failed to read edited file".to_owned(),
            SessionError::ClipboardWriteFailed => "Failed to set clipboard with edited text".to_owned(),
            SessionError::PasteFailed => "Failed to simulate paste".to_owned(),
        }
    }
}

/// What the clipboard holds after an action is carried out, given what it
/// held before: the text that the action puts there, if it puts one. The
/// copy gesture is left out: what it puts there is the user's selection.
pub open spec fn clipboard_after(action: ActionView, before: Seq<char>) -> Seq<char> {
    match action {
        ActionView::SetClipboard(text) => text,
        ActionView::Finish { restore: Some(text), .. } => text,
        _ => before,
    }
}

/// Where nothing is selected, the session ends as `Aborted` at once: no
/// scratch file is written and no editor is opened, and the clipboard is put
/// back to what it held before the session, where that is known.
pub proof fn lemma_empty_selection_aborts(state: EditSessionView, clipboard: Seq<char>)
    requires
        state.phase == Phase::Capture,
    ensures
        ({
            let ended = after_event(state, EventView::Captured(Seq::empty()));
            &&& ended.phase == Phase::Ended(Outcome::Aborted)
            &&& action_in(ended) == (ActionView::Finish {
                restore: state.original_clipboard,
                result: Ok(Outcome::Aborted),
            })
            &&& state.original_clipboard matches Some(original) ==> clipboard_after(
                action_in(ended),
                clipboard,
            ) == original
        }),
{
}

/// Where the text read back is, but for the newline at its end, the text
/// that was captured, the session ends as `Unchanged`: the clipboard is put
/// back to what it held before the session, where that is known, and the
/// edited text is never put there.
pub proof fn lemma_same_text_is_unchanged(
    state: EditSessionView,
    read_back: Seq<char>,
    clipboard: Seq<char>,
)
    requires
        state.phase == Phase::Read,
        strip_newline(read_back) == state.captured,
    ensures
        ({
            let ended = after_event(state, EventView::Edited(read_back));
            &&& ended.phase == Phase::Ended(Outcome::Unchanged)
            &&& action_in(ended) == (ActionView::Finish {
                restore: state.original_clipboard,
                result: Ok(Outcome::Unchanged),
            })
            &&& state.original_clipboard matches Some(original) ==> clipboard_after(
                action_in(ended),
                clipboard,
            ) == original
        }),
{
}

/// Where the text read back differs from the text that was captured, and
/// their digests tell them apart, the session puts the edited text, without
/// the newline at its end, on the clipboard, asks once for the focus to be
/// brought back, pastes once whether that could be done or not, and ends as
/// `Applied` without touching the clipboard again.
pub proof fn lemma_changed_text_is_applied(
    state: EditSessionView,
    read_back: Seq<char>,
    clipboard: Seq<char>,
)
    requires
        state.phase == Phase::Read,
        content_digest(strip_newline(read_back)) != content_digest(state.captured),
    ensures
        ({
            let written = after_event(state, EventView::Edited(read_back));
            let focused = after_event(written, EventView::Done);
            let pasting = after_event(focused, EventView::Done);
            let ended = after_event(pasting, EventView::Done);
            &&& forall|failure: Failure|
                #[trigger] after_event(focused, EventView::Failed(failure)) == pasting
            &&& action_in(written) == ActionView::SetClipboard(strip_newline(read_back))
            &&& action_in(focused) == match state.original_app {
                Some(app) => ActionView::Activate(app),
                None => ActionView::Settle { millis: FOCUS_SETTLE_MS },
            }
            &&& action_in(pasting) == ActionView::Paste
            &&& ended.phase == Phase::Ended(Outcome::Applied)
            &&& action_in(ended) == (ActionView::Finish {
                restore: None,
                result: Ok(Outcome::Applied),
            })
            &&& clipboard_after(
                action_in(ended),
                clipboard_after(
                    action_in(pasting),
                    clipboard_after(action_in(focused), clipboard_after(action_in(written), clipboard)),
                ),
            ) == strip_newline(read_back)
        }),
{
}

/// A session that has ended stays as it is, whatever is reported to it: it
/// asks for nothing more than to finish.
pub proof fn lemma_end_is_final(state: EditSessionView, event: EventView)
    requires
        result_of(state.phase) is Some,
    ensures
        after_event(state, event) == state,
        action_in(state) is Finish,
{
}

/// The failure of a step that can fail the session ends it with a failure,
/// and the clipboard is put back to what it held before the session, where
/// that is known, unless it was the paste that failed: then the edited text
/// stays on the clipboard.
pub proof fn lemma_failure_ends_session(state: EditSessionView, failure: Failure)
    requires
        failure_in(state.phase, failure) is Some,
    ensures
        ({
            let error = failure_in(state.phase, failure)->0;
            let ended = after_event(state, EventView::Failed(failure));
            &&& ended.phase == Phase::Failed(error)
            &&& action_in(ended) == (ActionView::Finish {
                restore: if error == SessionError::PasteFailed {
                    None
                } else {
                    state.original_clipboard
                },
                result: Err(error),
            })
            &&& error == SessionError::PasteFailed <==> state.phase == Phase::Paste
            &&& error == SessionError::Timeout <==> state.phase is Await && failure
                == Failure::TimedOut
        }),
{
}

/// How far a session has come: each phase has a higher number than the
/// phases before it, and the two ends have the highest.
pub open spec fn progress(phase: Phase) -> nat {
    match phase {
        Phase::Snapshot => 0,
        Phase::Capture => 1,
        Phase::Stage => 2,
        Phase::Probe(_) => 3,
        Phase::Launch(_) => 4,
        Phase::Await(_) => 5,
        Phase::Read => 6,
        Phase::WriteBack => 7,
        Phase::Refocus => 8,
        Phase::Paste => 9,
        Phase::Ended(_) | Phase::Failed(_) => 10,
    }
}

/// What holds of a session at every moment: while it works on a selection,
/// the selection is not empty; while it applies an edit, the edited text has
/// another digest than the selection, so it is another text; it ends as
/// `Applied` only through the paste.
pub open spec fn consistent(state: EditSessionView) -> bool {
    &&& 2 <= progress(state.phase) <= 9 ==> state.captured.len() > 0
    &&& 7 <= progress(state.phase) <= 9 ==> content_digest(state.edited) != content_digest(
        state.captured,
    )
    &&& progress(state.phase) <= 1 ==> state.captured.len() == 0
}

/// A session never goes back: an event leaves it as it is or takes it to a
/// later phase. So each step, the paste among them, is reached at most once.
pub proof fn lemma_session_moves_forward(state: EditSessionView, event: EventView)
    ensures
        after_event(state, event) == state || progress(after_event(state, event).phase)
            > progress(state.phase),
        after_event(state, event).phase == Phase::Paste && state.phase != Phase::Paste
            ==> state.phase == Phase::Refocus,
        after_event(state, event).phase == Phase::Ended(Outcome::Applied) && state.phase
            != Phase::Ended(Outcome::Applied) ==> state.phase == Phase::Paste,
{
}

/// A session is consistent at its start and stays so.
pub proof fn lemma_session_stays_consistent(
    terminal: TerminalConfigView,
    state: EditSessionView,
    event: EventView,
)
    ensures
        consistent(fresh_session(terminal)),
        consistent(state) ==> consistent(after_event(state, event)),
{
}

} // verus!
