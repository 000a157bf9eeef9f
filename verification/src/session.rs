//! The course of one file: it is opened, its lines are streamed, and its count
//! is reported. The caller does the reading and the printing; the session
//! decides what is printed for each event.

use crate::line::{is_counted, line_output, process_line, LineRead, LineReadView};
use crate::matcher::DirectiveMatcher;
use crate::report::{
    announcement, announcement_text, open_failure, open_failure_text, summary, summary_text,
    to_stderr, to_stdout, Output, OutputView, Stream,
};
use vstd::prelude::*;

verus! {

/// Where a file stands.
#[derive(Clone, Copy, Debug, PartialEq, Eq)]
pub enum Phase {
    /// The file has not been opened yet.
    Opening,
    /// The file is open and its lines are coming in.
    Streaming,
    /// The file could not be opened. Nothing more happens to it.
    Failed,
    /// The last line has come in and the count is being printed.
    Reporting,
    /// The count has been printed. Nothing more happens to the file.
    Done,
}

/// What the caller reports to a session.
#[derive(Clone, Debug, PartialEq, Eq)]
pub enum FileEvent {
    /// The file could not be opened.
    OpenFailed,
    /// The file was opened.
    Opened,
    /// The next line of the file was read, or could not be.
    Line(LineRead),
    /// The file has no more lines.
    EndOfInput,
    /// The count of the file was printed.
    Reported,
}

/// An event, with the text of its line as a sequence of characters.
pub enum FileEventView {
    OpenFailed,
    Opened,
    Line(LineReadView),
    EndOfInput,
    Reported,
}

impl View for FileEvent {
    type V = FileEventView;

    open spec fn view(&self) -> FileEventView {
        match self {
            FileEvent::OpenFailed => FileEventView::OpenFailed,
            FileEvent::Opened => FileEventView::Opened,
            FileEvent::Line(line) => FileEventView::Line(line@),
            FileEvent::EndOfInput => FileEventView::EndOfInput,
            FileEvent::Reported => FileEventView::Reported,
        }
    }
}

/// The state of a session: the file's path, its phase, and how many of its
/// lines have been counted so far.
pub struct FileSessionView {
    pub path: Seq<char>,
    pub phase: Phase,
    pub tally: nat,
}

/// The state in which every file starts: not yet opened, nothing counted.
pub open spec fn initial(path: Seq<char>) -> FileSessionView {
    FileSessionView { path, phase: Phase::Opening, tally: 0 }
}

/// What is printed when a file is taken up: its announcement in verbose mode,
/// else nothing.
pub open spec fn announced(verbose: bool, path: Seq<char>) -> Option<OutputView> {
    if verbose {
        Some(to_stdout(announcement_text(path)))
    } else {
        None
    }
}

/// The state after an event.
///
/// A file that cannot be opened fails. In an open file every line that was
/// read and has no directive adds one to the tally. The end of the lines
/// leads to the report of the count, and the file is done when the count has
/// been printed. An event that has no place in the current phase changes
/// nothing.
pub open spec fn next_state(state: FileSessionView, event: FileEventView) -> FileSessionView {
    match (state.phase, event) {
        (Phase::Opening, FileEventView::OpenFailed) => FileSessionView {
            phase: Phase::Failed,
            ..state
        },
        (Phase::Opening, FileEventView::Opened) => FileSessionView {
            phase: Phase::Streaming,
            ..state
        },
        (Phase::Streaming, FileEventView::Line(line)) => if is_counted(line) {
            FileSessionView { tally: state.tally + 1, ..state }
        } else {
            state
        },
        (Phase::Streaming, FileEventView::EndOfInput) => FileSessionView {
            phase: Phase::Reporting,
            ..state
        },
        (Phase::Reporting, FileEventView::Reported) => FileSessionView {
            phase: Phase::Done,
            ..state
        },
        _ => state,
    }
}

/// What is printed for an event.
///
/// A failed opening gives the failure message on standard error. A line gives
/// its text on standard output, where it has one to show. The end of the lines
/// gives the path with the tally. Any other event, and an event that has no
/// place in the current phase, prints nothing.
pub open spec fn printed(
    state: FileSessionView,
    filter: Option<Seq<char>>,
    event: FileEventView,
) -> Option<OutputView> {
    match (state.phase, event) {
        (Phase::Opening, FileEventView::OpenFailed) => Some(
            to_stderr(open_failure_text(state.path)),
        ),
        (Phase::Streaming, FileEventView::Line(line)) => line_output(filter, line),
        (Phase::Streaming, FileEventView::EndOfInput) => Some(
            to_stdout(summary_text(state.path, state.tally)),
        ),
        _ => None,
    }
}

/// One piece of output, or none, as a sequence.
pub open spec fn as_seq(piece: Option<OutputView>) -> Seq<OutputView> {
    match piece {
        Some(output) => seq![output],
        None => Seq::empty(),
    }
}

/// The state that a session reaches from `state` by a sequence of events.
pub open spec fn state_after(state: FileSessionView, events: Seq<FileEventView>) -> FileSessionView
    decreases events.len(),
{
    if events.len() == 0 {
        state
    } else {
        next_state(state_after(state, events.drop_last()), events.last())
    }
}

/// Everything that a session prints on its way from `state` through a
/// sequence of events, in order.
pub open spec fn printed_during(
    state: FileSessionView,
    filter: Option<Seq<char>>,
    events: Seq<FileEventView>,
) -> Seq<OutputView>
    decreases events.len(),
{
    if events.len() == 0 {
        Seq::empty()
    } else {
        printed_during(state, filter, events.drop_last()) + as_seq(
            printed(state_after(state, events.drop_last()), filter, events.last()),
        )
    }
}

/// The largest tally that a session can hold.
pub open spec fn tally_limit() -> nat {
    u64::MAX as nat
}

/// One file on its way from opening to its count.
pub struct FileSession {
    path: String,
    phase: Phase,
    tally: u64,
}

impl View for FileSession {
    type V = FileSessionView;

    closed spec fn view(&self) -> FileSessionView {
        FileSessionView { path: self.path@, phase: self.phase, tally: self.tally as nat }
    }
}

impl FileSession {
    /// Takes up the file at `path`. Returns the session and, in verbose mode,
    /// the announcement to print before the file is opened.
    pub fn begin(path: String, verbose: bool) -> (started: (FileSession, Option<Output>))
        ensures
            started.0@ == initial(path@),
            started.1.deep_view() == announced(verbose, path@),
    {
        let notice = if verbose {
            Some(announcement(path.as_str()))
        } else {
            None
        };
        (FileSession { path, phase: Phase::Opening, tally: 0 }, notice)
    }

    /// The phase that the file is in.
    pub fn phase(&self) -> (phase: Phase)
        ensures
            phase == self@.phase,
    {
        self.phase
    }

    /// The number of lines counted so far.
    pub fn tally(&self) -> (tally: u64)
        ensures
            tally == self@.tally,
    {
        self.tally
    }

    /// The path of the file.
    pub fn path(&self) -> (path: &str)
        ensures
            path@ == self@.path,
    {
        self.path.as_str()
    }

    /// Whether the session can take another line without its tally leaving
    /// the range of the counter.
    pub fn has_room(&self) -> (room: bool)
        ensures
            room == (self@.tally < tally_limit()),
    {
        self.tally < u64::MAX
    }

    /// Takes an event in, moves to the next state and returns what is to be
    /// printed for the event.
    pub fn step(
        &mut self,
        matcher: &DirectiveMatcher,
        filter: &Option<String>,
        event: FileEvent,
    ) -> (out: Option<Output>)
        requires
            old(self)@.phase == Phase::Streaming && event is Line ==> old(self)@.tally
                < tally_limit(),
        ensures
            final(self)@ == next_state(old(self)@, event@),
            out.deep_view() == printed(old(self)@, filter.deep_view(), event@),
    {
        match self.phase {
            Phase::Opening => match event {
                FileEvent::OpenFailed => {
                    self.phase = Phase::Failed;
                    Some(open_failure(self.path.as_str()))
                },
                FileEvent::Opened => {
                    self.phase = Phase::Streaming;
                    None
                },
                _ => None,
            },
            Phase::Streaming => match event {
                FileEvent::Line(line) => {
                    let outcome = process_line(matcher, filter, line);
                    if outcome.counted {
                        self.tally = self.tally + 1;
                    }
                    match outcome.shown {
                        Some(text) => Some(Output { stream: Stream::Stdout, text }),
                        None => None,
                    }
                },
                FileEvent::EndOfInput => {
                    self.phase = Phase::Reporting;
                    Some(summary(self.path.as_str(), self.tally))
                },
                _ => None,
            },
            Phase::Reporting => match event {
                FileEvent::Reported => {
                    self.phase = Phase::Done;
                    None
                },
                _ => None,
            },
            _ => None,
        }
    }
}

} // verus!
