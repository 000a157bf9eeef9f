//! Whole files: what is printed for one file from the first line to the count,
//! and for a run over several files.

use crate::invocation::{Invocation, InvocationView};
use crate::line::{is_counted, line_output, LineRead, LineReadView};
use crate::matcher::DirectiveMatcher;
use crate::report::{open_failure_text, summary_text, to_stderr, to_stdout, Output, OutputView};
use crate::session::{
    announced, as_seq, FileEvent, FileEventView, FileSession, FileSessionView, Phase,
};
use vstd::prelude::*;

verus! {

/// What reading one file gave.
#[derive(Clone, Debug, PartialEq, Eq)]
pub enum FileRead {
    /// The file was opened; these are its lines, in order.
    Lines(Vec<LineRead>),
    /// The file could not be opened.
    Unopened,
}

/// A file read, with texts as sequences of characters.
pub enum FileReadView {
    Lines(Seq<LineReadView>),
    Unopened,
}

impl View for FileRead {
    type V = FileReadView;

    open spec fn view(&self) -> FileReadView {
        match self {
            FileRead::Lines(lines) => FileReadView::Lines(lines.deep_view()),
            FileRead::Unopened => FileReadView::Unopened,
        }
    }
}

impl DeepView for FileRead {
    type V = FileReadView;

    open spec fn deep_view(&self) -> FileReadView {
        self@
    }
}

/// The output of a line under a filter, as a function of the line.
pub open spec fn output_under(filter: Option<Seq<char>>) -> spec_fn(LineReadView) -> Option<
    OutputView,
> {
    |line: LineReadView| line_output(filter, line)
}

/// Whether a line is counted, as a function of the line.
pub open spec fn counted() -> spec_fn(LineReadView) -> bool {
    |line: LineReadView| is_counted(line)
}

/// The output for the lines of a file, in the order of the lines.
pub open spec fn printed_lines(filter: Option<Seq<char>>, lines: Seq<LineReadView>) -> Seq<
    OutputView,
> {
    lines.filter_map(output_under(filter))
}

/// The count of a file: how many of its lines were read and have no directive.
pub open spec fn counted_lines(lines: Seq<LineReadView>) -> nat {
    lines.filter(counted()).len()
}

/// Everything that is printed for one file: in verbose mode its announcement;
/// then, for a file that could not be opened, the failure message, and for
/// any other, the output of its lines followed by the path with the count.
pub open spec fn file_output(
    verbose: bool,
    filter: Option<Seq<char>>,
    path: Seq<char>,
    read: FileReadView,
) -> Seq<OutputView> {
    as_seq(announced(verbose, path)) + (match read {
        FileReadView::Unopened => seq![to_stderr(open_failure_text(path))],
        FileReadView::Lines(lines) => printed_lines(filter, lines).push(
            to_stdout(summary_text(path, counted_lines(lines))),
        ),
    })
}

/// A line as the event of its arrival.
pub open spec fn arrival() -> spec_fn(LineReadView) -> FileEventView {
    |line: LineReadView| FileEventView::Line(line)
}

/// The events that the processing of a file gives, in order: for a file that
/// could not be opened the failure; for any other the opening, its lines, the
/// end of the lines and the printing of the count.
pub open spec fn events_of(read: FileReadView) -> Seq<FileEventView> {
    match read {
        FileReadView::Unopened => seq![FileEventView::OpenFailed],
        FileReadView::Lines(lines) => (seq![FileEventView::Opened] + lines.map_values(
            arrival(),
        )).push(FileEventView::EndOfInput).push(FileEventView::Reported),
    }
}

/// Everything that is printed for the first `upto` inputs of a run: the
/// output of each file, in the order of the inputs.
pub open spec fn run_output_upto(
    invocation: InvocationView,
    reads: Seq<FileReadView>,
    upto: nat,
) -> Seq<OutputView>
    decreases upto,
{
    if upto == 0 {
        Seq::empty()
    } else {
        run_output_upto(invocation, reads, (upto - 1) as nat) + file_output(
            invocation.verbose,
            invocation.filter,
            invocation.inputs[upto - 1],
            reads[upto - 1],
        )
    }
}

/// Everything that is printed in a run, where `reads[i]` is what reading the
/// input `i` gave.
pub open spec fn run_output(invocation: InvocationView, reads: Seq<FileReadView>) -> Seq<
    OutputView,
> {
    run_output_upto(invocation, reads, invocation.inputs.len())
}

fn push_piece(out: &mut Vec<Output>, piece: Option<Output>)
    ensures
        final(out).deep_view() == old(out).deep_view() + as_seq(piece.deep_view()),
{
    if let Some(output) = piece {
        out.push(output);
    }
}

/// Processes one file from what reading it gave, and returns everything that
/// is to be printed for it, in order.
pub fn process_file(
    matcher: &DirectiveMatcher,
    verbose: bool,
    filter: &Option<String>,
    path: &str,
    read: FileRead,
) -> (out: Vec<Output>)
    ensures
        out.deep_view() == file_output(verbose, filter.deep_view(), path@, read@),
{
    let mut out: Vec<Output> = Vec::new();
    let (mut session, notice) = FileSession::begin(String::from_str(path), verbose);
    push_piece(&mut out, notice);
    match read {
        FileRead::Unopened => {
            let failure = session.step(matcher, filter, FileEvent::OpenFailed);
            push_piece(&mut out, failure);
        },
        FileRead::Lines(lines) => {
            let opened = session.step(matcher, filter, FileEvent::Opened);
            push_piece(&mut out, opened);
            let total: usize = lines.len();
            let ghost all = lines.deep_view();
            let ghost head = out.deep_view();
            for line in it: lines
                invariant
                    all.len() == total,
                    it.seq().len() == all.len(),
                    forall|i: int| 0 <= i < all.len() ==> (#[trigger] it.seq()[i])@ == all[i],
                    session@ == (FileSessionView {
                        path: path@,
                        phase: Phase::Streaming,
                        tally: counted_lines(all.take(it.index() as int)),
                    }),
                    session@.tally <= it.index(),
                    out.deep_view() == head + printed_lines(
                        filter.deep_view(),
                        all.take(it.index() as int),
                    ),
            {
                proof {
                    let i = it.index() as int;
                    all.lemma_filter_map_take_succ(output_under(filter.deep_view()), i);
                    all.take(i).lemma_filter_len_push(counted(), all[i]);
                    assert(all.take(i + 1) =~= all.take(i).push(all[i]));
                }
                let shown = session.step(matcher, filter, FileEvent::Line(line));
                push_piece(&mut out, shown);
            }
            assert(all.take(all.len() as int) =~= all);
            let closing = session.step(matcher, filter, FileEvent::EndOfInput);
            push_piece(&mut out, closing);
            session.step(matcher, filter, FileEvent::Reported);
        },
    }
    out
}

/// Processes the inputs of a run in their order, from what reading each of
/// them gave, and returns everything that is to be printed, in order. A file
/// that could not be opened does not keep the files after it from being
/// processed.
pub fn run(matcher: &DirectiveMatcher, invocation: &Invocation, reads: Vec<FileRead>) -> (out: Vec<
    Output,
>)
    requires
        reads@.len() == invocation@.inputs.len(),
    ensures
        out.deep_view() == run_output(invocation@, reads.deep_view()),
{
    let inputs = invocation.inputs();
    let total: usize = inputs.len();
    let ghost all = reads.deep_view();
    let mut out: Vec<Output> = Vec::new();
    let mut done: usize = 0;
    for read in it: reads
        invariant
            done == it.index(),
            it.seq().len() == all.len(),
            all.len() == inputs@.len(),
            all.len() == total,
            inputs.deep_view() == invocation@.inputs,
            forall|i: int| 0 <= i < all.len() ==> (#[trigger] it.seq()[i])@ == all[i],
            out.deep_view() == run_output_upto(invocation@, all, done as nat),
    {
        let mut block = process_file(
            matcher,
            invocation.verbose(),
            invocation.filter(),
            inputs[done].as_str(),
            read,
        );
        out.append(&mut block);
        done = done + 1;
    }
    out
}

} // verus!
