//! What holds of the processor on every input.

use crate::directive::{
    directive_text, has_directive, is_separator, keyword, lemma_text_of_first_directive, QUOTE,
};
use crate::files::{
    arrival, counted_lines, events_of, file_output, printed_lines, run_output, run_output_upto,
    FileReadView,
};
use crate::filter::lemma_empty_occurs_everywhere;
use crate::invocation::InvocationView;
use crate::line::{is_counted, line_output, shown_text, LineReadView};
use crate::report::{announcement_text, summary_text, to_stdout, OutputView};
use crate::session::{
    announced, as_seq, initial, next_state, printed, printed_during, state_after, FileEventView,
    FileSessionView, Phase,
};
use vstd::prelude::*;

verus! {

/// Every line of the file was read and none of them has a directive.
pub open spec fn plain_lines(lines: Seq<LineReadView>) -> bool {
    forall|i: int|
        0 <= i < lines.len() ==> (#[trigger] lines[i] matches LineReadView::Text(content)
            && !has_directive(content))
}

/// A file whose lines were all read and hold no directive is reported with
/// the number of its lines, whatever the filter lets through.
pub proof fn lemma_plain_file_counts_every_line(
    verbose: bool,
    filter: Option<Seq<char>>,
    path: Seq<char>,
    lines: Seq<LineReadView>,
)
    requires
        plain_lines(lines),
    ensures
        counted_lines(lines) == lines.len(),
        file_output(verbose, filter, path, FileReadView::Lines(lines)).last() == to_stdout(
            summary_text(path, lines.len()),
        ),
    decreases lines.len(),
{
    reveal(Seq::filter);
    if lines.len() > 0 {
        lemma_plain_file_counts_every_line(verbose, filter, path, lines.drop_last());
    }
}

/// A line that is the keyword, one or more separators and a quoted text,
/// with anything after the closing quote, shows exactly the quoted text under
/// every filter, and is not counted.
pub proof fn lemma_directive_line_shows_its_text(
    separators: Seq<char>,
    text: Seq<char>,
    rest: Seq<char>,
    filter: Option<Seq<char>>,
)
    requires
        separators.len() > 0,
        forall|k: int| 0 <= k < separators.len() ==> is_separator(#[trigger] separators[k]),
        forall|k: int| 0 <= k < text.len() ==> #[trigger] text[k] != QUOTE,
    ensures
        ({
            let line = keyword() + separators + seq![QUOTE] + text + seq![QUOTE] + rest;
            &&& directive_text(line) == Some(text)
            &&& shown_text(filter, LineReadView::Text(line)) == Some(text)
            &&& !is_counted(LineReadView::Text(line))
        }),
{
    let line = keyword() + separators + seq![QUOTE] + text + seq![QUOTE] + rest;
    let open: int = (keyword().len() + separators.len()) as int;
    let close: int = open + 1 + text.len();
    assert(line.subrange(0, keyword().len() as int) =~= keyword());
    assert forall|k: int| keyword().len() <= k < open implies is_separator(#[trigger] line[k]) by {
        assert(line[k] == separators[k - keyword().len()]);
    }
    assert forall|k: int| open < k < close implies #[trigger] line[k] != QUOTE by {
        assert(line[k] == text[k - open - 1]);
    }
    lemma_text_of_first_directive(line, 0, open, close);
}

/// A line with a directive leaves the tally of its file as it was.
pub proof fn lemma_directive_leaves_tally(state: FileSessionView, content: Seq<char>)
    requires
        has_directive(content),
    ensures
        next_state(state, FileEventView::Line(LineReadView::Text(content))) == state,
{
}

/// Under the empty filter every line that was read and has no directive is
/// shown as it is.
pub proof fn lemma_empty_filter_shows_every_line(content: Seq<char>)
    requires
        !has_directive(content),
    ensures
        shown_text(Some(Seq::<char>::empty()), LineReadView::Text(content)) == Some(content),
{
    lemma_empty_occurs_everywhere(content);
}

/// For a single line, no filter and the empty filter give the same.
pub proof fn lemma_no_filter_is_empty_filter_on_line(line: LineReadView)
    ensures
        shown_text(None, line) == shown_text(Some(Seq::<char>::empty()), line),
        line_output(None, line) == line_output(Some(Seq::<char>::empty()), line),
{
    if let LineReadView::Text(content) = line {
        lemma_empty_occurs_everywhere(content);
    }
}

proof fn lemma_no_filter_is_empty_filter_on_lines(lines: Seq<LineReadView>)
    ensures
        printed_lines(None, lines) == printed_lines(Some(Seq::<char>::empty()), lines),
    decreases lines.len(),
{
    if lines.len() > 0 {
        lemma_no_filter_is_empty_filter_on_lines(lines.drop_last());
        lemma_no_filter_is_empty_filter_on_line(lines.last());
    }
}

/// For a whole file, no filter and the empty filter give the same output.
pub proof fn lemma_no_filter_is_empty_filter_on_file(
    verbose: bool,
    path: Seq<char>,
    read: FileReadView,
)
    ensures
        file_output(verbose, None, path, read) == file_output(
            verbose,
            Some(Seq::<char>::empty()),
            path,
            read,
        ),
{
    if let FileReadView::Lines(lines) = read {
        lemma_no_filter_is_empty_filter_on_lines(lines);
    }
}

/// At every step of a session, no filter and the empty filter give the same
/// output.
pub proof fn lemma_no_filter_is_empty_filter_on_step(state: FileSessionView, event: FileEventView)
    ensures
        printed(state, None, event) == printed(state, Some(Seq::<char>::empty()), event),
{
    if let FileEventView::Line(line) = event {
        lemma_no_filter_is_empty_filter_on_line(line);
    }
}

proof fn lemma_no_filter_is_empty_filter_upto(
    inputs: Seq<Seq<char>>,
    verbose: bool,
    reads: Seq<FileReadView>,
    upto: nat,
)
    ensures
        run_output_upto(InvocationView { inputs, verbose, filter: None }, reads, upto)
            == run_output_upto(
            InvocationView { inputs, verbose, filter: Some(Seq::<char>::empty()) },
            reads,
            upto,
        ),
    decreases upto,
{
    if upto > 0 {
        lemma_no_filter_is_empty_filter_upto(inputs, verbose, reads, (upto - 1) as nat);
        lemma_no_filter_is_empty_filter_on_file(verbose, inputs[upto - 1], reads[upto - 1]);
    }
}

/// For a whole run, no filter and the empty filter give the same output.
pub proof fn lemma_no_filter_is_empty_filter_on_run(
    inputs: Seq<Seq<char>>,
    verbose: bool,
    reads: Seq<FileReadView>,
)
    ensures
        run_output(InvocationView { inputs, verbose, filter: None }, reads) == run_output(
            InvocationView { inputs, verbose, filter: Some(Seq::<char>::empty()) },
            reads,
        ),
{
    lemma_no_filter_is_empty_filter_upto(inputs, verbose, reads, inputs.len());
}

proof fn lemma_single_event(
    state: FileSessionView,
    filter: Option<Seq<char>>,
    event: FileEventView,
)
    ensures
        state_after(state, seq![event]) == next_state(state, event),
        printed_during(state, filter, seq![event]) == as_seq(printed(state, filter, event)),
{
    reveal_with_fuel(state_after, 2);
    reveal_with_fuel(printed_during, 2);
    assert(seq![event].drop_last() =~= Seq::empty());
}

proof fn lemma_session_streams_the_lines(
    filter: Option<Seq<char>>,
    path: Seq<char>,
    lines: Seq<LineReadView>,
)
    ensures
        ({
            let events = seq![FileEventView::Opened] + lines.map_values(arrival());
            &&& state_after(initial(path), events) == (FileSessionView {
                path,
                phase: Phase::Streaming,
                tally: counted_lines(lines),
            })
            &&& printed_during(initial(path), filter, events) == printed_lines(filter, lines)
        }),
    decreases lines.len(),
{
    let events = seq![FileEventView::Opened] + lines.map_values(arrival());
    reveal(Seq::filter);
    if lines.len() == 0 {
        assert(events =~= seq![FileEventView::Opened]);
        lemma_single_event(initial(path), filter, FileEventView::Opened);
    } else {
        let shorter = lines.drop_last();
        lemma_session_streams_the_lines(filter, path, shorter);
        assert(events.drop_last() =~= seq![FileEventView::Opened] + shorter.map_values(arrival()));
        assert(events.last() == FileEventView::Line(lines.last()));
    }
}

/// A session that is told of the events of a file, one after the other,
/// prints what is printed for the file as a whole, and ends with the count of
/// the file.
pub proof fn lemma_session_prints_the_file(
    verbose: bool,
    filter: Option<Seq<char>>,
    path: Seq<char>,
    read: FileReadView,
)
    ensures
        as_seq(announced(verbose, path)) + printed_during(initial(path), filter, events_of(read))
            == file_output(verbose, filter, path, read),
        state_after(initial(path), events_of(read)) == (match read {
            FileReadView::Unopened => FileSessionView { path, phase: Phase::Failed, tally: 0 },
            FileReadView::Lines(lines) => FileSessionView {
                path,
                phase: Phase::Done,
                tally: counted_lines(lines),
            },
        }),
{
    match read {
        FileReadView::Unopened => {
            lemma_single_event(initial(path), filter, FileEventView::OpenFailed);
        },
        FileReadView::Lines(lines) => {
            let streamed = seq![FileEventView::Opened] + lines.map_values(arrival());
            let ended = streamed.push(FileEventView::EndOfInput);
            lemma_session_streams_the_lines(filter, path, lines);
            assert(ended.drop_last() =~= streamed);
            assert(state_after(initial(path), ended).phase == Phase::Reporting);
            assert(printed_during(initial(path), filter, ended) == printed_lines(filter, lines).push(
                to_stdout(summary_text(path, counted_lines(lines))),
            ));
            assert(events_of(read).drop_last() =~= ended);
        },
    }
}

/// In verbose mode the announcement of a file is printed before everything
/// else that is printed for it, and nothing else changes.
pub proof fn lemma_verbose_announces_first(
    filter: Option<Seq<char>>,
    path: Seq<char>,
    read: FileReadView,
)
    ensures
        file_output(true, filter, path, read) == seq![to_stdout(announcement_text(path))]
            + file_output(false, filter, path, read),
{
    assert(file_output(true, filter, path, read) =~= seq![to_stdout(announcement_text(path))]
        + file_output(false, filter, path, read));
}

/// Two passes over a file that has not changed, under the same settings,
/// print the same lines and report the same count; a run that is given the
/// file twice prints the output of the file twice.
pub proof fn lemma_second_pass_repeats_first(
    verbose: bool,
    filter: Option<Seq<char>>,
    path: Seq<char>,
    read: FileReadView,
    first: Seq<OutputView>,
    second: Seq<OutputView>,
)
    requires
        first == file_output(verbose, filter, path, read),
        second == file_output(verbose, filter, path, read),
    ensures
        first == second,
        run_output(InvocationView { inputs: seq![path, path], verbose, filter }, seq![read, read])
            == first + second,
{
    reveal_with_fuel(run_output_upto, 3);
    let twice = InvocationView { inputs: seq![path, path], verbose, filter };
    assert(run_output(twice, seq![read, read]) =~= first + second);
}

/// The part of a run's output that belongs to the input at `index`.
pub open spec fn output_of_input(
    invocation: InvocationView,
    reads: Seq<FileReadView>,
    index: nat,
) -> Seq<OutputView> {
    run_output(invocation, reads).subrange(
        run_output_upto(invocation, reads, index).len() as int,
        run_output_upto(invocation, reads, index + 1).len() as int,
    )
}

proof fn lemma_run_output_grows(
    invocation: InvocationView,
    reads: Seq<FileReadView>,
    shorter: nat,
    longer: nat,
)
    requires
        shorter <= longer,
    ensures
        run_output_upto(invocation, reads, shorter).is_prefix_of(
            run_output_upto(invocation, reads, longer),
        ),
    decreases longer,
{
    if shorter < longer {
        lemma_run_output_grows(invocation, reads, shorter, (longer - 1) as nat);
    }
}

/// What a run prints for one of its inputs is what is printed for that file
/// alone: it depends on the settings, on the file's path and on what reading
/// that file gave, and on no other input, whether the others could be opened
/// or not.
pub proof fn lemma_inputs_are_independent(
    invocation: InvocationView,
    reads: Seq<FileReadView>,
    index: nat,
)
    requires
        reads.len() == invocation.inputs.len(),
        index < invocation.inputs.len(),
    ensures
        output_of_input(invocation, reads, index) == file_output(
            invocation.verbose,
            invocation.filter,
            invocation.inputs[index as int],
            reads[index as int],
        ),
{
    let block = file_output(
        invocation.verbose,
        invocation.filter,
        invocation.inputs[index as int],
        reads[index as int],
    );
    let before = run_output_upto(invocation, reads, index);
    let through = run_output_upto(invocation, reads, index + 1);
    let whole = run_output(invocation, reads);
    lemma_run_output_grows(invocation, reads, index + 1, invocation.inputs.len());
    assert forall|i: int| 0 <= i < block.len() implies whole[before.len() + i] == block[i] by {
        assert(through[before.len() + i] == block[i]);
    }
}

/// Replacing what another input gave, be it by a file that could not be
/// opened, leaves the output for this input as it was.
pub proof fn lemma_other_input_changes_nothing(
    invocation: InvocationView,
    reads: Seq<FileReadView>,
    index: nat,
    other: nat,
    replaced: FileReadView,
)
    requires
        reads.len() == invocation.inputs.len(),
        index < invocation.inputs.len(),
        other < invocation.inputs.len(),
        other != index,
    ensures
        output_of_input(invocation, reads.update(other as int, replaced), index)
            == output_of_input(invocation, reads, index),
{
    lemma_inputs_are_independent(invocation, reads, index);
    lemma_inputs_are_independent(invocation, reads.update(other as int, replaced), index);
}

} // verus!
