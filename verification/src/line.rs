//! One line of a file: what is printed for it and whether it is counted.

use crate::directive::directive_text;
use crate::filter::{admits, passes};
use crate::matcher::DirectiveMatcher;
use crate::report::{to_stdout, OutputView};
use vstd::prelude::*;

verus! {

/// What reading one line of a file gave.
#[derive(Clone, Debug, PartialEq, Eq)]
pub enum LineRead {
    /// The line was read and decoded; the text is without its line ending.
    Text(String),
    /// The line could not be read or decoded.
    Unreadable,
}

/// A line read, with its text as a sequence of characters.
pub enum LineReadView {
    Text(Seq<char>),
    Unreadable,
}

impl View for LineRead {
    type V = LineReadView;

    open spec fn view(&self) -> LineReadView {
        match self {
            LineRead::Text(content) => LineReadView::Text(content@),
            LineRead::Unreadable => LineReadView::Unreadable,
        }
    }
}

impl DeepView for LineRead {
    type V = LineReadView;

    open spec fn deep_view(&self) -> LineReadView {
        self@
    }
}

/// What is printed for a line, if anything: the text of its first directive
/// where it has one, else the line itself where the filter lets it through.
/// Nothing is printed for a line that could not be read.
pub open spec fn shown_text(filter: Option<Seq<char>>, line: LineReadView) -> Option<Seq<char>> {
    match line {
        LineReadView::Text(content) => match directive_text(content) {
            Some(text) => Some(text),
            None => if admits(filter, content) {
                Some(content)
            } else {
                None
            },
        },
        LineReadView::Unreadable => None,
    }
}

/// Whether a line adds to the count of its file: it was read and it has no
/// directive. The filter plays no part.
pub open spec fn is_counted(line: LineReadView) -> bool {
    line matches LineReadView::Text(content) && directive_text(content) is None
}

/// The output for a line: its text, where it has one to show, on standard
/// output.
pub open spec fn line_output(filter: Option<Seq<char>>, line: LineReadView) -> Option<OutputView> {
    match shown_text(filter, line) {
        Some(text) => Some(to_stdout(text)),
        None => None,
    }
}

/// What became of one line.
#[derive(Clone, Debug, PartialEq, Eq)]
pub struct LineOutcome {
    /// The text to print for the line, if any.
    pub shown: Option<String>,
    /// Whether the line adds to the count of its file.
    pub counted: bool,
}

/// Handles one line: looks for a directive first, and applies the filter only
/// where there is none.
pub fn process_line(matcher: &DirectiveMatcher, filter: &Option<String>, line: LineRead) -> (outcome:
    LineOutcome)
    ensures
        outcome.shown.deep_view() == shown_text(filter.deep_view(), line@),
        outcome.counted == is_counted(line@),
{
    match line {
        LineRead::Text(content) => {
            match matcher.find(content.as_str()) {
                Some(text) => LineOutcome { shown: Some(text), counted: false },
                None => {
                    if passes(filter, content.as_str()) {
                        LineOutcome { shown: Some(content), counted: true }
                    } else {
                        LineOutcome { shown: None, counted: true }
                    }
                },
            }
        },
        LineRead::Unreadable => LineOutcome { shown: None, counted: false },
    }
}

} // verus!
