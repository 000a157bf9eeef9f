//! What the processor prints: the lines of a file, and the messages about it.

use vstd::prelude::*;

verus! {

/// Where a piece of output goes.
#[derive(Clone, Copy, Debug, PartialEq, Eq)]
pub enum Stream {
    /// Standard output: lines of files, announcements and counts.
    Stdout,
    /// Standard error: files that could not be opened.
    Stderr,
}

/// One line of output, without its line ending.
#[derive(Clone, Debug, PartialEq, Eq)]
pub struct Output {
    pub stream: Stream,
    pub text: String,
}

/// One line of output, with its text as a sequence of characters.
pub struct OutputView {
    pub stream: Stream,
    pub text: Seq<char>,
}

impl View for Output {
    type V = OutputView;

    open spec fn view(&self) -> OutputView {
        OutputView { stream: self.stream, text: self.text@ }
    }
}

impl DeepView for Output {
    type V = OutputView;

    open spec fn deep_view(&self) -> OutputView {
        self@
    }
}

/// A line for standard output.
pub open spec fn to_stdout(text: Seq<char>) -> OutputView {
    OutputView { stream: Stream::Stdout, text }
}

/// A line for standard error.
pub open spec fn to_stderr(text: Seq<char>) -> OutputView {
    OutputView { stream: Stream::Stderr, text }
}

/// The character of a decimal digit.
pub open spec fn digit(d: nat) -> char {
    if d == 0 {
        '0'
    } else if d == 1 {
        '1'
    } else if d == 2 {
        '2'
    } else if d == 3 {
        '3'
    } else if d == 4 {
        '4'
    } else if d == 5 {
        '5'
    } else if d == 6 {
        '6'
    } else if d == 7 {
        '7'
    } else if d == 8 {
        '8'
    } else {
        '9'
    }
}

/// A number in decimal, without sign or leading zeros.
pub open spec fn decimal(n: nat) -> Seq<char>
    decreases n,
{
    if n < 10 {
        seq![digit(n)]
    } else {
        decimal(n / 10).push(digit(n % 10))
    }
}

/// What stands before the path in the announcement of a file.
pub const ANNOUNCEMENT_PREFIX: &'static str = "Processando arquivo: ";

/// What stands before the path in the closing line of a file.
pub const SUMMARY_PREFIX: &'static str = "Número de linhas em ";

/// What stands between the path and the count in the closing line of a file.
pub const SUMMARY_SEPARATOR: &'static str = ": ";

/// What stands before the path in the message for a file that could not be
/// opened.
pub const OPEN_FAILURE_PREFIX: &'static str = "Erro ao ler o arquivo: ";

/// The announcement of a file, printed in verbose mode before the file is read.
pub open spec fn announcement_text(path: Seq<char>) -> Seq<char> {
    ANNOUNCEMENT_PREFIX@ + path
}

/// The closing line of a file: its path and the count of its lines.
pub open spec fn summary_text(path: Seq<char>, count: nat) -> Seq<char> {
    SUMMARY_PREFIX@ + path + SUMMARY_SEPARATOR@ + decimal(count)
}

/// The message for a file that could not be opened.
pub open spec fn open_failure_text(path: Seq<char>) -> Seq<char> {
    OPEN_FAILURE_PREFIX@ + path
}

fn digit_text(d: u64) -> (text: &'static str)
    requires
        d < 10,
    ensures
        text@ == seq![digit(d as nat)],
{
    proof {
        reveal_strlit("0");
        reveal_strlit("1");
        reveal_strlit("2");
        reveal_strlit("3");
        reveal_strlit("4");
        reveal_strlit("5");
        reveal_strlit("6");
        reveal_strlit("7");
        reveal_strlit("8");
        reveal_strlit("9");
    }
    if d == 0 {
        "0"
    } else if d == 1 {
        "1"
    } else if d == 2 {
        "2"
    } else if d == 3 {
        "3"
    } else if d == 4 {
        "4"
    } else if d == 5 {
        "5"
    } else if d == 6 {
        "6"
    } else if d == 7 {
        "7"
    } else if d == 8 {
        "8"
    } else {
        "9"
    }
}

/// Writes a count in decimal.
pub fn render_count(count: u64) -> (text: String)
    ensures
        text@ == decimal(count as nat),
    decreases count,
{
    if count < 10 {
        String::from_str(digit_text(count))
    } else {
        let mut text = render_count(count / 10);
        text.append(digit_text(count % 10));
        text
    }
}

/// The announcement of the file at `path`.
pub fn announcement(path: &str) -> (out: Output)
    ensures
        out@ == to_stdout(announcement_text(path@)),
{
    let mut text = String::from_str(ANNOUNCEMENT_PREFIX);
    text.append(path);
    Output { stream: Stream::Stdout, text }
}

/// The closing line of the file at `path`, of which `count` lines were counted.
pub fn summary(path: &str, count: u64) -> (out: Output)
    ensures
        out@ == to_stdout(summary_text(path@, count as nat)),
{
    let mut text = String::from_str(SUMMARY_PREFIX);
    text.append(path);
    text.append(SUMMARY_SEPARATOR);
    let digits = render_count(count);
    text.append(digits.as_str());
    Output { stream: Stream::Stdout, text }
}

/// The message for the file at `path` when it could not be opened.
pub fn open_failure(path: &str) -> (out: Output)
    ensures
        out@ == to_stderr(open_failure_text(path@)),
{
    let mut text = String::from_str(OPEN_FAILURE_PREFIX);
    text.append(path);
    Output { stream: Stream::Stderr, text }
}

} // verus!
