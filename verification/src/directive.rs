//! The grammar of the inline directive: the keyword `printe`, at least one
//! white-space character, and a text between two single quotes.

use vstd::prelude::*;

verus! {

/// The character that opens and closes the text of a directive.
pub const QUOTE: char = '\'';

/// The keyword that starts a directive.
pub open spec fn keyword() -> Seq<char> {
    seq!['p', 'r', 'i', 'n', 't', 'e']
}

/// The characters that may stand between the keyword and the opening quote:
/// those with the Unicode property `White_Space`.
pub open spec fn is_separator(c: char) -> bool {
    let n: u32 = c as u32;
    ||| 0x09 <= n <= 0x0d
    ||| n == 0x20
    ||| n == 0x85
    ||| n == 0xa0
    ||| n == 0x1680
    ||| 0x2000 <= n <= 0x200a
    ||| n == 0x2028
    ||| n == 0x2029
    ||| n == 0x202f
    ||| n == 0x205f
    ||| n == 0x3000
}

/// A directive stands in `line` with its keyword at `start`, its opening quote
/// at `open` and its closing quote at `close`: between keyword and opening
/// quote there are only separators, and at least one; between the two quotes
/// there is no quote.
pub open spec fn directive_at(line: Seq<char>, start: int, open: int, close: int) -> bool {
    &&& 0 <= start
    &&& start + keyword().len() < open < close < line.len()
    &&& line.subrange(start, start + keyword().len()) == keyword()
    &&& forall|k: int| start + keyword().len() <= k < open ==> is_separator(#[trigger] line[k])
    &&& line[open] == QUOTE
    &&& forall|k: int| open < k < close ==> #[trigger] line[k] != QUOTE
    &&& line[close] == QUOTE
}

/// Some directive stands in `line`.
pub open spec fn has_directive(line: Seq<char>) -> bool {
    exists|start: int, open: int, close: int| directive_at(line, start, open, close)
}

/// The directive at `start`, `open`, `close` is the first of `line`: no
/// directive starts before it.
pub open spec fn first_directive(line: Seq<char>, start: int, open: int, close: int) -> bool {
    &&& directive_at(line, start, open, close)
    &&& forall|s: int, o: int, c: int| directive_at(line, s, o, c) ==> start <= s
}

/// The text between the quotes of the first directive of `line`, if the line
/// has a directive.
pub open spec fn directive_text(line: Seq<char>) -> Option<Seq<char>> {
    if has_directive(line) {
        let (start, open, close) = choose|start: int, open: int, close: int|
            first_directive(line, start, open, close);
        Some(line.subrange(open + 1, close))
    } else {
        None
    }
}

/// A directive that starts at a given place has its quotes at fixed places.
pub proof fn lemma_quotes_fixed_by_start(
    line: Seq<char>,
    start: int,
    open1: int,
    close1: int,
    open2: int,
    close2: int,
)
    requires
        directive_at(line, start, open1, close1),
        directive_at(line, start, open2, close2),
    ensures
        open1 == open2,
        close1 == close2,
{
    if open1 < open2 {
        assert(is_separator(line[open1]));
    }
    if open2 < open1 {
        assert(is_separator(line[open2]));
    }
    if close1 < close2 {
        assert(line[close1] != QUOTE);
    }
    if close2 < close1 {
        assert(line[close2] != QUOTE);
    }
}

/// Either a first directive starts before `limit`, or no directive does.
proof fn lemma_first_before(line: Seq<char>, limit: nat)
    ensures
        (exists|start: int, open: int, close: int|
            first_directive(line, start, open, close) && start < limit) || (forall|
            s: int,
            o: int,
            c: int,
        | directive_at(line, s, o, c) ==> limit <= s),
    decreases limit,
{
    if limit > 0 {
        let below: nat = (limit - 1) as nat;
        lemma_first_before(line, below);
        if exists|open: int, close: int| directive_at(line, below as int, open, close) {
            let (open, close) = choose|open: int, close: int|
                directive_at(line, below as int, open, close);
            if forall|s: int, o: int, c: int| directive_at(line, s, o, c) ==> below <= s {
                assert(first_directive(line, below as int, open, close) && below < limit);
            }
        }
    }
}

/// A line with a directive has a first directive.
proof fn lemma_first_directive_exists(line: Seq<char>)
    requires
        has_directive(line),
    ensures
        exists|start: int, open: int, close: int| first_directive(line, start, open, close),
{
    let (s, o, c) = choose|s: int, o: int, c: int| directive_at(line, s, o, c);
    lemma_first_before(line, (s + 1) as nat);
}

/// The text of a line is the one between the quotes of its first directive.
pub proof fn lemma_text_of_first_directive(line: Seq<char>, start: int, open: int, close: int)
    requires
        first_directive(line, start, open, close),
    ensures
        directive_text(line) == Some(line.subrange(open + 1, close)),
{
    let (s, o, c) = choose|s: int, o: int, c: int| first_directive(line, s, o, c);
    lemma_quotes_fixed_by_start(line, start, open, close, o, c);
}

/// A line without a quote has no directive.
pub proof fn lemma_no_quote_no_directive(line: Seq<char>)
    requires
        forall|k: int| 0 <= k < line.len() ==> #[trigger] line[k] != QUOTE,
    ensures
        !has_directive(line),
        directive_text(line) is None,
{
}

/// A line has a text exactly when it has a directive, and the text is then
/// the one between the quotes of its first directive.
pub proof fn lemma_text_exactly_with_directive(line: Seq<char>)
    ensures
        directive_text(line) is Some <==> has_directive(line),
        has_directive(line) ==> exists|start: int, open: int, close: int|
            first_directive(line, start, open, close) && directive_text(line) == Some(
                line.subrange(open + 1, close),
            ),
{
    if has_directive(line) {
        lemma_first_directive_exists(line);
        let (start, open, close) = choose|start: int, open: int, close: int|
            first_directive(line, start, open, close);
        lemma_text_of_first_directive(line, start, open, close);
    }
}

} // verus!
