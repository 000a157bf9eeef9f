//! The compiled directive pattern and the search for the first directive of a
//! line.

use crate::directive::{directive_text, first_directive, has_directive, lemma_text_of_first_directive};
use regex::Regex;
use vstd::prelude::*;

verus! {

/// The directive grammar as a regular expression. Group 1 is the quoted text.
pub const DIRECTIVE_PATTERN: &'static str = "printe\\s+'([^']*)'";

/// `regex::Regex`, a compiled regular expression. Nothing of its inside is
/// known here.
#[verifier::external_type_specification]
#[verifier::external_body]
pub struct ExRegex(regex::Regex);

/// `regex::Error`, the reason for which a pattern was refused. Nothing of its
/// inside is known here.
#[verifier::external_type_specification]
#[verifier::external_body]
pub struct ExRegexError(regex::Error);

/// The pattern from which `Regex::new` compiled an expression: the text that
/// was handed to it. `None` stands for an expression that was built in
/// another way, with settings of its own.
pub uninterp spec fn compiled_pattern(expression: Regex) -> Option<Seq<char>>;

/// Whether `Regex::new` accepts a pattern. Which patterns it accepts is left
/// open: the rules of its syntax and its size limit are not restated here.
pub uninterp spec fn pattern_accepted(pattern: Seq<char>) -> bool;

/// `Regex::new` either refuses the pattern or returns an expression compiled
/// from exactly that pattern; which of the two depends on the pattern alone.
pub assume_specification[ Regex::new ](re: &str) -> (compiled: Result<Regex, regex::Error>)
    ensures
        compiled is Ok <==> pattern_accepted(re@),
        compiled matches Ok(expression) ==> compiled_pattern(expression) == Some(re@),
;

/// `Regex::captures` on an expression that `Regex::new` compiled from the
/// directive pattern, and group 1 of what it found. The search reports the
/// leftmost match; `\s+` is one or more characters of the property
/// `White_Space`, `[^']*` any run of characters other than the quote. So the
/// result is the text between the quotes of the first directive of the line,
/// and there is none exactly when the line has no directive.
#[verifier::external_body]
fn first_group(expression: &Regex, line: &str) -> (text: Option<String>)
    requires
        compiled_pattern(*expression) == Some(DIRECTIVE_PATTERN@),
    ensures
        match text {
            Some(t) => exists|start: int, open: int, close: int|
                first_directive(line@, start, open, close) && t@ == line@.subrange(
                    open + 1,
                    close,
                ),
            None => !has_directive(line@),
        },
{
    match expression.captures(line) {
        Some(groups) => groups.get(1).map(|found| found.as_str().to_string()),
        None => None,
    }
}

/// The directive pattern was refused when it was compiled.
#[derive(Clone, Copy, Debug, PartialEq, Eq)]
pub struct PatternRefused;

/// Finds directives in lines. Made once and shared by every line of every file.
pub struct DirectiveMatcher {
    expression: Regex,
}

impl DirectiveMatcher {
    #[verifier::type_invariant]
    spec fn compiled_from_directive_pattern(self) -> bool {
        compiled_pattern(self.expression) == Some(DIRECTIVE_PATTERN@)
    }

    /// Compiles the directive pattern. This fails exactly where the pattern
    /// is refused.
    pub fn new() -> (made: Result<DirectiveMatcher, PatternRefused>)
        ensures
            made is Ok <==> pattern_accepted(DIRECTIVE_PATTERN@),
    {
        match Regex::new(DIRECTIVE_PATTERN) {
            Ok(expression) => Ok(DirectiveMatcher { expression }),
            Err(_) => Err(PatternRefused),
        }
    }

    /// The text of the first directive of `line`, if it has one.
    pub fn find(&self, line: &str) -> (text: Option<String>)
        ensures
            text.deep_view() == directive_text(line@),
    {
        proof {
            use_type_invariant(self);
        }
        let text = first_group(&self.expression, line);
        proof {
            if let Some(t) = &text {
                let (start, open, close) = choose|start: int, open: int, close: int|
                    first_directive(line@, start, open, close) && t@ == line@.subrange(
                        open + 1,
                        close,
                    );
                lemma_text_of_first_directive(line@, start, open, close);
            }
        }
        text
    }
}

} // verus!
