//! Line-by-line processing of text files: an inline `printe '...'` directive is
//! replaced by its quoted text, every other line is printed when it passes an
//! optional substring filter, and the lines that carry no directive are counted.
//!
//! The library reads no file and prints nothing. Its caller hands it what was
//! read, as events of a [`FileSession`] or as whole files, and prints what
//! comes back.

pub mod directive;
pub mod files;
pub mod filter;
pub mod invocation;
pub mod laws;
pub mod line;
pub mod matcher;
pub mod report;
pub mod session;

pub use crate::files::{process_file, run, FileRead};
pub use crate::filter::passes;
pub use crate::invocation::{Invocation, UsageError};
pub use crate::line::{process_line, LineOutcome, LineRead};
pub use crate::matcher::{DirectiveMatcher, PatternRefused, DIRECTIVE_PATTERN};
pub use crate::report::{announcement, open_failure, render_count, summary, Output, Stream};
pub use crate::session::{FileEvent, FileSession, Phase};
