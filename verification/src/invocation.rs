//! The arguments of one run: the files to process, in order, the verbose flag
//! and the optional filter.

use vstd::prelude::*;

verus! {

/// Why a set of arguments is refused.
#[derive(Clone, Copy, Debug, PartialEq, Eq)]
pub enum UsageError {
    /// No input file was named.
    MissingInput,
}

/// The arguments of one run, with texts as sequences of characters.
pub struct InvocationView {
    /// The paths of the files to process, in the order in which they were given.
    pub inputs: Seq<Seq<char>>,
    /// Whether each file is announced before it is read.
    pub verbose: bool,
    /// The text that a line must hold to be printed, if one was given.
    pub filter: Option<Seq<char>>,
}

/// The arguments as they are accepted or refused: a run needs at least one
/// input.
pub open spec fn checked(inputs: Seq<Seq<char>>, verbose: bool, filter: Option<Seq<char>>) -> Result<
    InvocationView,
    UsageError,
> {
    if inputs.len() == 0 {
        Err(UsageError::MissingInput)
    } else {
        Ok(InvocationView { inputs, verbose, filter })
    }
}

/// The arguments of one run. There is always at least one input.
pub struct Invocation {
    inputs: Vec<String>,
    verbose: bool,
    filter: Option<String>,
}

impl View for Invocation {
    type V = InvocationView;

    closed spec fn view(&self) -> InvocationView {
        InvocationView {
            inputs: self.inputs.deep_view(),
            verbose: self.verbose,
            filter: self.filter.deep_view(),
        }
    }
}

impl Invocation {
    #[verifier::type_invariant]
    spec fn names_an_input(self) -> bool {
        self.inputs@.len() > 0
    }

    /// Puts the arguments together. They are refused exactly when no input is
    /// named; an empty filter is a filter.
    pub fn new(inputs: Vec<String>, verbose: bool, filter: Option<String>) -> (made: Result<
        Invocation,
        UsageError,
    >)
        ensures
            checked(inputs.deep_view(), verbose, filter.deep_view()) == (match made {
                Ok(invocation) => Ok(invocation@),
                Err(error) => Err(error),
            }),
    {
        if inputs.len() == 0 {
            Err(UsageError::MissingInput)
        } else {
            Ok(Invocation { inputs, verbose, filter })
        }
    }

    /// The paths of the files to process, in order. There is at least one.
    pub fn inputs(&self) -> (inputs: &Vec<String>)
        ensures
            inputs.deep_view() == self@.inputs,
            inputs@.len() > 0,
    {
        proof {
            use_type_invariant(self);
        }
        &self.inputs
    }

    /// Whether each file is announced before it is read.
    pub fn verbose(&self) -> (verbose: bool)
        ensures
            verbose == self@.verbose,
    {
        self.verbose
    }

    /// The filter, if one was given.
    pub fn filter(&self) -> (filter: &Option<String>)
        ensures
            filter.deep_view() == self@.filter,
    {
        &self.filter
    }
}

} // verus!
