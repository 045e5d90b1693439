//! Errors of the library.

use vstd::prelude::*;

verus! {

/// What went wrong, with a message.
#[derive(Debug, Clone, PartialEq)]
pub enum RsbindError {
    ParseError(String),
    GenerateError(String),
    FileError(String),
    CommandError(String),
}

/// The outcome of one parsing step: a value, a reported failure, or a
/// stop where the tool aborts, with the message it stops with (it panics
/// on such input).
#[derive(Debug)]
pub enum Step<T> {
    Done(T),
    Fail(String),
    Abort(String),
}

/// Mathematical model of a `Step`.
pub enum StepView<T> {
    Done(T),
    Fail(Seq<char>),
    Abort(Seq<char>),
}

impl<T: View> View for Step<T> {
    type V = StepView<T::V>;

    open spec fn view(&self) -> StepView<T::V> {
        match self {
            Step::Done(t) => StepView::Done(t@),
            Step::Fail(m) => StepView::Fail(m@),
            Step::Abort(m) => StepView::Abort(m@),
        }
    }
}

} // verus!
