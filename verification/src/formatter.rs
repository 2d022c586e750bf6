//! The formatter turning the final answer into its display text.

use vstd::prelude::*;

use crate::option_answer::OptionAnswer;

verus! {

/// Renders the final answer for display. Supplied by the caller; assumed
/// total. `format` must return exactly what the implementation's own
/// `spec_format` states.
pub trait OptionFormatter {
    /// The display text for an answer with the given catalog index and label.
    spec fn spec_format(&self, index: int, value: Seq<char>) -> Seq<char>;

    /// Formats the answer.
    fn format(&self, answer: &OptionAnswer) -> (r: String)
        ensures
            r@ == self.spec_format(answer.index as int, answer.value@),
    ;
}

/// The default formatter: the selected label itself.
pub struct DefaultFormatter;

impl OptionFormatter for DefaultFormatter {
    open spec fn spec_format(&self, index: int, value: Seq<char>) -> Seq<char> {
        value
    }

    fn format(&self, answer: &OptionAnswer) -> (r: String)
        ensures
            r@ == self.spec_format(answer.index as int, answer.value@),
    {
        answer.value.clone()
    }
}

} // verus!
