//! The resolved answer of a selection prompt.

use vstd::prelude::*;

verus! {

/// The option finally selected: its index in the original option catalog and
/// its label. Produced only at submission time; the index is the stable
/// identity of the option, assigned at construction and never changed.
pub struct OptionAnswer {
    pub index: usize,
    pub value: String,
}

impl OptionAnswer {
    /// Pairs a catalog index with its label.
    pub fn new(index: usize, value: &str) -> (r: Self)
        ensures
            r.index == index,
            r.value@ == value@,
    {
        OptionAnswer { index, value: value.to_owned() }
    }
}

} // verus!
