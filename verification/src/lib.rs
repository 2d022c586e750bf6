//! An interactive single-choice selection prompt, centered on its selection
//! state machine: the option catalog, the list of option indices currently
//! matching a text filter, and a cursor over that list. Key events move the
//! cursor circularly, edit the filter (recomputing the match list and
//! clamping the cursor), or resolve the highlighted option into a final
//! answer. Terminal input and output stay outside this crate; the state
//! machine here is pure and fully verified.

pub mod error;
pub mod filtering;
pub mod formatter;
pub mod key;
pub mod option_answer;
pub mod pagination;
pub mod select;

pub use error::InquireError;
pub use key::{Key, KeyModifiers};
pub use option_answer::OptionAnswer;
pub use select::Select;
