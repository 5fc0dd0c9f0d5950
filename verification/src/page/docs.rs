//! The page that shows a documentation set.

use vstd::prelude::*;
use crate::page::{Command, CommandView};

verus! {

/// The state of the documentation page; it holds nothing yet.
pub struct ViewModel {}

/// What the documentation page can be told: nothing yet, so no message
/// exists.
pub type Message = core::convert::Infallible;

impl ViewModel {
    /// Takes in a message; the page asks for nothing.
    pub fn update(&mut self, message: Message) -> (c: Command)
        ensures
            c@ == CommandView::Nothing,
    {
        Command::Nothing
    }
}

} // verus!
