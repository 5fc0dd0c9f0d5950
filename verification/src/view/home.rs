//! The first draft of the home view: a search field and three buttons that
//! do nothing yet.

use vstd::prelude::*;
use crate::page::{Command, CommandView};

verus! {

/// The state of the home view: what the search field holds.
pub struct ViewModel {
    search: String,
}

impl vstd::view::View for ViewModel {
    type V = Seq<char>;

    closed spec fn view(&self) -> Seq<char> {
        self.search@
    }
}

impl Default for ViewModel {
    fn default() -> (r: ViewModel)
        ensures
            r@ == Seq::<char>::empty(),
    {
        ViewModel { search: String::new() }
    }
}

/// What the home view can be told.
#[derive(Debug, Clone)]
pub enum Message {
    Settings,
    Help,
    Add,
}

impl ViewModel {
    /// Takes in a message; the view asks for nothing and keeps its search text.
    pub fn update(&mut self, message: Message) -> (c: Command)
        ensures
            final(self)@ == old(self)@,
            c@ == CommandView::Nothing,
    {
        Command::Nothing
    }
}

} // verus!
