//! The first draft of the window's views.

pub mod home;

use vstd::prelude::*;

verus! {

/// A view of the window.
pub enum View {
    Home(home::ViewModel),
    Docs(crate::page::docs::ViewModel),
}

} // verus!
