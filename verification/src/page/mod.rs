//! The pages of the program's window, and what a page asks the program to do.

pub mod docs;
pub mod home;

use vstd::prelude::*;
use crate::docset::{DocKind, DocSource, Protocol};

verus! {

/// A page of the window.
pub enum Page {
    Home(home::ViewModel),
    Docs(docs::ViewModel),
}

/// What a page asks of the program after it took in a message.
#[derive(Debug)]
pub enum Command {
    /// Nothing.
    Nothing,
    /// Import the documentation set that this source names; the import's
    /// messages come back to the page, and its result is reported.
    Import(DocSource),
    /// Print this line.
    Print(String),
    /// Print this prefix followed by the debug form of a compiler message.
    PrintCompilerMessage { prefix: String, message: cargo_metadata::CompilerMessage },
}

pub enum CommandView {
    Nothing,
    Import { protocol: Protocol, kind: DocKind, path: Seq<char> },
    Print(Seq<char>),
    PrintCompilerMessage { prefix: Seq<char> },
}

impl View for Command {
    type V = CommandView;

    open spec fn view(&self) -> CommandView {
        match self {
            Command::Nothing => CommandView::Nothing,
            Command::Import(s) => CommandView::Import {
                protocol: s.protocol,
                kind: s.kind,
                path: s.path@,
            },
            Command::Print(line) => CommandView::Print(line@),
            Command::PrintCompilerMessage { prefix, .. } => CommandView::PrintCompilerMessage {
                prefix: prefix@,
            },
        }
    }
}

} // verus!
