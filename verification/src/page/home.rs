//! The home page: a search field, and buttons for the settings, the help and
//! the import of a documentation set.

use vstd::prelude::*;
use vstd::string::*;
use crate::docset::{self, DocKind, DocSetHandle, DocSource, DocsetError, DocsetErrorView, MessageView, Protocol};
use crate::page::{Command, CommandView};
use crate::text::{decimal, decimal_digits};

verus! {

/// The state of the home page: what the search field holds.
pub struct ViewModel {
    search: String,
}

impl View for ViewModel {
    type V = Seq<char>;

    closed spec fn view(&self) -> Seq<char> {
        self.search@
    }
}

impl Default for ViewModel {
    fn default() -> (r: ViewModel)
        ensures
            r@ == Seq::<char>::empty(),
    {
        ViewModel { search: String::new() }
    }
}

impl ViewModel {
    /// What the search field holds.
    pub fn search(&self) -> (r: &String)
        ensures
            r@ == self@,
    {
        &self.search
    }
}

/// What the home page can be told.
#[derive(Debug, Clone)]
pub enum Message {
    /// The search field now holds this text.
    SearchInput(String),
    /// An import reports.
    DocsetMessage(docset::Message),
    Settings,
    Help,
    Add,
}

pub enum HomeMessageView {
    SearchInput(Seq<char>),
    DocsetMessage(MessageView),
    Settings,
    Help,
    Add,
}

impl View for Message {
    type V = HomeMessageView;

    open spec fn view(&self) -> HomeMessageView {
        match self {
            Message::SearchInput(s) => HomeMessageView::SearchInput(s@),
            Message::DocsetMessage(m) => HomeMessageView::DocsetMessage(m@),
            Message::Settings => HomeMessageView::Settings,
            Message::Help => HomeMessageView::Help,
            Message::Add => HomeMessageView::Add,
        }
    }
}

impl From<String> for Message {
    fn from(value: String) -> (r: Message) {
        Message::SearchInput(value)
    }
}

impl vstd::std_specs::convert::FromSpecImpl<String> for Message {
    open spec fn obeys_from_spec() -> bool {
        true
    }

    open spec fn from_spec(v: String) -> Message {
        Message::SearchInput(v)
    }
}

impl From<docset::Message> for Message {
    fn from(value: docset::Message) -> (r: Message) {
        Message::DocsetMessage(value)
    }
}

impl vstd::std_specs::convert::FromSpecImpl<docset::Message> for Message {
    open spec fn obeys_from_spec() -> bool {
        true
    }

    open spec fn from_spec(v: docset::Message) -> Message {
        Message::DocsetMessage(v)
    }
}

/// The manifest of the crate whose documentation the import button fetches.
pub open spec fn import_manifest() -> Seq<char> {
    "/home/generic/git/generic/libcosmic/Cargo.toml"@
}

/// The line that reports an import's progress: `Progress: completed/total`.
pub open spec fn progress_line(completed: nat, total: nat) -> Seq<char> {
    "Progress: "@ + decimal_digits(completed) + "/"@ + decimal_digits(total)
}

/// What the home page asks for when told about an import.
pub open spec fn docset_command(m: MessageView) -> CommandView {
    match m {
        MessageView::CurrentProgress { completed, total } => CommandView::Print(
            progress_line(completed, total),
        ),
        MessageView::ImportComplete { success } => CommandView::Print(
            if success {
                "Import completed successfully"@
            } else {
                "Import failed"@
            },
        ),
        MessageView::CompilerMessage => CommandView::PrintCompilerMessage {
            prefix: "Compiler message: "@,
        },
        MessageView::ReadPackageMetadata => CommandView::Print("Reading package metadata"@),
    }
}

/// How the home page reacts to a message: the search field takes the text it
/// is given; the import button imports the fixed crate; an import's reports
/// are printed; the settings and help buttons do nothing yet.
pub open spec fn home_update(search: Seq<char>, m: HomeMessageView) -> (Seq<char>, CommandView) {
    match m {
        HomeMessageView::SearchInput(what) => (what, CommandView::Nothing),
        HomeMessageView::Add => (
            search,
            CommandView::Import {
                protocol: Protocol::File,
                kind: DocKind::RustCrate,
                path: import_manifest(),
            },
        ),
        HomeMessageView::DocsetMessage(d) => (search, docset_command(d)),
        HomeMessageView::Settings => (search, CommandView::Nothing),
        HomeMessageView::Help => (search, CommandView::Nothing),
    }
}

/// The search field holds exactly the text it was last given, whatever that
/// text is (the empty text too), and the page then asks for nothing; any
/// other message leaves the search text as it was.
pub proof fn lemma_search_input_replaces_text(search: Seq<char>, m: HomeMessageView)
    ensures
        m matches HomeMessageView::SearchInput(what) ==> home_update(search, m).0 == what
            && home_update(search, m).1 == CommandView::Nothing,
        !(m is SearchInput) ==> home_update(search, m).0 == search,
{
}

/// The line that reports how an import ended.
pub open spec fn import_report_line(result: Result<DocSetHandle, DocsetErrorView>) -> Seq<char> {
    match result {
        Ok(_) => "Import successful"@,
        Err(why) => "Import error: "@ + why.message(),
    }
}

/// The line that reports how an import ended.
pub fn import_report(result: &Result<DocSetHandle, DocsetError>) -> (r: String)
    ensures
        r@ == import_report_line(
            match result {
                Ok(h) => Ok(*h),
                Err(e) => Err(e@),
            },
        ),
{
    match result {
        Ok(_) => String::from_str("Import successful"),
        Err(why) => {
            let mut line = String::from_str("Import error: ");
            let text = why.describe();
            line.append(text.as_str());
            line
        },
    }
}

/// The line `Progress: completed/total`.
fn progress_text(completed: usize, total: usize) -> (r: String)
    ensures
        r@ == progress_line(completed as nat, total as nat),
{
    let mut line = String::from_str("Progress: ");
    let c = decimal(completed);
    line.append(c.as_str());
    line.append("/");
    let t = decimal(total);
    line.append(t.as_str());
    line
}

impl ViewModel {
    /// Takes in a message, and says what the program is to do.
    pub fn update(&mut self, message: Message) -> (c: Command)
        ensures
            (final(self)@, c@) == home_update(old(self)@, message@),
            message matches Message::DocsetMessage(docset::Message::CompilerMessage(m)) ==> (
            c matches Command::PrintCompilerMessage { message: printed, .. } && printed == m),
            message matches Message::SearchInput(what) ==> final(self)@ == what@ && c@
                == CommandView::Nothing,
            !(message is SearchInput) ==> final(self)@ == old(self)@,
    {
        match message {
            Message::SearchInput(what) => {
                self.search = what;
                Command::Nothing
            },
            Message::Add => Command::Import(
                DocSource {
                    protocol: Protocol::File,
                    kind: DocKind::RustCrate,
                    path: String::from_str("/home/generic/git/generic/libcosmic/Cargo.toml"),
                },
            ),
            Message::DocsetMessage(msg) => match msg {
                docset::Message::CurrentProgress { completed, total } => Command::Print(
                    progress_text(completed, total),
                ),
                docset::Message::ImportComplete { success } => {
                    if success {
                        Command::Print(String::from_str("Import completed successfully"))
                    } else {
                        Command::Print(String::from_str("Import failed"))
                    }
                },
                docset::Message::CompilerMessage(m) => Command::PrintCompilerMessage {
                    prefix: String::from_str("Compiler message: "),
                    message: m,
                },
                docset::Message::ReadPackageMetadata => Command::Print(
                    String::from_str("Reading package metadata"),
                ),
            },
            Message::Settings => Command::Nothing,
            Message::Help => Command::Nothing,
        }
    }
}

} // verus!
