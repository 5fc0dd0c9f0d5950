//! Documentation sets: where they come from, what an import reports, what
//! can go wrong, and searching the entries of a set.

use vstd::prelude::*;
use vstd::string::*;
use crate::text::{
    ascii_lowercase, ascii_uppercase, contains_seq, contains_str, lowercase, occurs_at, to_lowercase,
};
use vstd::utf8::is_ascii_chars;

verus! {

/// `rustdoc_types::Id`, the identifier of an item in rustdoc's JSON output.
/// Carried through unchanged.
#[verifier::external_type_specification]
#[verifier::external_body]
pub struct ExRustdocId(rustdoc_types::Id);

/// `cargo_metadata::CompilerMessage`, a diagnostic that cargo reports while
/// building.  Carried through unchanged.
#[verifier::external_type_specification]
#[verifier::external_body]
pub struct ExCompilerMessage(cargo_metadata::CompilerMessage);

/// `Clone::clone` of `cargo_metadata::CompilerMessage` (derived there), so
/// that a [`Message`] can be cloned.  Nothing is stated of the copy.
pub assume_specification[ <cargo_metadata::CompilerMessage as std::clone::Clone>::clone ](
    message: &cargo_metadata::CompilerMessage,
) -> cargo_metadata::CompilerMessage;

/// A collection of documentation sets stored under one directory.
pub struct Library {
    path: String,
}

/// What kind of documentation a source holds.
#[derive(Debug, Clone, Copy, PartialEq, Eq, Structural)]
pub enum DocKind {
    RustCrate,
    TomlBook,
}

/// How a documentation source is reached.
#[derive(Debug, Clone, Copy, PartialEq, Eq, Structural)]
pub enum Protocol {
    File,
}

/// Where to fetch a documentation set from.
#[derive(Debug)]
pub struct DocSource {
    pub protocol: Protocol,
    pub kind: DocKind,
    /// The path of the source; for a Rust crate, its `Cargo.toml`.
    pub path: String,
}

/// An imported documentation set.
#[derive(Debug, PartialEq, Eq)]
pub struct DocSetHandle {
    name: String,
    version: String,
    language: String,
}

/// The abstract value of a [`DocSetHandle`].
pub struct DocSetHandleView {
    pub name: Seq<char>,
    pub version: Seq<char>,
    pub language: Seq<char>,
}

impl View for DocSetHandle {
    type V = DocSetHandleView;

    closed spec fn view(&self) -> DocSetHandleView {
        DocSetHandleView { name: self.name@, version: self.version@, language: self.language@ }
    }
}

impl DocSetHandle {
    /// A handle for the set called `name`, at `version`, written in `language`.
    pub fn new(name: String, version: String, language: String) -> (r: DocSetHandle)
        ensures
            r@ == (DocSetHandleView { name: name@, version: version@, language: language@ }),
    {
        DocSetHandle { name, version, language }
    }

    /// The name of the set.
    pub fn name(&self) -> (r: &String)
        ensures
            r@ == self@.name,
    {
        &self.name
    }

    /// The version of the set.
    pub fn version(&self) -> (r: &String)
        ensures
            r@ == self@.version,
    {
        &self.version
    }

    /// The language the set documents.
    pub fn language(&self) -> (r: &String)
        ensures
            r@ == self@.language,
    {
        &self.language
    }
}

/// A module of a documentation set.
pub struct Module {}

/// What can go wrong while importing a documentation set.  Errors that come
/// from the system carry the system's description of them.
#[derive(Debug, PartialEq, Eq)]
pub enum DocsetError {
    CommandFailed,
    ParseError,
    NetworkIssue,
    FailedToFindDocOutput,
    Utf8Error(String),
    JoinError(String),
    IoError(String),
    JsonError(String),
}

/// The abstract value of a [`DocsetError`].
pub enum DocsetErrorView {
    CommandFailed,
    ParseError,
    NetworkIssue,
    FailedToFindDocOutput,
    Utf8Error(Seq<char>),
    JoinError(Seq<char>),
    IoError(Seq<char>),
    JsonError(Seq<char>),
}

impl View for DocsetError {
    type V = DocsetErrorView;

    open spec fn view(&self) -> DocsetErrorView {
        match self {
            DocsetError::CommandFailed => DocsetErrorView::CommandFailed,
            DocsetError::ParseError => DocsetErrorView::ParseError,
            DocsetError::NetworkIssue => DocsetErrorView::NetworkIssue,
            DocsetError::FailedToFindDocOutput => DocsetErrorView::FailedToFindDocOutput,
            DocsetError::Utf8Error(m) => DocsetErrorView::Utf8Error(m@),
            DocsetError::JoinError(m) => DocsetErrorView::JoinError(m@),
            DocsetError::IoError(m) => DocsetErrorView::IoError(m@),
            DocsetError::JsonError(m) => DocsetErrorView::JsonError(m@),
        }
    }
}

impl DocsetErrorView {
    /// The text that describes the error to a user.
    pub open spec fn message(self) -> Seq<char> {
        match self {
            DocsetErrorView::CommandFailed => "Command failed"@,
            DocsetErrorView::ParseError => "Parse error"@,
            DocsetErrorView::NetworkIssue => "Network issue"@,
            DocsetErrorView::FailedToFindDocOutput => "Failed to find documentation output"@,
            DocsetErrorView::Utf8Error(m) => "UTF-8 error: "@ + m,
            DocsetErrorView::JoinError(m) => "Join error: "@ + m,
            DocsetErrorView::IoError(m) => "IO error: "@ + m,
            DocsetErrorView::JsonError(m) => "JSON error: "@ + m,
        }
    }
}

/// `prefix` followed by `detail`.
fn prefixed(prefix: &str, detail: &String) -> (r: String)
    ensures
        r@ == prefix@ + detail@,
{
    let mut s = String::from_str(prefix);
    s.append(detail.as_str());
    s
}

impl DocsetError {
    /// The text that describes the error to a user.
    pub fn describe(&self) -> (r: String)
        ensures
            r@ == self@.message(),
    {
        match self {
            DocsetError::CommandFailed => String::from_str("Command failed"),
            DocsetError::ParseError => String::from_str("Parse error"),
            DocsetError::NetworkIssue => String::from_str("Network issue"),
            DocsetError::FailedToFindDocOutput => String::from_str(
                "Failed to find documentation output",
            ),
            DocsetError::Utf8Error(m) => prefixed("UTF-8 error: ", m),
            DocsetError::JoinError(m) => prefixed("Join error: ", m),
            DocsetError::IoError(m) => prefixed("IO error: ", m),
            DocsetError::JsonError(m) => prefixed("JSON error: ", m),
        }
    }
}

/// A report on the progress of an import.
#[derive(Debug, Clone, PartialEq, Eq)]
pub enum Message {
    /// `completed` of the `total` packages have been built.
    CurrentProgress { completed: usize, total: usize },
    /// The compiler reported something while building.
    CompilerMessage(cargo_metadata::CompilerMessage),
    /// The build has ended.
    ImportComplete { success: bool },
    /// The package metadata is being read.
    ReadPackageMetadata,
}

/// The abstract value of a [`Message`]; a compiler message is seen only as
/// being one.
pub enum MessageView {
    CurrentProgress { completed: nat, total: nat },
    CompilerMessage,
    ImportComplete { success: bool },
    ReadPackageMetadata,
}

impl View for Message {
    type V = MessageView;

    open spec fn view(&self) -> MessageView {
        match self {
            Message::CurrentProgress { completed, total } => MessageView::CurrentProgress {
                completed: *completed as nat,
                total: *total as nat,
            },
            Message::CompilerMessage(_) => MessageView::CompilerMessage,
            Message::ImportComplete { success } => MessageView::ImportComplete { success: *success },
            Message::ReadPackageMetadata => MessageView::ReadPackageMetadata,
        }
    }
}

/// An item of a documentation set: its identifier and, if it has one, its name.
#[derive(Debug)]
pub struct DocEntry {
    pub id: rustdoc_types::Id,
    pub name: Option<String>,
}

/// An entry is found by a lower-cased query `lowered` when it has a name and
/// `lowered` occurs in the name, lower-cased.
pub open spec fn entry_found(entry: DocEntry, lowered: Seq<char>) -> bool {
    match entry.name {
        Some(name) => contains_seq(lowercase(name@), lowered),
        None => false,
    }
}

/// An entry matches a query when it has a name and the query, lower-cased,
/// occurs in the name, lower-cased.
pub open spec fn entry_matches(entry: DocEntry, query: Seq<char>) -> bool {
    entry_found(entry, lowercase(query))
}

/// The identifiers of the entries that the lower-cased query `lowered` finds,
/// in the order of the entries.
pub open spec fn found_ids(entries: Seq<DocEntry>, lowered: Seq<char>) -> Seq<rustdoc_types::Id>
    decreases entries.len(),
{
    if entries.len() == 0 {
        Seq::empty()
    } else {
        let rest = found_ids(entries.drop_last(), lowered);
        if entry_found(entries.last(), lowered) {
            rest.push(entries.last().id)
        } else {
            rest
        }
    }
}

/// The identifiers of the entries that match `query`, in the order of the entries.
pub open spec fn search_results(entries: Seq<DocEntry>, query: Seq<char>) -> Seq<rustdoc_types::Id> {
    found_ids(entries, lowercase(query))
}

/// No two entries share an identifier: the items of a set are keyed by it.
pub open spec fn distinct_ids(entries: Seq<DocEntry>) -> bool {
    forall|i: int, j: int|
        0 <= i < entries.len() && 0 <= j < entries.len() && i != j ==> #[trigger] entries[i].id
            != #[trigger] entries[j].id
}

/// Every identifier that a search finds belongs to an entry that the query finds.
pub proof fn lemma_search_sound(entries: Seq<DocEntry>, lowered: Seq<char>, j: int)
    requires
        0 <= j < found_ids(entries, lowered).len(),
    ensures
        exists|i: int|
            0 <= i < entries.len() && entries[i].id == found_ids(entries, lowered)[j]
                && entry_found(#[trigger] entries[i], lowered),
    decreases entries.len(),
{
    let rest = entries.drop_last();
    if j < found_ids(rest, lowered).len() {
        lemma_search_sound(rest, lowered, j);
        let i = choose|i: int|
            0 <= i < rest.len() && rest[i].id == found_ids(rest, lowered)[j]
                && entry_found(#[trigger] rest[i], lowered);
        assert(entries[i] == rest[i]);
    } else {
        assert(entries[entries.len() - 1] == entries.last());
    }
}

/// Every entry that the query finds is in the search's result.
pub proof fn lemma_search_complete(entries: Seq<DocEntry>, lowered: Seq<char>, i: int)
    requires
        0 <= i < entries.len(),
        entry_found(entries[i], lowered),
    ensures
        found_ids(entries, lowered).contains(entries[i].id),
    decreases entries.len(),
{
    let rest = entries.drop_last();
    if i < entries.len() - 1 {
        assert(rest[i] == entries[i]);
        lemma_search_complete(rest, lowered, i);
        let k = choose|k: int|
            0 <= k < found_ids(rest, lowered).len() && found_ids(rest, lowered)[k]
                == entries[i].id;
        if entry_found(entries.last(), lowered) {
            assert(found_ids(entries, lowered)[k] == entries[i].id);
        }
    } else {
        let r = found_ids(entries, lowered);
        assert(r[r.len() - 1] == entries[i].id);
    }
}

/// Where the entries' identifiers are distinct, a search names no identifier twice.
pub proof fn lemma_search_no_repeats(entries: Seq<DocEntry>, lowered: Seq<char>)
    requires
        distinct_ids(entries),
    ensures
        found_ids(entries, lowered).no_duplicates(),
    decreases entries.len(),
{
    if entries.len() > 0 {
        let rest = entries.drop_last();
        assert(distinct_ids(rest)) by {
            assert forall|i: int, j: int|
                0 <= i < rest.len() && 0 <= j < rest.len() && i != j implies #[trigger] rest[i].id
                != #[trigger] rest[j].id by {
                assert(rest[i] == entries[i] && rest[j] == entries[j]);
            }
        }
        lemma_search_no_repeats(rest, lowered);
        let prev = found_ids(rest, lowered);
        if entry_found(entries.last(), lowered) {
            let last = entries.len() - 1;
            assert forall|k: int| 0 <= k < prev.len() implies prev[k] != entries[last].id by {
                lemma_search_sound(rest, lowered, k);
                let i = choose|i: int|
                    0 <= i < rest.len() && rest[i].id == prev[k] && entry_found(
                        #[trigger] rest[i],
                        lowered,
                    );
                assert(rest[i] == entries[i]);
                assert(entries[i].id != entries[last].id);
            }
            let r = prev.push(entries[last].id);
            assert forall|a: int, b: int| 0 <= a < r.len() && 0 <= b < r.len() && a != b implies r[a]
                != r[b] by {
                if a < prev.len() && b < prev.len() {
                } else if a < prev.len() {
                    assert(r[b] == entries[last].id);
                } else {
                    assert(r[a] == entries[last].id);
                }
            }
        }
    }
}

/// A search does not regard case: two queries with the same lower-case form
/// find the same entries.
pub proof fn lemma_search_ignores_case(entries: Seq<DocEntry>, q1: Seq<char>, q2: Seq<char>)
    requires
        lowercase(q1) == lowercase(q2),
    ensures
        search_results(entries, q1) == search_results(entries, q2),
{
}

/// An ASCII query finds the same entries as its ASCII upper-case form: both
/// lower-case to the same text, which is still ASCII.
pub proof fn lemma_search_ignores_ascii_case(entries: Seq<DocEntry>, query: Seq<char>)
    requires
        is_ascii_chars(query),
    ensures
        is_ascii_chars(ascii_uppercase(query)),
        found_ids(entries, ascii_lowercase(ascii_uppercase(query))) == found_ids(
            entries,
            ascii_lowercase(query),
        ),
{
    assert(ascii_lowercase(ascii_uppercase(query)) =~= ascii_lowercase(query));
}

/// The empty query finds every entry that has a name, and only those.
pub proof fn lemma_empty_query_finds_named(entries: Seq<DocEntry>, i: int)
    requires
        0 <= i < entries.len(),
    ensures
        found_ids(entries, ascii_lowercase(Seq::empty())).contains(entries[i].id)
            <== entries[i].name is Some,
        entry_found(entries[i], ascii_lowercase(Seq::empty())) <==> entries[i].name is Some,
{
    assert(ascii_lowercase(Seq::<char>::empty()) =~= Seq::<char>::empty());
    if let Some(name) = entries[i].name {
        assert(occurs_at(lowercase(name@), Seq::empty(), 0)) by {
            assert(lowercase(name@).subrange(0, 0) =~= Seq::<char>::empty());
        }
        lemma_search_complete(entries, Seq::empty(), i);
    }
}

/// The entry has a name, and the query, lower-cased, occurs as a contiguous
/// run in that name, lower-cased.
pub open spec fn name_contains(entry: DocEntry, query: Seq<char>) -> bool {
    &&& entry.name is Some
    &&& contains_seq(lowercase(entry.name->Some_0@), lowercase(query))
}

/// The `k`-th identifier that a search finds is that of an entry whose name
/// contains the query, without regard to case.
pub proof fn lemma_found_entry(entries: Seq<DocEntry>, query: Seq<char>, k: int)
    requires
        0 <= k < search_results(entries, query).len(),
    ensures
        exists|i: int|
            0 <= i < entries.len() && entries[i].id == search_results(entries, query)[k]
                && #[trigger] name_contains(entries[i], query),
{
    let lowered = lowercase(query);
    lemma_search_sound(entries, lowered, k);
    let i = choose|i: int|
        0 <= i < entries.len() && entries[i].id == found_ids(entries, lowered)[k] && entry_found(
            #[trigger] entries[i],
            lowered,
        );
    assert(name_contains(entries[i], query));
}

/// What a search finds, stated over the entries themselves: every
/// identifier found is that of an entry whose name contains the query,
/// without regard to case; and every such entry is found.
pub proof fn lemma_search_finds_exactly(entries: Seq<DocEntry>, query: Seq<char>)
    ensures
        forall|id: rustdoc_types::Id|
            #[trigger] search_results(entries, query).contains(id) ==> exists|i: int|
                0 <= i < entries.len() && entries[i].id == id && #[trigger] name_contains(
                    entries[i],
                    query,
                ),
        forall|i: int|
            0 <= i < entries.len() && #[trigger] name_contains(entries[i], query)
                ==> search_results(entries, query).contains(entries[i].id),
{
    let lowered = lowercase(query);
    assert forall|id: rustdoc_types::Id|
        #[trigger] search_results(entries, query).contains(id) implies exists|i: int|
        0 <= i < entries.len() && entries[i].id == id && #[trigger] name_contains(entries[i], query) by {
        let k = choose|k: int| 0 <= k < search_results(entries, query).len() && search_results(entries, query)[k] == id;
        lemma_found_entry(entries, query, k);
    }
    assert forall|i: int|
        0 <= i < entries.len() && #[trigger] name_contains(entries[i], query) implies search_results(
        entries,
        query,
    ).contains(entries[i].id) by {
        assert(entry_found(entries[i], lowered));
        lemma_search_complete(entries, lowered, i);
    }
}

/// A documentation set loaded for browsing.
pub struct Documentation {
    entries: Vec<DocEntry>,
    handle: DocSetHandle,
}

impl Documentation {
    /// The items are keyed by their identifiers.
    #[verifier::type_invariant]
    spec fn keyed(self) -> bool {
        distinct_ids(self.entries@)
    }

    /// The set `handle`, whose items are `entries`; the items are keyed by
    /// identifier, so no two of them share one.
    pub fn new(entries: Vec<DocEntry>, handle: DocSetHandle) -> (r: Documentation)
        requires
            distinct_ids(entries@),
        ensures
            r.entries() == entries@,
            r.handle() == handle,
    {
        Documentation { entries, handle }
    }

    /// The items of the set.
    pub closed spec fn entries(&self) -> Seq<DocEntry> {
        self.entries@
    }

    /// The handle of the set.
    pub closed spec fn handle(&self) -> DocSetHandle {
        self.handle
    }

    /// The identifiers of the items whose name contains `query`, compared
    /// without regard to case, in the order of the items, each once.  An
    /// ASCII query is lower-cased as in ASCII.
    pub fn search(&self, query: &str) -> (r: Vec<rustdoc_types::Id>)
        ensures
            r@ == search_results(self.entries(), query@),
            is_ascii_chars(query@) ==> r@ == found_ids(self.entries(), ascii_lowercase(query@)),
            r@.no_duplicates(),
            forall|id: rustdoc_types::Id|
                #[trigger] r@.contains(id) ==> exists|i: int|
                    0 <= i < self.entries().len() && self.entries()[i].id == id
                        && #[trigger] name_contains(self.entries()[i], query@),
            forall|i: int|
                0 <= i < self.entries().len() && #[trigger] name_contains(self.entries()[i], query@)
                    ==> r@.contains(self.entries()[i].id),
    {
        proof {
            use_type_invariant(self);
        }
        let mut results: Vec<rustdoc_types::Id> = Vec::new();
        let wanted = to_lowercase(query);
        let mut i: usize = 0;
        while i < self.entries.len()
            invariant
                i <= self.entries@.len(),
                wanted@ == lowercase(query@),
                results@ == found_ids(self.entries@.take(i as int), wanted@),
            decreases self.entries@.len() - i,
        {
            let entry = &self.entries[i];
            let hit = match &entry.name {
                Some(name) => {
                    let lower = to_lowercase(name.as_str());
                    contains_str(lower.as_str(), wanted.as_str())
                },
                None => false,
            };
            assert(self.entries@.take(i + 1).drop_last() =~= self.entries@.take(i as int));
            if hit {
                results.push(entry.id);
            }
            i = i + 1;
        }
        assert(self.entries@.take(self.entries@.len() as int) =~= self.entries@);
        proof {
            lemma_search_no_repeats(self.entries@, wanted@);
            lemma_search_finds_exactly(self.entries@, query@);
        }
        results
    }
}

} // verus!
