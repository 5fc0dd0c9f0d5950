//! Importing a documentation set, as a machine that the caller drives.
//!
//! An import runs `cargo metadata`, then `cargo rustdoc` with JSON output,
//! follows the build's JSON messages to report progress, then reads the JSON
//! documentation that rustdoc wrote, re-encodes it with bitcode and stores it.
//! The running of commands, the reading and writing of files and the sending
//! of messages are the caller's: [`Importer`] says what to do next
//! ([`Action`]) and is told what came of it ([`Event`]).

use vstd::prelude::*;
use vstd::string::*;
use crate::cargo::{
    bitcode_of_crate, compiler_message_json, documented_target, encode_rustdoc_json, EncodedDocs, first_documented_library,
    json_member_str, json_string_member, metadata_args, metadata_command_args,
    metadata_from_output, metadata_outcome, parse_compiler_message, rustdoc_args,
    rustdoc_command_args, rustdoc_crate_json, BuildTarget, BuildTargetView,
    PackageMetadataView,
};
use crate::docset::{
    DocSetHandle, DocSetHandleView, DocSource, DocsetError, DocsetErrorView, Message, MessageView,
};
use crate::text::{join_path, joined_path};

verus! {

/// The directory where imported documentation sets are stored.
pub open spec fn doc_dir() -> Seq<char> {
    "/home/generic/.cosmonaute/"@
}

/// Where rustdoc writes the JSON documentation of the target `name`, under
/// the target directory `target_directory`.
pub open spec fn docs_json_path(target_directory: Seq<char>, name: Seq<char>) -> Seq<char> {
    joined_path(joined_path(target_directory, "doc"@), name + ".json"@)
}

/// Where the documentation set `name` is stored.
pub open spec fn stored_docs_path(name: Seq<char>) -> Seq<char> {
    joined_path(doc_dir(), name + ".bitcode"@)
}

/// The handle of an imported set: its version is `???` when rustdoc was
/// given none, and its language is Rust.
pub open spec fn imported_handle(name: Seq<char>, version: Option<Seq<char>>) -> DocSetHandleView {
    DocSetHandleView {
        name,
        version: match version {
            Some(v) => v,
            None => "???"@,
        },
        language: "rust"@,
    }
}

/// Where an import stands.
pub enum ImportState {
    /// `cargo metadata` runs.
    AwaitingMetadata,
    /// `cargo rustdoc` is being started.
    AwaitingSpawn { total: usize, targets: Vec<BuildTarget>, target_directory: String },
    /// The build's messages are being read.
    ReadingOutput {
        completed: usize,
        total: usize,
        targets: Vec<BuildTarget>,
        target_directory: String,
    },
    /// The build's end is awaited.
    AwaitingExit { targets: Vec<BuildTarget>, target_directory: String },
    /// rustdoc's JSON for the target `name` is being read.
    AwaitingDocs { name: String },
    /// The re-encoded documentation is being stored.
    AwaitingWrite { name: String, version: Option<String> },
    /// The import has ended.
    Finished,
}

pub enum ImportView {
    AwaitingMetadata,
    AwaitingSpawn { total: nat, targets: Seq<BuildTargetView>, target_directory: Seq<char> },
    ReadingOutput {
        completed: nat,
        total: nat,
        targets: Seq<BuildTargetView>,
        target_directory: Seq<char>,
    },
    AwaitingExit { targets: Seq<BuildTargetView>, target_directory: Seq<char> },
    AwaitingDocs { name: Seq<char> },
    AwaitingWrite { name: Seq<char>, version: Option<Seq<char>> },
    Finished,
}

pub open spec fn targets_view(targets: Seq<BuildTarget>) -> Seq<BuildTargetView> {
    targets.map_values(|t: BuildTarget| t@)
}

impl View for ImportState {
    type V = ImportView;

    open spec fn view(&self) -> ImportView {
        match self {
            ImportState::AwaitingMetadata => ImportView::AwaitingMetadata,
            ImportState::AwaitingSpawn { total, targets, target_directory } =>
                ImportView::AwaitingSpawn {
                total: *total as nat,
                targets: targets_view(targets@),
                target_directory: target_directory@,
            },
            ImportState::ReadingOutput { completed, total, targets, target_directory } =>
                ImportView::ReadingOutput {
                completed: *completed as nat,
                total: *total as nat,
                targets: targets_view(targets@),
                target_directory: target_directory@,
            },
            ImportState::AwaitingExit { targets, target_directory } => ImportView::AwaitingExit {
                targets: targets_view(targets@),
                target_directory: target_directory@,
            },
            ImportState::AwaitingDocs { name } => ImportView::AwaitingDocs { name: name@ },
            ImportState::AwaitingWrite { name, version } => ImportView::AwaitingWrite {
                name: name@,
                version: version.deep_view(),
            },
            ImportState::Finished => ImportView::Finished,
        }
    }
}

/// What came of the last action.
#[derive(Debug, PartialEq, Eq)]
pub enum Event {
    /// `cargo metadata` ended: what it wrote on its standard output, and
    /// whether it succeeded.
    MetadataOutput { stdout: Vec<u8>, success: bool },
    /// `cargo rustdoc` has started.
    Spawned,
    /// The build wrote this line.
    Line(String),
    /// The build's output has ended.
    OutputEnded,
    /// The build ended with this exit code (`None` when a signal ended it).
    Exited { code: Option<i32> },
    /// The JSON documentation was read; this is its text.
    DocsRead(String),
    /// The documentation set was stored.
    Written,
    /// The last action failed.
    Failed(DocsetError),
}

pub enum EventView {
    MetadataOutput { stdout: Seq<u8>, success: bool },
    Spawned,
    Line(Seq<char>),
    OutputEnded,
    Exited { code: Option<i32> },
    DocsRead(Seq<char>),
    Written,
    Failed(DocsetErrorView),
}

impl View for Event {
    type V = EventView;

    open spec fn view(&self) -> EventView {
        match self {
            Event::MetadataOutput { stdout, success } => EventView::MetadataOutput {
                stdout: stdout@,
                success: *success,
            },
            Event::Spawned => EventView::Spawned,
            Event::Line(text) => EventView::Line(text@),
            Event::OutputEnded => EventView::OutputEnded,
            Event::Exited { code } => EventView::Exited { code: *code },
            Event::DocsRead(text) => EventView::DocsRead(text@),
            Event::Written => EventView::Written,
            Event::Failed(e) => EventView::Failed(e@),
        }
    }
}

/// What the caller is to do next.
#[derive(Debug, PartialEq, Eq)]
pub enum Action {
    /// Run `cargo` with these arguments, collect its standard output and
    /// report it with [`Event::MetadataOutput`].
    RunCargo { args: Vec<String> },
    /// Start `cargo` with these arguments, its standard output piped, and
    /// report [`Event::Spawned`].
    SpawnCargo { args: Vec<String> },
    /// Send this message to whoever follows the import.
    Send(Message),
    /// Read the next line of the build's output and report it with
    /// [`Event::Line`], or [`Event::OutputEnded`] at its end.
    ReadLine,
    /// Wait for the build to end and report [`Event::Exited`].
    AwaitExit,
    /// Read this file and report [`Event::DocsRead`].
    ReadFile { path: String },
    /// Write these bytes to this file and report [`Event::Written`].
    WriteFile { path: String, bytes: Vec<u8> },
    /// Stop the program with this message.
    Abort(String),
    /// The import has ended with this result.
    Finish(Result<DocSetHandle, DocsetError>),
}

pub enum ActionView {
    RunCargo { args: Seq<Seq<char>> },
    SpawnCargo { args: Seq<Seq<char>> },
    Send(MessageView),
    ReadLine,
    AwaitExit,
    ReadFile { path: Seq<char> },
    WriteFile { path: Seq<char>, bytes: Seq<u8> },
    Abort(Seq<char>),
    Finish(Result<DocSetHandleView, DocsetErrorView>),
}

impl View for Action {
    type V = ActionView;

    open spec fn view(&self) -> ActionView {
        match self {
            Action::RunCargo { args } => ActionView::RunCargo { args: args.deep_view() },
            Action::SpawnCargo { args } => ActionView::SpawnCargo { args: args.deep_view() },
            Action::Send(m) => ActionView::Send(m@),
            Action::ReadLine => ActionView::ReadLine,
            Action::AwaitExit => ActionView::AwaitExit,
            Action::ReadFile { path } => ActionView::ReadFile { path: path@ },
            Action::WriteFile { path, bytes } => ActionView::WriteFile {
                path: path@,
                bytes: bytes@,
            },
            Action::Abort(m) => ActionView::Abort(m@),
            Action::Finish(r) => ActionView::Finish(
                match r {
                    Ok(h) => Ok(h@),
                    Err(e) => Err(e@),
                },
            ),
        }
    }
}

pub open spec fn actions_view(actions: Seq<Action>) -> Seq<ActionView> {
    actions.map_values(|a: Action| a@)
}

/// The actions that begin the import of the crate whose manifest is at
/// `manifest_path`: run `cargo metadata`, and report that the metadata is
/// being read.
pub open spec fn start_actions(manifest_path: Seq<char>) -> Seq<ActionView> {
    seq![
        ActionView::RunCargo { args: metadata_args(manifest_path) },
        ActionView::Send(MessageView::ReadPackageMetadata),
    ]
}

/// The end of an import with `result`.
pub open spec fn finish(result: Result<DocSetHandleView, DocsetErrorView>) -> (ImportView, Seq<ActionView>) {
    (ImportView::Finished, seq![ActionView::Finish(result)])
}

/// The program stops with `message`.
pub open spec fn abort(message: Seq<char>) -> (ImportView, Seq<ActionView>) {
    (ImportView::Finished, seq![ActionView::Abort(message)])
}

/// After `cargo metadata`: fail with its error, or stop when the workspace
/// has no root package, or start `cargo rustdoc` on the root package.
pub open spec fn after_metadata(outcome: Result<PackageMetadataView, DocsetErrorView>) -> (ImportView, Seq<ActionView>) {
    match outcome {
        Err(e) => finish(Err(e)),
        Ok(m) => match m.root_package {
            None => abort("called `Option::unwrap()` on a `None` value"@),
            Some(root) => (
                ImportView::AwaitingSpawn {
                    total: m.package_count,
                    targets: root.targets,
                    target_directory: m.target_directory,
                },
                seq![ActionView::SpawnCargo { args: rustdoc_args(root.manifest_path) }],
            ),
        },
    }
}

/// After a line of the build's output: a compiler message is passed on, a
/// built artifact counts one more completed package, the end of the build
/// stops the reading, and anything else is skipped.
pub open spec fn after_line(
    completed: nat,
    total: nat,
    targets: Seq<BuildTargetView>,
    target_directory: Seq<char>,
    line: Seq<char>,
) -> (ImportView, Seq<ActionView>) {
    let here = ImportView::ReadingOutput { completed, total, targets, target_directory };
    let reason = json_string_member(line, "reason"@);
    if reason == Some("compiler-message"@) {
        if compiler_message_json(line) {
            (here, seq![ActionView::Send(MessageView::CompilerMessage), ActionView::ReadLine])
        } else {
            (here, seq![ActionView::ReadLine])
        }
    } else if reason == Some("compiler-artifact"@) {
        if completed + 1 > usize::MAX {
            abort("attempt to add with overflow"@)
        } else {
            (
                ImportView::ReadingOutput {
                    completed: completed + 1,
                    total,
                    targets,
                    target_directory,
                },
                seq![
                    ActionView::Send(
                        MessageView::CurrentProgress { completed: completed + 1, total },
                    ),
                    ActionView::ReadLine,
                ],
            )
        }
    } else if reason == Some("build-finished"@) {
        (ImportView::AwaitingExit { targets, target_directory }, seq![ActionView::AwaitExit])
    } else {
        (here, seq![ActionView::ReadLine])
    }
}

/// After the build ended: it must have exited with code 0; then the
/// completion is reported, and rustdoc's JSON for the first documented
/// library target is read.
pub open spec fn after_exit(
    code: Option<i32>,
    targets: Seq<BuildTargetView>,
    target_directory: Seq<char>,
) -> (ImportView, Seq<ActionView>) {
    if code != Some(0i32) {
        finish(Err(DocsetErrorView::CommandFailed))
    } else {
        let done = ActionView::Send(MessageView::ImportComplete { success: true });
        match first_documented_library(targets) {
            None => (
                ImportView::Finished,
                seq![done, ActionView::Finish(Err(DocsetErrorView::FailedToFindDocOutput))],
            ),
            Some(name) => (
                ImportView::AwaitingDocs { name },
                seq![done, ActionView::ReadFile { path: docs_json_path(target_directory, name) }],
            ),
        }
    }
}

/// Once the documentation of the target `name`, at `version`, is encoded as
/// `bytes`: the bytes are stored under the set's name.
pub open spec fn after_encoding(name: Seq<char>, version: Option<Seq<char>>, bytes: Seq<u8>) -> (ImportView, Seq<ActionView>) {
    (
        ImportView::AwaitingWrite { name, version },
        seq![ActionView::WriteFile { path: stored_docs_path(name), bytes }],
    )
}

/// After rustdoc's JSON was read: it must parse; the crate is then
/// re-encoded with bitcode, which gives `encoded`, and stored.
pub open spec fn after_docs(name: Seq<char>, text: Seq<char>, encoded: Seq<u8>) -> (ImportView, Seq<ActionView>) {
    match rustdoc_crate_json(text) {
        Err(why) => finish(Err(DocsetErrorView::JsonError(why))),
        Ok(version) => after_encoding(name, version, encoded),
    }
}

/// One step of an import: where it goes and what it asks for when `event`
/// comes in state `s`.  A failure ends any import that has not ended; an
/// event that the state does not wait for changes nothing.  `encoded` is
/// what bitcode gave for the documentation read, when the event delivers
/// it; bitcode writes the crate's maps in the order it walks them, so the
/// same text may give other bytes in another run.
pub open spec fn step(s: ImportView, e: EventView, encoded: Seq<u8>) -> (ImportView, Seq<ActionView>) {
    if let EventView::Failed(err) = e {
        if s is Finished {
            (s, Seq::empty())
        } else {
            finish(Err(err))
        }
    } else {
        match (s, e) {
            (ImportView::AwaitingMetadata, EventView::MetadataOutput { stdout, success }) =>
                after_metadata(metadata_outcome(stdout, success)),
            (ImportView::AwaitingSpawn { total, targets, target_directory }, EventView::Spawned) => (
                ImportView::ReadingOutput { completed: 0, total, targets, target_directory },
                seq![
                    ActionView::Send(MessageView::CurrentProgress { completed: 0, total }),
                    ActionView::ReadLine,
                ],
            ),
            (
                ImportView::ReadingOutput { completed, total, targets, target_directory },
                EventView::Line(line),
            ) => after_line(completed, total, targets, target_directory, line),
            (
                ImportView::ReadingOutput { completed, total, targets, target_directory },
                EventView::OutputEnded,
            ) => (ImportView::AwaitingExit { targets, target_directory }, seq![ActionView::AwaitExit]),
            (ImportView::AwaitingExit { targets, target_directory }, EventView::Exited { code }) =>
                after_exit(code, targets, target_directory),
            (ImportView::AwaitingDocs { name }, EventView::DocsRead(text)) => after_docs(
                name,
                text,
                encoded,
            ),
            (ImportView::AwaitingWrite { name, version }, EventView::Written) => finish(
                Ok(imported_handle(name, version)),
            ),
            _ => (s, Seq::empty()),
        }
    }
}

/// An import in progress.
pub struct Importer {
    state: ImportState,
}

impl View for Importer {
    type V = ImportView;

    closed spec fn view(&self) -> ImportView {
        self.state@
    }
}

/// No action.
fn none() -> (r: Vec<Action>)
    ensures
        actions_view(r@) == Seq::<ActionView>::empty(),
{
    let v: Vec<Action> = Vec::new();
    assert(actions_view(v@) =~= Seq::<ActionView>::empty());
    v
}

/// A list of one action.
fn one(a: Action) -> (r: Vec<Action>)
    ensures
        actions_view(r@) == seq![a@],
{
    let mut v: Vec<Action> = Vec::new();
    v.push(a);
    assert(actions_view(v@) =~= seq![a@]);
    v
}

/// A list of two actions.
fn two(a: Action, b: Action) -> (r: Vec<Action>)
    ensures
        actions_view(r@) == seq![a@, b@],
{
    let mut v: Vec<Action> = Vec::new();
    v.push(a);
    v.push(b);
    assert(actions_view(v@) =~= seq![a@, b@]);
    v
}

/// The import ends with `result`.
fn finish_with(result: Result<DocSetHandle, DocsetError>) -> (r: (ImportState, Vec<Action>))
    ensures
        (r.0@, actions_view(r.1@)) == finish(
            match result {
                Ok(h) => Ok(h@),
                Err(e) => Err(e@),
            },
        ),
{
    (ImportState::Finished, one(Action::Finish(result)))
}

/// The program stops with `message`.
fn abort_with(message: &str) -> (r: (ImportState, Vec<Action>))
    ensures
        (r.0@, actions_view(r.1@)) == abort(message@),
{
    (ImportState::Finished, one(Action::Abort(String::from_str(message))))
}

fn handle_metadata(outcome: Result<crate::cargo::PackageMetadata, DocsetError>) -> (r: (ImportState, Vec<Action>))
    ensures
        (r.0@, actions_view(r.1@)) == after_metadata(crate::cargo::metadata_result_view(outcome)),
{
    match outcome {
        Err(e) => finish_with(Err(e)),
        Ok(m) => match m.root_package {
            None => abort_with("called `Option::unwrap()` on a `None` value"),
            Some(root) => {
                let args = rustdoc_command_args(root.manifest_path.as_str());
                let state = ImportState::AwaitingSpawn {
                    total: m.package_count,
                    targets: root.targets,
                    target_directory: m.target_directory,
                };
                (state, one(Action::SpawnCargo { args }))
            },
        },
    }
}

fn handle_line(
    completed: usize,
    total: usize,
    targets: Vec<BuildTarget>,
    target_directory: String,
    line: String,
) -> (r: (ImportState, Vec<Action>))
    ensures
        (r.0@, actions_view(r.1@)) == after_line(
            completed as nat,
            total as nat,
            targets_view(targets@),
            target_directory@,
            line@,
        ),
{
    let reason = json_member_str(line.as_str(), "reason");
    let compiler_message = String::from_str("compiler-message");
    let compiler_artifact = String::from_str("compiler-artifact");
    let build_finished = String::from_str("build-finished");
    let stay = ImportState::ReadingOutput { completed, total, targets, target_directory };
    match reason {
        Some(r) => {
            if r == compiler_message {
                match parse_compiler_message(line.as_str()) {
                    Some(m) => (stay, two(Action::Send(Message::CompilerMessage(m)), Action::ReadLine)),
                    None => (stay, one(Action::ReadLine)),
                }
            } else if r == compiler_artifact {
                if completed == usize::MAX {
                    abort_with("attempt to add with overflow")
                } else {
                    let done = completed + 1;
                    match stay {
                        ImportState::ReadingOutput { targets, target_directory, .. } => {
                            let next = ImportState::ReadingOutput {
                                completed: done,
                                total,
                                targets,
                                target_directory,
                            };
                            let progress = Message::CurrentProgress { completed: done, total };
                            (next, two(Action::Send(progress), Action::ReadLine))
                        },
                        _ => (stay, none()),
                    }
                }
            } else if r == build_finished {
                match stay {
                    ImportState::ReadingOutput { targets, target_directory, .. } => (
                        ImportState::AwaitingExit { targets, target_directory },
                        one(Action::AwaitExit),
                    ),
                    _ => (stay, none()),
                }
            } else {
                (stay, one(Action::ReadLine))
            }
        },
        None => (stay, one(Action::ReadLine)),
    }
}

fn handle_exit(code: Option<i32>, targets: Vec<BuildTarget>, target_directory: String) -> (r: (ImportState, Vec<Action>))
    ensures
        (r.0@, actions_view(r.1@)) == after_exit(code, targets_view(targets@), target_directory@),
{
    let succeeded = match code {
        Some(c) => c == 0,
        None => false,
    };
    if !succeeded {
        return finish_with(Err(DocsetError::CommandFailed));
    }
    let done = Action::Send(Message::ImportComplete { success: true });
    match documented_target(&targets) {
        None => (
            ImportState::Finished,
            two(done, Action::Finish(Err(DocsetError::FailedToFindDocOutput))),
        ),
        Some(name) => {
            let dir = join_path(target_directory.as_str(), "doc");
            let mut file = name.clone();
            file.append(".json");
            let path = join_path(dir.as_str(), file.as_str());
            (ImportState::AwaitingDocs { name }, two(done, Action::ReadFile { path }))
        },
    }
}

/// Stores the documentation of the target `name` that `docs` encodes: the
/// import then waits for the bytes to be written under the set's name.
pub fn docs_encoded(name: String, docs: EncodedDocs) -> (r: (ImportState, Vec<Action>))
    requires
        docs.bitcode is Some,
    ensures
        (r.0@, actions_view(r.1@)) == after_encoding(
            name@,
            docs.version.deep_view(),
            docs.bitcode->Some_0@,
        ),
{
    let bytes = docs.bitcode.unwrap();
    let mut file = name.clone();
    file.append(".bitcode");
    let path = join_path("/home/generic/.cosmonaute/", file.as_str());
    (ImportState::AwaitingWrite { name, version: docs.version }, one(Action::WriteFile { path, bytes }))
}

/// After rustdoc's JSON was read; the last part of the result is what
/// bitcode gave for it.
fn handle_docs(name: String, text: String) -> (r: (ImportState, Vec<Action>, Ghost<Seq<u8>>))
    ensures
        (r.0@, actions_view(r.1@)) == after_docs(name@, text@, r.2@),
        rustdoc_crate_json(text@) is Ok ==> bitcode_of_crate(text@, r.2@),
{
    match encode_rustdoc_json(text.as_str()) {
        Err(why) => {
            let (state, actions) = finish_with(Err(DocsetError::JsonError(why)));
            (state, actions, Ghost(Seq::empty()))
        },
        Ok(docs) => {
            let ghost bytes = docs.bitcode->Some_0@;
            let (state, actions) = docs_encoded(name, docs);
            (state, actions, Ghost(bytes))
        },
    }
}

fn handle_written(name: String, version: Option<String>) -> (r: (ImportState, Vec<Action>))
    ensures
        (r.0@, actions_view(r.1@)) == finish(Ok(imported_handle(name@, version.deep_view()))),
{
    let version = match version {
        Some(v) => v,
        None => String::from_str("???"),
    };
    finish_with(Ok(DocSetHandle::new(name, version, String::from_str("rust"))))
}

impl Importer {
    /// Begins importing the documentation of the crate that `source` names.
    pub fn start(source: &DocSource) -> (r: (Importer, Vec<Action>))
        ensures
            r.0@ == ImportView::AwaitingMetadata,
            actions_view(r.1@) == start_actions(source.path@),
    {
        let args = metadata_command_args(source.path.as_str());
        let actions = two(Action::RunCargo { args }, Action::Send(Message::ReadPackageMetadata));
        (Importer { state: ImportState::AwaitingMetadata }, actions)
    }

    /// Whether the import has ended.
    pub fn is_finished(&self) -> (r: bool)
        ensures
            r == (self@ is Finished),
    {
        match self.state {
            ImportState::Finished => true,
            _ => false,
        }
    }

    /// Takes in what came of the last action, and says what to do next.
    /// When the event delivers rustdoc's JSON, the bytes to store are a
    /// bitcode encoding of the crate it holds.
    pub fn handle(&mut self, event: Event) -> (actions: Vec<Action>)
        ensures
            exists|encoded: Seq<u8>|
                #[trigger] step(old(self)@, event@, encoded) == (final(self)@, actions_view(actions@))
                    && ((old(self)@ is AwaitingDocs && event@ is DocsRead && rustdoc_crate_json(
                    event@->DocsRead_0,
                ) is Ok) ==> bitcode_of_crate(event@->DocsRead_0, encoded)),
    {
        let ghost mut encoded: Seq<u8> = Seq::empty();
        let mut state = ImportState::Finished;
        std::mem::swap(&mut state, &mut self.state);
        let (next, actions) = match event {
            Event::Failed(e) => match state {
                ImportState::Finished => (ImportState::Finished, none()),
                _ => finish_with(Err(e)),
            },
            Event::MetadataOutput { stdout, success } => match state {
                ImportState::AwaitingMetadata => handle_metadata(
                    metadata_from_output(stdout.as_slice(), success),
                ),
                other => (other, none()),
            },
            Event::Spawned => match state {
                ImportState::AwaitingSpawn { total, targets, target_directory } => (
                    ImportState::ReadingOutput { completed: 0, total, targets, target_directory },
                    two(
                        Action::Send(Message::CurrentProgress { completed: 0, total }),
                        Action::ReadLine,
                    ),
                ),
                other => (other, none()),
            },
            Event::Line(line) => match state {
                ImportState::ReadingOutput { completed, total, targets, target_directory } =>
                    handle_line(completed, total, targets, target_directory, line),
                other => (other, none()),
            },
            Event::OutputEnded => match state {
                ImportState::ReadingOutput { targets, target_directory, .. } => (
                    ImportState::AwaitingExit { targets, target_directory },
                    one(Action::AwaitExit),
                ),
                other => (other, none()),
            },
            Event::Exited { code } => match state {
                ImportState::AwaitingExit { targets, target_directory } => handle_exit(
                    code,
                    targets,
                    target_directory,
                ),
                other => (other, none()),
            },
            Event::DocsRead(text) => match state {
                ImportState::AwaitingDocs { name } => {
                    let (next, actions, Ghost(bytes)) = handle_docs(name, text);
                    proof {
                        encoded = bytes;
                    }
                    (next, actions)
                },
                other => (other, none()),
            },
            Event::Written => match state {
                ImportState::AwaitingWrite { name, version } => handle_written(name, version),
                other => (other, none()),
            },
        };
        self.state = next;
        assert(step(old(self)@, event@, encoded) == (self@, actions_view(actions@)));
        actions
    }
}

/// Where an import stands after taking in `events`, one after the other,
/// from state `s`.
pub open spec fn run(s: ImportView, events: Seq<EventView>, encoded: Seq<u8>) -> ImportView
    decreases events.len(),
{
    if events.len() == 0 {
        s
    } else {
        run(step(s, events[0], encoded).0, events.drop_first(), encoded)
    }
}

/// Whether a line of the build's output reports a built artifact.
pub open spec fn is_artifact_line(line: Seq<char>) -> bool {
    json_string_member(line, "reason"@) == Some("compiler-artifact"@)
}

/// How many of `lines` report a built artifact.
pub open spec fn artifact_count(lines: Seq<Seq<char>>) -> nat
    decreases lines.len(),
{
    if lines.len() == 0 {
        0
    } else {
        (if is_artifact_line(lines[0]) { 1nat } else { 0nat }) + artifact_count(lines.drop_first())
    }
}

/// The events that deliver `lines` of the build's output.
pub open spec fn line_events(lines: Seq<Seq<char>>) -> Seq<EventView> {
    lines.map_values(|l: Seq<char>| EventView::Line(l))
}

/// An import that has ended stays ended, and asks for nothing more.
pub proof fn lemma_finished_is_final(e: EventView, encoded: Seq<u8>)
    ensures
        step(ImportView::Finished, e, encoded) == (ImportView::Finished, Seq::<ActionView>::empty()),
{
}

/// A failure ends any import that has not ended, with that failure as its result.
pub proof fn lemma_failure_ends_import(s: ImportView, err: DocsetErrorView, encoded: Seq<u8>)
    requires
        !(s is Finished),
    ensures
        step(s, EventView::Failed(err), encoded) == finish(Err(err)),
{
}

/// While the build's output is read, the count of completed packages is the
/// count of the lines that report a built artifact: reading lines (none of
/// which ends the build) from a count `completed` leaves the count at
/// `completed` plus the number of artifact lines among them, with the total
/// and the rest of the state unchanged.
pub proof fn lemma_progress_counts_artifacts(
    completed: nat,
    total: nat,
    targets: Seq<BuildTargetView>,
    target_directory: Seq<char>,
    lines: Seq<Seq<char>>,
    encoded: Seq<u8>,
)
    requires
        forall|i: int|
            0 <= i < lines.len() ==> json_string_member(#[trigger] lines[i], "reason"@) != Some(
                "build-finished"@,
            ),
        completed + artifact_count(lines) <= usize::MAX,
    ensures
        run(
            ImportView::ReadingOutput { completed, total, targets, target_directory },
            line_events(lines),
            encoded,
        ) == (ImportView::ReadingOutput {
            completed: completed + artifact_count(lines),
            total,
            targets,
            target_directory,
        }),
    decreases lines.len(),
{
    let s = ImportView::ReadingOutput { completed, total, targets, target_directory };
    reveal_strlit("compiler-message");
    reveal_strlit("compiler-artifact");
    assert("compiler-message"@ != "compiler-artifact"@) by {
        assert("compiler-message"@[9] != "compiler-artifact"@[9]);
    }
    if lines.len() > 0 {
        let first = lines[0];
        let rest = lines.drop_first();
        assert(line_events(lines)[0] == EventView::Line(first));
        assert(line_events(lines).drop_first() =~= line_events(rest));
        assert forall|i: int| 0 <= i < rest.len() implies json_string_member(
            #[trigger] rest[i],
            "reason"@,
        ) != Some("build-finished"@) by {
            assert(rest[i] == lines[i + 1]);
        }
        let next = if is_artifact_line(first) {
            completed + 1
        } else {
            completed
        };
        assert(json_string_member(lines[0], "reason"@) != Some("build-finished"@));
        assert(artifact_count(lines) == (if is_artifact_line(first) {
            1nat
        } else {
            0nat
        }) + artifact_count(rest));
        assert(step(s, EventView::Line(first), encoded).0 == ImportView::ReadingOutput {
            completed: next,
            total,
            targets,
            target_directory,
        });
        lemma_progress_counts_artifacts(next, total, targets, target_directory, rest, encoded);
    }
}

/// The completion of a build is reported only when the build ended with exit
/// code 0, and it is always reported as a success.
pub proof fn lemma_completion_only_after_success(s: ImportView, e: EventView, encoded: Seq<u8>, i: int)
    requires
        0 <= i < step(s, e, encoded).1.len(),
        step(s, e, encoded).1[i] matches ActionView::Send(MessageView::ImportComplete { .. }),
    ensures
        s is AwaitingExit,
        e == (EventView::Exited { code: Some(0i32) }),
        step(s, e, encoded).1[i] == ActionView::Send(MessageView::ImportComplete { success: true }),
{
}

/// An import that ends well hands out a set in the Rust language, and only
/// after the documentation set was stored.
pub proof fn lemma_success_after_write(s: ImportView, e: EventView, encoded: Seq<u8>, i: int)
    requires
        0 <= i < step(s, e, encoded).1.len(),
        step(s, e, encoded).1[i] matches ActionView::Finish(Ok(_)),
    ensures
        s is AwaitingWrite,
        e is Written,
        step(s, e, encoded).1[i]->Finish_0->Ok_0.language == "rust"@,
{
}

/// An import that ends, by its result or by stopping the program, is left
/// ended, and its last action is that end.
pub proof fn lemma_end_is_last(s: ImportView, e: EventView, encoded: Seq<u8>, i: int)
    requires
        0 <= i < step(s, e, encoded).1.len(),
        step(s, e, encoded).1[i] is Finish || step(s, e, encoded).1[i] is Abort,
    ensures
        step(s, e, encoded).0 is Finished,
        i == step(s, e, encoded).1.len() - 1,
{
}

/// Once rustdoc's JSON for the target `name` has been read and parses, the
/// import writes what bitcode gave for it, and nothing else, to the set's
/// file under the documentation directory, and then waits for the write.
pub proof fn lemma_docs_stored_as_encoded(name: Seq<char>, text: Seq<char>, encoded: Seq<u8>)
    requires
        rustdoc_crate_json(text) is Ok,
    ensures
        step(ImportView::AwaitingDocs { name }, EventView::DocsRead(text), encoded) == (
            ImportView::AwaitingWrite { name, version: rustdoc_crate_json(text)->Ok_0 },
            seq![ActionView::WriteFile { path: stored_docs_path(name), bytes: encoded }],
        ),
{
}

/// The build's plan that an import keeps while it builds: the root
/// package's targets and the target directory.  Only the states from the
/// start of `cargo rustdoc` to the end of the build hold one.
pub open spec fn plan_of(v: ImportView) -> Option<(Seq<BuildTargetView>, Seq<char>)> {
    match v {
        ImportView::AwaitingSpawn { targets, target_directory, .. } => Some((targets, target_directory)),
        ImportView::ReadingOutput { targets, target_directory, .. } => Some((targets, target_directory)),
        ImportView::AwaitingExit { targets, target_directory } => Some((targets, target_directory)),
        _ => None,
    }
}

/// The plan comes from `cargo metadata`: its target directory and the
/// targets of its root package.
pub proof fn lemma_plan_from_metadata(stdout: Seq<u8>, success: bool, encoded: Seq<u8>)
    requires
        metadata_outcome(stdout, success) is Ok,
        metadata_outcome(stdout, success)->Ok_0.root_package is Some,
    ensures
        plan_of(
            step(
                ImportView::AwaitingMetadata,
                EventView::MetadataOutput { stdout, success },
                encoded,
            ).0,
        ) == Some(
            (
                metadata_outcome(stdout, success)->Ok_0.root_package->Some_0.targets,
                metadata_outcome(stdout, success)->Ok_0.target_directory,
            ),
        ),
{
}

/// No step changes the plan: a step from a state that holds a plan either
/// leaves the building states or keeps the very same targets and target
/// directory.
pub proof fn lemma_plan_kept(s: ImportView, e: EventView, encoded: Seq<u8>)
    requires
        plan_of(s) is Some,
    ensures
        plan_of(step(s, e, encoded).0) is Some ==> plan_of(step(s, e, encoded).0) == plan_of(s),
{
}

/// Once the build has ended, an import never holds a plan again.
pub proof fn lemma_no_plan_after_build(s: ImportView, e: EventView, encoded: Seq<u8>)
    requires
        plan_of(s) is None,
        !(s is AwaitingMetadata),
    ensures
        plan_of(step(s, e, encoded).0) is None,
        !(step(s, e, encoded).0 is AwaitingMetadata),
{
}

/// Whatever events come, an import that holds a plan holds the same one for
/// as long as it holds any: the targets and the target directory read from
/// the metadata reach the end of the build unchanged.
pub proof fn lemma_plan_kept_through_run(s: ImportView, events: Seq<EventView>, encoded: Seq<u8>)
    requires
        plan_of(s) is Some,
    ensures
        plan_of(run(s, events, encoded)) is Some ==> plan_of(run(s, events, encoded)) == plan_of(s),
{
    lemma_plan_kept_or_gone(s, events, encoded, plan_of(s));
}

proof fn lemma_plan_kept_or_gone(
    s: ImportView,
    events: Seq<EventView>,
    encoded: Seq<u8>,
    plan: Option<(Seq<BuildTargetView>, Seq<char>)>,
)
    requires
        plan is Some,
        plan_of(s) == plan || (plan_of(s) is None && !(s is AwaitingMetadata)),
    ensures
        plan_of(run(s, events, encoded)) == plan || (plan_of(run(s, events, encoded)) is None
            && !(run(s, events, encoded) is AwaitingMetadata)),
    decreases events.len(),
{
    if events.len() > 0 {
        let next = step(s, events[0], encoded).0;
        if plan_of(s) == plan {
            lemma_plan_kept(s, events[0], encoded);
            if plan_of(next) is None {
                assert(!(next is AwaitingMetadata));
            }
        } else {
            lemma_no_plan_after_build(s, events[0], encoded);
        }
        lemma_plan_kept_or_gone(next, events.drop_first(), encoded, plan);
    }
}

/// After a build that exited with code 0, the documentation read is that of
/// a documented library target of the plan, and the file read is
/// `doc/<name>.json` under the plan's target directory.
pub proof fn lemma_docs_read_from_plan(
    targets: Seq<BuildTargetView>,
    target_directory: Seq<char>,
    encoded: Seq<u8>,
)
    ensures
        step(
            ImportView::AwaitingExit { targets, target_directory },
            EventView::Exited { code: Some(0i32) },
            encoded,
        ).0 matches ImportView::AwaitingDocs { name } ==> {
            &&& step(
                ImportView::AwaitingExit { targets, target_directory },
                EventView::Exited { code: Some(0i32) },
                encoded,
            ).1 == seq![
                ActionView::Send(MessageView::ImportComplete { success: true }),
                ActionView::ReadFile {
                    path: joined_path(joined_path(target_directory, "doc"@), name + ".json"@),
                },
            ]
            &&& exists|i: int|
                #![trigger targets[i]]
                0 <= i < targets.len() && targets[i].name == name && targets[i].doc
                    && crate::cargo::lists_library_kind(targets[i].kinds)
        },
{
    crate::cargo::lemma_first_documented_library(targets);
}

/// Whatever events the build's output brings, once an import that started
/// reading the output of a build planned with `targets` and
/// `target_directory` awaits the build's exit, a successful exit reads
/// `doc/<name>.json` under that same target directory, for a documented
/// library target `name` of those same targets.
pub proof fn lemma_docs_read_after_output(
    completed: nat,
    total: nat,
    targets: Seq<BuildTargetView>,
    target_directory: Seq<char>,
    events: Seq<EventView>,
    encoded: Seq<u8>,
)
    ensures
        ({
            let start = ImportView::ReadingOutput { completed, total, targets, target_directory };
            let waiting = run(start, events, encoded);
            let after = step(waiting, EventView::Exited { code: Some(0i32) }, encoded);
            waiting is AwaitingExit ==> (after.0 matches ImportView::AwaitingDocs { name } ==> {
                &&& waiting == ImportView::AwaitingExit { targets, target_directory }
                &&& after.1 == seq![
                    ActionView::Send(MessageView::ImportComplete { success: true }),
                    ActionView::ReadFile {
                        path: joined_path(joined_path(target_directory, "doc"@), name + ".json"@),
                    },
                ]
                &&& exists|i: int|
                    #![trigger targets[i]]
                    0 <= i < targets.len() && targets[i].name == name && targets[i].doc
                        && crate::cargo::lists_library_kind(targets[i].kinds)
            })
        }),
{
    let start = ImportView::ReadingOutput { completed, total, targets, target_directory };
    lemma_plan_kept_through_run(start, events, encoded);
    lemma_docs_read_from_plan(targets, target_directory, encoded);
}

} // verus!
