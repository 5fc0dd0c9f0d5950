use cosmonaute::docset::{DocKind, DocSetHandle, DocSource, DocsetError, Message, Protocol};
use cosmonaute::import::{Action, Event, Importer};

const METADATA: &str = r#"{"packages":[{"name":"demo","version":"0.1.0","id":"path+file:///w#demo@0.1.0","dependencies":[],"targets":[{"name":"demo","kind":["bin"],"src_path":"/w/src/main.rs"},{"name":"demo_lib","kind":["lib"],"src_path":"/w/src/lib.rs"}],"features":{},"manifest_path":"/w/Cargo.toml"},{"name":"dep","version":"1.0.0","id":"registry+x#dep@1.0.0","dependencies":[],"targets":[],"features":{},"manifest_path":"/r/dep/Cargo.toml"},{"name":"dep2","version":"1.0.0","id":"registry+x#dep2@1.0.0","dependencies":[],"targets":[],"features":{},"manifest_path":"/r/dep2/Cargo.toml"}],"workspace_members":["path+file:///w#demo@0.1.0"],"resolve":null,"workspace_root":"/w","target_directory":"/w/target","version":1}"#;

const CRATE_DOCS: &str = r#"{"root":0,"crate_version":"0.3.1","includes_private":false,"index":{},"paths":{},"external_crates":{},"target":{"triple":"x86_64-unknown-linux-gnu","target_features":[]},"format_version":57}"#;

const COMPILER_MESSAGE: &str = r#"{"reason":"compiler-message","package_id":"path+file:///w#demo@0.1.0","target":{"name":"demo_lib","kind":["lib"],"src_path":"/w/src/lib.rs"},"message":{"message":"unused variable","code":null,"level":"warning","spans":[],"children":[],"rendered":"warning: unused variable"}}"#;

fn source() -> DocSource {
    DocSource { protocol: Protocol::File, kind: DocKind::RustCrate, path: "/w/Cargo.toml".to_string() }
}

fn strings(items: &[&str]) -> Vec<String> {
    items.iter().map(|s| s.to_string()).collect()
}

fn line(text: &str) -> Event {
    Event::Line(text.to_string())
}

/// Drives an import up to the reading of the build's output.
fn reading() -> Importer {
    let (mut importer, _) = Importer::start(&source());
    importer.handle(Event::MetadataOutput { stdout: METADATA.as_bytes().to_vec(), success: true });
    importer.handle(Event::Spawned);
    importer
}

#[test]
fn start_runs_cargo_metadata_and_reports_it() {
    let (importer, actions) = Importer::start(&source());
    assert!(!importer.is_finished());
    assert_eq!(
        actions,
        vec![
            Action::RunCargo { args: strings(&["metadata", "--format-version", "1", "--manifest-path", "/w/Cargo.toml"]) },
            Action::Send(Message::ReadPackageMetadata),
        ]
    );
}

#[test]
fn a_whole_import() {
    let (mut importer, _) = Importer::start(&source());
    let actions = importer.handle(Event::MetadataOutput { stdout: METADATA.as_bytes().to_vec(), success: true });
    assert_eq!(
        actions,
        vec![Action::SpawnCargo {
            args: strings(&[
                "rustdoc",
                "--manifest-path",
                "/w/Cargo.toml",
                "--message-format",
                "json",
                "-Z",
                "unstable-options",
                "--output-format",
                "json"
            ])
        }]
    );
    let actions = importer.handle(Event::Spawned);
    assert_eq!(actions, vec![Action::Send(Message::CurrentProgress { completed: 0, total: 3 }), Action::ReadLine]);
    let actions = importer.handle(line(r#"{"reason":"compiler-artifact","package_id":"x"}"#));
    assert_eq!(actions, vec![Action::Send(Message::CurrentProgress { completed: 1, total: 3 }), Action::ReadLine]);
    let actions = importer.handle(line(r#"{"reason":"build-script-executed"}"#));
    assert_eq!(actions, vec![Action::ReadLine]);
    let actions = importer.handle(line(r#"{"reason":"compiler-artifact"}"#));
    assert_eq!(actions, vec![Action::Send(Message::CurrentProgress { completed: 2, total: 3 }), Action::ReadLine]);
    let actions = importer.handle(line(r#"{"reason":"build-finished","success":true}"#));
    assert_eq!(actions, vec![Action::AwaitExit]);
    let actions = importer.handle(Event::Exited { code: Some(0) });
    assert_eq!(
        actions,
        vec![
            Action::Send(Message::ImportComplete { success: true }),
            Action::ReadFile { path: "/w/target/doc/demo_lib.json".to_string() },
        ]
    );
    let actions = importer.handle(Event::DocsRead(CRATE_DOCS.to_string()));
    let crate_docs: rustdoc_types::Crate = serde_json::from_str(CRATE_DOCS).unwrap();
    let bytes = bitcode::serialize(&crate_docs).unwrap();
    assert_eq!(
        actions,
        vec![Action::WriteFile { path: "/home/generic/.cosmonaute/demo_lib.bitcode".to_string(), bytes }]
    );
    let actions = importer.handle(Event::Written);
    assert_eq!(
        actions,
        vec![Action::Finish(Ok(DocSetHandle::new("demo_lib".to_string(), "0.3.1".to_string(), "rust".to_string())))]
    );
    assert!(importer.is_finished());
}

#[test]
fn a_crate_without_version_gets_question_marks() {
    let mut importer = reading();
    importer.handle(Event::OutputEnded);
    importer.handle(Event::Exited { code: Some(0) });
    let docs = CRATE_DOCS.replace("\"crate_version\":\"0.3.1\"", "\"crate_version\":null");
    importer.handle(Event::DocsRead(docs));
    let actions = importer.handle(Event::Written);
    assert_eq!(
        actions,
        vec![Action::Finish(Ok(DocSetHandle::new("demo_lib".to_string(), "???".to_string(), "rust".to_string())))]
    );
}

#[test]
fn compiler_messages_are_passed_on() {
    let mut importer = reading();
    let actions = importer.handle(line(COMPILER_MESSAGE));
    let message: cargo_metadata::CompilerMessage = serde_json::from_str(COMPILER_MESSAGE).unwrap();
    assert_eq!(actions, vec![Action::Send(Message::CompilerMessage(message)), Action::ReadLine]);
}

#[test]
fn malformed_compiler_messages_and_other_lines_are_skipped() {
    let mut importer = reading();
    assert_eq!(importer.handle(line(r#"{"reason":"compiler-message"}"#)), vec![Action::ReadLine]);
    assert_eq!(importer.handle(line("Compiling demo v0.1.0")), vec![Action::ReadLine]);
    assert_eq!(importer.handle(line(r#"["compiler-artifact"]"#)), vec![Action::ReadLine]);
    assert_eq!(importer.handle(line(r#"{"reason":42}"#)), vec![Action::ReadLine]);
    assert_eq!(importer.handle(line(r#"{"reason":"compiler-artifact"}"#)), vec![Action::Send(Message::CurrentProgress { completed: 1, total: 3 }), Action::ReadLine]);
}

#[test]
fn a_failed_build_ends_the_import() {
    let mut importer = reading();
    importer.handle(Event::OutputEnded);
    assert_eq!(importer.handle(Event::Exited { code: Some(101) }), vec![Action::Finish(Err(DocsetError::CommandFailed))]);
    assert!(importer.is_finished());
}

#[test]
fn a_build_ended_by_a_signal_failed() {
    let mut importer = reading();
    importer.handle(Event::OutputEnded);
    assert_eq!(importer.handle(Event::Exited { code: None }), vec![Action::Finish(Err(DocsetError::CommandFailed))]);
}

#[test]
fn no_documented_library_ends_the_import() {
    let metadata = METADATA.replace(r#""kind":["lib"]"#, r#""kind":["example"]"#);
    let (mut importer, _) = Importer::start(&source());
    importer.handle(Event::MetadataOutput { stdout: metadata.into_bytes(), success: true });
    importer.handle(Event::Spawned);
    importer.handle(Event::OutputEnded);
    assert_eq!(
        importer.handle(Event::Exited { code: Some(0) }),
        vec![Action::Send(Message::ImportComplete { success: true }), Action::Finish(Err(DocsetError::FailedToFindDocOutput))]
    );
}

#[test]
fn metadata_errors_end_the_import() {
    let (mut importer, _) = Importer::start(&source());
    assert_eq!(
        importer.handle(Event::MetadataOutput { stdout: METADATA.as_bytes().to_vec(), success: false }),
        vec![Action::Finish(Err(DocsetError::CommandFailed))]
    );
}

#[test]
fn a_workspace_without_root_package_stops_the_program() {
    let metadata = METADATA.replace("\"workspace_root\":\"/w\"", "\"workspace_root\":\"/v\"");
    let (mut importer, _) = Importer::start(&source());
    assert_eq!(
        importer.handle(Event::MetadataOutput { stdout: metadata.into_bytes(), success: true }),
        vec![Action::Abort("called `Option::unwrap()` on a `None` value".to_string())]
    );
}

#[test]
fn unreadable_docs_end_the_import() {
    let mut importer = reading();
    importer.handle(Event::OutputEnded);
    importer.handle(Event::Exited { code: Some(0) });
    let expected = serde_json::from_str::<rustdoc_types::Crate>("{}").unwrap_err().to_string();
    assert_eq!(importer.handle(Event::DocsRead("{}".to_string())), vec![Action::Finish(Err(DocsetError::JsonError(expected)))]);
}

#[test]
fn a_failure_ends_the_import_with_its_error() {
    let mut importer = reading();
    let err = DocsetError::IoError("broken pipe".to_string());
    assert_eq!(importer.handle(Event::Failed(err)), vec![Action::Finish(Err(DocsetError::IoError("broken pipe".to_string())))]);
    assert!(importer.is_finished());
}

#[test]
fn a_finished_import_ignores_everything() {
    let mut importer = reading();
    importer.handle(Event::Failed(DocsetError::JoinError("cancelled".to_string())));
    assert!(importer.handle(Event::Failed(DocsetError::CommandFailed)).is_empty());
    assert!(importer.handle(line(r#"{"reason":"compiler-artifact"}"#)).is_empty());
    assert!(importer.handle(Event::Written).is_empty());
}

#[test]
fn events_out_of_turn_change_nothing() {
    let (mut importer, _) = Importer::start(&source());
    assert!(importer.handle(Event::Written).is_empty());
    assert!(importer.handle(Event::Spawned).is_empty());
    let actions = importer.handle(Event::MetadataOutput { stdout: METADATA.as_bytes().to_vec(), success: true });
    assert_eq!(actions.len(), 1);
}

#[test]
fn progress_counts_every_artifact_line() {
    let mut importer = reading();
    let mut last = None;
    for i in 0..5 {
        importer.handle(line(r#"{"reason":"compiler-message"}"#));
        for a in importer.handle(line(r#"{"reason":"compiler-artifact"}"#)) {
            if let Action::Send(Message::CurrentProgress { completed, total }) = a {
                assert_eq!(completed, i + 1);
                assert_eq!(total, 3);
                last = Some(completed);
            }
        }
    }
    assert_eq!(last, Some(5));
}

#[test]
fn a_compiler_message_with_a_repeated_key_is_still_passed_on() {
    let mut importer = reading();
    let text = COMPILER_MESSAGE.replacen("\"package_id\":", "\"package_id\":\"first\",\"package_id\":", 1);
    let value: serde_json::Value = serde_json::from_str(&text).unwrap();
    let message: cargo_metadata::CompilerMessage = serde_json::from_value(value).unwrap();
    assert_eq!(importer.handle(line(&text)), vec![Action::Send(Message::CompilerMessage(message)), Action::ReadLine]);
}

#[test]
fn docs_encoded_stores_the_given_bytes() {
    let docs = cosmonaute::cargo::EncodedDocs { version: Some("2.0.0".to_string()), bitcode: Some(vec![1, 2, 3]) };
    let (_state, actions) = cosmonaute::import::docs_encoded("demo_lib".to_string(), docs);
    assert_eq!(
        actions,
        vec![Action::WriteFile { path: "/home/generic/.cosmonaute/demo_lib.bitcode".to_string(), bytes: vec![1, 2, 3] }]
    );
}
