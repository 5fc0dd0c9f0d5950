use cosmonaute::page::docs;
use cosmonaute::docset::{self, DocKind, DocSetHandle, DocsetError, Protocol};
use cosmonaute::page::home::{import_report, Message, ViewModel};
use cosmonaute::page::Command;
use cosmonaute::view::home as first_draft;

fn print(line: &str) -> Command {
    Command::Print(line.to_string())
}

fn printed(c: Command) -> String {
    match c {
        Command::Print(line) => line,
        other => panic!("expected a line to print, got {other:?}"),
    }
}

#[test]
fn search_input_replaces_the_search_text() {
    let mut page = ViewModel::default();
    assert_eq!(page.search(), "");
    assert!(matches!(page.update(Message::SearchInput("serde".to_string())), Command::Nothing));
    assert_eq!(page.search(), "serde");
    page.update(Message::from("tokio".to_string()));
    assert_eq!(page.search(), "tokio");
}

#[test]
fn add_imports_the_fixed_crate() {
    let mut page = ViewModel::default();
    page.update(Message::SearchInput("kept".to_string()));
    match page.update(Message::Add) {
        Command::Import(source) => {
            assert_eq!(source.protocol, Protocol::File);
            assert_eq!(source.kind, DocKind::RustCrate);
            assert_eq!(source.path, "/home/generic/git/generic/libcosmic/Cargo.toml");
        }
        other => panic!("expected an import, got {other:?}"),
    }
    assert_eq!(page.search(), "kept");
}

#[test]
fn settings_and_help_do_nothing() {
    let mut page = ViewModel::default();
    assert!(matches!(page.update(Message::Settings), Command::Nothing));
    assert!(matches!(page.update(Message::Help), Command::Nothing));
}

#[test]
fn import_progress_is_printed() {
    let mut page = ViewModel::default();
    let c = page.update(Message::from(docset::Message::CurrentProgress { completed: 3, total: 12 }));
    assert_eq!(printed(c), "Progress: 3/12");
    let c = page.update(Message::DocsetMessage(docset::Message::CurrentProgress { completed: 0, total: 0 }));
    assert_eq!(printed(c), "Progress: 0/0");
}

#[test]
fn import_completion_is_printed() {
    let mut page = ViewModel::default();
    let c = page.update(Message::DocsetMessage(docset::Message::ImportComplete { success: true }));
    assert_eq!(printed(c), "Import completed successfully");
    let c = page.update(Message::DocsetMessage(docset::Message::ImportComplete { success: false }));
    assert_eq!(printed(c), "Import failed");
    let c = page.update(Message::DocsetMessage(docset::Message::ReadPackageMetadata));
    assert!(matches!(c, Command::Print(ref l) if l == "Reading package metadata"));
    let _ = print("");
}

#[test]
fn compiler_messages_are_printed_with_a_prefix() {
    let json = r#"{"reason":"compiler-message","package_id":"p","target":{"name":"t","kind":["lib"],"src_path":"/t.rs"},"message":{"message":"m","code":null,"level":"warning","spans":[],"children":[],"rendered":null}}"#;
    let message: cargo_metadata::CompilerMessage = serde_json::from_str(json).unwrap();
    let mut page = ViewModel::default();
    match page.update(Message::DocsetMessage(docset::Message::CompilerMessage(message.clone()))) {
        Command::PrintCompilerMessage { prefix, message: m } => {
            assert_eq!(prefix, "Compiler message: ");
            assert_eq!(m, message);
        }
        other => panic!("expected a compiler message, got {other:?}"),
    }
}

#[test]
fn import_report_lines() {
    let ok = Ok(DocSetHandle::new("demo".to_string(), "1.0.0".to_string(), "rust".to_string()));
    assert_eq!(import_report(&ok), "Import successful");
    assert_eq!(import_report(&Err(DocsetError::CommandFailed)), "Import error: Command failed");
    assert_eq!(
        import_report(&Err(DocsetError::IoError("No such file or directory (os error 2)".to_string()))),
        "Import error: IO error: No such file or directory (os error 2)"
    );
}

#[test]
fn first_draft_home_view_asks_for_nothing() {
    let mut view = first_draft::ViewModel::default();
    assert!(matches!(view.update(first_draft::Message::Add), Command::Nothing));
    assert!(matches!(view.update(first_draft::Message::Settings), Command::Nothing));
    assert!(matches!(view.update(first_draft::Message::Help), Command::Nothing));
}

#[test]
fn docs_page_asks_for_nothing() {
    let mut page = docs::ViewModel {};
    let messages: Vec<docs::Message> = Vec::new();
    for m in messages {
        assert!(matches!(page.update(m), Command::Nothing));
    }
}
