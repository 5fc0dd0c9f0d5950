use cosmonaute::cargo::{
    documented_target, metadata_command_args, metadata_from_output, rustdoc_command_args, BuildTarget,
};
use cosmonaute::docset::DocsetError;

const METADATA: &str = r#"{"packages":[{"name":"demo","version":"0.1.0","id":"path+file:///w#demo@0.1.0","dependencies":[],"targets":[{"name":"demo","kind":["bin"],"src_path":"/w/src/main.rs"},{"name":"demo_lib","kind":["lib"],"src_path":"/w/src/lib.rs"}],"features":{},"manifest_path":"/w/Cargo.toml"},{"name":"dep","version":"1.0.0","id":"registry+x#dep@1.0.0","dependencies":[],"targets":[],"features":{},"manifest_path":"/r/dep/Cargo.toml"}],"workspace_members":["path+file:///w#demo@0.1.0"],"resolve":null,"workspace_root":"/w","target_directory":"/w/target","version":1}"#;

fn target(name: &str, doc: bool, kinds: &[&str]) -> BuildTarget {
    BuildTarget { name: name.to_string(), doc, kinds: kinds.iter().map(|k| k.to_string()).collect() }
}

#[test]
fn metadata_arguments() {
    assert_eq!(
        metadata_command_args("/w/Cargo.toml"),
        vec!["metadata", "--format-version", "1", "--manifest-path", "/w/Cargo.toml"]
    );
}

#[test]
fn rustdoc_arguments() {
    assert_eq!(
        rustdoc_command_args("/w/Cargo.toml"),
        vec![
            "rustdoc",
            "--manifest-path",
            "/w/Cargo.toml",
            "--message-format",
            "json",
            "-Z",
            "unstable-options",
            "--output-format",
            "json"
        ]
    );
}

#[test]
fn metadata_is_read_from_a_successful_run() {
    let m = metadata_from_output(METADATA.as_bytes(), true).unwrap();
    assert_eq!(m.package_count, 2);
    assert_eq!(m.target_directory, "/w/target");
    let root = m.root_package.unwrap();
    assert_eq!(root.manifest_path, "/w/Cargo.toml");
    assert_eq!(root.targets.len(), 2);
    assert_eq!(root.targets[1].name, "demo_lib");
    assert!(root.targets[1].doc);
    assert_eq!(root.targets[1].kinds, vec!["lib".to_string()]);
    assert_eq!(root.targets[0].kinds, vec!["bin".to_string()]);
}

#[test]
fn metadata_without_root_package() {
    let json = METADATA.replace("\"workspace_root\":\"/w\"", "\"workspace_root\":\"/elsewhere\"");
    let m = metadata_from_output(json.as_bytes(), true).unwrap();
    assert!(m.root_package.is_none());
}

#[test]
fn metadata_output_that_is_not_utf8() {
    assert_eq!(
        metadata_from_output(&[0xff, b'{'], true).unwrap_err(),
        DocsetError::Utf8Error("invalid utf-8 sequence of 1 bytes from index 0".to_string())
    );
}

#[test]
fn utf8_is_checked_before_the_exit_status() {
    assert_eq!(
        metadata_from_output(&[b'{', 0xe2, 0x82], false).unwrap_err(),
        DocsetError::Utf8Error("incomplete utf-8 byte sequence from index 1".to_string())
    );
}

#[test]
fn metadata_of_a_failed_run() {
    assert_eq!(metadata_from_output(METADATA.as_bytes(), false).unwrap_err(), DocsetError::CommandFailed);
}

#[test]
fn metadata_that_is_not_json() {
    let err = metadata_from_output(b"not json", true).unwrap_err();
    let expected = serde_json::from_str::<cargo_metadata::Metadata>("not json").unwrap_err().to_string();
    assert_eq!(err, DocsetError::JsonError(expected));
}

#[test]
fn documented_target_takes_the_first_documented_library() {
    let targets = vec![
        target("tool", true, &["bin"]),
        target("hidden", false, &["lib"]),
        target("macros", true, &["proc-macro"]),
        target("core", true, &["lib"]),
    ];
    assert_eq!(documented_target(&targets), Some("macros".to_string()));
}

#[test]
fn documented_target_accepts_dylib_among_other_kinds() {
    let targets = vec![target("plugin", true, &["cdylib", "dylib"])];
    assert_eq!(documented_target(&targets), Some("plugin".to_string()));
}

#[test]
fn documented_target_none_without_library() {
    let targets = vec![target("tool", true, &["bin"]), target("ex", true, &["example"]), target("c", true, &["cdylib"])];
    assert_eq!(documented_target(&targets), None);
    assert_eq!(documented_target(&Vec::new()), None);
}
