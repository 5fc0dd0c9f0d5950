//! Talking to `cargo`: the commands an import runs, and reading what they
//! answer (package metadata, the JSON messages of a build, rustdoc's JSON).

use vstd::prelude::*;
use vstd::string::*;
use vstd::utf8::{decode_utf8, valid_utf8};
use crate::docset::{DocsetError, DocsetErrorView};

verus! {

/// A build target of a package, as `cargo metadata` describes it.
#[derive(Debug)]
pub struct BuildTarget {
    pub name: String,
    /// Whether `cargo doc` documents the target.
    pub doc: bool,
    /// The kinds of the target, by cargo's names (`lib`, `bin`, `proc-macro`, ...).
    pub kinds: Vec<String>,
}

/// The root package of a workspace.
#[derive(Debug)]
pub struct RootPackage {
    pub manifest_path: String,
    pub targets: Vec<BuildTarget>,
}

/// What an import needs of `cargo metadata`'s answer.
#[derive(Debug)]
pub struct PackageMetadata {
    /// How many packages the workspace and its dependencies hold.
    pub package_count: usize,
    /// The workspace's root package, if it has one.
    pub root_package: Option<RootPackage>,
    /// Where cargo puts what it builds.
    pub target_directory: String,
}

pub struct BuildTargetView {
    pub name: Seq<char>,
    pub doc: bool,
    pub kinds: Seq<Seq<char>>,
}

pub struct RootPackageView {
    pub manifest_path: Seq<char>,
    pub targets: Seq<BuildTargetView>,
}

pub struct PackageMetadataView {
    pub package_count: nat,
    pub root_package: Option<RootPackageView>,
    pub target_directory: Seq<char>,
}

impl View for BuildTarget {
    type V = BuildTargetView;

    open spec fn view(&self) -> BuildTargetView {
        BuildTargetView { name: self.name@, doc: self.doc, kinds: self.kinds.deep_view() }
    }
}

impl View for RootPackage {
    type V = RootPackageView;

    open spec fn view(&self) -> RootPackageView {
        RootPackageView {
            manifest_path: self.manifest_path@,
            targets: self.targets@.map_values(|t: BuildTarget| t@),
        }
    }
}

impl View for PackageMetadata {
    type V = PackageMetadataView;

    open spec fn view(&self) -> PackageMetadataView {
        PackageMetadataView {
            package_count: self.package_count as nat,
            root_package: match self.root_package {
                Some(p) => Some(p@),
                None => None,
            },
            target_directory: self.target_directory@,
        }
    }
}

/// The text of the error that `std::str::from_utf8` reports on `bytes`.
pub uninterp spec fn utf8_error_text(bytes: Seq<u8>) -> Seq<char>;

/// `std::str::from_utf8`: the text that `bytes` encode in UTF-8, or the
/// description of why they are not UTF-8.  It succeeds exactly on valid
/// UTF-8 (vstd's `valid_utf8`), and then gives vstd's `decode_utf8` of the
/// bytes; on failure it gives the error's text, `utf8_error_text`.
#[verifier::external_body]
fn utf8_text(bytes: &[u8]) -> (r: Result<String, String>)
    ensures
        r is Ok <==> valid_utf8(bytes@),
        r matches Ok(s) ==> s@ == decode_utf8(bytes@),
        r matches Err(m) ==> m@ == utf8_error_text(bytes@),
{
    match std::str::from_utf8(bytes) {
        Ok(s) => Ok(s.to_string()),
        Err(e) => Err(e.to_string()),
    }
}

/// What `serde_json::from_str::<cargo_metadata::Metadata>` makes of `json`,
/// reduced to the package count, the root package (by
/// `Metadata::root_package`) and the target directory; or the text of the
/// parse error.
pub uninterp spec fn cargo_metadata_json(json: Seq<char>) -> Result<PackageMetadataView, Seq<char>>;

/// `serde_json::from_str::<cargo_metadata::Metadata>`, followed by reading
/// the fields that an import uses: the result is `cargo_metadata_json` of
/// the text.
#[verifier::external_body]
fn parse_package_metadata(json: &str) -> (r: Result<PackageMetadata, String>)
    ensures
        r matches Ok(m) ==> cargo_metadata_json(json@) is Ok && cargo_metadata_json(json@)->Ok_0 == m@,
        r matches Err(e) ==> cargo_metadata_json(json@) is Err && cargo_metadata_json(json@)->Err_0 == e@,
{
    let m = serde_json::from_str::<cargo_metadata::Metadata>(json).map_err(|e| e.to_string())?;
    Ok(PackageMetadata {
        package_count: m.packages.len(),
        root_package: m.root_package().map(|p| RootPackage {
            manifest_path: p.manifest_path.to_string(),
            targets: p.targets.iter().map(|t| BuildTarget {
                name: t.name.clone(),
                doc: t.doc,
                kinds: t.kind.iter().map(|k| k.to_string()).collect(),
            }).collect(),
        }),
        target_directory: m.target_directory.to_string(),
    })
}

/// The string value of the member `key` of the JSON object that `json`
/// holds; `None` when `json` is not a JSON object, has no such member, or
/// the member is not a string.
pub uninterp spec fn json_string_member(json: Seq<char>, key: Seq<char>) -> Option<Seq<char>>;

/// `serde_json::from_str::<serde_json::Value>`, then `Map::get` and
/// `Value::as_str` on the member `key` of the object: the result is
/// `json_string_member` of the text and the key.
#[verifier::external_body]
pub(crate) fn json_member_str(json: &str, key: &str) -> (r: Option<String>)
    ensures
        r.deep_view() == json_string_member(json@, key@),
{
    match serde_json::from_str::<serde_json::Value>(json) {
        Ok(serde_json::Value::Object(object)) => object.get(key).and_then(
            serde_json::Value::as_str,
        ).map(String::from),
        _ => None,
    }
}

/// Whether `json` holds a JSON value that converts to a compiler message
/// that cargo emits while building.
pub uninterp spec fn compiler_message_json(json: Seq<char>) -> bool;

/// `serde_json::from_str::<serde_json::Value>`, then `serde_json::from_value`
/// of that value into a `cargo_metadata::CompilerMessage`.  It gives a
/// message exactly when `compiler_message_json` holds of the text; which
/// message it gives is left unsaid, as the message is not a plain value.
#[verifier::external_body]
pub(crate) fn parse_compiler_message(json: &str) -> (r: Option<cargo_metadata::CompilerMessage>)
    ensures
        r is Some <==> compiler_message_json(json@),
{
    let value = serde_json::from_str::<serde_json::Value>(json).ok()?;
    serde_json::from_value::<cargo_metadata::CompilerMessage>(value).ok()
}

/// What an import keeps of a rustdoc JSON document.
pub struct EncodedDocs {
    /// The crate's version, if rustdoc was given one.
    pub version: Option<String>,
    /// The crate re-encoded with bitcode, or `None` when bitcode could not
    /// encode it (which does not happen to a crate read from JSON).
    pub bitcode: Option<Vec<u8>>,
}

/// What `serde_json::from_str::<rustdoc_types::Crate>` makes of `json`: the
/// crate's `crate_version`, or the text of the parse error.
pub uninterp spec fn rustdoc_crate_json(json: Seq<char>) -> Result<Option<Seq<char>>, Seq<char>>;

/// Whether `bytes` is a bitcode encoding of the rustdoc crate that `json`
/// holds: what `bitcode::serialize` writes for that crate when it walks the
/// crate's maps in some order.
pub uninterp spec fn bitcode_of_crate(json: Seq<char>, bytes: Seq<u8>) -> bool;

/// `serde_json::from_str::<rustdoc_types::Crate>`, then `bitcode::serialize`
/// of the crate.  The parse gives `rustdoc_crate_json` of the text, and the
/// encoding succeeds whenever the parse did: bitcode fails only on enums of
/// more than 256 variants and on skipped fields, and the crate's types have
/// neither.  The bytes are an encoding of that crate (`bitcode_of_crate`);
/// which one is left unsaid: the crate keeps its items in `HashMap`s seeded
/// at random, and bitcode writes them in the order it walks them.
#[verifier::external_body]
pub(crate) fn encode_rustdoc_json(json: &str) -> (r: Result<EncodedDocs, String>)
    ensures
        r matches Err(e) ==> rustdoc_crate_json(json@) is Err && rustdoc_crate_json(json@)->Err_0 == e@,
        r matches Ok(d) ==> rustdoc_crate_json(json@) is Ok && rustdoc_crate_json(json@)->Ok_0
            == d.version.deep_view(),
        r matches Ok(d) ==> d.bitcode is Some,
        r matches Ok(d) ==> bitcode_of_crate(json@, d.bitcode->Some_0@),
{
    let docs = serde_json::from_str::<rustdoc_types::Crate>(json).map_err(|e| e.to_string())?;
    Ok(EncodedDocs { bitcode: bitcode::serialize(&docs).ok(), version: docs.crate_version })
}

/// The arguments of the `cargo` command that describes the package whose
/// manifest is at `manifest_path`.
pub open spec fn metadata_args(manifest_path: Seq<char>) -> Seq<Seq<char>> {
    seq!["metadata"@, "--format-version"@, "1"@, "--manifest-path"@, manifest_path]
}

/// The arguments of the `cargo` command that writes rustdoc's JSON for the
/// package whose manifest is at `manifest_path`, and reports its progress as
/// JSON messages.
pub open spec fn rustdoc_args(manifest_path: Seq<char>) -> Seq<Seq<char>> {
    seq![
        "rustdoc"@,
        "--manifest-path"@,
        manifest_path,
        "--message-format"@,
        "json"@,
        "-Z"@,
        "unstable-options"@,
        "--output-format"@,
        "json"@,
    ]
}

/// The arguments of `cargo metadata` for the manifest at `manifest_path`.
pub fn metadata_command_args(manifest_path: &str) -> (r: Vec<String>)
    ensures
        r.deep_view() == metadata_args(manifest_path@),
{
    let mut args: Vec<String> = Vec::new();
    args.push(String::from_str("metadata"));
    args.push(String::from_str("--format-version"));
    args.push(String::from_str("1"));
    args.push(String::from_str("--manifest-path"));
    args.push(String::from_str(manifest_path));
    assert(args.deep_view() =~= metadata_args(manifest_path@));
    args
}

/// The arguments of `cargo rustdoc` for the manifest at `manifest_path`.
pub fn rustdoc_command_args(manifest_path: &str) -> (r: Vec<String>)
    ensures
        r.deep_view() == rustdoc_args(manifest_path@),
{
    let mut args: Vec<String> = Vec::new();
    args.push(String::from_str("rustdoc"));
    args.push(String::from_str("--manifest-path"));
    args.push(String::from_str(manifest_path));
    args.push(String::from_str("--message-format"));
    args.push(String::from_str("json"));
    args.push(String::from_str("-Z"));
    args.push(String::from_str("unstable-options"));
    args.push(String::from_str("--output-format"));
    args.push(String::from_str("json"));
    assert(args.deep_view() =~= rustdoc_args(manifest_path@));
    args
}

/// What the output of `cargo metadata` tells: its standard output must be
/// UTF-8, then the command must have succeeded, then the output must be the
/// package metadata in JSON.
pub open spec fn metadata_outcome(stdout: Seq<u8>, success: bool) -> Result<PackageMetadataView, DocsetErrorView> {
    if !valid_utf8(stdout) {
        Err(DocsetErrorView::Utf8Error(utf8_error_text(stdout)))
    } else if !success {
        Err(DocsetErrorView::CommandFailed)
    } else {
        match cargo_metadata_json(decode_utf8(stdout)) {
            Ok(m) => Ok(m),
            Err(text) => Err(DocsetErrorView::JsonError(text)),
        }
    }
}

/// The order in which `cargo metadata`'s answer is checked: output that is
/// not UTF-8 is a UTF-8 error whatever the run did; then a run that did not
/// succeed is `CommandFailed`, whatever its output holds; only then is the
/// output read as JSON.
pub proof fn lemma_metadata_checks_in_order(stdout: Seq<u8>, success: bool)
    ensures
        !valid_utf8(stdout) ==> metadata_outcome(stdout, success) is Err && metadata_outcome(
            stdout,
            success,
        )->Err_0 == DocsetErrorView::Utf8Error(utf8_error_text(stdout)),
        valid_utf8(stdout) && !success ==> metadata_outcome(stdout, success) is Err
            && metadata_outcome(stdout, success)->Err_0 == DocsetErrorView::CommandFailed,
        valid_utf8(stdout) && success ==> (metadata_outcome(stdout, success) is Ok
            <==> cargo_metadata_json(decode_utf8(stdout)) is Ok),
{
}

/// The abstract value of a metadata result.
pub open spec fn metadata_result_view(r: Result<PackageMetadata, DocsetError>) -> Result<PackageMetadataView, DocsetErrorView> {
    match r {
        Ok(m) => Ok(m@),
        Err(e) => Err(e@),
    }
}

/// Reads the package metadata from what `cargo metadata` wrote on its
/// standard output and whether it succeeded.
pub fn metadata_from_output(stdout: &[u8], success: bool) -> (r: Result<PackageMetadata, DocsetError>)
    ensures
        metadata_result_view(r) == metadata_outcome(stdout@, success),
        !valid_utf8(stdout@) ==> (r matches Err(DocsetError::Utf8Error(why)) && why@
            == utf8_error_text(stdout@)),
        valid_utf8(stdout@) && !success ==> (r matches Err(DocsetError::CommandFailed)),
        valid_utf8(stdout@) && success ==> match cargo_metadata_json(decode_utf8(stdout@)) {
            Ok(m) => (r matches Ok(got) && got@ == m),
            Err(text) => (r matches Err(DocsetError::JsonError(why)) && why@ == text),
        },
{
    let json = match utf8_text(stdout) {
        Ok(text) => text,
        Err(why) => {
            return Err(DocsetError::Utf8Error(why));
        },
    };
    if !success {
        return Err(DocsetError::CommandFailed);
    }
    match parse_package_metadata(json.as_str()) {
        Ok(m) => Ok(m),
        Err(why) => Err(DocsetError::JsonError(why)),
    }
}

/// A target whose JSON documentation `cargo rustdoc` writes: one that is
/// documented and is a library, a dynamic library or a procedural macro.
pub open spec fn is_documented_library(t: BuildTargetView) -> bool {
    &&& t.doc
    &&& (t.kinds.contains("lib"@) || t.kinds.contains("dylib"@) || t.kinds.contains("proc-macro"@))
}

/// The name of the first target that [`is_documented_library`], if any.
pub open spec fn first_documented_library(targets: Seq<BuildTargetView>) -> Option<Seq<char>>
    decreases targets.len(),
{
    if targets.len() == 0 {
        None
    } else if is_documented_library(targets[0]) {
        Some(targets[0].name)
    } else {
        first_documented_library(targets.drop_first())
    }
}

/// Whether a list of target kinds holds, anywhere in it, `lib`, `dylib` or
/// `proc-macro`.
pub open spec fn lists_library_kind(kinds: Seq<Seq<char>>) -> bool {
    kinds.contains("lib"@) || kinds.contains("dylib"@) || kinds.contains("proc-macro"@)
}

/// The target that `cargo rustdoc` documents, stated over the targets
/// themselves: when there is one, it is the first target that is documented
/// and whose kinds hold a library kind anywhere; when there is none, no
/// target is both.
pub proof fn lemma_first_documented_library(targets: Seq<BuildTargetView>)
    ensures
        first_documented_library(targets) is Some ==> exists|i: int|
            #![trigger targets[i]]
            0 <= i < targets.len() && targets[i].name == first_documented_library(targets)->Some_0
                && targets[i].doc && lists_library_kind(targets[i].kinds) && forall|j: int|
                #![trigger targets[j]]
                0 <= j < i ==> !(targets[j].doc && lists_library_kind(targets[j].kinds)),
        first_documented_library(targets) is None ==> forall|i: int|
            #![trigger targets[i]]
            0 <= i < targets.len() ==> !(targets[i].doc && lists_library_kind(targets[i].kinds)),
    decreases targets.len(),
{
    if targets.len() > 0 {
        let rest = targets.drop_first();
        lemma_first_documented_library(rest);
        if !(targets[0].doc && lists_library_kind(targets[0].kinds)) {
            if first_documented_library(rest) is Some {
                let i = choose|i: int|
                    #![trigger rest[i]]
                    0 <= i < rest.len() && rest[i].name == first_documented_library(rest)->Some_0
                        && rest[i].doc && lists_library_kind(rest[i].kinds) && forall|j: int|
                        #![trigger rest[j]]
                        0 <= j < i ==> !(rest[j].doc && lists_library_kind(rest[j].kinds));
                assert(targets[i + 1] == rest[i]);
                assert forall|j: int| #![trigger targets[j]] 0 <= j < i + 1 implies !(targets[j].doc
                    && lists_library_kind(targets[j].kinds)) by {
                    if j > 0 {
                        assert(targets[j] == rest[j - 1]);
                    }
                }
            } else {
                assert forall|i: int| #![trigger targets[i]] 0 <= i < targets.len() implies !(
                targets[i].doc && lists_library_kind(targets[i].kinds)) by {
                    if i > 0 {
                        assert(targets[i] == rest[i - 1]);
                    }
                }
            }
        } else {
            assert(targets[0].name == first_documented_library(targets)->Some_0);
        }
    }
}

/// Whether `kinds` holds `kind`.
fn has_kind(kinds: &Vec<String>, kind: &String) -> (r: bool)
    ensures
        r == kinds.deep_view().contains(kind@),
{
    let mut i: usize = 0;
    while i < kinds.len()
        invariant
            i <= kinds@.len(),
            forall|j: int| 0 <= j < i ==> kinds.deep_view()[j] != kind@,
        decreases kinds@.len() - i,
    {
        if kinds[i] == *kind {
            assert(kinds.deep_view()[i as int] == kind@);
            return true;
        }
        i = i + 1;
    }
    assert forall|j: int| 0 <= j < kinds.deep_view().len() implies kinds.deep_view()[j] != kind@ by {}
    false
}

/// The name of the first target of `targets` whose JSON documentation
/// `cargo rustdoc` writes.
pub fn documented_target(targets: &Vec<BuildTarget>) -> (r: Option<String>)
    ensures
        r.deep_view() == first_documented_library(targets@.map_values(|t: BuildTarget| t@)),
        r is Some ==> exists|i: int|
            #![trigger targets@[i]]
            0 <= i < targets@.len() && targets@[i].name@ == r->Some_0@ && targets@[i].doc
                && lists_library_kind(targets@[i].kinds.deep_view()) && forall|j: int|
                #![trigger targets@[j]]
                0 <= j < i ==> !(targets@[j].doc && lists_library_kind(
                    targets@[j].kinds.deep_view(),
                )),
        r is None ==> forall|i: int|
            #![trigger targets@[i]]
            0 <= i < targets@.len() ==> !(targets@[i].doc && lists_library_kind(
                targets@[i].kinds.deep_view(),
            )),
{
    let ghost all = targets@.map_values(|t: BuildTarget| t@);
    let lib = String::from_str("lib");
    let dylib = String::from_str("dylib");
    let proc_macro = String::from_str("proc-macro");
    let mut i: usize = 0;
    assert(all.skip(0) =~= all);
    while i < targets.len()
        invariant
            i <= targets@.len(),
            all == targets@.map_values(|t: BuildTarget| t@),
            lib@ == "lib"@,
            dylib@ == "dylib"@,
            proc_macro@ == "proc-macro"@,
            first_documented_library(all) == first_documented_library(all.skip(i as int)),
        decreases targets@.len() - i,
    {
        let t = &targets[i];
        assert(all.skip(i as int)[0] == t@);
        if t.doc && (has_kind(&t.kinds, &lib) || has_kind(&t.kinds, &dylib) || has_kind(
            &t.kinds,
            &proc_macro,
        )) {
            let found = t.name.clone();
            proof {
                lemma_first_documented_library(all);
                assert forall|k: int| #![trigger targets@[k]] 0 <= k < targets@.len() implies all[k]
                    == targets@[k]@ by {}
            }
            return Some(found);
        }
        assert(all.skip(i as int).drop_first() =~= all.skip(i + 1));
        i = i + 1;
    }
    assert(all.skip(i as int).len() == 0);
    proof {
        lemma_first_documented_library(all);
        assert forall|k: int| #![trigger targets@[k]] 0 <= k < targets@.len() implies all[k]
            == targets@[k]@ by {}
    }
    None
}

} // verus!
