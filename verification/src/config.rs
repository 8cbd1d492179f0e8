//! The project metadata kept in `.uplate.jsonc`: which boilerplate a project
//! follows, the template commit it was based on, and the commit applied last.
use vstd::prelude::*;

verus! {

/// The file name of the metadata file at the project root.
pub const CONFIG_FILE: &'static str = ".uplate.jsonc";

/// A UTC instant: whole seconds since the Unix epoch and the nanoseconds
/// past that second, as the metadata file stores it.
#[derive(Debug, Clone, Copy, PartialEq, Eq, Structural)]
pub struct Timestamp {
    pub seconds: i64,
    pub nanos: u32,
}

/// Where a boilerplate is hosted.
#[derive(Debug, Clone, Copy, PartialEq, Eq, Structural)]
pub enum SourceType {
    Github,
    Git,
}

/// The boilerplate source a project follows.
#[derive(Debug, Clone)]
pub struct SourceConfig {
    pub kind: SourceType,
    pub input: String,
    pub remote: String,
    pub owner: Option<String>,
    pub repo: Option<String>,
    pub path: Option<String>,
    pub ref_name: String,
}

/// The template commit the project's files were last merged against.
#[derive(Debug, Clone)]
pub struct BaseConfig {
    pub commit: String,
    pub ref_name: String,
    pub tag: Option<String>,
}

/// The template commit applied last, and when.
#[derive(Debug, Clone)]
pub struct CurrentConfig {
    pub commit: String,
    pub upgraded_at: Option<Timestamp>,
}

/// The whole metadata file.
#[derive(Debug, Clone)]
pub struct UplateConfig {
    pub schema_version: u32,
    pub source: SourceConfig,
    pub base: BaseConfig,
    pub current: CurrentConfig,
    pub created_at: Timestamp,
}

/// The text of a `SourceConfig`.
pub struct SourceConfigView {
    pub kind: SourceType,
    pub input: Seq<char>,
    pub remote: Seq<char>,
    pub owner: Option<Seq<char>>,
    pub repo: Option<Seq<char>>,
    pub path: Option<Seq<char>>,
    pub ref_name: Seq<char>,
}

impl View for SourceConfig {
    type V = SourceConfigView;

    open spec fn view(&self) -> SourceConfigView {
        SourceConfigView {
            kind: self.kind,
            input: self.input@,
            remote: self.remote@,
            owner: self.owner.deep_view(),
            repo: self.repo.deep_view(),
            path: self.path.deep_view(),
            ref_name: self.ref_name@,
        }
    }
}


/// What `json_comments::StripComments` makes of the bytes `raw`: the bytes
/// with every comment turned into spaces, or nothing when the text ends
/// inside a string or a block comment, or when a `/` outside a string is
/// followed by neither `/` nor `*`.
pub uninterp spec fn stripped_json(raw: Seq<u8>) -> Option<Seq<u8>>;

/// `json_comments::StripComments::new` over `raw`, read to the end with
/// `std::io::Read::read_to_end`. The result is the named `stripped_json`
/// of the input; since comments become spaces, it is as long as the input.
#[verifier::external_body]
fn strip_comments_of(raw: &[u8]) -> (res: Option<Vec<u8>>)
    ensures
        res.deep_view() == stripped_json(raw@),
        res matches Some(v) ==> v@.len() == raw@.len(),
{
    let mut out = Vec::new();
    match std::io::Read::read_to_end(&mut json_comments::StripComments::new(raw), &mut out) {
        Ok(_) => Some(out),
        Err(_) => None,
    }
}

/// The text of a metadata file with its comments blanked out, ready for a
/// JSON parser; nothing when the text ends inside a string or a comment
/// that must be closed.
pub fn strip_config_comments(raw: &[u8]) -> (res: Option<Vec<u8>>)
    ensures
        res.deep_view() == stripped_json(raw@),
        res matches Some(v) ==> v@.len() == raw@.len(),
{
    strip_comments_of(raw)
}

} // verus!
