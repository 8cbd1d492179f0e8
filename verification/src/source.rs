//! Parsing of the template sources a user types: GitHub shorthands
//! (`owner/repo[/path]`, `github:owner/repo[/path]`), GitHub URLs with an
//! optional `/tree/<ref>/<path>`, and other git hosts' URLs with an optional
//! GitLab-style `/-/tree/<ref>/<path>`.
use vstd::prelude::*;
use crate::config::{SourceConfig, SourceConfigView, SourceType};
use crate::text::{
    ascii_lowercase, chars_eq, lemma_char_vec_deep_view, contains, contains_char, contains_exec, ends_with,
    ends_with_exec, from_chars, is_blank, join, non_blank, push_all,
    slice, split_on, starts_with, starts_with_exec, to_ascii_lower, to_chars, trim, trim_chars,
    trim_start_char, trim_start_matches, lemma_split_on_pieces_lack_sep,
    lemma_non_blank_pieces_lack_sep, lemma_split_on_join, lemma_trim_idempotent,
    lemma_trim_bounds, lemma_trim_of_bounded, lemma_slash_pattern_in_suffix, occurs_at,
};

verus! {

broadcast use lemma_char_vec_deep_view;

// ---------------------------------------------------------------------------
// Types
// ---------------------------------------------------------------------------

/// A template source, split into what cloning and upgrading need.
#[derive(Debug, Clone, PartialEq, Eq)]
pub struct ParsedSource {
    pub input: String,
    pub kind: SourceType,
    pub remote: String,
    pub owner: Option<String>,
    pub repo: Option<String>,
    pub path: Option<String>,
    pub ref_name: Option<String>,
}

/// The text of a `ParsedSource`.
pub struct ParsedSourceView {
    pub input: Seq<char>,
    pub kind: SourceType,
    pub remote: Seq<char>,
    pub owner: Option<Seq<char>>,
    pub repo: Option<Seq<char>>,
    pub path: Option<Seq<char>>,
    pub ref_name: Option<Seq<char>>,
}

impl View for ParsedSource {
    type V = ParsedSourceView;

    open spec fn view(&self) -> ParsedSourceView {
        ParsedSourceView {
            input: self.input@,
            kind: self.kind,
            remote: self.remote@,
            owner: self.owner.deep_view(),
            repo: self.repo.deep_view(),
            path: self.path.deep_view(),
            ref_name: self.ref_name.deep_view(),
        }
    }
}

/// Which leading segment of a source was rejected.
#[derive(Debug, Clone, Copy, PartialEq, Eq, Structural)]
pub enum SegmentKind {
    Owner,
    Repo,
}

/// Why a source was rejected.
#[derive(Debug, Clone, PartialEq, Eq)]
pub enum SourceError {
    Empty,
    PathTraversal,
    NotATemplateSource { input: String },
    UnsupportedScheme { input: String },
    InvalidUrl { input: String, cause: String },
    GithubUrlMissingRepo { input: String },
    GithubUrlNotTree { input: String },
    GithubUrlMissingRef { input: String },
    GitUrlMissingPath { input: String },
    UnsupportedGitlabShape { input: String },
    GitlabMissingRepoPath { input: String },
    GitlabMissingRef,
    InvalidPathSegment { segment: String },
    InvalidSegment { kind: SegmentKind, value: String },
}

/// The text of a `SourceError`.
pub enum SourceErrorView {
    Empty,
    PathTraversal,
    NotATemplateSource { input: Seq<char> },
    UnsupportedScheme { input: Seq<char> },
    InvalidUrl { input: Seq<char>, cause: Seq<char> },
    GithubUrlMissingRepo { input: Seq<char> },
    GithubUrlNotTree { input: Seq<char> },
    GithubUrlMissingRef { input: Seq<char> },
    GitUrlMissingPath { input: Seq<char> },
    UnsupportedGitlabShape { input: Seq<char> },
    GitlabMissingRepoPath { input: Seq<char> },
    GitlabMissingRef,
    InvalidPathSegment { segment: Seq<char> },
    InvalidSegment { kind: SegmentKind, value: Seq<char> },
}

impl View for SourceError {
    type V = SourceErrorView;

    open spec fn view(&self) -> SourceErrorView {
        match self {
            SourceError::Empty => SourceErrorView::Empty,
            SourceError::PathTraversal => SourceErrorView::PathTraversal,
            SourceError::NotATemplateSource { input } => SourceErrorView::NotATemplateSource {
                input: input@,
            },
            SourceError::UnsupportedScheme { input } => SourceErrorView::UnsupportedScheme {
                input: input@,
            },
            SourceError::InvalidUrl { input, cause } => SourceErrorView::InvalidUrl {
                input: input@,
                cause: cause@,
            },
            SourceError::GithubUrlMissingRepo { input } => SourceErrorView::GithubUrlMissingRepo {
                input: input@,
            },
            SourceError::GithubUrlNotTree { input } => SourceErrorView::GithubUrlNotTree {
                input: input@,
            },
            SourceError::GithubUrlMissingRef { input } => SourceErrorView::GithubUrlMissingRef {
                input: input@,
            },
            SourceError::GitUrlMissingPath { input } => SourceErrorView::GitUrlMissingPath {
                input: input@,
            },
            SourceError::UnsupportedGitlabShape { input } =>
                SourceErrorView::UnsupportedGitlabShape { input: input@ },
            SourceError::GitlabMissingRepoPath { input } =>
                SourceErrorView::GitlabMissingRepoPath { input: input@ },
            SourceError::GitlabMissingRef => SourceErrorView::GitlabMissingRef,
            SourceError::InvalidPathSegment { segment } => SourceErrorView::InvalidPathSegment {
                segment: segment@,
            },
            SourceError::InvalidSegment { kind, value } => SourceErrorView::InvalidSegment {
                kind: *kind,
                value: value@,
            },
        }
    }
}

/// The name a rejected segment is reported under.
pub open spec fn segment_name(kind: SegmentKind) -> Seq<char> {
    match kind {
        SegmentKind::Owner => "owner"@,
        SegmentKind::Repo => "repo"@,
    }
}

impl SourceErrorView {
    /// The message shown to the user.
    pub open spec fn message(self) -> Seq<char> {
        match self {
            SourceErrorView::Empty => "source cannot be empty"@,
            SourceErrorView::PathTraversal => "source path must not contain . or .. segments"@,
            SourceErrorView::NotATemplateSource { input } => input
                + " is not a valid template source. Expected owner/repo, owner/repo/path, github:owner/repo/path, or a git URL."@,
            SourceErrorView::UnsupportedScheme { input } => "unsupported source URL scheme: "@
                + input,
            SourceErrorView::InvalidUrl { input, cause } => "invalid source URL: "@ + input,
            SourceErrorView::GithubUrlMissingRepo { input } =>
                "GitHub URL must include owner and repo: "@ + input,
            SourceErrorView::GithubUrlNotTree { input } =>
                "GitHub URL subpaths must use /tree/<ref>/<path>: "@ + input,
            SourceErrorView::GithubUrlMissingRef { input } =>
                "GitHub tree URL must include a ref: "@ + input,
            SourceErrorView::GitUrlMissingPath { input } =>
                "git URL must include a repository path: "@ + input,
            SourceErrorView::UnsupportedGitlabShape { input } =>
                "unsupported GitLab-style URL shape: "@ + input,
            SourceErrorView::GitlabMissingRepoPath { input } =>
                "git URL must include a repository path before /-/tree: "@ + input,
            SourceErrorView::GitlabMissingRef => "GitLab-style tree URL must include a ref"@,
            SourceErrorView::InvalidPathSegment { segment } => "invalid template path segment: "@
                + segment,
            SourceErrorView::InvalidSegment { kind, value } => "invalid "@ + segment_name(kind)
                + " segment: "@ + value,
        }
    }
}

impl SourceError {
    /// The message shown to the user.
    pub fn to_string(&self) -> (res: String)
        ensures
            res@ == self@.message(),
    {
        match self {
            SourceError::Empty => "source cannot be empty".to_owned(),
            SourceError::PathTraversal => "source path must not contain . or .. segments".to_owned(),
            SourceError::NotATemplateSource { input } => {
                let mut s = input.clone();
                s.append(
                    " is not a valid template source. Expected owner/repo, owner/repo/path, github:owner/repo/path, or a git URL.",
                );
                s
            },
            SourceError::UnsupportedScheme { input } => {
                let mut s = "unsupported source URL scheme: ".to_owned();
                s.append(input.as_str());
                s
            },
            SourceError::InvalidUrl { input, cause: _ } => {
                let mut s = "invalid source URL: ".to_owned();
                s.append(input.as_str());
                s
            },
            SourceError::GithubUrlMissingRepo { input } => {
                let mut s = "GitHub URL must include owner and repo: ".to_owned();
                s.append(input.as_str());
                s
            },
            SourceError::GithubUrlNotTree { input } => {
                let mut s = "GitHub URL subpaths must use /tree/<ref>/<path>: ".to_owned();
                s.append(input.as_str());
                s
            },
            SourceError::GithubUrlMissingRef { input } => {
                let mut s = "GitHub tree URL must include a ref: ".to_owned();
                s.append(input.as_str());
                s
            },
            SourceError::GitUrlMissingPath { input } => {
                let mut s = "git URL must include a repository path: ".to_owned();
                s.append(input.as_str());
                s
            },
            SourceError::UnsupportedGitlabShape { input } => {
                let mut s = "unsupported GitLab-style URL shape: ".to_owned();
                s.append(input.as_str());
                s
            },
            SourceError::GitlabMissingRepoPath { input } => {
                let mut s = "git URL must include a repository path before /-/tree: ".to_owned();
                s.append(input.as_str());
                s
            },
            SourceError::GitlabMissingRef => "GitLab-style tree URL must include a ref".to_owned(),
            SourceError::InvalidPathSegment { segment } => {
                let mut s = "invalid template path segment: ".to_owned();
                s.append(segment.as_str());
                s
            },
            SourceError::InvalidSegment { kind, value } => {
                let mut s = "invalid ".to_owned();
                match kind {
                    SegmentKind::Owner => s.append("owner"),
                    SegmentKind::Repo => s.append("repo"),
                }
                s.append(" segment: ");
                s.append(value.as_str());
                s
            },
        }
    }
}

/// What a URL parse hands back that the parser reads: the host and the
/// path.
#[derive(Debug, Clone)]
pub struct UrlParts {
    pub host: Option<String>,
    pub path: String,
}

/// The text of a `UrlParts`.
pub struct UrlPartsView {
    pub host: Option<Seq<char>>,
    pub path: Seq<char>,
}

impl View for UrlParts {
    type V = UrlPartsView;

    open spec fn view(&self) -> UrlPartsView {
        UrlPartsView { host: self.host.deep_view(), path: self.path@ }
    }
}

// ---------------------------------------------------------------------------
// Trusted: the URL parser
// ---------------------------------------------------------------------------

/// What `url::Url::parse` makes of `input`: its parts on success, the
/// error's text on failure.
pub uninterp spec fn url_parse(input: Seq<char>) -> Result<UrlPartsView, Seq<char>>;

/// `url::Url::parse`. The result is the named `url_parse` of the input; on
/// success it is read through `Url::host_str` and `Url::path`, on failure
/// through the error's `Display`. Nothing is claimed of what the URL
/// grammar accepts.
#[verifier::external_body]
fn parse_url(input: &str) -> (res: Result<UrlParts, String>)
    ensures
        (match res {
            Ok(parts) => url_parse(input@) == Ok::<UrlPartsView, Seq<char>>(parts@),
            Err(cause) => url_parse(input@) == Err::<UrlPartsView, Seq<char>>(cause@),
        }),
{
    match url::Url::parse(input) {
        Ok(url) => Ok(
            UrlParts { host: url.host_str().map(|host| host.to_string()), path: url.path().to_string() },
        ),
        Err(error) => Err(error.to_string()),
    }
}

/// What the URL `input` serializes to once its path is set to `path` and
/// its query and fragment are removed.
pub uninterp spec fn url_with_path(input: Seq<char>, path: Seq<char>) -> Seq<char>;

/// `url::Url::parse` of `input`, then `Url::set_path(path)`,
/// `Url::set_query(None)` and `Url::set_fragment(None)`, read back through
/// `Display`. The result is the named `url_with_path` of the two texts. The
/// parse depends on the text alone, so it succeeds wherever `url_parse`
/// says the same text parses, which the caller must know.
#[verifier::external_body]
fn set_url_path(input: &str, path: &str) -> (res: String)
    requires
        url_parse(input@) is Ok,
    ensures
        res@ == url_with_path(input@, path@),
{
    match url::Url::parse(input) {
        Ok(mut url) => {
            url.set_path(path);
            url.set_query(None);
            url.set_fragment(None);
            url.to_string()
        },
        Err(_) => String::new(),
    }
}

// ---------------------------------------------------------------------------
// Specification of the parser
// ---------------------------------------------------------------------------

/// The non-blank `/`-separated pieces of `s`.
pub open spec fn spec_split_path(s: Seq<char>) -> Seq<Seq<char>> {
    non_blank(split_on(s, '/'))
}

/// `v` without one trailing `.git`.
pub open spec fn spec_trim_git_suffix(v: Seq<char>) -> Seq<char> {
    if ends_with(v, ".git"@) {
        v.subrange(0, v.len() - ".git"@.len())
    } else {
        v
    }
}

/// A segment that may not name an owner, a repository or a path step:
/// empty, `.`, `..`, or holding a backslash.
pub open spec fn is_bad_segment(v: Seq<char>) -> bool {
    v.len() == 0 || v == "."@ || v == ".."@ || v.contains('\\')
}

/// The first bad segment of `parts`, if any.
pub open spec fn first_bad_segment(parts: Seq<Seq<char>>) -> Option<Seq<char>>
    decreases parts.len(),
{
    if parts.len() == 0 {
        None
    } else if is_bad_segment(parts[0]) {
        Some(parts[0])
    } else {
        first_bad_segment(parts.drop_first())
    }
}

/// The template path made of `parts`: none when there are no parts,
/// an error naming the first bad part, else the parts joined with `/`.
pub open spec fn spec_join_optional_path(parts: Seq<Seq<char>>) -> Result<
    Option<Seq<char>>,
    SourceErrorView,
> {
    if parts.len() == 0 {
        Ok(None)
    } else {
        match first_bad_segment(parts) {
            Some(part) => Err(SourceErrorView::InvalidPathSegment { segment: part }),
            None => Ok(Some(join(parts, "/"@))),
        }
    }
}

/// The git remote of a GitHub repository.
pub open spec fn github_remote(owner: Seq<char>, repo: Seq<char>) -> Seq<char> {
    "https://github.com/"@ + owner + "/"@ + repo + ".git"@
}

/// Whether an input names a `.` or `..` step in a way the parser refuses
/// before looking at its shape.
pub open spec fn spec_is_raw_traversal(s: Seq<char>) -> bool {
    ||| s == "."@
    ||| s == ".."@
    ||| contains(s, "/../"@)
    ||| contains(s, "/./"@)
    ||| ends_with(s, "/.."@)
    ||| ends_with(s, "/."@)
    ||| starts_with(s, "../"@)
    ||| starts_with(s, "./"@)
}

/// A GitHub shorthand `owner/repo[/path]`; `original` is what is reported.
pub open spec fn spec_parse_github_shorthand(original: Seq<char>, value: Seq<char>) -> Result<
    ParsedSourceView,
    SourceErrorView,
> {
    let parts = spec_split_path(value);
    if parts.len() < 2 {
        Err(SourceErrorView::NotATemplateSource { input: original })
    } else {
        let owner = parts[0];
        let repo = spec_trim_git_suffix(parts[1]);
        if is_bad_segment(owner) {
            Err(SourceErrorView::InvalidSegment { kind: SegmentKind::Owner, value: owner })
        } else if is_bad_segment(repo) {
            Err(SourceErrorView::InvalidSegment { kind: SegmentKind::Repo, value: repo })
        } else {
            match spec_join_optional_path(parts.skip(2)) {
                Err(e) => Err(e),
                Ok(path) => Ok(
                    ParsedSourceView {
                        input: original,
                        kind: SourceType::Github,
                        remote: github_remote(owner, repo),
                        owner: Some(owner),
                        repo: Some(repo),
                        path,
                        ref_name: None,
                    },
                ),
            }
        }
    }
}

/// A `https://github.com/owner/repo[/tree/<ref>[/<path>]]` URL.
pub open spec fn spec_parse_github_url(input: Seq<char>, url: UrlPartsView) -> Result<
    ParsedSourceView,
    SourceErrorView,
> {
    let parts = spec_split_path(trim_start_char(url.path, '/'));
    if parts.len() < 2 {
        Err(SourceErrorView::GithubUrlMissingRepo { input })
    } else {
        let owner = parts[0];
        let repo = spec_trim_git_suffix(parts[1]);
        if is_bad_segment(owner) {
            Err(SourceErrorView::InvalidSegment { kind: SegmentKind::Owner, value: owner })
        } else if is_bad_segment(repo) {
            Err(SourceErrorView::InvalidSegment { kind: SegmentKind::Repo, value: repo })
        } else if parts.len() > 2 {
            if parts[2] != "tree"@ {
                Err(SourceErrorView::GithubUrlNotTree { input })
            } else if parts.len() < 4 {
                Err(SourceErrorView::GithubUrlMissingRef { input })
            } else {
                match spec_join_optional_path(parts.skip(4)) {
                    Err(e) => Err(e),
                    Ok(path) => Ok(
                        ParsedSourceView {
                            input,
                            kind: SourceType::Github,
                            remote: github_remote(owner, repo),
                            owner: Some(owner),
                            repo: Some(repo),
                            path,
                            ref_name: Some(parts[3]),
                        },
                    ),
                }
            }
        } else {
            Ok(
                ParsedSourceView {
                    input,
                    kind: SourceType::Github,
                    remote: github_remote(owner, repo),
                    owner: Some(owner),
                    repo: Some(repo),
                    path: None,
                    ref_name: None,
                },
            )
        }
    }
}

/// The clone URL of a repository at `repo_path` on the host of the URL
/// `input`: the URL with that path (without a `.git` suffix) and no query
/// or fragment, ending in `.git`.
pub open spec fn spec_canonical_url_remote(input: Seq<char>, repo_path: Seq<char>) -> Seq<
    char,
> {
    let remote = url_with_path(input, "/"@ + spec_trim_git_suffix(repo_path));
    if ends_with(remote, ".git"@) {
        remote
    } else {
        remote + ".git"@
    }
}

/// The index of the first part equal to `x`.
pub open spec fn spec_position(parts: Seq<Seq<char>>, x: Seq<char>) -> Option<int>
    decreases parts.len(),
{
    if parts.len() == 0 {
        None
    } else if parts[0] == x {
        Some(0)
    } else {
        match spec_position(parts.drop_first(), x) {
            Some(i) => Some(i + 1),
            None => None,
        }
    }
}

/// A URL of a git host other than GitHub, with an optional
/// `/-/tree/<ref>[/<path>]`.
pub open spec fn spec_parse_generic_git_url(input: Seq<char>, url: UrlPartsView) -> Result<
    ParsedSourceView,
    SourceErrorView,
> {
    let parts = spec_split_path(trim_start_char(url.path, '/'));
    if parts.len() == 0 {
        Err(SourceErrorView::GitUrlMissingPath { input })
    } else {
        match spec_position(parts, "-"@) {
            Some(t) => {
                if t + 1 >= parts.len() || parts[t + 1] != "tree"@ {
                    Err(SourceErrorView::UnsupportedGitlabShape { input })
                } else if t == 0 {
                    Err(SourceErrorView::GitlabMissingRepoPath { input })
                } else if t + 2 >= parts.len() {
                    Err(SourceErrorView::GitlabMissingRef)
                } else {
                    match spec_join_optional_path(parts.skip(t + 3)) {
                        Err(e) => Err(e),
                        Ok(subpath) => Ok(
                            ParsedSourceView {
                                input,
                                kind: SourceType::Git,
                                remote: spec_canonical_url_remote(input, join(parts.take(t), "/"@)),
                                owner: None,
                                repo: Some(spec_trim_git_suffix(parts[t - 1])),
                                path: subpath,
                                ref_name: Some(parts[t + 2]),
                            },
                        ),
                    }
                }
            },
            None => Ok(
                ParsedSourceView {
                    input,
                    kind: SourceType::Git,
                    remote: spec_canonical_url_remote(input, join(parts, "/"@)),
                    owner: None,
                    repo: Some(spec_trim_git_suffix(parts.last())),
                    path: None,
                    ref_name: None,
                },
            ),
        }
    }
}

/// The source an already parsed URL names: GitHub's shape when the host is
/// `github.com` in any letter case, the generic shape otherwise.
pub open spec fn spec_source_from_url(input: Seq<char>, url: UrlPartsView) -> Result<
    ParsedSourceView,
    SourceErrorView,
> {
    let host = match url.host {
        Some(h) => h,
        None => Seq::<char>::empty(),
    };
    if to_ascii_lower(host) == "github.com"@ {
        spec_parse_github_url(input, url)
    } else {
        spec_parse_generic_git_url(input, url)
    }
}

/// An `http://` or `https://` source.
pub open spec fn spec_parse_url_source(input: Seq<char>) -> Result<
    ParsedSourceView,
    SourceErrorView,
> {
    match url_parse(input) {
        Err(cause) => Err(SourceErrorView::InvalidUrl { input, cause }),
        Ok(url) => spec_source_from_url(input, url),
    }
}

/// What `parse_source` makes of the text `raw`.
pub open spec fn spec_parse_source(raw: Seq<char>) -> Result<ParsedSourceView, SourceErrorView> {
    let input = trim(raw);
    if input.len() == 0 {
        Err(SourceErrorView::Empty)
    } else if spec_is_raw_traversal(input) {
        Err(SourceErrorView::PathTraversal)
    } else if starts_with(input, "github:"@) {
        spec_parse_github_shorthand(input, input.skip("github:"@.len() as int))
    } else if starts_with(input, "http://"@) || starts_with(input, "https://"@) {
        spec_parse_url_source(input)
    } else if contains(input, "://"@) {
        Err(SourceErrorView::UnsupportedScheme { input })
    } else {
        spec_parse_github_shorthand(input, input)
    }
}

/// The view of a parse result.
pub open spec fn result_view(r: Result<ParsedSource, SourceError>) -> Result<
    ParsedSourceView,
    SourceErrorView,
> {
    match r {
        Ok(p) => Ok(p@),
        Err(e) => Err(e@),
    }
}


/// The view of an optional template path, or the error that refused it.
pub open spec fn path_result_view(r: Result<Option<Vec<char>>, SourceError>) -> Result<
    Option<Seq<char>>,
    SourceErrorView,
> {
    match r {
        Ok(p) => Ok(p.deep_view()),
        Err(e) => Err(e@),
    }
}

// ---------------------------------------------------------------------------
// Executable parser
// ---------------------------------------------------------------------------

/// The non-blank `/`-separated pieces of `value`.
fn split_path(value: &[char]) -> (parts: Vec<Vec<char>>)
    ensures
        parts.deep_view() == spec_split_path(value@),
{
    let mut parts: Vec<Vec<char>> = Vec::new();
    let mut cur: Vec<char> = Vec::new();
    let mut i: usize = 0;
    proof {
        assert(value@.take(0) =~= Seq::<char>::empty());
        assert(parts.deep_view() =~= Seq::<Seq<char>>::empty());
    }
    while i < value.len()
        invariant
            i <= value@.len(),
            split_on(value@.take(i as int), '/').len() >= 1,
            parts.deep_view() == non_blank(split_on(value@.take(i as int), '/').drop_last()),
            cur@ == split_on(value@.take(i as int), '/').last(),
        decreases value@.len() - i,
    {
        let c = value[i];
        let ghost prev = split_on(value@.take(i as int), '/');
        proof {
            let t = value@.take(i + 1);
            assert(t.drop_last() =~= value@.take(i as int));
            assert(t.last() == c);
        }
        if c == '/' {
            let blank = is_blank(&cur);
            let ghost old_parts = parts.deep_view();
            if !blank {
                parts.push(cur);
                proof {
                    assert(parts.deep_view() =~= old_parts.push(prev.last()));
                }
            }
            cur = Vec::new();
            proof {
                let next = split_on(value@.take(i + 1), '/');
                assert(next.drop_last() =~= prev);
                assert(cur@ =~= next.last());
            }
        } else {
            cur.push(c);
            proof {
                let next = split_on(value@.take(i + 1), '/');
                assert(next.drop_last() =~= prev.drop_last());
            }
        }
        i += 1;
    }
    proof {
        assert(value@.take(value@.len() as int) =~= value@);
    }
    let ghost all = split_on(value@, '/');
    let ghost old_parts = parts.deep_view();
    if !is_blank(&cur) {
        parts.push(cur);
        proof {
            assert(parts.deep_view() =~= old_parts.push(all.last()));
        }
    }
    parts
}

/// `parts[from..to]` joined with `sep`.
fn join_range(parts: &Vec<Vec<char>>, from: usize, to: usize, sep: &[char]) -> (res: Vec<char>)
    requires
        from <= to <= parts@.len(),
    ensures
        res@ == join(parts.deep_view().subrange(from as int, to as int), sep@),
{
    if from == to {
        return Vec::new();
    }
    let first = &parts[from];
    let mut res = slice(first, 0, first.len());
    proof {
        assert(first@.subrange(0, first@.len() as int) =~= first@);
        assert(parts.deep_view().subrange(from as int, from + 1).len() == 1);
    }
    let mut i: usize = from + 1;
    while i < to
        invariant
            from < i <= to <= parts@.len(),
            res@ == join(parts.deep_view().subrange(from as int, i as int), sep@),
        decreases to - i,
    {
        push_all(&mut res, sep);
        push_all(&mut res, &parts[i]);
        proof {
            let next = parts.deep_view().subrange(from as int, i + 1);
            assert(next.drop_last() =~= parts.deep_view().subrange(from as int, i as int));
            assert(next.last() == parts@[i as int]@);
        }
        i += 1;
    }
    res
}

/// `v` is empty, `.`, `..`, or holds a backslash.
fn is_bad_segment_exec(v: &[char]) -> (res: bool)
    ensures
        res == is_bad_segment(v@),
{
    v.len() == 0 || chars_eq(v, &to_chars(".")) || chars_eq(v, &to_chars("..")) || contains_char(
        v,
        '\\',
    )
}

/// The template path made of `parts[from..]`.
fn join_optional_path(parts: &Vec<Vec<char>>, from: usize) -> (res: Result<
    Option<Vec<char>>,
    SourceError,
>)
    requires
        from <= parts@.len(),
    ensures
        path_result_view(res) == spec_join_optional_path(parts.deep_view().skip(from as int)),
{
    let ghost all = parts.deep_view();
    if from == parts.len() {
        assert(all.skip(from as int).len() == 0);
        return Ok(None);
    }
    let mut i: usize = from;
    while i < parts.len()
        invariant
            from <= i <= parts@.len(),
            all == parts.deep_view(),
            first_bad_segment(all.skip(from as int)) == first_bad_segment(all.skip(i as int)),
        decreases parts@.len() - i,
    {
        proof {
            assert(all.skip(i as int)[0] == parts@[i as int]@);
            assert(all.skip(i as int).drop_first() =~= all.skip(i + 1));
        }
        if is_bad_segment_exec(&parts[i]) {
            return Err(SourceError::InvalidPathSegment { segment: from_chars(&parts[i]) });
        }
        i += 1;
    }
    assert(all.skip(i as int).len() == 0);
    assert(all.subrange(from as int, parts@.len() as int) =~= all.skip(from as int));
    Ok(Some(join_range(parts, from, parts.len(), &to_chars("/"))))
}

/// `v` without one trailing `.git`.
fn trim_git_suffix(v: &[char]) -> (res: Vec<char>)
    ensures
        res@ == spec_trim_git_suffix(v@),
{
    let suffix = to_chars(".git");
    if ends_with_exec(v, &suffix) {
        slice(v, 0, v.len() - suffix.len())
    } else {
        proof {
            assert(v@.subrange(0, v@.len() as int) =~= v@);
        }
        slice(v, 0, v.len())
    }
}

/// Refuses an owner or repository name that is empty, `.`, `..`, or holds a backslash.
fn validate_segment(kind: SegmentKind, value: &[char]) -> (res: Result<(), SourceError>)
    ensures
        res is Ok <==> !is_bad_segment(value@),
        res matches Err(e) ==> e@ == (SourceErrorView::InvalidSegment { kind, value: value@ }),
{
    if is_bad_segment_exec(value) {
        Err(SourceError::InvalidSegment { kind, value: from_chars(value) })
    } else {
        Ok(())
    }
}

/// Refuses an input that names a `.` or `..` step.
fn reject_raw_path_traversal(input: &[char]) -> (res: Result<(), SourceError>)
    ensures
        res is Ok <==> !spec_is_raw_traversal(input@),
        res matches Err(e) ==> e@ == SourceErrorView::PathTraversal,
{
    if chars_eq(input, &to_chars(".")) || chars_eq(input, &to_chars("..")) || contains_exec(
        input,
        &to_chars("/../"),
    ) || contains_exec(input, &to_chars("/./")) || ends_with_exec(input, &to_chars("/.."))
        || ends_with_exec(input, &to_chars("/.")) || starts_with_exec(input, &to_chars("../"))
        || starts_with_exec(input, &to_chars("./")) {
        return Err(SourceError::PathTraversal);
    }
    Ok(())
}

/// The remote of a GitHub repository.
fn github_remote_exec(owner: &[char], repo: &[char]) -> (res: String)
    ensures
        res@ == github_remote(owner@, repo@),
{
    let mut r = to_chars("https://github.com/");
    push_all(&mut r, owner);
    push_all(&mut r, &to_chars("/"));
    push_all(&mut r, repo);
    push_all(&mut r, &to_chars(".git"));
    from_chars(&r)
}

/// A GitHub shorthand `owner/repo[/path]`; `original` is what is reported.
fn parse_github_shorthand(original: &[char], value: &[char]) -> (res: Result<
    ParsedSource,
    SourceError,
>)
    ensures
        result_view(res) == spec_parse_github_shorthand(original@, value@),
{
    let parts = split_path(value);
    if parts.len() < 2 {
        return Err(SourceError::NotATemplateSource { input: from_chars(original) });
    }
    let owner = slice(&parts[0], 0, parts[0].len());
    let repo = trim_git_suffix(&parts[1]);
    proof {
        assert(parts[0]@.subrange(0, parts[0]@.len() as int) =~= parts[0]@);
        assert(parts.deep_view()[0] == parts[0]@);
        assert(parts.deep_view()[1] == parts[1]@);
    }
    match validate_segment(SegmentKind::Owner, &owner) {
        Err(e) => return Err(e),
        Ok(()) => {},
    }
    match validate_segment(SegmentKind::Repo, &repo) {
        Err(e) => return Err(e),
        Ok(()) => {},
    }
    let path = match join_optional_path(&parts, 2) {
        Err(e) => return Err(e),
        Ok(p) => p,
    };
    Ok(
        ParsedSource {
            input: from_chars(original),
            kind: SourceType::Github,
            remote: github_remote_exec(&owner, &repo),
            owner: Some(from_chars(&owner)),
            repo: Some(from_chars(&repo)),
            path: match path {
                Some(p) => Some(from_chars(&p)),
                None => None,
            },
            ref_name: None,
        },
    )
}


/// A `https://github.com/owner/repo[/tree/<ref>[/<path>]]` URL.
fn parse_github_url(input: &[char], url: &UrlParts) -> (res: Result<ParsedSource, SourceError>)
    ensures
        result_view(res) == spec_parse_github_url(input@, url@),
{
    let path_chars = to_chars(url.path.as_str());
    let parts = split_path(&trim_start_matches(&path_chars, '/'));
    if parts.len() < 2 {
        return Err(SourceError::GithubUrlMissingRepo { input: from_chars(input) });
    }
    let owner = slice(&parts[0], 0, parts[0].len());
    let repo = trim_git_suffix(&parts[1]);
    proof {
        assert(parts[0]@.subrange(0, parts[0]@.len() as int) =~= parts[0]@);
    }
    match validate_segment(SegmentKind::Owner, &owner) {
        Err(e) => return Err(e),
        Ok(()) => {},
    }
    match validate_segment(SegmentKind::Repo, &repo) {
        Err(e) => return Err(e),
        Ok(()) => {},
    }
    let mut ref_name: Option<String> = None;
    let mut path: Option<Vec<char>> = None;
    if parts.len() > 2 {
        if !chars_eq(&parts[2], &to_chars("tree")) {
            return Err(SourceError::GithubUrlNotTree { input: from_chars(input) });
        }
        if parts.len() < 4 {
            return Err(SourceError::GithubUrlMissingRef { input: from_chars(input) });
        }
        ref_name = Some(from_chars(&parts[3]));
        path = match join_optional_path(&parts, 4) {
            Err(e) => return Err(e),
            Ok(p) => p,
        };
    }
    Ok(
        ParsedSource {
            input: from_chars(input),
            kind: SourceType::Github,
            remote: github_remote_exec(&owner, &repo),
            owner: Some(from_chars(&owner)),
            repo: Some(from_chars(&repo)),
            path: match path {
                Some(p) => Some(from_chars(&p)),
                None => None,
            },
            ref_name,
        },
    )
}

/// The clone URL of a repository at `repo_path` on the host of the URL
/// `input`.
fn canonical_url_remote(input: &[char], repo_path: &[char]) -> (res: String)
    requires
        url_parse(input@) is Ok,
    ensures
        res@ == spec_canonical_url_remote(input@, repo_path@),
{
    let mut path = to_chars("/");
    push_all(&mut path, &trim_git_suffix(repo_path));
    let text = from_chars(input);
    let with_path = from_chars(&path);
    let mut remote = to_chars(set_url_path(text.as_str(), with_path.as_str()).as_str());
    let suffix = to_chars(".git");
    if !ends_with_exec(&remote, &suffix) {
        push_all(&mut remote, &suffix);
    }
    from_chars(&remote)
}

/// The index of the first part equal to `x`.
fn position(parts: &Vec<Vec<char>>, x: &[char]) -> (res: Option<usize>)
    ensures
        (match res {
            Some(i) => spec_position(parts.deep_view(), x@) == Some(i as int),
            None => spec_position(parts.deep_view(), x@) is None,
        }),
        res matches Some(i) ==> i < parts@.len(),
{
    let ghost all = parts.deep_view();
    let mut i: usize = 0;
    assert(all.skip(0) =~= all);
    while i < parts.len()
        invariant
            i <= parts@.len(),
            all == parts.deep_view(),
            spec_position(all, x@) == (match spec_position(all.skip(i as int), x@) {
                Some(k) => Some(k + i),
                None => None::<int>,
            }),
        decreases parts@.len() - i,
    {
        proof {
            assert(all.skip(i as int)[0] == parts@[i as int]@);
            assert(all.skip(i as int).drop_first() =~= all.skip(i + 1));
        }
        if chars_eq(&parts[i], x) {
            return Some(i);
        }
        i += 1;
    }
    assert(all.skip(i as int).len() == 0);
    None
}

/// A URL of a git host other than GitHub.
fn parse_generic_git_url(input: &[char], url: &UrlParts) -> (res: Result<
    ParsedSource,
    SourceError,
>)
    requires
        url_parse(input@) is Ok,
    ensures
        result_view(res) == spec_parse_generic_git_url(input@, url@),
{
    let path_chars = to_chars(url.path.as_str());
    let parts = split_path(&trim_start_matches(&path_chars, '/'));
    let ghost all = parts.deep_view();
    if parts.len() == 0 {
        return Err(SourceError::GitUrlMissingPath { input: from_chars(input) });
    }
    let slash = to_chars("/");
    match position(&parts, &to_chars("-")) {
        Some(t) => {
            if t + 1 >= parts.len() || !chars_eq(&parts[t + 1], &to_chars("tree")) {
                return Err(SourceError::UnsupportedGitlabShape { input: from_chars(input) });
            }
            if t == 0 {
                return Err(SourceError::GitlabMissingRepoPath { input: from_chars(input) });
            }
            if t + 2 >= parts.len() {
                return Err(SourceError::GitlabMissingRef);
            }
            let ref_name = from_chars(&parts[t + 2]);
            let repo_path = join_range(&parts, 0, t, &slash);
            let subpath = match join_optional_path(&parts, t + 3) {
                Err(e) => return Err(e),
                Ok(p) => p,
            };
            proof {
                assert(all.subrange(0, t as int) =~= all.take(t as int));
            }
            Ok(
                ParsedSource {
                    input: from_chars(input),
                    kind: SourceType::Git,
                    remote: canonical_url_remote(input, &repo_path),
                    owner: None,
                    repo: Some(from_chars(&trim_git_suffix(&parts[t - 1]))),
                    path: match subpath {
                        Some(p) => Some(from_chars(&p)),
                        None => None,
                    },
                    ref_name: Some(ref_name),
                },
            )
        },
        None => {
            let repo_path = join_range(&parts, 0, parts.len(), &slash);
            proof {
                assert(all.subrange(0, all.len() as int) =~= all);
            }
            Ok(
                ParsedSource {
                    input: from_chars(input),
                    kind: SourceType::Git,
                    remote: canonical_url_remote(input, &repo_path),
                    owner: None,
                    repo: Some(from_chars(&trim_git_suffix(&parts[parts.len() - 1]))),
                    path: None,
                    ref_name: None,
                },
            )
        },
    }
}

/// The source that an already parsed URL names: GitHub's shape when the
/// host is `github.com` in any letter case, the generic shape otherwise.
/// `input` is the URL's text, which is what is reported and whose remote is
/// rebuilt; it must be one that parses.
pub fn source_from_url(input: &str, url: &UrlParts) -> (res: Result<ParsedSource, SourceError>)
    requires
        url_parse(input@) is Ok,
    ensures
        result_view(res) == spec_source_from_url(input@, url@),
{
    let host = match &url.host {
        Some(h) => to_chars(h.as_str()),
        None => Vec::new(),
    };
    let input_chars = to_chars(input);
    if chars_eq(&ascii_lowercase(&host), &to_chars("github.com")) {
        parse_github_url(&input_chars, url)
    } else {
        parse_generic_git_url(&input_chars, url)
    }
}

/// An `http://` or `https://` source.
fn parse_url_source(input: &[char]) -> (res: Result<ParsedSource, SourceError>)
    ensures
        result_view(res) == spec_parse_url_source(input@),
{
    let text = from_chars(input);
    match parse_url(text.as_str()) {
        Err(cause) => Err(SourceError::InvalidUrl { input: text, cause }),
        Ok(url) => source_from_url(text.as_str(), &url),
    }
}

/// Parses a template source: `owner/repo[/path]`, `github:owner/repo[/path]`,
/// a GitHub URL with an optional `/tree/<ref>[/<path>]`, or another host's
/// git URL with an optional `/-/tree/<ref>[/<path>]`. Surrounding whitespace
/// is ignored.
pub fn parse_source(input: &str) -> (res: Result<ParsedSource, SourceError>)
    ensures
        result_view(res) == spec_parse_source(input@),
{
    let raw = to_chars(input);
    let input = trim_chars(&raw);
    if input.len() == 0 {
        return Err(SourceError::Empty);
    }
    match reject_raw_path_traversal(&input) {
        Err(e) => return Err(e),
        Ok(()) => {},
    }
    let github = to_chars("github:");
    if starts_with_exec(&input, &github) {
        let rest = slice(&input, github.len(), input.len());
        proof {
            assert(rest@ =~= input@.skip("github:"@.len() as int));
        }
        return parse_github_shorthand(&input, &rest);
    }
    if starts_with_exec(&input, &to_chars("http://")) || starts_with_exec(
        &input,
        &to_chars("https://"),
    ) {
        return parse_url_source(&input);
    }
    if contains_exec(&input, &to_chars("://")) {
        return Err(SourceError::UnsupportedScheme { input: from_chars(&input) });
    }
    parse_github_shorthand(&input, &input)
}

/// Checks that `input` is a source `parse_source` accepts.
pub fn validate_source_shape(input: &str) -> (res: Result<(), SourceError>)
    ensures
        res is Ok <==> spec_parse_source(input@) is Ok,
        res matches Err(e) ==> spec_parse_source(input@) == Err::<ParsedSourceView, SourceErrorView>(
            e@,
        ),
{
    match parse_source(input) {
        Ok(_) => Ok(()),
        Err(e) => Err(e),
    }
}

impl ParsedSource {
    /// The source as the metadata file records it, following `ref_name`.
    pub fn into_config(self, ref_name: String) -> (res: SourceConfig)
        ensures
            res@ == (SourceConfigView {
                kind: self@.kind,
                input: self@.input,
                remote: self@.remote,
                owner: self@.owner,
                repo: self@.repo,
                path: self@.path,
                ref_name: ref_name@,
            }),
    {
        SourceConfig {
            kind: self.kind,
            input: self.input,
            remote: self.remote,
            owner: self.owner,
            repo: self.repo,
            path: self.path,
            ref_name,
        }
    }
}


// ---------------------------------------------------------------------------
// Laws
// ---------------------------------------------------------------------------

/// `x + suffix` ends with `suffix`.
proof fn lemma_ends_with_concat(x: Seq<char>, suffix: Seq<char>)
    ensures
        ends_with(x + suffix, suffix),
{
    assert((x + suffix).subrange(x.len() as int, (x + suffix).len() as int) =~= suffix);
}

/// Every remote the parser produces ends with `.git`.
proof fn lemma_remotes_end_with_git()
    ensures
        forall|o: Seq<char>, r: Seq<char>| ends_with(#[trigger] github_remote(o, r), ".git"@),
        forall|u: Seq<char>, p: Seq<char>|
            ends_with(#[trigger] spec_canonical_url_remote(u, p), ".git"@),
{
    assert forall|o: Seq<char>, r: Seq<char>| ends_with(#[trigger] github_remote(o, r), ".git"@) by {
        lemma_ends_with_concat("https://github.com/"@ + o + "/"@ + r, ".git"@);
    }
    assert forall|u: Seq<char>, p: Seq<char>|
        ends_with(#[trigger] spec_canonical_url_remote(u, p), ".git"@) by {
        lemma_ends_with_concat(url_with_path(u, "/"@ + spec_trim_git_suffix(p)), ".git"@);
    }
}

/// Every source that parses has a git remote ending in `.git`.
pub proof fn law_remote_ends_with_git(raw: Seq<char>)
    ensures
        spec_parse_source(raw) matches Ok(p) ==> ends_with(p.remote, ".git"@),
{
    lemma_remotes_end_with_git();
}

/// A GitHub source names its owner and repository, both plain names, and
/// its remote is `https://github.com/<owner>/<repo>.git`; a source of any
/// other host names no owner.
pub proof fn law_github_sources_name_owner_and_repo(raw: Seq<char>)
    ensures
        spec_parse_source(raw) matches Ok(p) ==> {
            &&& p.repo is Some
            &&& p.kind == SourceType::Github ==> {
                &&& p.owner matches Some(owner)
                &&& !is_bad_segment(owner)
                &&& !is_bad_segment(p.repo->0)
                &&& p.remote == github_remote(owner, p.repo->0)
            }
            &&& p.kind == SourceType::Git ==> p.owner is None
        },
{
}


/// Every `/`-separated step of `path` is a plain name: not empty, not `.`
/// or `..`, without a backslash.
pub open spec fn path_steps_are_names(path: Seq<char>) -> bool {
    forall|i: int|
        0 <= i < split_on(path, '/').len() ==> !is_bad_segment(#[trigger] split_on(path, '/')[i])
}

/// No segment of `parts` is bad when the first bad one does not exist.
proof fn lemma_no_first_bad(parts: Seq<Seq<char>>)
    requires
        first_bad_segment(parts) is None,
    ensures
        forall|i: int| 0 <= i < parts.len() ==> !is_bad_segment(#[trigger] parts[i]),
    decreases parts.len(),
{
    if parts.len() > 0 {
        lemma_no_first_bad(parts.drop_first());
        assert forall|i: int| 0 <= i < parts.len() implies !is_bad_segment(#[trigger] parts[i]) by {
            if i > 0 {
                assert(parts[i] == parts.drop_first()[i - 1]);
            }
        }
    }
}

/// A path that the parser joins from the pieces of `x` after the first `k`
/// is made of plain names.
proof fn lemma_joined_path_steps_are_names()
    ensures
        forall|x: Seq<char>, k: int|
            0 <= k < spec_split_path(x).len() && first_bad_segment(spec_split_path(x).skip(k))
                is None ==> path_steps_are_names(
                #[trigger] join(spec_split_path(x).skip(k), "/"@),
            ),
{
    reveal_strlit("/");
    assert("/"@ == seq!['/']);
    assert forall|x: Seq<char>, k: int|
        0 <= k < spec_split_path(x).len() && first_bad_segment(spec_split_path(x).skip(k))
            is None implies path_steps_are_names(
        #[trigger] join(spec_split_path(x).skip(k), "/"@),
    ) by {
        let parts = spec_split_path(x);
        let q = parts.skip(k);
        lemma_split_on_pieces_lack_sep(x, '/');
        lemma_non_blank_pieces_lack_sep(split_on(x, '/'), '/');
        assert forall|i: int| 0 <= i < q.len() implies !(#[trigger] q[i]).contains('/') by {
            assert(q[i] == parts[i + k]);
        }
        lemma_split_on_join(q, '/');
        lemma_no_first_bad(q);
    }
}

/// The template path of every source that parses is made of plain names:
/// no step is empty, `.` or `..`, or holds a backslash, so it never leaves
/// the repository it names.
pub proof fn law_template_path_stays_inside(raw: Seq<char>)
    ensures
        spec_parse_source(raw) matches Ok(p) ==> (p.path matches Some(path)
            ==> path_steps_are_names(path)),
{
    let input = trim(raw);
    lemma_shorthand_path(input, input);
    lemma_shorthand_path(input, input.skip("github:"@.len() as int));
    match url_parse(input) {
        Ok(url) => {
            lemma_github_url_path(input, url);
            lemma_generic_url_path(input, url);
        },
        Err(_) => {},
    }
}

proof fn lemma_shorthand_path(original: Seq<char>, value: Seq<char>)
    ensures
        spec_parse_github_shorthand(original, value) matches Ok(p) ==> (p.path matches Some(
            path,
        ) ==> path_steps_are_names(path)),
{
    lemma_joined_path_steps_are_names();
    let parts = spec_split_path(value);
    if parts.len() > 2 {
        assert(parts.skip(2).len() > 0);
    }
}

proof fn lemma_github_url_path(input: Seq<char>, url: UrlPartsView)
    ensures
        spec_parse_github_url(input, url) matches Ok(p) ==> (p.path matches Some(path)
            ==> path_steps_are_names(path)),
{
    lemma_joined_path_steps_are_names();
    let parts = spec_split_path(trim_start_char(url.path, '/'));
    if parts.len() > 4 {
        assert(parts.skip(4).len() > 0);
    }
}

/// The index `spec_position` finds lies within the parts.
proof fn lemma_position_in_range(parts: Seq<Seq<char>>, x: Seq<char>)
    ensures
        spec_position(parts, x) matches Some(t) ==> 0 <= t < parts.len() && parts[t] == x,
    decreases parts.len(),
{
    if parts.len() > 0 && parts[0] != x {
        lemma_position_in_range(parts.drop_first(), x);
    }
}

proof fn lemma_generic_url_path(input: Seq<char>, url: UrlPartsView)
    ensures
        spec_parse_generic_git_url(input, url) matches Ok(p) ==> (p.path matches Some(path)
            ==> path_steps_are_names(path)),
{
    lemma_joined_path_steps_are_names();
    let parts = spec_split_path(trim_start_char(url.path, '/'));
    lemma_position_in_range(parts, "-"@);
    match spec_position(parts, "-"@) {
        Some(t) => {
            if 0 <= t + 3 < parts.len() {
                assert(parts.skip(t + 3).len() > 0);
            }
        },
        None => {},
    }
}


/// `spec_position` finds the first part equal to `x`.
proof fn lemma_position_is_first(parts: Seq<Seq<char>>, x: Seq<char>, t: int)
    requires
        0 <= t < parts.len(),
        parts[t] == x,
        forall|i: int| 0 <= i < t ==> parts[i] != x,
    ensures
        spec_position(parts, x) == Some(t),
    decreases t,
{
    if t > 0 {
        let rest = parts.drop_first();
        assert forall|i: int| 0 <= i < t - 1 implies rest[i] != x by {
            assert(rest[i] == parts[i + 1]);
        }
        lemma_position_is_first(rest, x, t - 1);
    }
}

/// A URL of a host other than GitHub that names a tree with
/// `/-/tree/<ref>[/<path>]` clones the repository at the whole path before
/// the first `-` part (every group and subgroup kept), follows `<ref>`,
/// names the repository by the last part before `-`, and takes the rest as
/// the template path.
pub proof fn law_tree_url_keeps_the_whole_repository_path(
    input: Seq<char>,
    url: UrlPartsView,
    t: int,
)
    requires
        to_ascii_lower(
            match url.host {
                Some(h) => h,
                None => Seq::<char>::empty(),
            },
        ) != "github.com"@,
        0 < t,
        t + 2 < spec_split_path(trim_start_char(url.path, '/')).len(),
        spec_split_path(trim_start_char(url.path, '/'))[t] == "-"@,
        spec_split_path(trim_start_char(url.path, '/'))[t + 1] == "tree"@,
        forall|i: int|
            0 <= i < t ==> #[trigger] spec_split_path(trim_start_char(url.path, '/'))[i] != "-"@,
        spec_join_optional_path(spec_split_path(trim_start_char(url.path, '/')).skip(t + 3)) is Ok,
    ensures
        ({
            let parts = spec_split_path(trim_start_char(url.path, '/'));
            &&& spec_source_from_url(input, url) is Ok
            &&& spec_source_from_url(input, url)->Ok_0.remote == spec_canonical_url_remote(
                input,
                join(parts.take(t), "/"@),
            )
            &&& spec_source_from_url(input, url)->Ok_0.ref_name == Some(parts[t + 2])
            &&& spec_source_from_url(input, url)->Ok_0.repo == Some(
                spec_trim_git_suffix(parts[t - 1]),
            )
            &&& spec_source_from_url(input, url)->Ok_0.owner is None
            &&& t + 3 == parts.len() ==> spec_source_from_url(input, url)->Ok_0.path is None
            &&& t + 3 < parts.len() ==> spec_source_from_url(input, url)->Ok_0.path == Some(
                join(parts.skip(t + 3), "/"@),
            )
        }),
{
    let parts = spec_split_path(trim_start_char(url.path, '/'));
    lemma_position_is_first(parts, "-"@, t);
}

/// Whitespace around a source never changes what it parses to.
pub proof fn law_surrounding_whitespace_is_ignored(raw: Seq<char>)
    ensures
        spec_parse_source(trim(raw)) == spec_parse_source(raw),
{
    lemma_trim_idempotent(raw);
}


/// Writing `github:` before a GitHub shorthand names the same repository,
/// path and ref: both parse or neither does, and they differ only in the
/// recorded input. The shorthand `t` is taken as the parser sees it:
/// trimmed, not empty, not refused as a `.`/`..` step, not itself
/// prefixed, and without `://`.
pub proof fn law_github_prefix_names_the_same_repository(t: Seq<char>)
    requires
        t.len() > 0,
        trim(t) == t,
        !spec_is_raw_traversal(t),
        !starts_with(t, "github:"@),
        !contains(t, "://"@),
    ensures
        spec_parse_source("github:"@ + t) is Ok <==> spec_parse_source(t) is Ok,
        spec_parse_source("github:"@ + t) matches Ok(p) ==> spec_parse_source(t) matches Ok(q)
            && p.input == "github:"@ + t && p.kind == q.kind && p.remote == q.remote && p.owner
            == q.owner && p.repo == q.repo && p.path == q.path && p.ref_name == q.ref_name,
{
    reveal_strlit("github:");
    reveal_strlit("http://");
    reveal_strlit("https://");
    reveal_strlit("://");
    reveal_strlit(".");
    reveal_strlit("..");
    reveal_strlit("/../");
    reveal_strlit("/./");
    reveal_strlit("/..");
    reveal_strlit("/.");
    reveal_strlit("../");
    reveal_strlit("./");
    let prefix = "github:"@;
    let x = prefix + t;
    // The prefixed text is already trimmed.
    lemma_trim_bounds(t);
    assert(x[0] == 'g');
    assert(x.last() == t.last());
    lemma_trim_of_bounded(x);
    // It is not refused as a `.` or `..` step.
    assert(!prefix.contains('/')) by {
        if prefix.contains('/') {
            let k: int = choose|k: int| 0 <= k < prefix.len() && prefix[k] == '/';
            assert(prefix[k] != '/');
        }
    }
    lemma_slash_pattern_in_suffix(prefix, t, "/../"@);
    lemma_slash_pattern_in_suffix(prefix, t, "/./"@);
    lemma_slash_pattern_in_suffix(prefix, t, "/.."@);
    lemma_slash_pattern_in_suffix(prefix, t, "/."@);
    assert(x != "."@ && x != ".."@) by {
        assert(x.len() > 2);
    }
    assert(!starts_with(x, "../"@)) by {
        assert(x.subrange(0, 3)[0] == 'g');
    }
    assert(!starts_with(x, "./"@)) by {
        assert(x.subrange(0, 2)[0] == 'g');
    }
    assert(!spec_is_raw_traversal(x));
    // It is read as `github:` followed by `t`.
    assert(x.subrange(0, prefix.len() as int) =~= prefix);
    assert(x.skip(prefix.len() as int) =~= t);
    // `t` itself is read as a shorthand.
    assert(!starts_with(t, "http://"@)) by {
        if starts_with(t, "http://"@) {
            let h = t.subrange(0, 7);
            assert(h == "http://"@);
            assert(h.subrange(4, 7) =~= "://"@);
            assert(t.subrange(4, 7) =~= h.subrange(4, 7));
            assert(occurs_at(t, "://"@, 4));
        }
    }
    assert(!starts_with(t, "https://"@)) by {
        if starts_with(t, "https://"@) {
            let h = t.subrange(0, 8);
            assert(h == "https://"@);
            assert(h.subrange(5, 8) =~= "://"@);
            assert(t.subrange(5, 8) =~= h.subrange(5, 8));
            assert(occurs_at(t, "://"@, 5));
        }
    }
}

} // verus!
