//! The rules around template snapshots: which files are copied, which
//! template subdirectories may be used, and whether a project looks related
//! to a template. The copying itself is done by the caller.
use vstd::prelude::*;
use crate::text::{is_blank, lemma_char_vec_deep_view, split_on, to_chars, trim};

verus! {

broadcast use lemma_char_vec_deep_view;

/// Why a template snapshot could not be used.
#[derive(Debug, Clone, PartialEq, Eq)]
pub enum SnapshotError {
    /// The template directory holds a `.gitmodules` file.
    Submodules { source: String },
    /// The template path is absolute.
    TemplatePathNotRelative { path: String },
    /// The template path holds a part that is not a plain name.
    InvalidTemplatePath { path: String },
    /// The template path does not exist in the checked out commit.
    TemplatePathMissing { path: String, commit: String },
    /// The template path is not a directory.
    TemplatePathNotDirectory { path: String },
    /// A symbolic link in the template points to an absolute path.
    AbsoluteSymlink { source: String, target: String },
    /// The project shares no top-level name with the template.
    Unrelated { project_root: String },
}

/// The text of a `SnapshotError`.
pub enum SnapshotErrorView {
    Submodules { source: Seq<char> },
    TemplatePathNotRelative { path: Seq<char> },
    InvalidTemplatePath { path: Seq<char> },
    TemplatePathMissing { path: Seq<char>, commit: Seq<char> },
    TemplatePathNotDirectory { path: Seq<char> },
    AbsoluteSymlink { source: Seq<char>, target: Seq<char> },
    Unrelated { project_root: Seq<char> },
}

impl View for SnapshotError {
    type V = SnapshotErrorView;

    open spec fn view(&self) -> SnapshotErrorView {
        match self {
            SnapshotError::Submodules { source } => SnapshotErrorView::Submodules {
                source: source@,
            },
            SnapshotError::TemplatePathNotRelative { path } =>
                SnapshotErrorView::TemplatePathNotRelative { path: path@ },
            SnapshotError::InvalidTemplatePath { path } => SnapshotErrorView::InvalidTemplatePath {
                path: path@,
            },
            SnapshotError::TemplatePathMissing { path, commit } =>
                SnapshotErrorView::TemplatePathMissing { path: path@, commit: commit@ },
            SnapshotError::TemplatePathNotDirectory { path } =>
                SnapshotErrorView::TemplatePathNotDirectory { path: path@ },
            SnapshotError::AbsoluteSymlink { source, target } =>
                SnapshotErrorView::AbsoluteSymlink { source: source@, target: target@ },
            SnapshotError::Unrelated { project_root } => SnapshotErrorView::Unrelated {
                project_root: project_root@,
            },
        }
    }
}

impl SnapshotErrorView {
    /// The message shown to the user.
    pub open spec fn message(self) -> Seq<char> {
        match self {
            SnapshotErrorView::Submodules { source } =>
                "git submodules are not supported by uplate v1: "@ + source
                    + " contains .gitmodules"@,
            SnapshotErrorView::TemplatePathNotRelative { path } =>
                "template path must be relative: "@ + path,
            SnapshotErrorView::InvalidTemplatePath { path } => "invalid template path: "@ + path,
            SnapshotErrorView::TemplatePathMissing { path, commit } => "template path "@ + path
                + " does not exist at "@ + commit,
            SnapshotErrorView::TemplatePathNotDirectory { path } => "template path "@ + path
                + " is not a directory"@,
            SnapshotErrorView::AbsoluteSymlink { source, target } =>
                "refusing to copy absolute symlink "@ + source + " -> "@ + target,
            SnapshotErrorView::Unrelated { project_root } => "The project at "@ + project_root
                + " does not appear to be related to the boilerplate source.\nNo common top-level files or directories were found.\nIf this is a match, use `--base` with the exact commit or tag."@,
        }
    }
}

impl SnapshotError {
    /// The message shown to the user.
    pub fn to_string(&self) -> (res: String)
        ensures
            res@ == self@.message(),
    {
        match self {
            SnapshotError::Submodules { source } => {
                let mut s = "git submodules are not supported by uplate v1: ".to_owned();
                s.append(source.as_str());
                s.append(" contains .gitmodules");
                s
            },
            SnapshotError::TemplatePathNotRelative { path } => {
                let mut s = "template path must be relative: ".to_owned();
                s.append(path.as_str());
                s
            },
            SnapshotError::InvalidTemplatePath { path } => {
                let mut s = "invalid template path: ".to_owned();
                s.append(path.as_str());
                s
            },
            SnapshotError::TemplatePathMissing { path, commit } => {
                let mut s = "template path ".to_owned();
                s.append(path.as_str());
                s.append(" does not exist at ");
                s.append(commit.as_str());
                s
            },
            SnapshotError::TemplatePathNotDirectory { path } => {
                let mut s = "template path ".to_owned();
                s.append(path.as_str());
                s.append(" is not a directory");
                s
            },
            SnapshotError::AbsoluteSymlink { source, target } => {
                let mut s = "refusing to copy absolute symlink ".to_owned();
                s.append(source.as_str());
                s.append(" -> ");
                s.append(target.as_str());
                s
            },
            SnapshotError::Unrelated { project_root } => {
                let mut s = "The project at ".to_owned();
                s.append(project_root.as_str());
                s.append(
                    " does not appear to be related to the boilerplate source.\nNo common top-level files or directories were found.\nIf this is a match, use `--base` with the exact commit or tag.",
                );
                s
            },
        }
    }
}

// ---------------------------------------------------------------------------
// Template directory checks
// ---------------------------------------------------------------------------

/// Refuses a template directory that holds a `.gitmodules` file; `source`
/// names the directory in the message, `has_gitmodules` is whether the
/// file exists.
pub fn ensure_no_submodules(source: &str, has_gitmodules: bool) -> (res: Result<(), SnapshotError>)
    ensures
        res is Ok <==> !has_gitmodules,
        res matches Err(e) ==> e@ == (SnapshotErrorView::Submodules { source: source@ }),
{
    if has_gitmodules {
        Err(SnapshotError::Submodules { source: source.to_owned() })
    } else {
        Ok(())
    }
}

/// What a part of a filesystem path is (`std::path::Component`).
#[derive(Debug, Clone, Copy, PartialEq, Eq, Structural)]
pub enum ComponentKind {
    Prefix,
    RootDir,
    CurDir,
    ParentDir,
    Normal,
}

/// Text that every platform reads as a relative path without a drive or
/// network prefix: no `:`, no `\`, and no leading `/`.
pub open spec fn plainly_relative(p: Seq<char>) -> bool {
    &&& forall|i: int| 0 <= i < p.len() ==> #[trigger] p[i] != ':' && p[i] != '\\'
    &&& !(p.len() > 0 && p[0] == '/')
}

/// Some `/`-separated step of `p` is `..`.
pub open spec fn has_parent_step(p: Seq<char>) -> bool {
    exists|i: int| 0 <= i < split_on(p, '/').len() && #[trigger] split_on(p, '/')[i] == ".."@
}

/// The first `/`-separated step of `p` is `.`.
pub open spec fn leads_with_cur_step(p: Seq<char>) -> bool {
    split_on(p, '/')[0] == "."@
}

/// `std::path::Path::is_absolute`. What counts as absolute depends on the
/// platform (on Unix a leading root; on Windows a prefix such as `C:` or
/// `\\server\share` followed by a root), so the one claim is the part that
/// holds on every platform: plainly relative text is not absolute.
#[verifier::external_body]
fn path_is_absolute(path: &str) -> (res: bool)
    ensures
        plainly_relative(path@) ==> !res,
{
    std::path::Path::new(path).is_absolute()
}

/// `std::path::Path::components`, each part reduced to its kind. How a path
/// splits depends on the platform, so the claims are the parts that hold on
/// every platform for plainly relative text, which has no prefix or root
/// and whose only separator is `/`: a `..` step gives a `ParentDir` part, a
/// leading `.` step gives a `CurDir` part, and otherwise every part is a
/// plain name (empty steps and later `.` steps are dropped). And on every
/// platform `/` is a separator, so text that starts with `/` has a root
/// (`RootDir`) or, on Windows for `//server/share`, a `Prefix` part.
#[verifier::external_body]
fn path_component_kinds(path: &str) -> (res: Vec<ComponentKind>)
    ensures
        plainly_relative(path@) && has_parent_step(path@) ==> exists|k: int|
            0 <= k < res@.len() && #[trigger] res@[k] == ComponentKind::ParentDir,
        plainly_relative(path@) && leads_with_cur_step(path@) ==> exists|k: int|
            0 <= k < res@.len() && #[trigger] res@[k] == ComponentKind::CurDir,
        plainly_relative(path@) && !has_parent_step(path@) && !leads_with_cur_step(path@)
            ==> forall|k: int| 0 <= k < res@.len() ==> #[trigger] res@[k] == ComponentKind::Normal,
        path@.len() > 0 && path@[0] == '/' ==> exists|k: int|
            0 <= k < res@.len() && (#[trigger] res@[k] == ComponentKind::RootDir || res@[k]
                == ComponentKind::Prefix),
{
    std::path::Path::new(path).components().map(
        |component| match component {
            std::path::Component::Prefix(_) => ComponentKind::Prefix,
            std::path::Component::RootDir => ComponentKind::RootDir,
            std::path::Component::CurDir => ComponentKind::CurDir,
            std::path::Component::ParentDir => ComponentKind::ParentDir,
            std::path::Component::Normal(_) => ComponentKind::Normal,
        },
    ).collect()
}

/// Whether a symbolic link at `source` whose `target` the platform calls
/// absolute (`is_absolute`) may be copied.
pub open spec fn spec_symlink_target_verdict(
    source: Seq<char>,
    target: Seq<char>,
    is_absolute: bool,
) -> Result<(), SnapshotErrorView> {
    if is_absolute {
        Err(SnapshotErrorView::AbsoluteSymlink { source, target })
    } else {
        Ok(())
    }
}

/// Refuses a symbolic link at `source` whose `target` the platform calls
/// absolute (`is_absolute`); a link to a relative target may be copied.
pub fn symlink_target_verdict(source: &str, target: &str, is_absolute: bool) -> (res: Result<
    (),
    SnapshotError,
>)
    ensures
        check_view(res) == spec_symlink_target_verdict(source@, target@, is_absolute),
{
    if is_absolute {
        Err(SnapshotError::AbsoluteSymlink { source: source.to_owned(), target: target.to_owned() })
    } else {
        Ok(())
    }
}

/// Refuses to copy a symbolic link at `source` whose `target` is an
/// absolute path, as the platform's path rules see it; a plainly relative
/// target is always accepted.
pub fn check_symlink_target(source: &str, target: &str) -> (res: Result<(), SnapshotError>)
    ensures
        plainly_relative(target@) ==> res is Ok,
        res matches Err(e) ==> e@ == (SnapshotErrorView::AbsoluteSymlink {
            source: source@,
            target: target@,
        }),
{
    let is_absolute = path_is_absolute(target);
    symlink_target_verdict(source, target, is_absolute)
}

/// Whether a template path the platform calls absolute (`is_absolute`) and
/// splits into `kinds` is accepted: it must be relative and every part a
/// plain name.
pub open spec fn spec_template_path_verdict(
    path: Seq<char>,
    is_absolute: bool,
    kinds: Seq<ComponentKind>,
) -> Result<(), SnapshotErrorView> {
    if is_absolute {
        Err(SnapshotErrorView::TemplatePathNotRelative { path })
    } else if exists|i: int| 0 <= i < kinds.len() && kinds[i] != ComponentKind::Normal {
        Err(SnapshotErrorView::InvalidTemplatePath { path })
    } else {
        Ok(())
    }
}

/// The view of a check's result.
pub open spec fn check_view(r: Result<(), SnapshotError>) -> Result<(), SnapshotErrorView> {
    match r {
        Ok(()) => Ok(()),
        Err(e) => Err(e@),
    }
}

/// Accepts a template path that the platform calls absolute
/// (`is_absolute`) and splits into `kinds` only when it is relative and
/// made of plain names.
pub fn template_path_verdict(path: &str, is_absolute: bool, kinds: &Vec<ComponentKind>) -> (res:
    Result<(), SnapshotError>)
    ensures
        check_view(res) == spec_template_path_verdict(path@, is_absolute, kinds@),
{
    if is_absolute {
        return Err(SnapshotError::TemplatePathNotRelative { path: path.to_owned() });
    }
    let mut i: usize = 0;
    while i < kinds.len()
        invariant
            !is_absolute,
            i <= kinds@.len(),
            forall|k: int| 0 <= k < i ==> kinds@[k] == ComponentKind::Normal,
        decreases kinds@.len() - i,
    {
        if kinds[i] != ComponentKind::Normal {
            assert(kinds@[i as int] != ComponentKind::Normal);
            return Err(SnapshotError::InvalidTemplatePath { path: path.to_owned() });
        }
        i += 1;
    }
    Ok(())
}

/// Refuses a template path that is absolute or holds a part that is not a
/// plain name, as the platform's path rules see it. A path that starts with
/// `/` is always refused; a plainly relative path is refused exactly when
/// it has a `..` step or starts with a `.` step.
pub fn validate_relative_template_path(path: &str) -> (res: Result<(), SnapshotError>)
    ensures
        path@.len() > 0 && path@[0] == '/' ==> res is Err,
        plainly_relative(path@) ==> check_view(res) == (if has_parent_step(path@)
            || leads_with_cur_step(path@) {
            Err::<(), SnapshotErrorView>(SnapshotErrorView::InvalidTemplatePath { path: path@ })
        } else {
            Ok::<(), SnapshotErrorView>(())
        }),
        res matches Err(e) ==> (e@ == SnapshotErrorView::TemplatePathNotRelative { path: path@ }
            || e@ == SnapshotErrorView::InvalidTemplatePath { path: path@ }),
{
    let is_absolute = path_is_absolute(path);
    let kinds = path_component_kinds(path);
    template_path_verdict(path, is_absolute, &kinds)
}

/// The template subdirectory to use: the given path unless it is missing
/// or blank, in which case the repository root.
pub open spec fn spec_template_subpath(path: Option<Seq<char>>) -> Option<Seq<char>> {
    match path {
        Some(p) => if trim(p).len() == 0 {
            None
        } else {
            Some(p)
        },
        None => None,
    }
}

/// The template subdirectory to use, if any.
pub fn template_subpath(path: Option<&str>) -> (res: Option<String>)
    ensures
        res.deep_view() == spec_template_subpath(path.deep_view()),
{
    match path {
        Some(p) => {
            if is_blank(&to_chars(p)) {
                None
            } else {
                Some(p.to_owned())
            }
        },
        None => None,
    }
}

/// How a template path is named in messages: the path, or `.` for the root.
pub open spec fn shown_path(path: Option<Seq<char>>) -> Seq<char> {
    match path {
        Some(p) => p,
        None => "."@,
    }
}

/// Checks the chosen template directory of a checkout at `commit`:
/// `exists` and `is_dir` are what the filesystem says of it, `path` is the
/// template path as configured.
pub fn check_template_dir(path: Option<&str>, commit: &str, exists: bool, is_dir: bool) -> (res:
    Result<(), SnapshotError>)
    ensures
        !exists ==> check_view(res) == Err::<(), SnapshotErrorView>(
            SnapshotErrorView::TemplatePathMissing {
                path: shown_path(path.deep_view()),
                commit: commit@,
            },
        ),
        exists && !is_dir ==> check_view(res) == Err::<(), SnapshotErrorView>(
            SnapshotErrorView::TemplatePathNotDirectory { path: shown_path(path.deep_view()) },
        ),
        exists && is_dir ==> res is Ok,
{
    let shown = match path {
        Some(p) => p.to_owned(),
        None => ".".to_owned(),
    };
    if !exists {
        return Err(SnapshotError::TemplatePathMissing { path: shown, commit: commit.to_owned() });
    }
    if !is_dir {
        return Err(SnapshotError::TemplatePathNotDirectory { path: shown });
    }
    Ok(())
}

// ---------------------------------------------------------------------------
// What is copied
// ---------------------------------------------------------------------------

/// Some part of a relative path is named `name`.
pub open spec fn has_part(parts: Seq<Seq<char>>, name: Seq<char>) -> bool {
    exists|i: int| 0 <= i < parts.len() && parts[i] == name
}

/// Whether some part of `parts` equals `name`.
fn has_part_exec(parts: &Vec<String>, name: &str) -> (res: bool)
    ensures
        res == has_part(parts.deep_view(), name@),
{
    let mut i: usize = 0;
    while i < parts.len()
        invariant
            i <= parts@.len(),
            forall|k: int| 0 <= k < i ==> parts.deep_view()[k] != name@,
        decreases parts@.len() - i,
    {
        if parts[i] == name.to_owned() {
            assert(parts.deep_view()[i as int] == name@);
            return true;
        }
        i += 1;
    }
    false
}

/// Whether a template entry, given as the parts of its path relative to the
/// template root, is left out of a copy: anything inside `.git`.
pub fn should_skip_template(relative: &Vec<String>) -> (res: bool)
    ensures
        res == has_part(relative.deep_view(), ".git"@),
{
    has_part_exec(relative, ".git")
}

/// Whether a project entry, given as the parts of its path relative to the
/// project root, is left out of a copy: anything inside `.git` or `.uplate`.
pub fn should_skip_project(relative: &Vec<String>) -> (res: bool)
    ensures
        res == (has_part(relative.deep_view(), ".git"@) || has_part(
            relative.deep_view(),
            ".uplate"@,
        )),
{
    has_part_exec(relative, ".git") || has_part_exec(relative, ".uplate")
}

/// What a walked directory entry is.
#[derive(Debug, Clone, Copy, PartialEq, Eq, Structural)]
pub enum EntryKind {
    Directory,
    File,
    Symlink,
    /// Anything else (a socket, a device): it is not copied.
    Other,
}

/// The copy a walk belongs to, which decides what it leaves out.
#[derive(Debug, Clone, Copy, PartialEq, Eq, Structural)]
pub enum CopyFilter {
    /// A template: `.git` is left out.
    Template,
    /// A project: `.git` and `.uplate` are left out.
    Project,
}

/// What is done at the destination for one copied entry.
#[derive(Debug, Clone, Copy, PartialEq, Eq, Structural)]
pub enum CopyAction {
    /// Create the directory (and its parents).
    CreateDir,
    /// Copy the file with its permissions.
    CopyFile,
    /// Recreate the symbolic link, once its target is checked.
    CopySymlink,
}

/// An entry whose relative path is `parts` is left out of a copy.
pub open spec fn skipped(filter: CopyFilter, parts: Seq<Seq<char>>) -> bool {
    match filter {
        CopyFilter::Template => has_part(parts, ".git"@),
        CopyFilter::Project => has_part(parts, ".git"@) || has_part(parts, ".uplate"@),
    }
}

/// What a copy does with an entry at relative path `parts` of kind `kind`.
pub open spec fn spec_copy_action(filter: CopyFilter, parts: Seq<Seq<char>>, kind: EntryKind) -> Option<
    CopyAction,
> {
    if skipped(filter, parts) {
        None
    } else {
        match kind {
            EntryKind::Directory => Some(CopyAction::CreateDir),
            EntryKind::File => Some(CopyAction::CopyFile),
            EntryKind::Symlink => Some(CopyAction::CopySymlink),
            EntryKind::Other => None,
        }
    }
}

/// What copying a directory's contents does with one walked entry, given by
/// the parts of its path relative to the copied root and its kind: nothing
/// for a left-out or unusual entry, else create, copy or relink it.
pub fn copy_action(filter: CopyFilter, relative: &Vec<String>, kind: EntryKind) -> (res: Option<
    CopyAction,
>)
    ensures
        res == spec_copy_action(filter, relative.deep_view(), kind),
{
    let skip = match filter {
        CopyFilter::Template => should_skip_template(relative),
        CopyFilter::Project => should_skip_project(relative),
    };
    if skip {
        return None;
    }
    match kind {
        EntryKind::Directory => Some(CopyAction::CreateDir),
        EntryKind::File => Some(CopyAction::CopyFile),
        EntryKind::Symlink => Some(CopyAction::CopySymlink),
        EntryKind::Other => None,
    }
}

/// A copy treats template and project entries alike but for what it
/// leaves out: an entry that a copy does not leave out is created, copied
/// or relinked by its kind alone, so both copies act the same on it, and
/// a left-out entry is not touched. A template copy leaves out exactly the
/// paths with a `.git` part; a project copy also those with a `.uplate`
/// part.
pub proof fn law_copy_acts_by_kind(parts: Seq<Seq<char>>, kind: EntryKind, filter: CopyFilter)
    ensures
        skipped(CopyFilter::Template, parts) <==> has_part(parts, ".git"@),
        skipped(CopyFilter::Project, parts) <==> (has_part(parts, ".git"@) || has_part(
            parts,
            ".uplate"@,
        )),
        skipped(filter, parts) ==> spec_copy_action(filter, parts, kind) is None,
        !skipped(filter, parts) && kind == EntryKind::Directory ==> spec_copy_action(
            filter,
            parts,
            kind,
        ) == Some(CopyAction::CreateDir),
        !skipped(filter, parts) && kind == EntryKind::File ==> spec_copy_action(filter, parts, kind)
            == Some(CopyAction::CopyFile),
        !skipped(filter, parts) && kind == EntryKind::Symlink ==> spec_copy_action(
            filter,
            parts,
            kind,
        ) == Some(CopyAction::CopySymlink),
        !skipped(CopyFilter::Template, parts) && !skipped(CopyFilter::Project, parts)
            ==> spec_copy_action(CopyFilter::Template, parts, kind) == spec_copy_action(
            CopyFilter::Project,
            parts,
            kind,
        ),
{
}

/// How a top-level entry is removed when a directory is cleared.
#[derive(Debug, Clone, Copy, PartialEq, Eq, Structural)]
pub enum ClearAction {
    /// Remove the directory and everything in it.
    RemoveTree,
    /// Remove the file or the symbolic link itself.
    RemoveFile,
}

/// What clearing a directory does with the top-level entry `name`.
pub open spec fn spec_clear_action(name: Seq<char>, is_dir: bool, is_symlink: bool) -> Option<
    ClearAction,
> {
    if name == ".git"@ {
        None
    } else if is_dir && !is_symlink {
        Some(ClearAction::RemoveTree)
    } else {
        Some(ClearAction::RemoveFile)
    }
}

/// What clearing a directory, all but its `.git`, does with the top-level
/// entry `name`: keep `.git`, remove a real directory with its contents,
/// and remove anything else, a link to a directory included, by itself.
pub fn clear_action(name: &str, is_dir: bool, is_symlink: bool) -> (res: Option<ClearAction>)
    ensures
        res == spec_clear_action(name@, is_dir, is_symlink),
{
    if name.to_owned() == ".git".to_owned() {
        None
    } else if is_dir && !is_symlink {
        Some(ClearAction::RemoveTree)
    } else {
        Some(ClearAction::RemoveFile)
    }
}

/// Replacing the files of the merge repository never touches its git
/// metadata: no copy acts on a path inside a `.git` directory, and clearing
/// keeps the top-level `.git`.
pub proof fn law_git_metadata_is_kept(
    filter: CopyFilter,
    parts: Seq<Seq<char>>,
    kind: EntryKind,
    is_dir: bool,
    is_symlink: bool,
)
    requires
        has_part(parts, ".git"@),
    ensures
        spec_copy_action(filter, parts, kind) is None,
        spec_clear_action(".git"@, is_dir, is_symlink) is None,
{
}

// ---------------------------------------------------------------------------
// Adoption
// ---------------------------------------------------------------------------

/// A top-level name that says nothing about a project's relation to a
/// template: `.git`, `.uplate` and the metadata file.
pub open spec fn is_bookkeeping_name(name: Seq<char>) -> bool {
    name == ".git"@ || name == ".uplate"@ || name == ".uplate.jsonc"@
}

/// The set of names at the top level of a directory whose entries are
/// named `entries`: every name, once, in the order of first appearance.
pub fn top_level_names(entries: &Vec<String>) -> (res: Vec<String>)
    ensures
        forall|name: Seq<char>| #[trigger]
            res.deep_view().contains(name) <==> entries.deep_view().contains(name),
        res.deep_view().no_duplicates(),
{
    let ghost all = entries.deep_view();
    let mut res: Vec<String> = Vec::new();
    let mut i: usize = 0;
    while i < entries.len()
        invariant
            i <= entries@.len(),
            all == entries.deep_view(),
            forall|name: Seq<char>| #[trigger]
                res.deep_view().contains(name) <==> all.take(i as int).contains(name),
            res.deep_view().no_duplicates(),
        decreases entries@.len() - i,
    {
        let name = &entries[i];
        let ghost before = res.deep_view();
        let ghost t = all.take(i as int);
        let ghost u = all.take(i + 1);
        assert(u =~= t.push(name@));
        assert forall|x: Seq<char>| #[trigger] before.contains(x) <==> t.contains(x) by {
            assert(res.deep_view().contains(x) <==> t.contains(x));
        }
        let mut seen = false;
        let mut j: usize = 0;
        while j < res.len()
            invariant
                j <= res@.len(),
                before == res.deep_view(),
                seen <==> exists|k: int| 0 <= k < j && #[trigger] before[k] == name@,
            decreases res@.len() - j,
        {
            assert(before[j as int] == res@[j as int]@);
            if res[j] == *name {
                seen = true;
            }
            j += 1;
        }
        if !seen {
            res.push(name.clone());
            proof {
                assert(res.deep_view() =~= before.push(name@));
                assert forall|x: Seq<char>| #[trigger]
                    res.deep_view().contains(x) <==> u.contains(x) by {
                    if x == name@ {
                        assert(res.deep_view()[before.len() as int] == x);
                        assert(u[i as int] == x);
                    } else {
                        if res.deep_view().contains(x) {
                            let k = choose|k: int|
                                0 <= k < res.deep_view().len() && res.deep_view()[k] == x;
                            assert(before[k] == x);
                            assert(before.contains(x));
                            let m = choose|m: int| 0 <= m < t.len() && t[m] == x;
                            assert(u[m] == x);
                        }
                        if u.contains(x) {
                            let m = choose|m: int|
                                0 <= m < u.len() && u[m] == x;
                            assert(t[m] == x);
                            assert(t.contains(x));
                            assert(before.contains(x));
                            let k = choose|k: int| 0 <= k < before.len() && before[k] == x;
                            assert(res.deep_view()[k] == x);
                        }
                    }
                }
            }
        } else {
            proof {
                let k = choose|k: int| 0 <= k < before.len() && #[trigger] before[k] == name@;
                assert(before.contains(name@));
                assert forall|x: Seq<char>| #[trigger]
                    res.deep_view().contains(x) <==> u.contains(x) by {
                    if u.contains(x) && x != name@ {
                        let m = choose|m: int|
                            0 <= m < u.len() && u[m] == x;
                        assert(t[m] == x);
                        assert(t.contains(x));
                    }
                    if res.deep_view().contains(x) {
                        assert(t.contains(x));
                        let m = choose|m: int| 0 <= m < t.len() && t[m] == x;
                        assert(u[m] == x);
                    }
                    if x == name@ {
                        assert(u[i as int] == x);
                    }
                }
            }
        }
        i += 1;
    }
    assert(all.take(entries@.len() as int) =~= all);
    res
}

/// The two directories, given by the names of their top-level entries,
/// share a name other than a bookkeeping name.
pub open spec fn share_a_name(project: Seq<Seq<char>>, template: Seq<Seq<char>>) -> bool {
    exists|name: Seq<char>|
        #[trigger] project.contains(name) && template.contains(name) && !is_bookkeeping_name(
            name,
        )
}

/// Requires that a project shares a top-level name, other than bookkeeping
/// names, with a template; `project_entries` and `template_entries` are
/// the names of the top-level entries of the two directories,
/// `project_root` names the project in the message.
pub fn verify_adoption_fit(
    project_root: &str,
    project_entries: &Vec<String>,
    template_entries: &Vec<String>,
) -> (res: Result<(), SnapshotError>)
    ensures
        res is Ok <==> share_a_name(project_entries.deep_view(), template_entries.deep_view()),
        res matches Err(e) ==> e@ == (SnapshotErrorView::Unrelated { project_root: project_root@ }),
{
    let project_names = top_level_names(project_entries);
    let template_names = top_level_names(template_entries);
    let ghost a = project_names.deep_view();
    let ghost b = template_names.deep_view();
    let ghost pa = project_entries.deep_view();
    let ghost tb = template_entries.deep_view();
    let mut i: usize = 0;
    while i < project_names.len()
        invariant
            i <= project_names@.len(),
            a == project_names.deep_view(),
            b == template_names.deep_view(),
            forall|name: Seq<char>| pa.contains(name) <==> a.contains(name),
            forall|name: Seq<char>| tb.contains(name) <==> b.contains(name),
            pa == project_entries.deep_view(),
            tb == template_entries.deep_view(),
            forall|k: int, j: int|
                0 <= k < i && 0 <= j < b.len() && a[k] == b[j] ==> is_bookkeeping_name(a[k]),
        decreases project_names@.len() - i,
    {
        let name = &project_names[i];
        let bookkeeping = *name == ".git".to_owned() || *name == ".uplate".to_owned() || *name
            == ".uplate.jsonc".to_owned();
        if !bookkeeping {
            let mut j: usize = 0;
            while j < template_names.len()
                invariant
                    i < project_names@.len(),
                    j <= template_names@.len(),
                    a == project_names.deep_view(),
                    b == template_names.deep_view(),
                    forall|name: Seq<char>| pa.contains(name) <==> a.contains(name),
                    forall|name: Seq<char>| tb.contains(name) <==> b.contains(name),
                    pa == project_entries.deep_view(),
                    tb == template_entries.deep_view(),
                    !is_bookkeeping_name(a[i as int]),
                    forall|m: int| 0 <= m < j ==> a[i as int] != b[m],
                decreases template_names@.len() - j,
            {
                if project_names[i] == template_names[j] {
                    assert(a[i as int] == b[j as int]);
                    assert(a.contains(a[i as int]));
                    assert(b.contains(a[i as int]));
                    assert(pa.contains(a[i as int]) && tb.contains(a[i as int]));
                    return Ok(());
                }
                j += 1;
            }
        }
        i += 1;
    }
    proof {
        if share_a_name(pa, tb) {
            let name = choose|name: Seq<char>|
                #[trigger] pa.contains(name) && tb.contains(name) && !is_bookkeeping_name(name);
            assert(a.contains(name));
            assert(b.contains(name));
            let k = choose|k: int| 0 <= k < a.len() && a[k] == name;
            let j = choose|j: int| 0 <= j < b.len() && b[j] == name;
            assert(a[k] == b[j]);
        }
    }
    Err(SnapshotError::Unrelated { project_root: project_root.to_owned() })
}

} // verus!
