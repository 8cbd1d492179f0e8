//! The decisions of the four commands. Reading and writing files, prompting
//! and running git are left to the caller, which hands the results in.
use vstd::prelude::*;
use crate::cli::{Cli, Command, UpgradeArgs};
use crate::config::{BaseConfig, CurrentConfig, SourceConfigView, Timestamp, UplateConfig};
use crate::git::{
    add_context, allowed, args1, args2, args3, args4, args5, checked, command, commit_args,
    commit_command, default_branch,
    ensure_git_available, spec_allowed, spec_checked, spec_command, spec_default_branch,
    spec_ensure_git_available, spec_verify_command, verify_command,
    GitCommand, GitCommandView, GitError, GitErrorView, GitOutcome, GitOutcomeView,
    GitOutputView, GitStep, GitStepView,
};
use crate::source::ParsedSource;
use crate::text::{
    chars_eq, concat, from_chars, is_blank, lemma_char_vec_deep_view, push_line, slice, to_chars,
    trim, trim_chars,
};

verus! {

broadcast use lemma_char_vec_deep_view;

// ---------------------------------------------------------------------------
// Dispatch
// ---------------------------------------------------------------------------

/// The command to carry out.
#[derive(Debug, Clone)]
pub enum Invocation {
    Create { source: Option<String>, destination: Option<String> },
    Adopt { source: Option<String>, base: Option<String> },
    Status,
    Upgrade(UpgradeArgs),
}

/// The command a command line asks for; without a subcommand it is `create`
/// with the shorthand's source and destination.
pub open spec fn spec_invocation(cli: Cli) -> Invocation {
    match cli.command {
        Some(Command::Create(args)) => Invocation::Create {
            source: args.source,
            destination: args.destination,
        },
        Some(Command::Adopt(args)) => Invocation::Adopt { source: args.source, base: args.base },
        Some(Command::Status(_)) => Invocation::Status,
        Some(Command::Upgrade(args)) => Invocation::Upgrade(args),
        None => Invocation::Create { source: cli.source, destination: cli.destination },
    }
}

/// What is said when git cannot be run.
pub open spec fn git_missing_message() -> Seq<char> {
    "uplate requires git for v1, but git was not found"@
}

/// The next move when the tool starts.
#[derive(Debug)]
pub enum Startup {
    /// Run this command and hand its outcome back.
    Run(GitCommand),
    /// Git cannot be run: stop with this error.
    Stop(GitError),
    /// Carry out this command.
    Go(Invocation),
}

/// Starting the tool: check that git can be run (`git --version`), then
/// carry out the command the command line asks for. When git cannot be run,
/// the check's failure comes back under `git_missing_message`, and no
/// command is chosen.
pub fn run(cli: Cli, history: &[GitOutcome]) -> (step: Startup)
    ensures
        (match step {
            Startup::Run(c) => spec_ensure_git_available(history.deep_view())
                == GitStepView::<()>::Run(c@),
            Startup::Stop(e) => spec_ensure_git_available(history.deep_view())
                == GitStepView::<()>::Done(Err(GitErrorView { context: None, kind: e@.kind }))
                && e@.context == Some(git_missing_message()),
            Startup::Go(invocation) => spec_ensure_git_available(history.deep_view())
                == GitStepView::<()>::Done(Ok(())) && invocation == spec_invocation(cli),
        }),
{
    let check = ensure_git_available(history);
    match check {
        GitStep::Run(c) => Startup::Run(c),
        GitStep::Done(Err(e)) => {
            assert(spec_ensure_git_available(history.deep_view()) == GitStepView::<()>::Done(
                Err(e@),
            ));
            Startup::Stop(
                add_context("uplate requires git for v1, but git was not found".to_owned(), e),
            )
        },
        GitStep::Done(Ok(())) => {
            let invocation = match cli.command {
                Some(Command::Create(args)) => Invocation::Create {
                    source: args.source,
                    destination: args.destination,
                },
                Some(Command::Adopt(args)) => Invocation::Adopt {
                    source: args.source,
                    base: args.base,
                },
                Some(Command::Status(_)) => Invocation::Status,
                Some(Command::Upgrade(args)) => Invocation::Upgrade(args),
                None => Invocation::Create { source: cli.source, destination: cli.destination },
            };
            Startup::Go(invocation)
        },
    }
}

// ---------------------------------------------------------------------------
// Small text helpers
// ---------------------------------------------------------------------------

/// The first twelve characters of a commit name, or all of a shorter one.
pub open spec fn spec_short_commit(commit: Seq<char>) -> Seq<char> {
    if commit.len() <= 12 {
        commit
    } else {
        commit.take(12)
    }
}

/// A commit name shortened for display.
pub fn short_commit(commit: &str) -> (res: String)
    ensures
        res@ == spec_short_commit(commit@),
{
    let chars = to_chars(commit);
    let n: usize = if chars.len() <= 12 {
        chars.len()
    } else {
        12
    };
    let short = slice(&chars, 0, n);
    assert(short@ =~= spec_short_commit(commit@));
    from_chars(&short)
}

/// The explanation given when the recorded base commit cannot be fetched.
pub open spec fn spec_missing_base_message(reference: Seq<char>, remote: Seq<char>) -> Seq<char> {
    "Cannot safely upgrade.\n\nThe saved base commit "@ + reference
        + " no longer exists upstream ("@ + remote
        + ").\n\nThis can happen if the boilerplate history was amended, rebased, force-pushed, deleted/recreated, made inaccessible, or otherwise changed.\n\nuplate needs that old boilerplate version to perform a safe 3-way merge."@
}

/// The explanation given when the base commit `reference` cannot be fetched
/// from `remote`.
pub fn missing_base_message(reference: &str, remote: &str) -> (res: String)
    ensures
        res@ == spec_missing_base_message(reference@, remote@),
{
    let mut s = "Cannot safely upgrade.\n\nThe saved base commit ".to_owned();
    s.append(reference);
    s.append(" no longer exists upstream (");
    s.append(remote);
    s.append(
        ").\n\nThis can happen if the boilerplate history was amended, rebased, force-pushed, deleted/recreated, made inaccessible, or otherwise changed.\n\nuplate needs that old boilerplate version to perform a safe 3-way merge.",
    );
    s
}

// ---------------------------------------------------------------------------
// Refs and tags
// ---------------------------------------------------------------------------

/// The ref a new project follows: the one its source names, else the
/// remote's default branch.
pub open spec fn spec_resolve_follow_ref(
    ref_name: Option<Seq<char>>,
    remote: Seq<char>,
    h: Seq<GitOutcomeView>,
) -> GitStepView<Seq<char>> {
    match ref_name {
        Some(r) => GitStepView::Done(Ok(r)),
        None => spec_default_branch(remote, h),
    }
}

/// The ref a project created from `parsed` follows.
pub fn resolve_follow_ref(parsed: &ParsedSource, history: &[GitOutcome]) -> (step: GitStep<String>)
    ensures
        step@ == spec_resolve_follow_ref(
            parsed@.ref_name,
            parsed@.remote,
            history.deep_view(),
        ),
{
    match &parsed.ref_name {
        Some(value) => GitStep::Done(Ok(value.clone())),
        None => default_branch(parsed.remote.as_str(), history),
    }
}

/// An ASCII hexadecimal digit.
pub open spec fn is_hex_digit(c: char) -> bool {
    ('0' <= c && c <= '9') || ('a' <= c && c <= 'f') || ('A' <= c && c <= 'F')
}

/// Text shaped like a commit name: 7 to 40 hexadecimal digits.
pub open spec fn looks_like_commit(s: Seq<char>) -> bool {
    7 <= s.len() <= 40 && forall|i: int| 0 <= i < s.len() ==> is_hex_digit(#[trigger] s[i])
}

/// Whether `s` is shaped like a commit name.
fn looks_like_commit_exec(s: &str) -> (res: bool)
    ensures
        res == looks_like_commit(s@),
{
    let chars = to_chars(s);
    if chars.len() < 7 || chars.len() > 40 {
        return false;
    }
    let mut i: usize = 0;
    while i < chars.len()
        invariant
            i <= chars@.len(),
            chars@ == s@,
            forall|k: int| 0 <= k < i ==> is_hex_digit(#[trigger] chars@[k]),
        decreases chars@.len() - i,
    {
        let c = chars[i];
        if !(('0' <= c && c <= '9') || ('a' <= c && c <= 'f') || ('A' <= c && c <= 'F')) {
            assert(!is_hex_digit(chars@[i as int]));
            return false;
        }
        i += 1;
    }
    true
}

/// The answer of one tag lookup: the tag when it resolves to `commit`.
pub open spec fn tag_if_same(
    tag_commit: Seq<char>,
    commit: Seq<char>,
    input: Seq<char>,
) -> Option<Seq<char>> {
    if tag_commit == commit {
        Some(input)
    } else {
        None
    }
}

/// Finding whether `input` is a tag of `repo` that names `commit`: never
/// for text shaped like a commit name; otherwise look up the tag's commit
/// (`refs/tags/<input>^{commit}`, then `refs/tags/<input>`) and compare.
/// A lookup that fails counts as no tag.
pub open spec fn spec_resolve_tag_if_exact(
    repo: Seq<char>,
    input: Seq<char>,
    commit: Seq<char>,
    h: Seq<GitOutcomeView>,
) -> GitStepView<Option<Seq<char>>> {
    let peeled = spec_verify_command(repo, "refs/tags/"@ + input + "^{commit}"@);
    let plain = spec_verify_command(repo, "refs/tags/"@ + input);
    if looks_like_commit(input) {
        GitStepView::Done(Ok(None))
    } else if h.len() == 0 {
        GitStepView::Run(peeled)
    } else {
        match spec_checked(peeled, h[0]) {
            Ok(out) => GitStepView::Done(Ok(tag_if_same(trim(out.stdout), commit, input))),
            Err(_) => if h.len() == 1 {
                GitStepView::Run(plain)
            } else {
                match spec_checked(plain, h[1]) {
                    Ok(out) => GitStepView::Done(Ok(tag_if_same(trim(out.stdout), commit, input))),
                    Err(_) => GitStepView::Done(Ok(None)),
                }
            },
        }
    }
}

/// The tag of a single lookup's outcome, if it names `commit`.
fn tag_of_outcome(
    c: &GitCommand,
    o: &GitOutcome,
    input: &str,
    commit: &str,
) -> (res: Result<Option<String>, GitError>)
    ensures
        (match spec_checked(c@, o@) {
            Ok(out) => res matches Ok(t) && t.deep_view() == tag_if_same(
                trim(out.stdout),
                commit@,
                input@,
            ),
            Err(_) => res is Err,
        }),
{
    match checked(c, o) {
        Ok(out) => {
            let tag_commit = trim_chars(&to_chars(out.stdout.as_str()));
            if chars_eq(&tag_commit, &to_chars(commit)) {
                Ok(Some(input.to_owned()))
            } else {
                Ok(None)
            }
        },
        Err(e) => Err(e),
    }
}

/// The tag `input` when the user named the base by a tag of `repo` that
/// points to `commit`; no tag when `input` is shaped like a commit name or
/// names no such tag.
pub fn resolve_tag_if_exact(
    repo: &str,
    input: &str,
    commit: &str,
    history: &[GitOutcome],
) -> (step: GitStep<Option<String>>)
    ensures
        step@ == spec_resolve_tag_if_exact(repo@, input@, commit@, history.deep_view()),
{
    if looks_like_commit_exec(input) {
        return GitStep::Done(Ok(None));
    }
    let mut peeled_ref = "refs/tags/".to_owned();
    peeled_ref.append(input);
    peeled_ref.append("^{commit}");
    let peeled = verify_command(repo, peeled_ref.as_str());
    if history.len() == 0 {
        return GitStep::Run(peeled);
    }
    match tag_of_outcome(&peeled, &history[0], input, commit) {
        Ok(tag) => return GitStep::Done(Ok(tag)),
        Err(_) => {},
    }
    let mut plain_ref = "refs/tags/".to_owned();
    plain_ref.append(input);
    let plain = verify_command(repo, plain_ref.as_str());
    if history.len() == 1 {
        return GitStep::Run(plain);
    }
    match tag_of_outcome(&plain, &history[1], input, commit) {
        Ok(tag) => GitStep::Done(Ok(tag)),
        Err(_) => GitStep::Done(Ok(None)),
    }
}


// ---------------------------------------------------------------------------
// Create and adopt
// ---------------------------------------------------------------------------

/// Why a command refused to go on.
#[derive(Debug, Clone, PartialEq, Eq)]
pub enum CommandError {
    /// The project already has a metadata file.
    AlreadyAdopted,
    /// The destination exists and is not a directory.
    DestinationNotDirectory { destination: String },
    /// The destination directory has entries.
    DestinationNotEmpty { destination: String },
}

/// The text of a `CommandError`.
pub enum CommandErrorView {
    AlreadyAdopted,
    DestinationNotDirectory { destination: Seq<char> },
    DestinationNotEmpty { destination: Seq<char> },
}

impl View for CommandError {
    type V = CommandErrorView;

    open spec fn view(&self) -> CommandErrorView {
        match self {
            CommandError::AlreadyAdopted => CommandErrorView::AlreadyAdopted,
            CommandError::DestinationNotDirectory { destination } =>
                CommandErrorView::DestinationNotDirectory { destination: destination@ },
            CommandError::DestinationNotEmpty { destination } =>
                CommandErrorView::DestinationNotEmpty { destination: destination@ },
        }
    }
}

impl CommandErrorView {
    /// The message shown to the user.
    pub open spec fn message(self) -> Seq<char> {
        match self {
            CommandErrorView::AlreadyAdopted =>
                ".uplate.jsonc already exists. This project is already adopted by uplate."@,
            CommandErrorView::DestinationNotDirectory { destination } =>
                "destination exists and is not a directory: "@ + destination,
            CommandErrorView::DestinationNotEmpty { destination } =>
                "destination directory is not empty: "@ + destination
                    + ". Choose an empty directory."@,
        }
    }
}

impl CommandError {
    /// The message shown to the user.
    pub fn to_string(&self) -> (res: String)
        ensures
            res@ == self@.message(),
    {
        match self {
            CommandError::AlreadyAdopted =>
                ".uplate.jsonc already exists. This project is already adopted by uplate.".to_owned(),
            CommandError::DestinationNotDirectory { destination } => concat(
                "destination exists and is not a directory: ",
                destination.as_str(),
            ),
            CommandError::DestinationNotEmpty { destination } => {
                let mut s = concat("destination directory is not empty: ", destination.as_str());
                s.append(". Choose an empty directory.");
                s
            },
        }
    }
}

/// Whether a new project may be created at `destination`, given what the
/// filesystem says: `exists`, `is_dir`, and `is_empty` (whether the directory
/// has no entries). On success, whether the directory must still be made.
pub fn ensure_create_destination_is_safe(
    destination: &str,
    exists: bool,
    is_dir: bool,
    is_empty: bool,
) -> (res: Result<bool, CommandError>)
    ensures
        !exists ==> res == Ok::<bool, CommandError>(true),
        exists && !is_dir ==> (res matches Err(e) && e@ == (CommandErrorView::DestinationNotDirectory {
            destination: destination@,
        })),
        exists && is_dir && !is_empty ==> (res matches Err(e) && e@ == (
        CommandErrorView::DestinationNotEmpty { destination: destination@ })),
        exists && is_dir && is_empty ==> res == Ok::<bool, CommandError>(false),
{
    if exists {
        if !is_dir {
            return Err(CommandError::DestinationNotDirectory { destination: destination.to_owned() });
        }
        if !is_empty {
            return Err(CommandError::DestinationNotEmpty { destination: destination.to_owned() });
        }
        Ok(false)
    } else {
        Ok(true)
    }
}

/// Refuses to adopt a project that already has a metadata file.
pub fn ensure_not_adopted(config_exists: bool) -> (res: Result<(), CommandError>)
    ensures
        res is Ok <==> !config_exists,
        res matches Err(e) ==> e == CommandError::AlreadyAdopted,
{
    if config_exists {
        Err(CommandError::AlreadyAdopted)
    } else {
        Ok(())
    }
}

/// The metadata of a project just created or adopted from `parsed`,
/// following `ref_name`, based on template `commit`, which `tag` names if
/// it was given by a tag.
pub fn new_config(
    parsed: ParsedSource,
    ref_name: String,
    commit: String,
    tag: Option<String>,
    created_at: Timestamp,
) -> (config: UplateConfig)
    ensures
        config.schema_version == 1,
        config.source@ == (SourceConfigView {
            kind: parsed@.kind,
            input: parsed@.input,
            remote: parsed@.remote,
            owner: parsed@.owner,
            repo: parsed@.repo,
            path: parsed@.path,
            ref_name: ref_name@,
        }),
        config.base.commit@ == commit@,
        config.base.ref_name@ == ref_name@,
        config.base.tag.deep_view() == tag.deep_view(),
        config.current.commit@ == commit@,
        config.current.upgraded_at is None,
        config.created_at == created_at,
{
    let follow = ref_name.clone();
    let current = commit.clone();
    UplateConfig {
        schema_version: 1,
        source: parsed.into_config(follow),
        base: BaseConfig { commit, ref_name, tag },
        current: CurrentConfig { commit: current, upgraded_at: None },
        created_at,
    }
}

/// What `create` reports after creating `destination` from `source_input`
/// at template `commit`.
pub fn created_lines(destination: &str, source_input: &str, commit: &str) -> (lines: Vec<String>)
    ensures
        lines.deep_view() == seq![
            "Created "@ + destination@ + " from "@ + source_input@,
            "Base template commit: "@ + spec_short_commit(commit@),
            "Review the generated files, then commit them with git."@,
        ],
{
    let mut lines: Vec<String> = Vec::new();
    assert(lines.deep_view() =~= Seq::<Seq<char>>::empty());
    let mut first = concat("Created ", destination);
    first.append(" from ");
    first.append(source_input);
    push_line(&mut lines, first);
    push_line(&mut lines, concat("Base template commit: ", short_commit(commit).as_str()));
    push_line(&mut lines, "Review the generated files, then commit them with git.".to_owned());
    assert(lines.deep_view() =~= seq![
        "Created "@ + destination@ + " from "@ + source_input@,
        "Base template commit: "@ + spec_short_commit(commit@),
        "Review the generated files, then commit them with git."@,
    ]);
    lines
}

/// What `adopt` reports after adopting `source_input` at template `commit`.
pub fn adopted_lines(source_input: &str, commit: &str) -> (lines: Vec<String>)
    ensures
        lines.deep_view() == seq![
            "Adopted project with source "@ + source_input@,
            "Base template commit: "@ + spec_short_commit(commit@),
        ],
{
    let mut lines: Vec<String> = Vec::new();
    assert(lines.deep_view() =~= Seq::<Seq<char>>::empty());
    push_line(&mut lines, concat("Adopted project with source ", source_input));
    push_line(&mut lines, concat("Base template commit: ", short_commit(commit).as_str()));
    assert(lines.deep_view() =~= seq![
        "Adopted project with source "@ + source_input@,
        "Base template commit: "@ + spec_short_commit(commit@),
    ]);
    lines
}

// ---------------------------------------------------------------------------
// Status
// ---------------------------------------------------------------------------

/// The verdict lines of `status`.
pub open spec fn spec_status_verdict(
    current: Seq<char>,
    latest: Seq<char>,
    tree_clean: bool,
) -> Seq<Seq<char>> {
    if latest == current {
        seq!["Status: up to date"@]
    } else {
        seq![
            "Status: update available"@,
            if tree_clean {
                "Run `uplate upgrade --dry-run` to preview changes."@
            } else {
                "Working tree is dirty, commit or stash before upgrade."@
            },
        ]
    }
}

/// The lines `status` prints for a project following `source`, last
/// upgraded to `current`, whose source now has `latest`.
pub open spec fn spec_status_lines(
    source: SourceConfigView,
    current: Seq<char>,
    latest: Seq<char>,
    tree_clean: bool,
    base_available: bool,
) -> Seq<Seq<char>> {
    seq!["Source: "@ + source.input, "Remote: "@ + source.remote] + (match source.path {
        Some(p) => seq!["Path: "@ + p],
        None => Seq::<Seq<char>>::empty(),
    }) + seq![
        "Following ref: "@ + source.ref_name,
        "Current template: "@ + spec_short_commit(current),
        "Latest template:  "@ + spec_short_commit(latest),
        "Working tree: "@ + (if tree_clean {
            "clean"@
        } else {
            "dirty"@
        }),
        "Base commit: "@ + (if base_available {
            "available"@
        } else {
            "missing"@
        }),
    ] + spec_status_verdict(current, latest, tree_clean)
}

/// What `status` reports of `config`, given the source's `latest` commit,
/// whether the work tree is clean and whether the base commit can still be
/// fetched.
pub fn status_lines(
    config: &UplateConfig,
    latest: &str,
    tree_clean: bool,
    base_available: bool,
) -> (lines: Vec<String>)
    ensures
        lines.deep_view() == spec_status_lines(
            config.source@,
            config.current.commit@,
            latest@,
            tree_clean,
            base_available,
        ),
{
    let mut lines: Vec<String> = Vec::new();
    assert(lines.deep_view() =~= Seq::<Seq<char>>::empty());
    push_line(&mut lines, concat("Source: ", config.source.input.as_str()));
    push_line(&mut lines, concat("Remote: ", config.source.remote.as_str()));
    let ghost head = lines.deep_view();
    match &config.source.path {
        Some(p) => push_line(&mut lines, concat("Path: ", p.as_str())),
        None => {},
    }
    let ghost with_path = lines.deep_view();
    push_line(&mut lines, concat("Following ref: ", config.source.ref_name.as_str()));
    push_line(
        &mut lines,
        concat("Current template: ", short_commit(config.current.commit.as_str()).as_str()),
    );
    push_line(&mut lines, concat("Latest template:  ", short_commit(latest).as_str()));
    push_line(
        &mut lines,
        concat(
            "Working tree: ",
            if tree_clean {
                "clean"
            } else {
                "dirty"
            },
        ),
    );
    push_line(
        &mut lines,
        concat(
            "Base commit: ",
            if base_available {
                "available"
            } else {
                "missing"
            },
        ),
    );
    let ghost with_facts = lines.deep_view();
    let up_to_date = chars_eq(&to_chars(latest), &to_chars(config.current.commit.as_str()));
    if up_to_date {
        push_line(&mut lines, "Status: up to date".to_owned());
    } else {
        push_line(&mut lines, "Status: update available".to_owned());
        if tree_clean {
            push_line(&mut lines, "Run `uplate upgrade --dry-run` to preview changes.".to_owned());
        } else {
            push_line(
                &mut lines,
                "Working tree is dirty, commit or stash before upgrade.".to_owned(),
            );
        }
    }
    proof {
        let src = config.source@;
        assert(head =~= seq!["Source: "@ + src.input, "Remote: "@ + src.remote]);
        assert(with_path =~= head + (match src.path {
            Some(p) => seq!["Path: "@ + p],
            None => Seq::<Seq<char>>::empty(),
        }));
        assert(with_facts =~= with_path + seq![
            "Following ref: "@ + src.ref_name,
            "Current template: "@ + spec_short_commit(config.current.commit@),
            "Latest template:  "@ + spec_short_commit(latest@),
            "Working tree: "@ + (if tree_clean {
                "clean"@
            } else {
                "dirty"@
            }),
            "Base commit: "@ + (if base_available {
                "available"@
            } else {
                "missing"@
            }),
        ]);
        assert(lines.deep_view() =~= with_facts + spec_status_verdict(
            config.current.commit@,
            latest@,
            tree_clean,
        ));
    }
    lines
}


// ---------------------------------------------------------------------------
// Upgrade
// ---------------------------------------------------------------------------

/// What `upgrade` reports when the project already has the latest template,
/// or nothing when an upgrade is needed.
pub fn up_to_date_report(config: &UplateConfig, latest: &str) -> (res: Option<Vec<String>>)
    ensures
        res is Some <==> latest@ == config.current.commit@,
        res matches Some(lines) ==> lines.deep_view() == seq![
            "Already up to date at "@ + spec_short_commit(latest@),
        ],
{
    if chars_eq(&to_chars(latest), &to_chars(config.current.commit.as_str())) {
        let mut lines: Vec<String> = Vec::new();
        assert(lines.deep_view() =~= Seq::<Seq<char>>::empty());
        push_line(&mut lines, concat("Already up to date at ", short_commit(latest).as_str()));
        assert(lines.deep_view() =~= seq!["Already up to date at "@ + spec_short_commit(latest@)]);
        Some(lines)
    } else {
        None
    }
}

/// The outcome of a simulated three-way merge that went through: the patch
/// to apply to the project and its diff stat.
#[derive(Debug, Clone)]
pub struct UpgradeSimulation {
    pub patch: String,
    pub diff_stat: String,
}

/// The message of a simulated merge that found conflicts; `stderr` is what
/// git printed.
pub open spec fn spec_conflict_message(stderr: Seq<char>) -> Seq<char> {
    "Cannot safely upgrade.\n\nThe upgrade was simulated in a temporary merge and conflicts were detected. Your working tree was left untouched.\n\n"@
        + stderr
        + "\n\nRun `uplate upgrade --prompt` for a coding-agent prompt, or resolve manually by comparing your project against the latest boilerplate."@
}

/// The message of a simulated merge that found conflicts.
pub fn conflict_message(stderr: &str) -> (res: String)
    ensures
        res@ == spec_conflict_message(stderr@),
{
    let mut s = concat(
        "Cannot safely upgrade.\n\nThe upgrade was simulated in a temporary merge and conflicts were detected. Your working tree was left untouched.\n\n",
        stderr,
    );
    s.append(
        "\n\nRun `uplate upgrade --prompt` for a coding-agent prompt, or resolve manually by comparing your project against the latest boilerplate.",
    );
    s
}

/// What is done to the files of the merge repository before a command.
#[derive(Debug, Clone, Copy, PartialEq, Eq, Structural)]
pub enum FileAction {
    /// Copy the old template into it.
    CopyBaseTemplate,
    /// Replace its files, `.git` aside, with the project's.
    ReplaceWithProject,
    /// Replace its files, `.git` aside, with the latest template.
    ReplaceWithLatestTemplate,
}

/// Why the simulated merge gave no patch.
#[derive(Debug, Clone)]
pub enum SimulationError {
    /// A git command failed.
    Git(GitError),
    /// The merge found conflicts; `stderr` is what git printed.
    Conflict { stderr: String },
}

/// The text of a `SimulationError`.
pub enum SimulationErrorView {
    Git(GitErrorView),
    Conflict { stderr: Seq<char> },
}

impl View for SimulationError {
    type V = SimulationErrorView;

    open spec fn view(&self) -> SimulationErrorView {
        match self {
            SimulationError::Git(e) => SimulationErrorView::Git(e@),
            SimulationError::Conflict { stderr } => SimulationErrorView::Conflict {
                stderr: stderr@,
            },
        }
    }
}

/// The next move of the simulated merge: change the files as `files` says,
/// then run `command`; or finish.
#[derive(Debug)]
pub enum SimulationStep {
    Run { files: Option<FileAction>, command: GitCommand },
    Done(Result<UpgradeSimulation, SimulationError>),
}

/// The text of a `SimulationStep`.
pub enum SimulationStepView {
    Run { files: Option<FileAction>, command: GitCommandView },
    Done(Result<(Seq<char>, Seq<char>), SimulationErrorView>),
}

impl View for SimulationStep {
    type V = SimulationStepView;

    open spec fn view(&self) -> SimulationStepView {
        match self {
            SimulationStep::Run { files, command } => SimulationStepView::Run {
                files: *files,
                command: command@,
            },
            SimulationStep::Done(Ok(sim)) => SimulationStepView::Done(
                Ok((sim.patch@, sim.diff_stat@)),
            ),
            SimulationStep::Done(Err(e)) => SimulationStepView::Done(Err(e@)),
        }
    }
}

/// The number of git commands of a simulated merge.
pub open spec fn simulation_length() -> int {
    14
}

/// The file action that precedes command `k` of the simulated merge.
pub open spec fn simulation_files(k: int) -> Option<FileAction> {
    if k == 1 {
        Some(FileAction::CopyBaseTemplate)
    } else if k == 5 {
        Some(FileAction::ReplaceWithProject)
    } else if k == 8 {
        Some(FileAction::ReplaceWithLatestTemplate)
    } else {
        None
    }
}

/// The arguments of command `k` of the simulated merge; `base` is the
/// commit of the old template.
pub open spec fn simulation_args(k: int, base: Seq<char>) -> Seq<Seq<char>> {
    if k == 0 {
        seq!["init"@, "--quiet"@]
    } else if k == 1 || k == 5 || k == 8 {
        seq!["add"@, "-A"@]
    } else if k == 2 {
        commit_args("uplate base"@)
    } else if k == 3 {
        seq!["rev-parse"@, "HEAD"@]
    } else if k == 4 {
        seq!["checkout"@, "--quiet"@, "-b"@, "ours"@]
    } else if k == 6 {
        commit_args("uplate ours"@)
    } else if k == 7 {
        seq!["checkout"@, "--quiet"@, "-b"@, "theirs"@, base]
    } else if k == 9 {
        commit_args("uplate theirs"@)
    } else if k == 10 {
        seq!["checkout"@, "--quiet"@, "ours"@]
    } else if k == 11 {
        seq!["merge"@, "--no-commit"@, "--no-ff"@, "theirs"@]
    } else if k == 12 {
        seq!["diff"@, "--stat"@, "HEAD"@]
    } else {
        seq!["diff"@, "--binary"@, "HEAD"@]
    }
}

/// What a command that exited printed; nothing for one that did not start.
pub open spec fn printed(o: GitOutcomeView) -> GitOutputView {
    match o {
        GitOutcomeView::Exited { output, .. } => output,
        GitOutcomeView::NotStarted { .. } => GitOutputView {
            stdout: Seq::<char>::empty(),
            stderr: Seq::<char>::empty(),
        },
    }
}

/// The commit of the old template: what `rev-parse HEAD`, command 3, printed, trimmed.
pub open spec fn simulation_base(h: Seq<GitOutcomeView>) -> Seq<char> {
    if h.len() > 3 {
        trim(printed(h[3]).stdout)
    } else {
        Seq::<char>::empty()
    }
}

/// The simulated merge from command `k` on, all earlier ones having succeeded.
pub open spec fn simulation_from(repo: Seq<char>, h: Seq<GitOutcomeView>, k: int) -> SimulationStepView
    decreases simulation_length() - k,
{
    let c = spec_command(Some(repo), simulation_args(k, simulation_base(h)));
    if k >= simulation_length() {
        SimulationStepView::Done(Ok((printed(h[13]).stdout, printed(h[12]).stdout)))
    } else if k >= h.len() {
        SimulationStepView::Run { files: simulation_files(k), command: c }
    } else if k == 11 {
        match spec_allowed(h[11]) {
            Err(e) => SimulationStepView::Done(Err(SimulationErrorView::Git(e))),
            Ok((false, out)) => SimulationStepView::Done(
                Err(SimulationErrorView::Conflict { stderr: out.stderr }),
            ),
            Ok((true, _)) => simulation_from(repo, h, k + 1),
        }
    } else {
        match spec_checked(c, h[k]) {
            Err(e) => SimulationStepView::Done(Err(SimulationErrorView::Git(e))),
            Ok(_) => simulation_from(repo, h, k + 1),
        }
    }
}

/// The simulated three-way merge in the empty repository `repo`: commit
/// the old template, branch `ours` from it with the project's files,
/// branch `theirs` from it with the latest template, merge `theirs` into
/// `ours` without committing, and read the diff stat and the patch.
pub open spec fn spec_simulate_merge(repo: Seq<char>, h: Seq<GitOutcomeView>) -> SimulationStepView {
    simulation_from(repo, h, 0)
}

/// Command `k` of the simulated merge.
fn simulation_command(repo: &str, k: usize, base: &str) -> (c: GitCommand)
    requires
        k < 14,
    ensures
        c@ == spec_command(Some(repo@), simulation_args(k as int, base@)),
{
    if k == 2 {
        return commit_command(repo, "uplate base");
    } else if k == 6 {
        return commit_command(repo, "uplate ours");
    } else if k == 9 {
        return commit_command(repo, "uplate theirs");
    }
    let args = if k == 0 {
        args2("init", "--quiet")
    } else if k == 1 || k == 5 || k == 8 {
        args2("add", "-A")
    } else if k == 3 {
        args2("rev-parse", "HEAD")
    } else if k == 4 {
        args4("checkout", "--quiet", "-b", "ours")
    } else if k == 7 {
        args5("checkout", "--quiet", "-b", "theirs", base)
    } else if k == 10 {
        args3("checkout", "--quiet", "ours")
    } else if k == 11 {
        args4("merge", "--no-commit", "--no-ff", "theirs")
    } else if k == 12 {
        args3("diff", "--stat", "HEAD")
    } else {
        args3("diff", "--binary", "HEAD")
    };
    command(Some(repo), args)
}

/// The file action before command `k`.
fn simulation_files_exec(k: usize) -> (res: Option<FileAction>)
    ensures
        res == simulation_files(k as int),
{
    if k == 1 {
        Some(FileAction::CopyBaseTemplate)
    } else if k == 5 {
        Some(FileAction::ReplaceWithProject)
    } else if k == 8 {
        Some(FileAction::ReplaceWithLatestTemplate)
    } else {
        None
    }
}

/// What a command that exited printed.
fn printed_exec(o: &GitOutcome) -> (res: (String, String))
    ensures
        res.0@ == printed(o@).stdout,
        res.1@ == printed(o@).stderr,
{
    match o {
        GitOutcome::Exited { output, .. } => (output.stdout.clone(), output.stderr.clone()),
        GitOutcome::NotStarted { .. } => (String::new(), String::new()),
    }
}

/// Simulates the three-way upgrade merge in the empty repository
/// `merge_repo`: the old template as the base, the project as `ours`, the
/// latest template as `theirs`. Gives the patch that takes the project to
/// the merge result and its diff stat, or the conflict git reported.
pub fn simulate_merge(merge_repo: &str, history: &[GitOutcome]) -> (step: SimulationStep)
    ensures
        step@ == spec_simulate_merge(merge_repo@, history.deep_view()),
{
    let ghost h = history.deep_view();
    let base = if history.len() > 3 {
        let (out, _) = printed_exec(&history[3]);
        from_chars(&trim_chars(&to_chars(out.as_str())))
    } else {
        String::new()
    };
    assert(base@ == simulation_base(h));
    let mut k: usize = 0;
    while k < history.len() && k < 14
        invariant
            h == history.deep_view(),
            base@ == simulation_base(h),
            k <= 14,
            k <= history@.len(),
            simulation_from(merge_repo@, h, 0) == simulation_from(merge_repo@, h, k as int),
        decreases 14 - k,
    {
        if k == 11 {
            match allowed(&history[11]) {
                Err(e) => return SimulationStep::Done(Err(SimulationError::Git(e))),
                Ok((false, out)) => return SimulationStep::Done(
                    Err(SimulationError::Conflict { stderr: out.stderr }),
                ),
                Ok((true, _)) => {},
            }
        } else {
            let c = simulation_command(merge_repo, k, base.as_str());
            match checked(&c, &history[k]) {
                Err(e) => return SimulationStep::Done(Err(SimulationError::Git(e))),
                Ok(_) => {},
            }
        }
        k += 1;
    }
    if k < 14 {
        return SimulationStep::Run {
            files: simulation_files_exec(k),
            command: simulation_command(merge_repo, k, base.as_str()),
        };
    }
    let (diff_stat, _) = printed_exec(&history[12]);
    let (patch, _) = printed_exec(&history[13]);
    SimulationStep::Done(Ok(UpgradeSimulation { patch, diff_stat }))
}

/// The prompt for a coding agent that is to finish an upgrade of a project
/// following `source` from `current` to `latest` which failed with `error`.
pub open spec fn spec_agent_prompt(
    source: SourceConfigView,
    current: Seq<char>,
    latest: Seq<char>,
    error: Seq<char>,
) -> Seq<char> {
    "\n--- uplate upgrade prompt ---\nI'm upgrading a project that tracks a detached boilerplate with uplate.\n\nSource input: "@
        + source.input + "\nRemote: "@ + source.remote + "\nSubpath: "@ + (match source.path {
        Some(p) => p,
        None => "."@,
    }) + "\nPrevious template commit: "@ + current + "\nLatest template commit: "@ + latest
        + "\n\nuplate tried to simulate a conservative 3-way merge in a temporary directory before touching the project, but it could not apply the upgrade cleanly. The user's working tree was left untouched.\n\nError:\n"@
        + error
        + "\n\nPlease help manually apply the upstream boilerplate changes from the previous template commit to the latest template commit, preserving user modifications. Do not write conflict markers unless explicitly needed, and do not commit changes. Update .uplate.jsonc current.commit to the latest template commit only if the upgrade is fully resolved.\n--- end prompt ---"@
}

/// The prompt for a coding agent after an upgrade of `config`'s project to
/// `latest` failed with `error`.
pub fn agent_prompt(config: &UplateConfig, latest: &str, error: &str) -> (res: String)
    ensures
        res@ == spec_agent_prompt(config.source@, config.current.commit@, latest@, error@),
{
    let mut s = concat(
        "\n--- uplate upgrade prompt ---\nI'm upgrading a project that tracks a detached boilerplate with uplate.\n\nSource input: ",
        config.source.input.as_str(),
    );
    s.append("\nRemote: ");
    s.append(config.source.remote.as_str());
    s.append("\nSubpath: ");
    match &config.source.path {
        Some(p) => s.append(p.as_str()),
        None => s.append("."),
    }
    s.append("\nPrevious template commit: ");
    s.append(config.current.commit.as_str());
    s.append("\nLatest template commit: ");
    s.append(latest);
    s.append(
        "\n\nuplate tried to simulate a conservative 3-way merge in a temporary directory before touching the project, but it could not apply the upgrade cleanly. The user's working tree was left untouched.\n\nError:\n",
    );
    s.append(error);
    s.append(
        "\n\nPlease help manually apply the upstream boilerplate changes from the previous template commit to the latest template commit, preserving user modifications. Do not write conflict markers unless explicitly needed, and do not commit changes. Update .uplate.jsonc current.commit to the latest template commit only if the upgrade is fully resolved.\n--- end prompt ---",
    );
    s
}

/// What `upgrade` does once the merge has been simulated.
#[derive(Debug, Clone)]
pub enum AfterSimulation {
    /// The simulation failed: report `say`, then fail with its error.
    Fail { say: Vec<String> },
    /// A dry run: report `say`, then stop without touching anything.
    Stop { say: Vec<String> },
    /// Nothing in the project changes: report `say`, then record the upgrade.
    Record { say: Vec<String> },
    /// Check that the work tree is still clean, apply the patch, then record
    /// the upgrade.
    ApplyThenRecord,
}

/// The notice of an upgrade that changes no file.
pub open spec fn no_changes_notice() -> Seq<char> {
    "No file changes needed, but updating uplate metadata."@
}

/// The preview of a dry run from `current` to `latest` with `diff_stat`.
pub open spec fn spec_preview_lines(
    current: Seq<char>,
    latest: Seq<char>,
    diff_stat: Seq<char>,
) -> Seq<Seq<char>> {
    seq![
        "Upgrade preview: "@ + spec_short_commit(current) + " -> "@ + spec_short_commit(latest),
        if trim(diff_stat).len() == 0 {
            "No diff stat available."@
        } else {
            diff_stat
        },
    ]
}

/// The text of an `AfterSimulation`.
pub enum AfterSimulationView {
    Fail { say: Seq<Seq<char>> },
    Stop { say: Seq<Seq<char>> },
    Record { say: Seq<Seq<char>> },
    ApplyThenRecord,
}

impl View for AfterSimulation {
    type V = AfterSimulationView;

    open spec fn view(&self) -> AfterSimulationView {
        match self {
            AfterSimulation::Fail { say } => AfterSimulationView::Fail { say: say.deep_view() },
            AfterSimulation::Stop { say } => AfterSimulationView::Stop { say: say.deep_view() },
            AfterSimulation::Record { say } => AfterSimulationView::Record { say: say.deep_view() },
            AfterSimulation::ApplyThenRecord => AfterSimulationView::ApplyThenRecord,
        }
    }
}

/// The decision after a simulation that ended in `simulation` (its patch
/// and diff stat, or the text of its error).
pub open spec fn spec_after_simulation(
    args: UpgradeArgs,
    source: SourceConfigView,
    current: Seq<char>,
    latest: Seq<char>,
    simulation: Result<(Seq<char>, Seq<char>), Seq<char>>,
) -> AfterSimulationView {
    match simulation {
        Err(error) => AfterSimulationView::Fail {
            say: if args.prompt {
                seq![spec_agent_prompt(source, current, latest, error)]
            } else {
                Seq::<Seq<char>>::empty()
            },
        },
        Ok((patch, diff_stat)) => if trim(patch).len() == 0 {
            if args.dry_run {
                AfterSimulationView::Stop { say: seq![no_changes_notice()] }
            } else {
                AfterSimulationView::Record { say: seq![no_changes_notice()] }
            }
        } else if args.dry_run {
            AfterSimulationView::Stop { say: spec_preview_lines(current, latest, diff_stat) }
        } else {
            AfterSimulationView::ApplyThenRecord
        },
    }
}

/// The view of a simulation's result.
pub open spec fn simulation_view(r: Result<UpgradeSimulation, String>) -> Result<
    (Seq<char>, Seq<char>),
    Seq<char>,
> {
    match r {
        Ok(sim) => Ok((sim.patch@, sim.diff_stat@)),
        Err(e) => Err(e@),
    }
}

/// What `upgrade` does after simulating the merge of `config`'s project to
/// `latest`: on failure it reports the agent prompt if asked to and fails;
/// a dry run reports and stops; otherwise the upgrade is recorded, after
/// the patch is applied when it changes anything.
pub fn after_simulation(
    args: UpgradeArgs,
    config: &UplateConfig,
    latest: &str,
    simulation: Result<UpgradeSimulation, String>,
) -> (res: AfterSimulation)
    ensures
        res@ == spec_after_simulation(
            args,
            config.source@,
            config.current.commit@,
            latest@,
            simulation_view(simulation),
        ),
{
    let mut say: Vec<String> = Vec::new();
    assert(say.deep_view() =~= Seq::<Seq<char>>::empty());
    match simulation {
        Err(error) => {
            if args.prompt {
                push_line(&mut say, agent_prompt(config, latest, error.as_str()));
                assert(say.deep_view() =~= seq![
                    spec_agent_prompt(config.source@, config.current.commit@, latest@, error@),
                ]);
            }
            AfterSimulation::Fail { say }
        },
        Ok(sim) => {
            if is_blank(&to_chars(sim.patch.as_str())) {
                push_line(&mut say, "No file changes needed, but updating uplate metadata.".to_owned());
                assert(say.deep_view() =~= seq![no_changes_notice()]);
                if args.dry_run {
                    AfterSimulation::Stop { say }
                } else {
                    AfterSimulation::Record { say }
                }
            } else if args.dry_run {
                let mut first = concat(
                    "Upgrade preview: ",
                    short_commit(config.current.commit.as_str()).as_str(),
                );
                first.append(" -> ");
                first.append(short_commit(latest).as_str());
                push_line(&mut say, first);
                if is_blank(&to_chars(sim.diff_stat.as_str())) {
                    push_line(&mut say, "No diff stat available.".to_owned());
                } else {
                    push_line(&mut say, sim.diff_stat);
                }
                assert(say.deep_view() =~= spec_preview_lines(
                    config.current.commit@,
                    latest@,
                    sim.diff_stat@,
                ));
                AfterSimulation::Stop { say }
            } else {
                AfterSimulation::ApplyThenRecord
            }
        },
    }
}

/// Records in `config` that the project now has template `latest`, as of
/// `now`.
pub fn record_upgrade(config: &mut UplateConfig, latest: &str, now: Timestamp)
    ensures
        final(config).current.commit@ == latest@,
        final(config).base.commit@ == latest@,
        final(config).current.upgraded_at == Some(now),
        final(config).source == old(config).source,
        final(config).base.ref_name == old(config).base.ref_name,
        final(config).base.tag == old(config).base.tag,
        final(config).schema_version == old(config).schema_version,
        final(config).created_at == old(config).created_at,
{
    config.current.commit = latest.to_owned();
    config.base.commit = latest.to_owned();
    config.current.upgraded_at = Some(now);
}

/// What `upgrade` reports after upgrading from `previous` to `latest`.
pub fn upgraded_lines(previous: &str, latest: &str) -> (lines: Vec<String>)
    ensures
        lines.deep_view() == seq![
            "Upgraded template "@ + spec_short_commit(previous@) + " -> "@ + spec_short_commit(
                latest@,
            ),
            "Review the changes, then commit them with git."@,
        ],
{
    let mut lines: Vec<String> = Vec::new();
    assert(lines.deep_view() =~= Seq::<Seq<char>>::empty());
    let mut first = concat("Upgraded template ", short_commit(previous).as_str());
    first.append(" -> ");
    first.append(short_commit(latest).as_str());
    push_line(&mut lines, first);
    push_line(&mut lines, "Review the changes, then commit them with git.".to_owned());
    assert(lines.deep_view() =~= seq![
        "Upgraded template "@ + spec_short_commit(previous@) + " -> "@ + spec_short_commit(
            latest@,
        ),
        "Review the changes, then commit them with git."@,
    ]);
    lines
}


// ---------------------------------------------------------------------------
// Laws
// ---------------------------------------------------------------------------

/// A dry run never touches the project: after any simulation it either
/// fails or stops, never applying a patch or recording an upgrade.
pub proof fn law_dry_run_changes_nothing(
    args: UpgradeArgs,
    source: SourceConfigView,
    current: Seq<char>,
    latest: Seq<char>,
    simulation: Result<(Seq<char>, Seq<char>), Seq<char>>,
)
    requires
        args.dry_run,
    ensures
        spec_after_simulation(args, source, current, latest, simulation) is Fail
            || spec_after_simulation(args, source, current, latest, simulation) is Stop,
{
}

/// The metadata is updated only after a simulation that went through: a
/// failed simulation never leads to recording, and a patch that changes
/// files is applied before the upgrade is recorded.
pub proof fn law_upgrade_recorded_only_after_clean_merge(
    args: UpgradeArgs,
    source: SourceConfigView,
    current: Seq<char>,
    latest: Seq<char>,
    simulation: Result<(Seq<char>, Seq<char>), Seq<char>>,
)
    ensures
        simulation is Err ==> spec_after_simulation(args, source, current, latest, simulation)
            is Fail,
        spec_after_simulation(args, source, current, latest, simulation) is Record ==> (
        simulation matches Ok((patch, _)) && trim(patch).len() == 0 && !args.dry_run),
        spec_after_simulation(args, source, current, latest, simulation) is ApplyThenRecord ==> (
        simulation matches Ok((patch, _)) && trim(patch).len() != 0 && !args.dry_run),
{
}

/// A failed upgrade prints the coding-agent prompt exactly when asked for.
pub proof fn law_prompt_only_when_asked(
    args: UpgradeArgs,
    source: SourceConfigView,
    current: Seq<char>,
    latest: Seq<char>,
    error: Seq<char>,
)
    ensures
        spec_after_simulation(args, source, current, latest, Err(error)) matches AfterSimulationView::Fail {
            say,
        } && (say.len() > 0 <==> args.prompt),
{
}

/// `status` reports "up to date" exactly when the latest template commit is
/// the one the project has.
pub proof fn law_status_up_to_date_iff_same_commit(
    source: SourceConfigView,
    current: Seq<char>,
    latest: Seq<char>,
    tree_clean: bool,
    base_available: bool,
)
    ensures
        spec_status_lines(source, current, latest, tree_clean, base_available).last()
            == "Status: up to date"@ <==> latest == current,
{
    reveal_strlit("Status: up to date");
    reveal_strlit("Run `uplate upgrade --dry-run` to preview changes.");
    reveal_strlit("Working tree is dirty, commit or stash before upgrade.");
    let lines = spec_status_lines(source, current, latest, tree_clean, base_available);
    let verdict = spec_status_verdict(current, latest, tree_clean);
    assert(lines.last() == verdict.last());
}

/// A base named by text shaped like a commit name is never taken for a tag
/// and asks git nothing; a tag is recorded only under the name the user
/// gave, and only when it resolves to the base commit.
pub proof fn law_tag_recorded_only_when_it_names_the_base(
    repo: Seq<char>,
    input: Seq<char>,
    commit: Seq<char>,
    h: Seq<GitOutcomeView>,
)
    ensures
        looks_like_commit(input) ==> spec_resolve_tag_if_exact(repo, input, commit, h)
            == GitStepView::<Option<Seq<char>>>::Done(Ok(None)),
        spec_resolve_tag_if_exact(repo, input, commit, h) matches GitStepView::Done(Ok(Some(t)))
            ==> t == input && !looks_like_commit(input),
        h.len() >= 2 ==> spec_resolve_tag_if_exact(repo, input, commit, h) is Done,
{
}


/// A command that exited successfully.
pub open spec fn succeeded(o: GitOutcomeView) -> bool {
    o matches GitOutcomeView::Exited { success, .. } && success
}

/// The simulated merge from command `k` asks for command number `h.len()`
/// next, yields a patch only after every command from `k` on succeeded,
/// and is done once all commands have outcomes.
proof fn lemma_simulation_from(repo: Seq<char>, h: Seq<GitOutcomeView>, k: int)
    requires
        0 <= k <= simulation_length(),
        k <= h.len(),
    ensures
        simulation_from(repo, h, k) matches SimulationStepView::Run { files, command } ==> {
            &&& h.len() < simulation_length()
            &&& files == simulation_files(h.len() as int)
            &&& command == spec_command(
                Some(repo),
                simulation_args(h.len() as int, simulation_base(h)),
            )
        },
        simulation_from(repo, h, k) matches SimulationStepView::Done(Ok(_)) ==> {
            &&& h.len() >= simulation_length()
            &&& forall|j: int| k <= j < simulation_length() ==> succeeded(#[trigger] h[j])
        },
        h.len() >= simulation_length() ==> simulation_from(repo, h, k) is Done,
    decreases simulation_length() - k,
{
    if k < simulation_length() && k < h.len() {
        lemma_simulation_from(repo, h, k + 1);
    }
}

/// The simulated merge asks for its commands in a fixed order, one per
/// outcome so far: command `n` after `n` outcomes, preceded by its file
/// action; the `theirs` branch starts at the commit that `rev-parse HEAD`
/// gave for the old template. With all fourteen outcomes it is done.
pub proof fn law_simulation_follows_the_merge_plan(repo: Seq<char>, h: Seq<GitOutcomeView>)
    ensures
        spec_simulate_merge(repo, h) matches SimulationStepView::Run { files, command } ==> {
            &&& h.len() < simulation_length()
            &&& files == simulation_files(h.len() as int)
            &&& command == spec_command(
                Some(repo),
                simulation_args(h.len() as int, simulation_base(h)),
            )
        },
        h.len() >= simulation_length() ==> spec_simulate_merge(repo, h) is Done,
{
    lemma_simulation_from(repo, h, 0);
}

/// The simulated merge yields a patch only when every command succeeded,
/// the merge included; a merge that reports conflicts yields none.
pub proof fn law_patch_only_from_a_clean_merge(repo: Seq<char>, h: Seq<GitOutcomeView>)
    ensures
        spec_simulate_merge(repo, h) is Done && (spec_simulate_merge(repo, h) matches SimulationStepView::Done(Ok(_)))
            ==> forall|j: int| 0 <= j < simulation_length() ==> succeeded(#[trigger] h[j]),
        h.len() > 11 && (forall|j: int| 0 <= j < 11 ==> succeeded(#[trigger] h[j])) && (
        h[11] matches GitOutcomeView::Exited { success, output } && !success)
            ==> spec_simulate_merge(repo, h) == SimulationStepView::Done(
            Err(SimulationErrorView::Conflict { stderr: printed(h[11]).stderr }),
        ),
{
    lemma_simulation_from(repo, h, 0);
    if h.len() > 11 && (forall|j: int| 0 <= j < 11 ==> succeeded(#[trigger] h[j])) && (
    h[11] matches GitOutcomeView::Exited { success, output } && !success) {
        lemma_simulation_reaches(repo, h, 0);
    }
}

/// With the first eleven commands successful, the simulation reaches the merge.
proof fn lemma_simulation_reaches(repo: Seq<char>, h: Seq<GitOutcomeView>, k: int)
    requires
        0 <= k <= 11,
        h.len() > 11,
        forall|j: int| 0 <= j < 11 ==> succeeded(#[trigger] h[j]),
    ensures
        simulation_from(repo, h, k) == simulation_from(repo, h, 11),
    decreases 11 - k,
{
    if k < 11 {
        assert(succeeded(h[k]));
        lemma_simulation_reaches(repo, h, k + 1);
    }
}

/// A plain upgrade (no `--dry-run`) whose simulated merge produced a patch
/// with content applies that patch and records the new commit, whatever the
/// diff stat says and whether or not `--prompt` was given; the same
/// simulation under `--dry-run` only previews it.
pub proof fn law_clean_patch_is_applied_unless_dry_run(
    args: UpgradeArgs,
    source: SourceConfigView,
    current: Seq<char>,
    latest: Seq<char>,
    patch: Seq<char>,
    diff_stat: Seq<char>,
)
    requires
        trim(patch).len() != 0,
    ensures
        !args.dry_run ==> spec_after_simulation(args, source, current, latest, Ok((patch, diff_stat)))
            == AfterSimulationView::ApplyThenRecord,
        args.dry_run ==> spec_after_simulation(args, source, current, latest, Ok((patch, diff_stat)))
            is Stop,
{
}

/// The first `n` characters of `c`, or all of it when it is shorter.
pub open spec fn first_chars(c: Seq<char>, n: int) -> Seq<char> {
    c.take(if c.len() < n {
        c.len() as int
    } else {
        n
    })
}

/// `status` shows both commits, each by its first twelve characters: the
/// current one as the current template and the latest one as the latest
/// template, whether or not they differ.
pub proof fn law_status_shows_current_and_latest(
    source: SourceConfigView,
    current: Seq<char>,
    latest: Seq<char>,
    tree_clean: bool,
    base_available: bool,
)
    ensures
        exists|i: int|
            0 <= i < spec_status_lines(source, current, latest, tree_clean, base_available).len()
                && #[trigger] spec_status_lines(source, current, latest, tree_clean, base_available)[i]
                == "Current template: "@ + first_chars(current, 12),
        exists|i: int|
            0 <= i < spec_status_lines(source, current, latest, tree_clean, base_available).len()
                && #[trigger] spec_status_lines(source, current, latest, tree_clean, base_available)[i]
                == "Latest template:  "@ + first_chars(latest, 12),
{
    let lines = spec_status_lines(source, current, latest, tree_clean, base_available);
    let k: int = if source.path is Some {
        4
    } else {
        3
    };
    assert(current.len() <= 12 ==> current.take(current.len() as int) =~= current);
    assert(latest.len() <= 12 ==> latest.take(latest.len() as int) =~= latest);
    assert(lines[k] == "Current template: "@ + first_chars(current, 12));
    assert(lines[k + 1] == "Latest template:  "@ + first_chars(latest, 12));
}

/// Once git is known to run, the command line's subcommand is carried out
/// with the options it was given: `upgrade` keeps `--dry-run` and
/// `--prompt` as they were, `create` and `adopt` keep their arguments, and
/// without a subcommand the shorthand's source and destination are used.
pub proof fn law_dispatch_keeps_the_options(cli: Cli)
    ensures
        forall|a: UpgradeArgs|
            cli.command == Some(Command::Upgrade(a)) <==> spec_invocation(cli)
                == Invocation::Upgrade(a),
        cli.command matches Some(Command::Status(_)) <==> spec_invocation(cli)
            == Invocation::Status,
        cli.command matches Some(Command::Adopt(a)) ==> spec_invocation(cli)
            == (Invocation::Adopt { source: a.source, base: a.base }),
        cli.command matches Some(Command::Create(a)) ==> spec_invocation(cli)
            == (Invocation::Create { source: a.source, destination: a.destination }),
        cli.command is None ==> spec_invocation(cli) == (Invocation::Create {
            source: cli.source,
            destination: cli.destination,
        }),
{
}

} // verus!
