//! The git conversations the tool holds, each as a protocol: given the
//! outcomes of the commands run so far, an operation either names the next
//! git command to run or gives its result. Whoever runs the commands feeds
//! each outcome back until the operation is done.
use vstd::prelude::*;
use crate::text::{
    before_char, before_char_exec, from_chars, join, lemma_char_vec_deep_view, lines,
    lines_exec, push_all, slice, starts_with, starts_with_exec, to_chars, trim, trim_chars,
    chars_eq,
};

verus! {

broadcast use lemma_char_vec_deep_view;

// ---------------------------------------------------------------------------
// Types
// ---------------------------------------------------------------------------

/// What a finished git command printed.
#[derive(Debug, Clone)]
pub struct GitOutput {
    pub stdout: String,
    pub stderr: String,
}

/// The text of a `GitOutput`.
pub struct GitOutputView {
    pub stdout: Seq<char>,
    pub stderr: Seq<char>,
}

impl View for GitOutput {
    type V = GitOutputView;

    open spec fn view(&self) -> GitOutputView {
        GitOutputView { stdout: self.stdout@, stderr: self.stderr@ }
    }
}

impl DeepView for GitOutput {
    type V = GitOutputView;

    open spec fn deep_view(&self) -> GitOutputView {
        self@
    }
}

/// A git command: the directory it runs in, its arguments after `git`, and
/// what to write to its standard input.
#[derive(Debug, Clone)]
pub struct GitCommand {
    pub cwd: Option<String>,
    pub args: Vec<String>,
    pub stdin: Option<String>,
}

/// The text of a `GitCommand`.
pub struct GitCommandView {
    pub cwd: Option<Seq<char>>,
    pub args: Seq<Seq<char>>,
    pub stdin: Option<Seq<char>>,
}

impl View for GitCommand {
    type V = GitCommandView;

    open spec fn view(&self) -> GitCommandView {
        GitCommandView {
            cwd: self.cwd.deep_view(),
            args: self.args.deep_view(),
            stdin: self.stdin.deep_view(),
        }
    }
}

/// What became of a git command: it could not be started, or it exited.
#[derive(Debug, Clone)]
pub enum GitOutcome {
    NotStarted { cause: String },
    Exited { success: bool, output: GitOutput },
}

/// The text of a `GitOutcome`.
pub enum GitOutcomeView {
    NotStarted { cause: Seq<char> },
    Exited { success: bool, output: GitOutputView },
}

impl View for GitOutcome {
    type V = GitOutcomeView;

    open spec fn view(&self) -> GitOutcomeView {
        match self {
            GitOutcome::NotStarted { cause } => GitOutcomeView::NotStarted { cause: cause@ },
            GitOutcome::Exited { success, output } => GitOutcomeView::Exited {
                success: *success,
                output: output@,
            },
        }
    }
}

impl DeepView for GitOutcome {
    type V = GitOutcomeView;

    open spec fn deep_view(&self) -> GitOutcomeView {
        self@
    }
}

/// Why a git operation failed.
#[derive(Debug, Clone)]
pub enum GitErrorKind {
    /// The command could not be started.
    Spawn { command: String, cause: String },
    /// The command exited unsuccessfully.
    Failed { command: String, stderr: String },
    /// `ls-remote` listed nothing for the ref.
    RefNotFound { ref_name: String, remote: String },
    /// `ls-remote` printed a line without a tab.
    UnexpectedLsRemote { ref_name: String, line: String },
    /// The directory is not inside a git work tree.
    NotARepository { path: String },
    /// The work tree has uncommitted changes.
    DirtyWorktree,
}

/// A failed git operation: what failed, and what was being attempted.
#[derive(Debug, Clone)]
pub struct GitError {
    pub context: Option<String>,
    pub kind: GitErrorKind,
}

/// The text of a `GitErrorKind`.
pub enum GitErrorKindView {
    Spawn { command: Seq<char>, cause: Seq<char> },
    Failed { command: Seq<char>, stderr: Seq<char> },
    RefNotFound { ref_name: Seq<char>, remote: Seq<char> },
    UnexpectedLsRemote { ref_name: Seq<char>, line: Seq<char> },
    NotARepository { path: Seq<char> },
    DirtyWorktree,
}

/// The text of a `GitError`.
pub struct GitErrorView {
    pub context: Option<Seq<char>>,
    pub kind: GitErrorKindView,
}

impl View for GitErrorKind {
    type V = GitErrorKindView;

    open spec fn view(&self) -> GitErrorKindView {
        match self {
            GitErrorKind::Spawn { command, cause } => GitErrorKindView::Spawn {
                command: command@,
                cause: cause@,
            },
            GitErrorKind::Failed { command, stderr } => GitErrorKindView::Failed {
                command: command@,
                stderr: stderr@,
            },
            GitErrorKind::RefNotFound { ref_name, remote } => GitErrorKindView::RefNotFound {
                ref_name: ref_name@,
                remote: remote@,
            },
            GitErrorKind::UnexpectedLsRemote { ref_name, line } =>
                GitErrorKindView::UnexpectedLsRemote { ref_name: ref_name@, line: line@ },
            GitErrorKind::NotARepository { path } => GitErrorKindView::NotARepository {
                path: path@,
            },
            GitErrorKind::DirtyWorktree => GitErrorKindView::DirtyWorktree,
        }
    }
}

impl View for GitError {
    type V = GitErrorView;

    open spec fn view(&self) -> GitErrorView {
        GitErrorView { context: self.context.deep_view(), kind: self.kind@ }
    }
}

impl GitErrorKindView {
    /// The message of the failure itself.
    pub open spec fn message(self) -> Seq<char> {
        match self {
            GitErrorKindView::Spawn { command, cause } => "failed to run "@ + command,
            GitErrorKindView::Failed { command, stderr } => command + " failed\n"@ + stderr,
            GitErrorKindView::RefNotFound { ref_name, remote } => "could not find ref "@
                + ref_name + " in "@ + remote,
            GitErrorKindView::UnexpectedLsRemote { ref_name, line } =>
                "unexpected ls-remote output for "@ + ref_name + ": "@ + line,
            GitErrorKindView::NotARepository { path } => path
                + " is not a git repository. uplate requires git for v1."@,
            GitErrorKindView::DirtyWorktree =>
                "working tree is not clean. Commit, stash, or discard your changes before running uplate."@,
        }
    }
}

impl GitErrorView {
    /// The message shown first: what was attempted, else what failed.
    pub open spec fn message(self) -> Seq<char> {
        match self.context {
            Some(c) => c,
            None => self.kind.message(),
        }
    }
}

impl GitErrorKind {
    /// The message of the failure itself.
    pub fn to_string(&self) -> (res: String)
        ensures
            res@ == self@.message(),
    {
        match self {
            GitErrorKind::Spawn { command, cause: _ } => {
                let mut s = "failed to run ".to_owned();
                s.append(command.as_str());
                s
            },
            GitErrorKind::Failed { command, stderr } => {
                let mut s = command.clone();
                s.append(" failed\n");
                s.append(stderr.as_str());
                s
            },
            GitErrorKind::RefNotFound { ref_name, remote } => {
                let mut s = "could not find ref ".to_owned();
                s.append(ref_name.as_str());
                s.append(" in ");
                s.append(remote.as_str());
                s
            },
            GitErrorKind::UnexpectedLsRemote { ref_name, line } => {
                let mut s = "unexpected ls-remote output for ".to_owned();
                s.append(ref_name.as_str());
                s.append(": ");
                s.append(line.as_str());
                s
            },
            GitErrorKind::NotARepository { path } => {
                let mut s = path.clone();
                s.append(" is not a git repository. uplate requires git for v1.");
                s
            },
            GitErrorKind::DirtyWorktree =>
                "working tree is not clean. Commit, stash, or discard your changes before running uplate.".to_owned(),
        }
    }
}

impl GitError {
    /// The message shown first: what was attempted, else what failed.
    pub fn to_string(&self) -> (res: String)
        ensures
            res@ == self@.message(),
    {
        match &self.context {
            Some(c) => c.clone(),
            None => self.kind.to_string(),
        }
    }
}

/// The next move of a git operation: run a command, or finish.
#[derive(Debug)]
pub enum GitStep<T> {
    Run(GitCommand),
    Done(Result<T, GitError>),
}

/// The text of a `GitStep`.
pub enum GitStepView<V> {
    Run(GitCommandView),
    Done(Result<V, GitErrorView>),
}

impl<T: DeepView> View for GitStep<T> {
    type V = GitStepView<T::V>;

    open spec fn view(&self) -> GitStepView<T::V> {
        match self {
            GitStep::Run(c) => GitStepView::Run(c@),
            GitStep::Done(Ok(v)) => GitStepView::Done(Ok(v.deep_view())),
            GitStep::Done(Err(e)) => GitStepView::Done(Err(e@)),
        }
    }
}

// ---------------------------------------------------------------------------
// Specification of single commands
// ---------------------------------------------------------------------------

/// A command without standard input.
pub open spec fn spec_command(cwd: Option<Seq<char>>, args: Seq<Seq<char>>) -> GitCommandView {
    GitCommandView { cwd, args, stdin: None }
}

/// How a command is shown in messages: `git` and its arguments, separated by spaces.
pub open spec fn spec_render(c: GitCommandView) -> Seq<char> {
    join(seq!["git"@] + c.args, " "@)
}

/// A failure without context.
pub open spec fn plain_error(kind: GitErrorKindView) -> GitErrorView {
    GitErrorView { context: None, kind }
}

/// The output of a command that must succeed, or why it did not.
pub open spec fn spec_checked(c: GitCommandView, o: GitOutcomeView) -> Result<
    GitOutputView,
    GitErrorView,
> {
    match o {
        GitOutcomeView::NotStarted { cause } => Err(
            plain_error(GitErrorKindView::Spawn { command: spec_render(c), cause }),
        ),
        GitOutcomeView::Exited { success, output } => if success {
            Ok(output)
        } else {
            Err(plain_error(GitErrorKindView::Failed { command: spec_render(c), stderr: output.stderr }))
        },
    }
}

/// Whether a command that may fail succeeded, and its output; an error only
/// when it could not be started.
pub open spec fn spec_allowed(o: GitOutcomeView) -> Result<(bool, GitOutputView), GitErrorView> {
    match o {
        GitOutcomeView::NotStarted { cause } => Err(
            plain_error(GitErrorKindView::Spawn { command: "git"@, cause }),
        ),
        GitOutcomeView::Exited { success, output } => Ok((success, output)),
    }
}

/// One command that must succeed, giving its output.
pub open spec fn spec_run(c: GitCommandView, h: Seq<GitOutcomeView>) -> GitStepView<
    GitOutputView,
> {
    if h.len() == 0 {
        GitStepView::Run(c)
    } else {
        GitStepView::Done(spec_checked(c, h[0]))
    }
}

/// One command that must succeed, giving nothing.
pub open spec fn spec_run_unit(c: GitCommandView, h: Seq<GitOutcomeView>) -> GitStepView<()> {
    if h.len() == 0 {
        GitStepView::Run(c)
    } else {
        match spec_checked(c, h[0]) {
            Ok(_) => GitStepView::Done(Ok(())),
            Err(e) => GitStepView::Done(Err(e)),
        }
    }
}

/// One command that must succeed, giving its trimmed standard output.
pub open spec fn spec_run_trimmed(c: GitCommandView, h: Seq<GitOutcomeView>) -> GitStepView<
    Seq<char>,
> {
    if h.len() == 0 {
        GitStepView::Run(c)
    } else {
        match spec_checked(c, h[0]) {
            Ok(out) => GitStepView::Done(Ok(trim(out.stdout))),
            Err(e) => GitStepView::Done(Err(e)),
        }
    }
}

/// One command that may fail.
pub open spec fn spec_run_allow_failure(c: GitCommandView, h: Seq<GitOutcomeView>) -> GitStepView<
    (bool, GitOutputView),
> {
    if h.len() == 0 {
        GitStepView::Run(c)
    } else {
        GitStepView::Done(spec_allowed(h[0]))
    }
}

// ---------------------------------------------------------------------------
// Executable helpers
// ---------------------------------------------------------------------------

/// An empty argument list.
fn no_args() -> (args: Vec<String>)
    ensures
        args.deep_view() == Seq::<Seq<char>>::empty(),
{
    let args: Vec<String> = Vec::new();
    assert(args.deep_view() =~= Seq::<Seq<char>>::empty());
    args
}

/// Appends `a` to the argument list.
fn push_arg(args: &mut Vec<String>, a: &str)
    ensures
        final(args).deep_view() == old(args).deep_view().push(a@),
{
    let ghost before = args.deep_view();
    args.push(a.to_owned());
    assert(args.deep_view() =~= before.push(a@));
}

/// The argument list `[a]`.
pub(crate) fn args1(a: &str) -> (args: Vec<String>)
    ensures
        args.deep_view() == seq![a@],
{
    let mut args = no_args();
    push_arg(&mut args, a);
    assert(args.deep_view() =~= seq![a@]);
    args
}

/// The argument list `[a, b]`.
pub(crate) fn args2(a: &str, b: &str) -> (args: Vec<String>)
    ensures
        args.deep_view() == seq![a@, b@],
{
    let mut args = no_args();
    push_arg(&mut args, a);
    push_arg(&mut args, b);
    assert(args.deep_view() =~= seq![a@, b@]);
    args
}

/// The argument list `[a, b, c]`.
pub(crate) fn args3(a: &str, b: &str, c: &str) -> (args: Vec<String>)
    ensures
        args.deep_view() == seq![a@, b@, c@],
{
    let mut args = no_args();
    push_arg(&mut args, a);
    push_arg(&mut args, b);
    push_arg(&mut args, c);
    assert(args.deep_view() =~= seq![a@, b@, c@]);
    args
}

/// The argument list `[a, b, c, d]`.
pub(crate) fn args4(a: &str, b: &str, c: &str, d: &str) -> (args: Vec<String>)
    ensures
        args.deep_view() == seq![a@, b@, c@, d@],
{
    let mut args = no_args();
    push_arg(&mut args, a);
    push_arg(&mut args, b);
    push_arg(&mut args, c);
    push_arg(&mut args, d);
    assert(args.deep_view() =~= seq![a@, b@, c@, d@]);
    args
}

/// The argument list `[a, b, c, d, e]`.
pub(crate) fn args5(a: &str, b: &str, c: &str, d: &str, e: &str) -> (args: Vec<String>)
    ensures
        args.deep_view() == seq![a@, b@, c@, d@, e@],
{
    let mut args = no_args();
    push_arg(&mut args, a);
    push_arg(&mut args, b);
    push_arg(&mut args, c);
    push_arg(&mut args, d);
    push_arg(&mut args, e);
    assert(args.deep_view() =~= seq![a@, b@, c@, d@, e@]);
    args
}

/// The argument list `[a, b, c, d, e, f]`.
pub(crate) fn args6(a: &str, b: &str, c: &str, d: &str, e: &str, f: &str) -> (args: Vec<String>)
    ensures
        args.deep_view() == seq![a@, b@, c@, d@, e@, f@],
{
    let mut args = no_args();
    push_arg(&mut args, a);
    push_arg(&mut args, b);
    push_arg(&mut args, c);
    push_arg(&mut args, d);
    push_arg(&mut args, e);
    push_arg(&mut args, f);
    assert(args.deep_view() =~= seq![a@, b@, c@, d@, e@, f@]);
    args
}

/// A command without standard input.
pub(crate) fn command(cwd: Option<&str>, args: Vec<String>) -> (c: GitCommand)
    ensures
        c@ == spec_command(cwd.deep_view(), args.deep_view()),
{
    GitCommand {
        cwd: match cwd {
            Some(d) => Some(d.to_owned()),
            None => None,
        },
        args,
        stdin: None,
    }
}

/// How a command is shown in messages.
pub fn render(c: &GitCommand) -> (res: String)
    ensures
        res@ == spec_render(c@),
{
    let ghost all = seq!["git"@] + c@.args;
    let mut res = to_chars("git");
    let sep = to_chars(" ");
    let mut i: usize = 0;
    proof {
        assert(all.take(1) =~= seq!["git"@]);
    }
    while i < c.args.len()
        invariant
            i <= c.args@.len(),
            all == seq!["git"@] + c@.args,
            sep@ == " "@,
            res@ == join(all.take(i + 1), " "@),
        decreases c.args@.len() - i,
    {
        let arg = to_chars(c.args[i].as_str());
        push_all(&mut res, &sep);
        push_all(&mut res, &arg);
        proof {
            let next = all.take(i + 2);
            assert(next.drop_last() =~= all.take(i + 1));
            assert(next.last() == c.args@[i as int]@);
        }
        i += 1;
    }
    assert(all.take(c.args@.len() + 1int) =~= all);
    from_chars(&res)
}

/// The output of a command that must succeed, or why it did not.
pub(crate) fn checked(c: &GitCommand, o: &GitOutcome) -> (res: Result<GitOutput, GitError>)
    ensures
        (match res {
            Ok(out) => spec_checked(c@, o@) == Ok::<GitOutputView, GitErrorView>(out@),
            Err(e) => spec_checked(c@, o@) == Err::<GitOutputView, GitErrorView>(e@),
        }),
{
    match o {
        GitOutcome::NotStarted { cause } => Err(
            GitError {
                context: None,
                kind: GitErrorKind::Spawn { command: render(c), cause: cause.clone() },
            },
        ),
        GitOutcome::Exited { success, output } => {
            if *success {
                Ok(GitOutput { stdout: output.stdout.clone(), stderr: output.stderr.clone() })
            } else {
                Err(
                    GitError {
                        context: None,
                        kind: GitErrorKind::Failed {
                            command: render(c),
                            stderr: output.stderr.clone(),
                        },
                    },
                )
            }
        },
    }
}

/// Whether a command that may fail succeeded, and its output.
pub(crate) fn allowed(o: &GitOutcome) -> (res: Result<(bool, GitOutput), GitError>)
    ensures
        (match res {
            Ok((ok, out)) => spec_allowed(o@) == Ok::<(bool, GitOutputView), GitErrorView>(
                (ok, out@),
            ),
            Err(e) => spec_allowed(o@) == Err::<(bool, GitOutputView), GitErrorView>(e@),
        }),
{
    match o {
        GitOutcome::NotStarted { cause } => Err(
            GitError {
                context: None,
                kind: GitErrorKind::Spawn { command: "git".to_owned(), cause: cause.clone() },
            },
        ),
        GitOutcome::Exited { success, output } => Ok(
            (*success, GitOutput { stdout: output.stdout.clone(), stderr: output.stderr.clone() }),
        ),
    }
}

/// One command that must succeed, giving nothing.
fn run_unit(c: GitCommand, history: &[GitOutcome]) -> (step: GitStep<()>)
    ensures
        step@ == spec_run_unit(c@, history.deep_view()),
{
    if history.len() == 0 {
        return GitStep::Run(c);
    }
    match checked(&c, &history[0]) {
        Ok(_) => GitStep::Done(Ok(())),
        Err(e) => GitStep::Done(Err(e)),
    }
}

/// One command that must succeed, giving its trimmed standard output.
fn run_trimmed(c: GitCommand, history: &[GitOutcome]) -> (step: GitStep<String>)
    ensures
        step@ == spec_run_trimmed(c@, history.deep_view()),
{
    if history.len() == 0 {
        return GitStep::Run(c);
    }
    match checked(&c, &history[0]) {
        Ok(out) => {
            let text = to_chars(out.stdout.as_str());
            GitStep::Done(Ok(from_chars(&trim_chars(&text))))
        },
        Err(e) => GitStep::Done(Err(e)),
    }
}

// ---------------------------------------------------------------------------
// Operations
// ---------------------------------------------------------------------------

/// Runs `git <args>` in `cwd`; it must succeed.
pub fn run(cwd: Option<&str>, args: &Vec<String>, history: &[GitOutcome]) -> (step: GitStep<
    GitOutput,
>)
    ensures
        step@ == spec_run(spec_command(cwd.deep_view(), args.deep_view()), history.deep_view()),
{
    let c = command(cwd, args.clone());
    proof {
        assert(c.args.deep_view() =~= args.deep_view());
    }
    if history.len() == 0 {
        return GitStep::Run(c);
    }
    GitStep::Done(checked(&c, &history[0]))
}


/// Runs `git <args>` in `cwd`; it may fail.
pub fn run_allow_failure(cwd: Option<&str>, args: &Vec<String>, history: &[GitOutcome]) -> (step:
    GitStep<(bool, GitOutput)>)
    ensures
        step@ == spec_run_allow_failure(
            spec_command(cwd.deep_view(), args.deep_view()),
            history.deep_view(),
        ),
{
    let c = command(cwd, args.clone());
    proof {
        assert(c.args.deep_view() =~= args.deep_view());
    }
    if history.len() == 0 {
        return GitStep::Run(c);
    }
    GitStep::Done(allowed(&history[0]))
}

/// Runs `git <args>` in `cwd` with `input` on its standard input; it must succeed.
pub fn run_with_input(
    cwd: Option<&str>,
    args: &Vec<String>,
    input: &str,
    history: &[GitOutcome],
) -> (step: GitStep<GitOutput>)
    ensures
        step@ == spec_run(
            GitCommandView {
                cwd: cwd.deep_view(),
                args: args.deep_view(),
                stdin: Some(input@),
            },
            history.deep_view(),
        ),
{
    let mut c = command(cwd, args.clone());
    proof {
        assert(c.args.deep_view() =~= args.deep_view());
    }
    c.stdin = Some(input.to_owned());
    if history.len() == 0 {
        return GitStep::Run(c);
    }
    GitStep::Done(checked(&c, &history[0]))
}

/// `git add -A` in `repo`.
pub open spec fn spec_add_all(repo: Seq<char>, h: Seq<GitOutcomeView>) -> GitStepView<()> {
    spec_run_unit(spec_command(Some(repo), seq!["add"@, "-A"@]), h)
}

/// Stages every change in `repo`.
pub fn add_all(repo: &str, history: &[GitOutcome]) -> (step: GitStep<()>)
    ensures
        step@ == spec_add_all(repo@, history.deep_view()),
{
    let args = args2("add", "-A");
    run_unit(command(Some(repo), args), history)
}

/// The arguments of `git commit --quiet --allow-empty -m <message>`.
pub open spec fn commit_args(message: Seq<char>) -> Seq<Seq<char>> {
    seq!["commit"@, "--quiet"@, "--allow-empty"@, "-m"@, message]
}

/// The command that commits what is staged in `repo` with `message`, even
/// when nothing changed.
pub fn commit_command(repo: &str, message: &str) -> (c: GitCommand)
    ensures
        c@ == spec_command(Some(repo@), commit_args(message@)),
{
    let args = args5("commit", "--quiet", "--allow-empty", "-m", message);
    command(Some(repo), args)
}

/// `git commit --quiet --allow-empty -m <message>` in `repo`.
pub open spec fn spec_commit_all(repo: Seq<char>, message: Seq<char>, h: Seq<GitOutcomeView>) -> GitStepView<()> {
    spec_run_unit(spec_command(Some(repo), commit_args(message)), h)
}

/// Commits what is staged in `repo` with `message`, even when nothing changed.
pub fn commit_all(repo: &str, message: &str, history: &[GitOutcome]) -> (step: GitStep<()>)
    ensures
        step@ == spec_commit_all(repo@, message@, history.deep_view()),
{
    run_unit(commit_command(repo, message), history)
}

/// `git --version`.
pub open spec fn spec_ensure_git_available(h: Seq<GitOutcomeView>) -> GitStepView<()> {
    spec_run_unit(spec_command(None, seq!["--version"@]), h)
}

/// Checks that git can be run.
pub fn ensure_git_available(history: &[GitOutcome]) -> (step: GitStep<()>)
    ensures
        step@ == spec_ensure_git_available(history.deep_view()),
{
    let args = args1("--version");
    run_unit(command(None, args), history)
}

/// `git clone --quiet <remote> <destination>`.
pub open spec fn spec_clone_repo(remote: Seq<char>, destination: Seq<char>, h: Seq<GitOutcomeView>) -> GitStepView<()> {
    spec_run_unit(spec_command(None, seq!["clone"@, "--quiet"@, remote, destination]), h)
}

/// Clones `remote` into `destination`.
pub fn clone_repo(remote: &str, destination: &str, history: &[GitOutcome]) -> (step: GitStep<()>)
    ensures
        step@ == spec_clone_repo(remote@, destination@, history.deep_view()),
{
    let args = args4("clone", "--quiet", remote, destination);
    run_unit(command(None, args), history)
}

/// `git rev-parse <reference>` in `repo`, trimmed.
pub open spec fn spec_rev_parse(repo: Seq<char>, reference: Seq<char>, h: Seq<GitOutcomeView>) -> GitStepView<Seq<char>> {
    spec_run_trimmed(spec_command(Some(repo), seq!["rev-parse"@, reference]), h)
}

/// The object name `reference` resolves to in `repo`.
pub fn rev_parse(repo: &str, reference: &str, history: &[GitOutcome]) -> (step: GitStep<String>)
    ensures
        step@ == spec_rev_parse(repo@, reference@, history.deep_view()),
{
    let args = args2("rev-parse", reference);
    run_trimmed(command(Some(repo), args), history)
}

/// The command `git rev-parse --verify <reference>` in `repo`.
pub open spec fn spec_verify_command(repo: Seq<char>, reference: Seq<char>) -> GitCommandView {
    spec_command(Some(repo), seq!["rev-parse"@, "--verify"@, reference])
}

/// The command `git rev-parse --verify <reference>` in `repo`.
pub(crate) fn verify_command(repo: &str, reference: &str) -> (c: GitCommand)
    ensures
        c@ == spec_verify_command(repo@, reference@),
{
    command(Some(repo), args3("rev-parse", "--verify", reference))
}

/// `git rev-parse --verify <reference>` in `repo`, trimmed.
pub open spec fn spec_rev_parse_verify(repo: Seq<char>, reference: Seq<char>, h: Seq<GitOutcomeView>) -> GitStepView<Seq<char>> {
    spec_run_trimmed(spec_command(Some(repo), seq!["rev-parse"@, "--verify"@, reference]), h)
}

/// The object name `reference` resolves to in `repo`, which must name one object.
pub fn rev_parse_verify(repo: &str, reference: &str, history: &[GitOutcome]) -> (step: GitStep<
    String,
>)
    ensures
        step@ == spec_rev_parse_verify(repo@, reference@, history.deep_view()),
{
    let args = args3("rev-parse", "--verify", reference);
    run_trimmed(command(Some(repo), args), history)
}

/// `git write-tree` in `repo`, trimmed.
pub open spec fn spec_write_tree(repo: Seq<char>, h: Seq<GitOutcomeView>) -> GitStepView<Seq<char>> {
    spec_run_trimmed(spec_command(Some(repo), seq!["write-tree"@]), h)
}

/// Writes the index of `repo` as a tree and names it.
pub fn write_tree(repo: &str, history: &[GitOutcome]) -> (step: GitStep<String>)
    ensures
        step@ == spec_write_tree(repo@, history.deep_view()),
{
    let args = args1("write-tree");
    run_trimmed(command(Some(repo), args), history)
}

/// `git merge-tree --write-tree --merge-base <base> <ours> <theirs>` in `repo`; it may fail.
pub open spec fn spec_merge_trees(
    repo: Seq<char>,
    base: Seq<char>,
    ours: Seq<char>,
    theirs: Seq<char>,
    h: Seq<GitOutcomeView>,
) -> GitStepView<(bool, GitOutputView)> {
    spec_run_allow_failure(
        spec_command(
            Some(repo),
            seq!["merge-tree"@, "--write-tree"@, "--merge-base"@, base, ours, theirs],
        ),
        h,
    )
}

/// Merges `ours` and `theirs` over `base` without touching a work tree;
/// whether it merged cleanly, and what git printed.
pub fn merge_trees(
    repo: &str,
    base: &str,
    ours: &str,
    theirs: &str,
    history: &[GitOutcome],
) -> (step: GitStep<(bool, GitOutput)>)
    ensures
        step@ == spec_merge_trees(repo@, base@, ours@, theirs@, history.deep_view()),
{
    let args = args6("merge-tree", "--write-tree", "--merge-base", base, ours, theirs);
    let c = command(Some(repo), args);
    if history.len() == 0 {
        return GitStep::Run(c);
    }
    GitStep::Done(allowed(&history[0]))
}

/// `git init --quiet` in `path`.
pub open spec fn spec_init_repo(path: Seq<char>, h: Seq<GitOutcomeView>) -> GitStepView<()> {
    spec_run_unit(spec_command(Some(path), seq!["init"@, "--quiet"@]), h)
}

/// Makes `path` a git repository.
pub fn init_repo(path: &str, history: &[GitOutcome]) -> (step: GitStep<()>)
    ensures
        step@ == spec_init_repo(path@, history.deep_view()),
{
    let args = args2("init", "--quiet");
    run_unit(command(Some(path), args), history)
}


/// A failure with what was being attempted.
pub open spec fn with_context(context: Seq<char>, e: GitErrorView) -> GitErrorView {
    GitErrorView { context: Some(context), kind: e.kind }
}

/// Checking out `reference` in `repo`: try it; if that fails, fetch the
/// reference from `origin` and try again.
pub open spec fn spec_checkout(repo: Seq<char>, reference: Seq<char>, h: Seq<GitOutcomeView>) -> GitStepView<()> {
    let first = spec_command(Some(repo), seq!["checkout"@, "--quiet"@, reference]);
    let fetch = spec_command(
        Some(repo),
        seq!["fetch"@, "--quiet"@, "--depth"@, "1"@, "origin"@, reference],
    );
    if h.len() == 0 {
        GitStepView::Run(first)
    } else {
        match spec_allowed(h[0]) {
            Err(e) => GitStepView::Done(Err(e)),
            Ok((true, _)) => GitStepView::Done(Ok(())),
            Ok((false, _)) => if h.len() == 1 {
                GitStepView::Run(fetch)
            } else {
                match spec_checked(fetch, h[1]) {
                    Err(e) => GitStepView::Done(
                        Err(with_context("failed to fetch ref "@ + reference, e)),
                    ),
                    Ok(_) => if h.len() == 2 {
                        GitStepView::Run(first)
                    } else {
                        match spec_checked(first, h[2]) {
                            Err(e) => GitStepView::Done(
                                Err(
                                    with_context(
                                        "failed to check out "@ + reference + " after fetch"@,
                                        e,
                                    ),
                                ),
                            ),
                            Ok(_) => GitStepView::Done(Ok(())),
                        }
                    },
                }
            },
        }
    }
}

/// The same failure, with what was being attempted.
pub(crate) fn add_context(context: String, e: GitError) -> (res: GitError)
    ensures
        res@ == with_context(context@, e@),
{
    GitError { context: Some(context), kind: e.kind }
}

/// Checks out `reference` in `repo`, fetching it from `origin` first when
/// the clone does not have it.
pub fn checkout(repo: &str, reference: &str, history: &[GitOutcome]) -> (step: GitStep<()>)
    ensures
        step@ == spec_checkout(repo@, reference@, history.deep_view()),
{
    let first = command(Some(repo), args3("checkout", "--quiet", reference));
    if history.len() == 0 {
        return GitStep::Run(first);
    }
    match allowed(&history[0]) {
        Err(e) => return GitStep::Done(Err(e)),
        Ok((true, _)) => return GitStep::Done(Ok(())),
        Ok((false, _)) => {},
    }
    let fetch = command(
        Some(repo),
        args6("fetch", "--quiet", "--depth", "1", "origin", reference),
    );
    if history.len() == 1 {
        return GitStep::Run(fetch);
    }
    match checked(&fetch, &history[1]) {
        Err(e) => {
            let mut context = "failed to fetch ref ".to_owned();
            context.append(reference);
            return GitStep::Done(Err(add_context(context, e)));
        },
        Ok(_) => {},
    }
    if history.len() == 2 {
        return GitStep::Run(first);
    }
    match checked(&first, &history[2]) {
        Err(e) => {
            let mut context = "failed to check out ".to_owned();
            context.append(reference);
            context.append(" after fetch");
            GitStep::Done(Err(add_context(context, e)))
        },
        Ok(_) => GitStep::Done(Ok(())),
    }
}

/// The branch a `ls-remote --symref` listing names for `HEAD`: the part
/// before the tab of the first line that starts with `ref: refs/heads/` and
/// holds a tab.
pub open spec fn symref_branch(ls: Seq<Seq<char>>) -> Option<Seq<char>>
    decreases ls.len(),
{
    if ls.len() == 0 {
        None
    } else {
        let prefix = "ref: refs/heads/"@;
        if starts_with(ls[0], prefix) && before_char(ls[0].skip(prefix.len() as int), '\t') is Some {
            before_char(ls[0].skip(prefix.len() as int), '\t')
        } else {
            symref_branch(ls.drop_first())
        }
    }
}

/// The default branch a `ls-remote --symref <remote> HEAD` listing names,
/// `HEAD` when it names none.
pub open spec fn spec_branch_in_listing(listing: Seq<char>) -> Seq<char> {
    match symref_branch(lines(listing)) {
        Some(b) => b,
        None => "HEAD"@,
    }
}

/// The default branch named in a `ls-remote --symref` listing.
fn branch_in_listing(listing: &str) -> (res: String)
    ensures
        res@ == spec_branch_in_listing(listing@),
{
    let ls = lines_exec(&to_chars(listing));
    let ghost all = ls.deep_view();
    let prefix = to_chars("ref: refs/heads/");
    let mut i: usize = 0;
    assert(all.skip(0) =~= all);
    while i < ls.len()
        invariant
            i <= ls@.len(),
            all == ls.deep_view(),
            all == lines(listing@),
            prefix@ == "ref: refs/heads/"@,
            symref_branch(all) == symref_branch(all.skip(i as int)),
        decreases ls@.len() - i,
    {
        let line = &ls[i];
        proof {
            assert(all.skip(i as int)[0] == line@);
            assert(all.skip(i as int).drop_first() =~= all.skip(i + 1));
        }
        if starts_with_exec(line, &prefix) {
            let rest = slice(line, prefix.len(), line.len());
            assert(rest@ =~= line@.skip(prefix@.len() as int));
            match before_char_exec(&rest, '\t') {
                Some(branch) => {
                    proof {
                        let t = all.skip(i as int);
                        assert(t.len() > 0);
                        assert(starts_with(t[0], "ref: refs/heads/"@));
                        assert(symref_branch(t) == before_char(
                            t[0].skip("ref: refs/heads/"@.len() as int),
                            '\t',
                        ));
                    }
                    return from_chars(&branch);
                },
                None => {},
            }
        }
        i += 1;
    }
    assert(all.skip(i as int).len() == 0);
    "HEAD".to_owned()
}

/// `git ls-remote --symref <remote> HEAD`, read for the default branch.
pub open spec fn spec_default_branch(remote: Seq<char>, h: Seq<GitOutcomeView>) -> GitStepView<Seq<char>> {
    let c = spec_command(None, seq!["ls-remote"@, "--symref"@, remote, "HEAD"@]);
    if h.len() == 0 {
        GitStepView::Run(c)
    } else {
        match spec_checked(c, h[0]) {
            Ok(out) => GitStepView::Done(Ok(spec_branch_in_listing(out.stdout))),
            Err(e) => GitStepView::Done(Err(e)),
        }
    }
}

/// The branch `HEAD` of `remote` points to, or `HEAD` when it names none.
pub fn default_branch(remote: &str, history: &[GitOutcome]) -> (step: GitStep<String>)
    ensures
        step@ == spec_default_branch(remote@, history.deep_view()),
{
    let c = command(None, args4("ls-remote", "--symref", remote, "HEAD"));
    if history.len() == 0 {
        return GitStep::Run(c);
    }
    match checked(&c, &history[0]) {
        Ok(out) => GitStep::Done(Ok(branch_in_listing(out.stdout.as_str()))),
        Err(e) => GitStep::Done(Err(e)),
    }
}

/// The commit a `ls-remote <remote> <ref_name>` listing gives first.
pub open spec fn spec_commit_in_listing(
    listing: Seq<char>,
    ref_name: Seq<char>,
    remote: Seq<char>,
) -> Result<Seq<char>, GitErrorView> {
    let ls = lines(listing);
    if ls.len() == 0 {
        Err(plain_error(GitErrorKindView::RefNotFound { ref_name, remote }))
    } else {
        match before_char(ls[0], '\t') {
            Some(commit) => Ok(commit),
            None => Err(
                plain_error(GitErrorKindView::UnexpectedLsRemote { ref_name, line: ls[0] }),
            ),
        }
    }
}

/// The commit of the first line of a `ls-remote` listing.
fn commit_in_listing(listing: &str, ref_name: &str, remote: &str) -> (res: Result<
    String,
    GitError,
>)
    ensures
        (match res {
            Ok(c) => spec_commit_in_listing(listing@, ref_name@, remote@) == Ok::<
                Seq<char>,
                GitErrorView,
            >(c@),
            Err(e) => spec_commit_in_listing(listing@, ref_name@, remote@) == Err::<
                Seq<char>,
                GitErrorView,
            >(e@),
        }),
{
    let ls = lines_exec(&to_chars(listing));
    if ls.len() == 0 {
        return Err(
            GitError {
                context: None,
                kind: GitErrorKind::RefNotFound {
                    ref_name: ref_name.to_owned(),
                    remote: remote.to_owned(),
                },
            },
        );
    }
    assert(ls.deep_view()[0] == ls@[0]@);
    match before_char_exec(&ls[0], '\t') {
        Some(commit) => Ok(from_chars(&commit)),
        None => Err(
            GitError {
                context: None,
                kind: GitErrorKind::UnexpectedLsRemote {
                    ref_name: ref_name.to_owned(),
                    line: from_chars(&ls[0]),
                },
            },
        ),
    }
}

/// `git ls-remote <remote> <ref_name>`, read for the commit listed first.
pub open spec fn spec_latest_remote_commit(
    remote: Seq<char>,
    ref_name: Seq<char>,
    h: Seq<GitOutcomeView>,
) -> GitStepView<Seq<char>> {
    let c = spec_command(None, seq!["ls-remote"@, remote, ref_name]);
    if h.len() == 0 {
        GitStepView::Run(c)
    } else {
        match spec_checked(c, h[0]) {
            Ok(out) => GitStepView::Done(spec_commit_in_listing(out.stdout, ref_name, remote)),
            Err(e) => GitStepView::Done(Err(e)),
        }
    }
}

/// The commit `ref_name` points to on `remote`.
pub fn latest_remote_commit(remote: &str, ref_name: &str, history: &[GitOutcome]) -> (step:
    GitStep<String>)
    ensures
        step@ == spec_latest_remote_commit(remote@, ref_name@, history.deep_view()),
{
    let c = command(None, args3("ls-remote", remote, ref_name));
    if history.len() == 0 {
        return GitStep::Run(c);
    }
    match checked(&c, &history[0]) {
        Ok(out) => GitStep::Done(commit_in_listing(out.stdout.as_str(), ref_name, remote)),
        Err(e) => GitStep::Done(Err(e)),
    }
}

/// The command asking whether `path` lies in a git work tree.
pub open spec fn repo_probe(path: Seq<char>) -> GitCommandView {
    spec_command(Some(path), seq!["rev-parse"@, "--is-inside-work-tree"@])
}

/// The probe's answer: it succeeded and printed `true`.
pub open spec fn repo_answer(o: GitOutcomeView) -> bool {
    match spec_allowed(o) {
        Ok((ok, out)) => ok && trim(out.stdout) == "true"@,
        Err(_) => false,
    }
}

/// Asking git whether `path` lies in a work tree.
pub open spec fn spec_is_git_repo(path: Seq<char>, h: Seq<GitOutcomeView>) -> GitStepView<bool> {
    if h.len() == 0 {
        GitStepView::Run(repo_probe(path))
    } else {
        GitStepView::Done(Ok(repo_answer(h[0])))
    }
}

/// The command of the probe.
fn repo_probe_exec(path: &str) -> (c: GitCommand)
    ensures
        c@ == repo_probe(path@),
{
    command(Some(path), args2("rev-parse", "--is-inside-work-tree"))
}

/// The probe's answer.
fn repo_answer_exec(o: &GitOutcome) -> (res: bool)
    ensures
        res == repo_answer(o@),
{
    match allowed(o) {
        Ok((ok, out)) => ok && chars_eq(
            &trim_chars(&to_chars(out.stdout.as_str())),
            &to_chars("true"),
        ),
        Err(_) => false,
    }
}

/// Whether `path` lies in a git work tree; a probe that cannot run counts as no.
pub fn is_git_repo(path: &str, history: &[GitOutcome]) -> (step: GitStep<bool>)
    ensures
        step@ == spec_is_git_repo(path@, history.deep_view()),
{
    if history.len() == 0 {
        return GitStep::Run(repo_probe_exec(path));
    }
    GitStep::Done(Ok(repo_answer_exec(&history[0])))
}

/// `git status --porcelain` in `path`.
pub open spec fn status_probe(path: Seq<char>) -> GitCommandView {
    spec_command(Some(path), seq!["status"@, "--porcelain"@])
}

/// Asking whether `path` is a work tree without changes.
pub open spec fn spec_is_worktree_clean(path: Seq<char>, h: Seq<GitOutcomeView>) -> GitStepView<bool> {
    if h.len() == 0 {
        GitStepView::Run(repo_probe(path))
    } else if !repo_answer(h[0]) {
        GitStepView::Done(Ok(false))
    } else if h.len() == 1 {
        GitStepView::Run(status_probe(path))
    } else {
        match spec_checked(status_probe(path), h[1]) {
            Ok(out) => GitStepView::Done(Ok(out.stdout.len() == 0)),
            Err(e) => GitStepView::Done(Err(e)),
        }
    }
}

/// Whether `path` is a git work tree without changes; not a work tree counts as no.
pub fn is_worktree_clean(path: &str, history: &[GitOutcome]) -> (step: GitStep<bool>)
    ensures
        step@ == spec_is_worktree_clean(path@, history.deep_view()),
{
    if history.len() == 0 {
        return GitStep::Run(repo_probe_exec(path));
    }
    if !repo_answer_exec(&history[0]) {
        return GitStep::Done(Ok(false));
    }
    let status = command(Some(path), args2("status", "--porcelain"));
    if history.len() == 1 {
        return GitStep::Run(status);
    }
    match checked(&status, &history[1]) {
        Ok(out) => GitStep::Done(Ok(out.stdout.as_str().is_empty())),
        Err(e) => GitStep::Done(Err(e)),
    }
}

/// Asking whether `commit` can be fetched from `remote`, from a fresh
/// repository at `probe_dir`.
pub open spec fn spec_commit_exists_in_remote(
    probe_dir: Seq<char>,
    remote: Seq<char>,
    commit: Seq<char>,
    h: Seq<GitOutcomeView>,
) -> GitStepView<bool> {
    let init = spec_command(Some(probe_dir), seq!["init"@, "--quiet"@]);
    let fetch = spec_command(
        Some(probe_dir),
        seq!["fetch"@, "--quiet"@, "--depth"@, "1"@, remote, commit],
    );
    if h.len() == 0 {
        GitStepView::Run(init)
    } else {
        match spec_checked(init, h[0]) {
            Err(e) => GitStepView::Done(Err(e)),
            Ok(_) => if h.len() == 1 {
                GitStepView::Run(fetch)
            } else {
                match spec_allowed(h[1]) {
                    Ok((ok, _)) => GitStepView::Done(Ok(ok)),
                    Err(e) => GitStepView::Done(Err(e)),
                }
            },
        }
    }
}

/// Whether `commit` can still be fetched from `remote`, probed from an
/// empty directory `probe_dir`.
pub fn commit_exists_in_remote(
    probe_dir: &str,
    remote: &str,
    commit: &str,
    history: &[GitOutcome],
) -> (step: GitStep<bool>)
    ensures
        step@ == spec_commit_exists_in_remote(probe_dir@, remote@, commit@, history.deep_view()),
{
    let init = command(Some(probe_dir), args2("init", "--quiet"));
    if history.len() == 0 {
        return GitStep::Run(init);
    }
    match checked(&init, &history[0]) {
        Err(e) => return GitStep::Done(Err(e)),
        Ok(_) => {},
    }
    let fetch = command(Some(probe_dir), args6("fetch", "--quiet", "--depth", "1", remote, commit));
    if history.len() == 1 {
        return GitStep::Run(fetch);
    }
    match allowed(&history[1]) {
        Ok((ok, _)) => GitStep::Done(Ok(ok)),
        Err(e) => GitStep::Done(Err(e)),
    }
}

/// Requiring that `path` is a git work tree without changes.
pub open spec fn spec_ensure_clean_worktree(path: Seq<char>, h: Seq<GitOutcomeView>) -> GitStepView<()> {
    if h.len() == 0 {
        GitStepView::Run(repo_probe(path))
    } else if !repo_answer(h[0]) {
        GitStepView::Done(Err(plain_error(GitErrorKindView::NotARepository { path })))
    } else if h.len() == 1 {
        GitStepView::Run(status_probe(path))
    } else {
        match spec_checked(status_probe(path), h[1]) {
            Err(e) => GitStepView::Done(Err(e)),
            Ok(out) => if out.stdout.len() == 0 {
                GitStepView::Done(Ok(()))
            } else {
                GitStepView::Done(Err(plain_error(GitErrorKindView::DirtyWorktree)))
            },
        }
    }
}

/// Fails unless `path` is a git work tree without changes.
pub fn ensure_clean_worktree(path: &str, history: &[GitOutcome]) -> (step: GitStep<()>)
    ensures
        step@ == spec_ensure_clean_worktree(path@, history.deep_view()),
{
    if history.len() == 0 {
        return GitStep::Run(repo_probe_exec(path));
    }
    if !repo_answer_exec(&history[0]) {
        return GitStep::Done(
            Err(GitError { context: None, kind: GitErrorKind::NotARepository { path: path.to_owned() } }),
        );
    }
    let status = command(Some(path), args2("status", "--porcelain"));
    if history.len() == 1 {
        return GitStep::Run(status);
    }
    match checked(&status, &history[1]) {
        Err(e) => GitStep::Done(Err(e)),
        Ok(out) => if out.stdout.as_str().is_empty() {
            GitStep::Done(Ok(()))
        } else {
            GitStep::Done(Err(GitError { context: None, kind: GitErrorKind::DirtyWorktree }))
        },
    }
}


// ---------------------------------------------------------------------------
// Laws
// ---------------------------------------------------------------------------

/// Every operation asks for a bounded number of commands: checkout at most
/// three, the work tree checks and the remote commit probe at most two, the
/// others one; with that many outcomes it is done.
pub proof fn law_operations_finish()
    ensures
        forall|repo: Seq<char>, reference: Seq<char>, h: Seq<GitOutcomeView>|
            h.len() >= 3 ==> #[trigger] spec_checkout(repo, reference, h) is Done,
        forall|path: Seq<char>, h: Seq<GitOutcomeView>|
            h.len() >= 2 ==> #[trigger] spec_is_worktree_clean(path, h) is Done,
        forall|path: Seq<char>, h: Seq<GitOutcomeView>|
            h.len() >= 2 ==> #[trigger] spec_ensure_clean_worktree(path, h) is Done,
        forall|d: Seq<char>, r: Seq<char>, c: Seq<char>, h: Seq<GitOutcomeView>|
            h.len() >= 2 ==> #[trigger] spec_commit_exists_in_remote(d, r, c, h) is Done,
        forall|path: Seq<char>, h: Seq<GitOutcomeView>|
            h.len() >= 1 ==> #[trigger] spec_is_git_repo(path, h) is Done,
        forall|remote: Seq<char>, h: Seq<GitOutcomeView>|
            h.len() >= 1 ==> #[trigger] spec_default_branch(remote, h) is Done,
        forall|remote: Seq<char>, r: Seq<char>, h: Seq<GitOutcomeView>|
            h.len() >= 1 ==> #[trigger] spec_latest_remote_commit(remote, r, h) is Done,
{
}

/// Checking out a reference the clone already has runs one command and
/// fetches nothing.
pub proof fn law_checkout_fetches_only_when_needed(
    repo: Seq<char>,
    reference: Seq<char>,
    h: Seq<GitOutcomeView>,
)
    requires
        h.len() >= 1,
        h[0] matches GitOutcomeView::Exited { success, .. } && success,
    ensures
        spec_checkout(repo, reference, h) == GitStepView::<()>::Done(Ok(())),
{
}

/// Requiring a clean work tree asks git exactly what asking whether it is
/// clean does, and succeeds exactly when that answer is yes.
pub proof fn law_clean_requirement_matches_clean_question(path: Seq<char>, h: Seq<GitOutcomeView>)
    ensures
        spec_ensure_clean_worktree(path, h) is Run <==> spec_is_worktree_clean(path, h) is Run,
        spec_ensure_clean_worktree(path, h) matches GitStepView::Run(c) ==> spec_is_worktree_clean(
            path,
            h,
        ) == GitStepView::<bool>::Run(c),
        spec_ensure_clean_worktree(path, h) == GitStepView::<()>::Done(Ok(()))
            <==> spec_is_worktree_clean(path, h) == GitStepView::<bool>::Done(Ok(true)),
{
}

/// Asking whether a directory is a repository never fails: a probe that
/// cannot run, or fails, answers no.
pub proof fn law_repository_question_never_fails(path: Seq<char>, h: Seq<GitOutcomeView>)
    ensures
        !(spec_is_git_repo(path, h) matches GitStepView::Done(Err(_))),
        h.len() >= 1 && !(h[0] matches GitOutcomeView::Exited { success, .. } && success)
            ==> spec_is_git_repo(path, h) == GitStepView::<bool>::Done(Ok(false)),
{
}

} // verus!
