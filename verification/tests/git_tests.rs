use uplate::git::{
    checkout, commit_exists_in_remote, default_branch, ensure_clean_worktree, is_git_repo,
    is_worktree_clean, latest_remote_commit, render, rev_parse, run, run_allow_failure,
    GitErrorKind, GitOutcome, GitOutput, GitStep,
};

fn ok(stdout: &str) -> GitOutcome {
    GitOutcome::Exited {
        success: true,
        output: GitOutput { stdout: stdout.to_string(), stderr: String::new() },
    }
}

fn fail(stderr: &str) -> GitOutcome {
    GitOutcome::Exited {
        success: false,
        output: GitOutput { stdout: String::new(), stderr: stderr.to_string() },
    }
}

fn args_of<T>(step: &GitStep<T>) -> Vec<String> {
    match step {
        GitStep::Run(c) => c.args.clone(),
        GitStep::Done(_) => panic!("expected a command"),
    }
}

#[test]
fn rev_parse_asks_then_trims() {
    let step = rev_parse("/repo", "HEAD", &[]);
    assert_eq!(args_of(&step), vec!["rev-parse", "HEAD"]);
    match &step {
        GitStep::Run(c) => {
            assert_eq!(c.cwd.as_deref(), Some("/repo"));
            assert_eq!(render(c), "git rev-parse HEAD");
        }
        _ => unreachable!(),
    }
    match rev_parse("/repo", "HEAD", &[ok("  abc123\n")]) {
        GitStep::Done(Ok(v)) => assert_eq!(v, "abc123"),
        other => panic!("{other:?}"),
    }
}

#[test]
fn failed_command_reports_rendered_command_and_stderr() {
    match rev_parse("/repo", "nope", &[fail("fatal: bad")]) {
        GitStep::Done(Err(e)) => {
            assert_eq!(e.to_string(), "git rev-parse nope failed\nfatal: bad");
        }
        other => panic!("{other:?}"),
    }
    let args = vec!["status".to_string()];
    match run(None, &args, &[GitOutcome::NotStarted { cause: "no git".to_string() }]) {
        GitStep::Done(Err(e)) => assert_eq!(e.to_string(), "failed to run git status"),
        other => panic!("{other:?}"),
    }
    match run_allow_failure(None, &args, &[GitOutcome::NotStarted { cause: "x".to_string() }]) {
        GitStep::Done(Err(e)) => assert_eq!(e.to_string(), "failed to run git"),
        other => panic!("{other:?}"),
    }
    match run_allow_failure(None, &args, &[fail("bad")]) {
        GitStep::Done(Ok((false, out))) => assert_eq!(out.stderr, "bad"),
        other => panic!("{other:?}"),
    }
}

#[test]
fn checkout_fetches_only_after_a_failed_checkout() {
    assert_eq!(args_of(&checkout("/r", "v1", &[])), vec!["checkout", "--quiet", "v1"]);
    assert!(matches!(checkout("/r", "v1", &[ok("")]), GitStep::Done(Ok(()))));
    assert_eq!(
        args_of(&checkout("/r", "v1", &[fail("")])),
        vec!["fetch", "--quiet", "--depth", "1", "origin", "v1"]
    );
    assert_eq!(
        args_of(&checkout("/r", "v1", &[fail(""), ok("")])),
        vec!["checkout", "--quiet", "v1"]
    );
    assert!(matches!(checkout("/r", "v1", &[fail(""), ok(""), ok("")]), GitStep::Done(Ok(()))));
    match checkout("/r", "v1", &[fail(""), fail("no such ref")]) {
        GitStep::Done(Err(e)) => assert_eq!(e.to_string(), "failed to fetch ref v1"),
        other => panic!("{other:?}"),
    }
    match checkout("/r", "v1", &[fail(""), ok(""), fail("x")]) {
        GitStep::Done(Err(e)) => {
            assert_eq!(e.to_string(), "failed to check out v1 after fetch");
            assert_eq!(e.kind.to_string(), "git checkout --quiet v1 failed\nx");
        }
        other => panic!("{other:?}"),
    }
}

#[test]
fn default_branch_reads_symref_listing() {
    assert_eq!(
        args_of(&default_branch("https://h/r.git", &[])),
        vec!["ls-remote", "--symref", "https://h/r.git", "HEAD"]
    );
    let listing = "ref: refs/heads/main\tHEAD\r\n0123abcd\tHEAD\n";
    match default_branch("r", &[ok(listing)]) {
        GitStep::Done(Ok(b)) => assert_eq!(b, "main"),
        other => panic!("{other:?}"),
    }
    match default_branch("r", &[ok("0123\tHEAD\n")]) {
        GitStep::Done(Ok(b)) => assert_eq!(b, "HEAD"),
        other => panic!("{other:?}"),
    }
}

#[test]
fn latest_remote_commit_reads_first_line() {
    match latest_remote_commit("r", "main", &[ok("abc\trefs/heads/main\ndef\tx\n")]) {
        GitStep::Done(Ok(c)) => assert_eq!(c, "abc"),
        other => panic!("{other:?}"),
    }
    match latest_remote_commit("r", "main", &[ok("")]) {
        GitStep::Done(Err(e)) => assert_eq!(e.to_string(), "could not find ref main in r"),
        other => panic!("{other:?}"),
    }
    match latest_remote_commit("r", "main", &[ok("garbage\n")]) {
        GitStep::Done(Err(e)) => {
            assert_eq!(e.to_string(), "unexpected ls-remote output for main: garbage")
        }
        other => panic!("{other:?}"),
    }
}

#[test]
fn repository_and_worktree_questions() {
    assert!(matches!(is_git_repo("/p", &[ok("true\n")]), GitStep::Done(Ok(true))));
    assert!(matches!(is_git_repo("/p", &[ok("false\n")]), GitStep::Done(Ok(false))));
    assert!(matches!(is_git_repo("/p", &[fail("")]), GitStep::Done(Ok(false))));
    assert!(matches!(
        is_git_repo("/p", &[GitOutcome::NotStarted { cause: String::new() }]),
        GitStep::Done(Ok(false))
    ));

    assert!(matches!(is_worktree_clean("/p", &[fail("")]), GitStep::Done(Ok(false))));
    assert_eq!(args_of(&is_worktree_clean("/p", &[ok("true")])), vec!["status", "--porcelain"]);
    assert!(matches!(is_worktree_clean("/p", &[ok("true"), ok("")]), GitStep::Done(Ok(true))));
    assert!(matches!(
        is_worktree_clean("/p", &[ok("true"), ok(" M a\n")]),
        GitStep::Done(Ok(false))
    ));
}

#[test]
fn clean_worktree_requirement() {
    match ensure_clean_worktree("/p", &[fail("")]) {
        GitStep::Done(Err(e)) => {
            assert_eq!(e.to_string(), "/p is not a git repository. uplate requires git for v1.")
        }
        other => panic!("{other:?}"),
    }
    match ensure_clean_worktree("/p", &[ok("true"), ok("?? x\n")]) {
        GitStep::Done(Err(e)) => assert!(matches!(e.kind, GitErrorKind::DirtyWorktree)),
        other => panic!("{other:?}"),
    }
    assert!(matches!(
        ensure_clean_worktree("/p", &[ok("true"), ok("")]),
        GitStep::Done(Ok(()))
    ));
}

#[test]
fn commit_probe_inits_then_fetches() {
    assert_eq!(args_of(&commit_exists_in_remote("/t", "r", "abc", &[])), vec!["init", "--quiet"]);
    assert_eq!(
        args_of(&commit_exists_in_remote("/t", "r", "abc", &[ok("")])),
        vec!["fetch", "--quiet", "--depth", "1", "r", "abc"]
    );
    assert!(matches!(
        commit_exists_in_remote("/t", "r", "abc", &[ok(""), fail("")]),
        GitStep::Done(Ok(false))
    ));
    assert!(matches!(
        commit_exists_in_remote("/t", "r", "abc", &[ok(""), ok("")]),
        GitStep::Done(Ok(true))
    ));
}

#[test]
fn clean_requirement_asks_what_the_clean_question_asks() {
    let histories: Vec<Vec<GitOutcome>> = vec![
        vec![],
        vec![ok("true")],
        vec![fail("")],
        vec![ok("true"), ok("")],
        vec![ok("true"), ok(" M x")],
    ];
    for h in histories {
        let required = ensure_clean_worktree("/p", &h);
        let asked = is_worktree_clean("/p", &h);
        match (&required, &asked) {
            (GitStep::Run(a), GitStep::Run(b)) => assert_eq!(a.args, b.args),
            (GitStep::Done(Ok(())), GitStep::Done(Ok(true))) => {}
            (GitStep::Done(Err(_)), GitStep::Done(Ok(false))) => {}
            other => panic!("{other:?}"),
        }
    }
}
