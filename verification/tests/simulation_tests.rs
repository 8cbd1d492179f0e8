use uplate::commands::{simulate_merge, FileAction, SimulationError, SimulationStep};
use uplate::git::{GitOutcome, GitOutput};

fn exited(success: bool, stdout: &str, stderr: &str) -> GitOutcome {
    GitOutcome::Exited {
        success,
        output: GitOutput { stdout: stdout.to_string(), stderr: stderr.to_string() },
    }
}

fn ok(stdout: &str) -> GitOutcome {
    exited(true, stdout, "")
}

/// Replays the merge with every command succeeding, printing `base` for
/// `rev-parse` and nothing otherwise, and records each step.
fn plan(base: &str) -> Vec<(Option<FileAction>, Vec<String>)> {
    let mut history: Vec<GitOutcome> = Vec::new();
    let mut steps = Vec::new();
    loop {
        match simulate_merge("/tmp/merge", &history) {
            SimulationStep::Run { files, command } => {
                assert_eq!(command.cwd.as_deref(), Some("/tmp/merge"));
                assert!(command.stdin.is_none());
                let printed = if command.args == vec!["rev-parse", "HEAD"] { base } else { "" };
                steps.push((files, command.args.clone()));
                history.push(ok(printed));
            }
            SimulationStep::Done(_) => return steps,
        }
    }
}

#[test]
fn simulated_merge_runs_the_three_way_plan_in_order() {
    let steps = plan("abc123\n");
    let args: Vec<String> = steps.iter().map(|(_, a)| a.join(" ")).collect();
    assert_eq!(
        args,
        vec![
            "init --quiet",
            "add -A",
            "commit --quiet --allow-empty -m uplate base",
            "rev-parse HEAD",
            "checkout --quiet -b ours",
            "add -A",
            "commit --quiet --allow-empty -m uplate ours",
            "checkout --quiet -b theirs abc123",
            "add -A",
            "commit --quiet --allow-empty -m uplate theirs",
            "checkout --quiet ours",
            "merge --no-commit --no-ff theirs",
            "diff --stat HEAD",
            "diff --binary HEAD",
        ]
    );
    let files: Vec<(usize, FileAction)> = steps
        .iter()
        .enumerate()
        .filter_map(|(i, (f, _))| f.map(|f| (i, f)))
        .collect();
    assert_eq!(
        files,
        vec![
            (1, FileAction::CopyBaseTemplate),
            (5, FileAction::ReplaceWithProject),
            (8, FileAction::ReplaceWithLatestTemplate),
        ]
    );
}

fn clean_history() -> Vec<GitOutcome> {
    let mut h: Vec<GitOutcome> = (0..14).map(|_| ok("")).collect();
    h[3] = ok("  abc123\n");
    h[12] = ok(" README.md | 2 +-\n");
    h[13] = ok("diff --git a/README.md b/README.md\n");
    h
}

#[test]
fn clean_merge_gives_patch_and_diff_stat() {
    match simulate_merge("/tmp/merge", &clean_history()) {
        SimulationStep::Done(Ok(sim)) => {
            assert_eq!(sim.patch, "diff --git a/README.md b/README.md\n");
            assert_eq!(sim.diff_stat, " README.md | 2 +-\n");
        }
        other => panic!("{other:?}"),
    }
}

#[test]
fn conflicting_merge_reports_git_stderr() {
    let mut h = clean_history();
    h.truncate(12);
    h[11] = exited(false, "", "CONFLICT (content): Merge conflict in README.md");
    match simulate_merge("/tmp/merge", &h) {
        SimulationStep::Done(Err(SimulationError::Conflict { stderr })) => {
            assert_eq!(stderr, "CONFLICT (content): Merge conflict in README.md");
        }
        other => panic!("{other:?}"),
    }
}

#[test]
fn failed_command_stops_the_simulation() {
    let mut h = clean_history();
    h.truncate(5);
    h[4] = exited(false, "", "fatal: a branch named 'ours' already exists");
    match simulate_merge("/tmp/merge", &h) {
        SimulationStep::Done(Err(SimulationError::Git(e))) => {
            assert_eq!(
                e.to_string(),
                "git checkout --quiet -b ours failed\nfatal: a branch named 'ours' already exists"
            );
        }
        other => panic!("{other:?}"),
    }
}

#[test]
fn merge_that_cannot_start_is_a_git_error() {
    let mut h = clean_history();
    h.truncate(12);
    h[11] = GitOutcome::NotStarted { cause: "no git".to_string() };
    match simulate_merge("/tmp/merge", &h) {
        SimulationStep::Done(Err(SimulationError::Git(e))) => {
            assert_eq!(e.to_string(), "failed to run git");
        }
        other => panic!("{other:?}"),
    }
}
