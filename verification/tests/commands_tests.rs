use uplate::cli::{AdoptArgs, Cli, Command, UpgradeArgs};
use uplate::commands::{
    after_simulation, agent_prompt, conflict_message, ensure_create_destination_is_safe,
    ensure_not_adopted, missing_base_message, new_config, record_upgrade, resolve_follow_ref,
    resolve_tag_if_exact, run, short_commit, status_lines, up_to_date_report, upgraded_lines,
    AfterSimulation, CommandError, Invocation, Startup, UpgradeSimulation,
};
use uplate::config::{Timestamp, UplateConfig};
use uplate::git::{GitOutcome, GitOutput, GitStep};
use uplate::source::parse_source;

fn ok(stdout: &str) -> GitOutcome {
    GitOutcome::Exited {
        success: true,
        output: GitOutput { stdout: stdout.to_string(), stderr: String::new() },
    }
}

fn fail() -> GitOutcome {
    GitOutcome::Exited {
        success: false,
        output: GitOutput { stdout: String::new(), stderr: String::new() },
    }
}

fn sample_config() -> UplateConfig {
    let parsed = parse_source("blankeos/solid-launch/apps/web").unwrap();
    new_config(
        parsed,
        "main".to_string(),
        "0123456789abcdef0123".to_string(),
        None,
        Timestamp { seconds: 1_700_000_000, nanos: 5 },
    )
}

#[test]
fn shorthand_without_subcommand_is_create() {
    let cli = Cli { command: None, source: Some("o/r".into()), destination: Some("d".into()) };
    match run(cli, &[ok("git version 2.43.0\n")]) {
        Startup::Go(Invocation::Create { source, destination }) => {
            assert_eq!(source.as_deref(), Some("o/r"));
            assert_eq!(destination.as_deref(), Some("d"));
        }
        other => panic!("{other:?}"),
    }
    let adopt = Cli {
        command: Some(Command::Adopt(AdoptArgs { source: Some("o/r".into()), base: None })),
        source: None,
        destination: None,
    };
    assert!(matches!(
        run(adopt, &[ok("git version 2.43.0\n")]),
        Startup::Go(Invocation::Adopt { base: None, .. })
    ));
}

#[test]
fn startup_checks_git_first() {
    let cli = Cli { command: None, source: None, destination: None };
    match run(cli.clone(), &[]) {
        Startup::Run(command) => {
            assert_eq!(command.cwd, None);
            assert_eq!(command.args, vec!["--version".to_string()]);
        }
        other => panic!("{other:?}"),
    }
    match run(cli.clone(), &[GitOutcome::NotStarted { cause: "not found".to_string() }]) {
        Startup::Stop(error) => {
            assert_eq!(error.to_string(), "uplate requires git for v1, but git was not found");
            assert_eq!(error.kind.to_string(), "failed to run git --version");
        }
        other => panic!("{other:?}"),
    }
    match run(cli, &[fail()]) {
        Startup::Stop(error) => {
            assert_eq!(error.to_string(), "uplate requires git for v1, but git was not found");
            assert_eq!(error.kind.to_string(), "git --version failed\n");
        }
        other => panic!("{other:?}"),
    }
}

#[test]
fn short_commit_keeps_twelve_characters() {
    assert_eq!(short_commit("0123456789abcdef"), "0123456789ab");
    assert_eq!(short_commit("abc"), "abc");
}

#[test]
fn new_config_starts_with_base_equal_to_current() {
    let config = sample_config();
    assert_eq!(config.schema_version, 1);
    assert_eq!(config.base.commit, config.current.commit);
    assert_eq!(config.base.ref_name, "main");
    assert_eq!(config.source.ref_name, "main");
    assert_eq!(config.source.path.as_deref(), Some("apps/web"));
    assert_eq!(config.current.upgraded_at, None);
}

#[test]
fn record_upgrade_moves_base_and_current_together() {
    let mut config = sample_config();
    let now = Timestamp { seconds: 1_800_000_000, nanos: 0 };
    record_upgrade(&mut config, "fedcba", now);
    assert_eq!(config.current.commit, "fedcba");
    assert_eq!(config.base.commit, "fedcba");
    assert_eq!(config.current.upgraded_at, Some(now));
    assert_eq!(config.created_at, Timestamp { seconds: 1_700_000_000, nanos: 5 });
}

#[test]
fn status_reports_up_to_date_only_for_same_commit() {
    let config = sample_config();
    let same = status_lines(&config, "0123456789abcdef0123", true, true);
    assert_eq!(
        same,
        vec![
            "Source: blankeos/solid-launch/apps/web",
            "Remote: https://github.com/blankeos/solid-launch.git",
            "Path: apps/web",
            "Following ref: main",
            "Current template: 0123456789ab",
            "Latest template:  0123456789ab",
            "Working tree: clean",
            "Base commit: available",
            "Status: up to date",
        ]
    );
    let newer = status_lines(&config, "ffff", false, false);
    assert_eq!(newer[newer.len() - 2], "Status: update available");
    assert_eq!(
        newer[newer.len() - 1],
        "Working tree is dirty, commit or stash before upgrade."
    );
    assert!(newer.contains(&"Base commit: missing".to_string()));
}

#[test]
fn up_to_date_report_only_for_same_commit() {
    let config = sample_config();
    assert_eq!(
        up_to_date_report(&config, "0123456789abcdef0123"),
        Some(vec!["Already up to date at 0123456789ab".to_string()])
    );
    assert_eq!(up_to_date_report(&config, "other"), None);
}

#[test]
fn after_simulation_decisions() {
    let config = sample_config();
    let dry = UpgradeArgs { dry_run: true, prompt: false };
    let real = UpgradeArgs { dry_run: false, prompt: false };
    let sim = |patch: &str, stat: &str| {
        Ok(UpgradeSimulation { patch: patch.to_string(), diff_stat: stat.to_string() })
    };
    match after_simulation(dry, &config, "fedcba9876543210", sim("diff --git", " a | 1 +")) {
        AfterSimulation::Stop { say } => assert_eq!(
            say,
            vec!["Upgrade preview: 0123456789ab -> fedcba987654", " a | 1 +"]
        ),
        other => panic!("{other:?}"),
    }
    match after_simulation(dry, &config, "x", sim("diff", "  ")) {
        AfterSimulation::Stop { say } => assert_eq!(say[1], "No diff stat available."),
        other => panic!("{other:?}"),
    }
    match after_simulation(dry, &config, "x", sim(" \n", "")) {
        AfterSimulation::Stop { say } => {
            assert_eq!(say, vec!["No file changes needed, but updating uplate metadata."])
        }
        other => panic!("{other:?}"),
    }
    assert!(matches!(
        after_simulation(real, &config, "x", sim("", "")),
        AfterSimulation::Record { .. }
    ));
    assert!(matches!(
        after_simulation(real, &config, "x", sim("diff", "")),
        AfterSimulation::ApplyThenRecord
    ));
    match after_simulation(real, &config, "x", Err("boom".to_string())) {
        AfterSimulation::Fail { say } => assert!(say.is_empty()),
        other => panic!("{other:?}"),
    }
    let prompt = UpgradeArgs { dry_run: false, prompt: true };
    match after_simulation(prompt, &config, "x", Err("boom".to_string())) {
        AfterSimulation::Fail { say } => assert_eq!(say, vec![agent_prompt(&config, "x", "boom")]),
        other => panic!("{other:?}"),
    }
}

#[test]
fn agent_prompt_names_source_commits_and_error() {
    let config = sample_config();
    let prompt = agent_prompt(&config, "fedcba", "boom");
    assert!(prompt.starts_with("\n--- uplate upgrade prompt ---\n"));
    assert!(prompt.contains("Source input: blankeos/solid-launch/apps/web\n"));
    assert!(prompt.contains("Subpath: apps/web\n"));
    assert!(prompt.contains("Previous template commit: 0123456789abcdef0123\n"));
    assert!(prompt.contains("Latest template commit: fedcba\n"));
    assert!(prompt.contains("Error:\nboom\n"));
    assert!(prompt.ends_with("--- end prompt ---"));
}

#[test]
fn messages() {
    assert!(missing_base_message("abc", "r").contains("The saved base commit abc no longer exists upstream (r)."));
    let conflict = conflict_message("CONFLICT (content)");
    assert!(conflict.starts_with("Cannot safely upgrade."));
    assert!(conflict.contains("\n\nCONFLICT (content)\n\n"));
    assert_eq!(
        upgraded_lines("0123456789abcdef", "fedcba"),
        vec!["Upgraded template 0123456789ab -> fedcba", "Review the changes, then commit them with git."]
    );
}

#[test]
fn destination_rules() {
    assert_eq!(ensure_create_destination_is_safe("d", false, false, true), Ok(true));
    assert_eq!(ensure_create_destination_is_safe("d", true, true, true), Ok(false));
    assert_eq!(
        ensure_create_destination_is_safe("d", true, false, true).unwrap_err().to_string(),
        "destination exists and is not a directory: d"
    );
    assert_eq!(
        ensure_create_destination_is_safe("d", true, true, false).unwrap_err().to_string(),
        "destination directory is not empty: d. Choose an empty directory."
    );
    assert_eq!(ensure_not_adopted(true), Err(CommandError::AlreadyAdopted));
    assert_eq!(ensure_not_adopted(false), Ok(()));
}

#[test]
fn follow_ref_prefers_the_source_ref() {
    let parsed = parse_source("https://github.com/o/r/tree/dev").unwrap();
    assert!(matches!(resolve_follow_ref(&parsed, &[]), GitStep::Done(Ok(ref r)) if r == "dev"));
    let parsed = parse_source("o/r").unwrap();
    match resolve_follow_ref(&parsed, &[]) {
        GitStep::Run(c) => assert_eq!(c.args, vec!["ls-remote", "--symref", "https://github.com/o/r.git", "HEAD"]),
        other => panic!("{other:?}"),
    }
}

#[test]
fn tags_are_recorded_only_when_they_name_the_base() {
    assert!(matches!(
        resolve_tag_if_exact("/r", "abcdef1", "abcdef1234", &[]),
        GitStep::Done(Ok(None))
    ));
    match resolve_tag_if_exact("/r", "v1.0", "abc", &[]) {
        GitStep::Run(c) => assert_eq!(c.args, vec!["rev-parse", "--verify", "refs/tags/v1.0^{commit}"]),
        other => panic!("{other:?}"),
    }
    assert!(matches!(
        resolve_tag_if_exact("/r", "v1.0", "abc", &[ok("abc\n")]),
        GitStep::Done(Ok(Some(ref t))) if t == "v1.0"
    ));
    assert!(matches!(
        resolve_tag_if_exact("/r", "v1.0", "abc", &[ok("def\n")]),
        GitStep::Done(Ok(None))
    ));
    match resolve_tag_if_exact("/r", "v1.0", "abc", &[fail()]) {
        GitStep::Run(c) => assert_eq!(c.args, vec!["rev-parse", "--verify", "refs/tags/v1.0"]),
        other => panic!("{other:?}"),
    }
    assert!(matches!(
        resolve_tag_if_exact("/r", "v1.0", "abc", &[fail(), fail()]),
        GitStep::Done(Ok(None))
    ));
}
