use uplate::source::parse_source;

#[test]
fn parses_github_shorthand_root() {
    let parsed = parse_source("blankeos/solid-launch").unwrap();
    assert_eq!(
        parsed.remote,
        "https://github.com/blankeos/solid-launch.git"
    );
    assert_eq!(parsed.path, None);
}

#[test]
fn parses_github_shorthand_subpath() {
    let parsed = parse_source("blankeos/solid-launch/apps/web").unwrap();
    assert_eq!(parsed.owner.as_deref(), Some("blankeos"));
    assert_eq!(parsed.repo.as_deref(), Some("solid-launch"));
    assert_eq!(parsed.path.as_deref(), Some("apps/web"));
}

#[test]
fn parses_github_prefix() {
    let parsed = parse_source("github:blankeos/solid-launch/apps/web").unwrap();
    assert_eq!(
        parsed.remote,
        "https://github.com/blankeos/solid-launch.git"
    );
    assert_eq!(parsed.path.as_deref(), Some("apps/web"));
}

#[test]
fn parses_github_tree_url() {
    let parsed =
        parse_source("https://github.com/blankeos/solid-launch/tree/dev/apps/web").unwrap();
    assert_eq!(parsed.ref_name.as_deref(), Some("dev"));
    assert_eq!(parsed.path.as_deref(), Some("apps/web"));
}

#[test]
fn parses_gitlab_root_url() {
    let parsed =
        parse_source("https://gitlab.com/soulasid.litd/react-vite-tanstack-mui-boilerplate")
            .unwrap();
    assert_eq!(
        parsed.remote,
        "https://gitlab.com/soulasid.litd/react-vite-tanstack-mui-boilerplate.git"
    );
    assert_eq!(parsed.path, None);
}

#[test]
fn parses_gitlab_tree_url() {
    let parsed =
        parse_source("https://gitlab.com/group/project/-/tree/main/templates/app").unwrap();
    assert_eq!(parsed.remote, "https://gitlab.com/group/project.git");
    assert_eq!(parsed.ref_name.as_deref(), Some("main"));
    assert_eq!(parsed.path.as_deref(), Some("templates/app"));
}

#[test]
fn rejects_path_traversal() {
    assert!(parse_source("owner/repo/../secret").is_err());
    assert!(parse_source("https://github.com/owner/repo/tree/main/../secret").is_err());
    assert!(parse_source("https://gitlab.com/group/project/-/tree/main/../secret").is_err());
}

#[test]
fn rejects_single_word_source() {
    let error = parse_source("adot").unwrap_err().to_string();
    assert!(error.contains("adot is not a valid template source"));
}
