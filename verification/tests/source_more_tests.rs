use uplate::config::SourceType;
use uplate::source::{parse_source, source_from_url, validate_source_shape, SegmentKind, SourceError, UrlParts};

#[test]
fn shorthand_strips_git_suffix_and_keeps_input() {
    let parsed = parse_source("  owner/repo.git/a/b  ").unwrap();
    assert_eq!(parsed.input, "owner/repo.git/a/b");
    assert_eq!(parsed.repo.as_deref(), Some("repo"));
    assert_eq!(parsed.remote, "https://github.com/owner/repo.git");
    assert_eq!(parsed.path.as_deref(), Some("a/b"));
    assert_eq!(parsed.kind, SourceType::Github);
    assert_eq!(parsed.ref_name, None);
}

#[test]
fn empty_and_blank_sources_are_rejected() {
    assert_eq!(parse_source("").unwrap_err(), SourceError::Empty);
    assert_eq!(parse_source(" \t\n").unwrap_err(), SourceError::Empty);
    assert_eq!(parse_source("").unwrap_err().to_string(), "source cannot be empty");
}

#[test]
fn raw_traversal_shapes_are_rejected() {
    for input in [".", "..", "./a/b", "../a/b", "a/./b", "a/b/.", "a/b/.."] {
        assert_eq!(parse_source(input).unwrap_err(), SourceError::PathTraversal, "{input}");
    }
}

#[test]
fn unsupported_scheme_is_rejected() {
    let error = parse_source("ssh://host/repo").unwrap_err();
    assert_eq!(error.to_string(), "unsupported source URL scheme: ssh://host/repo");
}

#[test]
fn bad_owner_and_repo_segments_are_rejected() {
    assert_eq!(
        parse_source("owner/.git").unwrap_err(),
        SourceError::InvalidSegment { kind: SegmentKind::Repo, value: String::new() }
    );
    assert_eq!(
        parse_source("a\\b/repo").unwrap_err().to_string(),
        "invalid owner segment: a\\b"
    );
}

#[test]
fn bad_path_segment_is_rejected() {
    let error = parse_source("owner/repo/a\\b").unwrap_err();
    assert_eq!(error.to_string(), "invalid template path segment: a\\b");
}

#[test]
fn github_url_shapes() {
    let parsed = parse_source("https://GitHub.com/o/r.git").unwrap();
    assert_eq!(parsed.remote, "https://github.com/o/r.git");
    assert_eq!(parsed.ref_name, None);
    assert_eq!(
        parse_source("https://github.com/o").unwrap_err().to_string(),
        "GitHub URL must include owner and repo: https://github.com/o"
    );
    assert_eq!(
        parse_source("https://github.com/o/r/blob/main").unwrap_err().to_string(),
        "GitHub URL subpaths must use /tree/<ref>/<path>: https://github.com/o/r/blob/main"
    );
    assert_eq!(
        parse_source("https://github.com/o/r/tree").unwrap_err().to_string(),
        "GitHub tree URL must include a ref: https://github.com/o/r/tree"
    );
    let tree = parse_source("https://github.com/o/r/tree/main").unwrap();
    assert_eq!(tree.ref_name.as_deref(), Some("main"));
    assert_eq!(tree.path, None);
}

#[test]
fn generic_url_shapes() {
    let parsed = parse_source("http://example.com:8080/a/b/repo.git?x=1#frag").unwrap();
    assert_eq!(parsed.kind, SourceType::Git);
    assert_eq!(parsed.remote, "http://example.com:8080/a/b/repo.git");
    assert_eq!(parsed.repo.as_deref(), Some("repo"));
    assert_eq!(parsed.owner, None);
    assert_eq!(
        parse_source("https://example.com/").unwrap_err().to_string(),
        "git URL must include a repository path: https://example.com/"
    );
    assert_eq!(
        parse_source("https://example.com/g/p/-/blob/main").unwrap_err().to_string(),
        "unsupported GitLab-style URL shape: https://example.com/g/p/-/blob/main"
    );
    assert_eq!(
        parse_source("https://example.com/-/tree/main").unwrap_err().to_string(),
        "git URL must include a repository path before /-/tree: https://example.com/-/tree/main"
    );
    assert_eq!(
        parse_source("https://example.com/g/p/-/tree").unwrap_err().to_string(),
        "GitLab-style tree URL must include a ref"
    );
}

#[test]
fn invalid_url_is_reported() {
    let error = parse_source("https://").unwrap_err();
    match &error {
        SourceError::InvalidUrl { input, cause } => {
            assert_eq!(input, "https://");
            assert!(!cause.is_empty());
        }
        other => panic!("unexpected error {other:?}"),
    }
    assert_eq!(error.to_string(), "invalid source URL: https://");
}

#[test]
fn source_from_url_reads_given_parts() {
    let parts = UrlParts {
        host: Some("GITHUB.COM".to_string()),
        path: "/owner/repo/tree/dev/x".to_string(),
    };
    let parsed = source_from_url("https://github.com/anything", &parts).unwrap();
    assert_eq!(parsed.input, "https://github.com/anything");
    assert_eq!(parsed.remote, "https://github.com/owner/repo.git");
    assert_eq!(parsed.ref_name.as_deref(), Some("dev"));
    assert_eq!(parsed.path.as_deref(), Some("x"));

    let generic = UrlParts {
        host: Some("h.example".to_string()),
        path: "//group//project.git".to_string(),
    };
    let parsed = source_from_url("https://user@h.example:8443//group//project.git?q=1#f", &generic)
        .unwrap();
    assert_eq!(parsed.remote, "https://user@h.example:8443/group/project.git");
    assert_eq!(parsed.repo.as_deref(), Some("project"));
}

#[test]
fn generic_remote_drops_query_and_fragment_and_encodes_the_path() {
    let parsed = parse_source("https://gitlab.com/g/p?x=1#top").unwrap();
    assert_eq!(parsed.remote, "https://gitlab.com/g/p.git");
    let parsed = parse_source("https://gitlab.com/g/my%20repo").unwrap();
    assert_eq!(parsed.remote, "https://gitlab.com/g/my%20repo.git");
}

#[test]
fn validate_source_shape_matches_parse() {
    assert!(validate_source_shape("owner/repo").is_ok());
    assert_eq!(
        validate_source_shape("adot").unwrap_err(),
        parse_source("adot").unwrap_err()
    );
}

#[test]
fn remotes_end_with_git() {
    for input in [
        "owner/repo",
        "github:owner/repo/x",
        "https://gitlab.com/g/p",
        "https://gitlab.com/g/p.git",
        "https://gitlab.com/g/p/-/tree/main/x",
    ] {
        assert!(parse_source(input).unwrap().remote.ends_with(".git"), "{input}");
    }
}

#[test]
fn whitespace_around_source_is_ignored() {
    assert_eq!(
        parse_source("\u{3000} owner/repo/x \n").unwrap(),
        parse_source("owner/repo/x").unwrap()
    );
}

#[test]
fn parsed_paths_have_only_plain_steps() {
    for input in [
        "owner/repo//a///b/",
        "https://github.com/o/r/tree/main//a/b",
        "https://gitlab.com/g/p/-/tree/main/a//b",
    ] {
        let path = parse_source(input).unwrap().path.unwrap();
        assert!(path.split('/').all(|s| !s.is_empty() && s != "." && s != ".."), "{path}");
    }
}

#[test]
fn into_config_keeps_fields_and_sets_ref() {
    let parsed = parse_source("owner/repo/app").unwrap();
    let config = parsed.clone().into_config("main".to_string());
    assert_eq!(config.kind, SourceType::Github);
    assert_eq!(config.input, parsed.input);
    assert_eq!(config.remote, parsed.remote);
    assert_eq!(config.owner, parsed.owner);
    assert_eq!(config.repo, parsed.repo);
    assert_eq!(config.path, parsed.path);
    assert_eq!(config.ref_name, "main");
}

#[test]
fn github_prefix_names_the_same_repository() {
    for shorthand in ["owner/repo", "owner/repo.git/apps/web", "a/b/c/d"] {
        let plain = parse_source(shorthand).unwrap();
        let prefixed = parse_source(&format!("github:{shorthand}")).unwrap();
        assert_eq!(prefixed.input, format!("github:{shorthand}"));
        assert_eq!(prefixed.kind, plain.kind);
        assert_eq!(prefixed.remote, plain.remote);
        assert_eq!(prefixed.owner, plain.owner);
        assert_eq!(prefixed.repo, plain.repo);
        assert_eq!(prefixed.path, plain.path);
        assert_eq!(prefixed.ref_name, plain.ref_name);
    }
    assert!(parse_source("github:adot").is_err());
    assert!(parse_source("adot").is_err());
}
