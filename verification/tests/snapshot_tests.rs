use uplate::config::strip_config_comments;
use uplate::snapshot::{
    check_symlink_target, check_template_dir, clear_action, copy_action, ensure_no_submodules, should_skip_project,
    should_skip_template, symlink_target_verdict, template_path_verdict, template_subpath, top_level_names,
    validate_relative_template_path, verify_adoption_fit, ClearAction, ComponentKind, CopyAction,
    CopyFilter, EntryKind, SnapshotError,
};

fn names(v: &[&str]) -> Vec<String> {
    v.iter().map(|s| s.to_string()).collect()
}

#[test]
fn skip_rules() {
    assert!(should_skip_template(&names(&[".git", "config"])));
    assert!(!should_skip_template(&names(&["src", ".uplate"])));
    assert!(should_skip_project(&names(&["src", ".uplate"])));
    assert!(should_skip_project(&names(&[".git"])));
    assert!(!should_skip_project(&names(&["src", "main.rs"])));
}

#[test]
fn adoption_fit_needs_a_shared_name() {
    assert_eq!(
        top_level_names(&names(&[".git", "src", ".uplate.jsonc", ".uplate", "README.md"])),
        names(&[".git", "src", ".uplate.jsonc", ".uplate", "README.md"])
    );
    assert_eq!(top_level_names(&names(&[".git"])), names(&[".git"]));
    assert_eq!(top_level_names(&names(&["a", "b", "a"])), names(&["a", "b"]));
    assert!(verify_adoption_fit("/p", &names(&["src", ".git"]), &names(&["src"])).is_ok());
    assert!(verify_adoption_fit("/p", &names(&[".uplate.jsonc", "x"]), &names(&[".uplate.jsonc"])).is_err());
    let error = verify_adoption_fit("/p", &names(&[".git", "a"]), &names(&[".git", "b"])).unwrap_err();
    assert_eq!(error, SnapshotError::Unrelated { project_root: "/p".to_string() });
    assert!(error.to_string().starts_with(
        "The project at /p does not appear to be related to the boilerplate source."
    ));
}

#[test]
fn template_path_rules() {
    assert!(template_path_verdict("a/b", false, &vec![ComponentKind::Normal, ComponentKind::Normal]).is_ok());
    assert_eq!(
        template_path_verdict("/a", true, &vec![]).unwrap_err().to_string(),
        "template path must be relative: /a"
    );
    assert_eq!(
        template_path_verdict("a/../b", false, &vec![ComponentKind::Normal, ComponentKind::ParentDir]).unwrap_err().to_string(),
        "invalid template path: a/../b"
    );
    assert!(validate_relative_template_path("apps/web").is_ok());
    assert_eq!(
        validate_relative_template_path("apps/../web").unwrap_err(),
        SnapshotError::InvalidTemplatePath { path: "apps/../web".to_string() }
    );
    assert_eq!(
        validate_relative_template_path("./apps").unwrap_err(),
        SnapshotError::InvalidTemplatePath { path: "./apps".to_string() }
    );
    assert!(validate_relative_template_path("apps/./web").is_ok());
    assert!(validate_relative_template_path("/etc").is_err());
    assert!(validate_relative_template_path("//server/share").is_err());
    assert!(validate_relative_template_path("apps//web/").is_ok());
    assert_eq!(
        symlink_target_verdict("l", "/abs", true).unwrap_err(),
        SnapshotError::AbsoluteSymlink { source: "l".to_string(), target: "/abs".to_string() }
    );
    assert!(symlink_target_verdict("l", "rel", false).is_ok());
    assert_eq!(template_subpath(Some("  ")), None);
    assert_eq!(template_subpath(Some("apps")), Some("apps".to_string()));
    assert_eq!(template_subpath(None), None);
}

#[test]
fn template_dir_checks() {
    assert!(check_template_dir(Some("x"), "abc", true, true).is_ok());
    assert_eq!(
        check_template_dir(None, "abc", false, false).unwrap_err().to_string(),
        "template path . does not exist at abc"
    );
    assert_eq!(
        check_template_dir(Some("x"), "abc", true, false).unwrap_err().to_string(),
        "template path x is not a directory"
    );
    assert_eq!(
        ensure_no_submodules("/t", true).unwrap_err().to_string(),
        "git submodules are not supported by uplate v1: /t contains .gitmodules"
    );
    assert!(ensure_no_submodules("/t", false).is_ok());
}

#[test]
fn comments_are_blanked() {
    let raw = b"{ // note\n \"a\": 1 /* x */ }";
    let stripped = strip_config_comments(raw).unwrap();
    assert_eq!(stripped.len(), raw.len());
    let text = String::from_utf8(stripped).unwrap();
    assert!(!text.contains("note"));
    assert!(!text.contains("x */"));
    assert!(text.contains("\"a\": 1"));
    assert_eq!(strip_config_comments(b"{ /* open"), None);
}

fn parts(path: &str) -> Vec<String> {
    path.split('/').map(|p| p.to_string()).collect()
}

#[test]
fn copy_actions_follow_entry_kind_and_filter() {
    assert_eq!(
        copy_action(CopyFilter::Template, &parts("src"), EntryKind::Directory),
        Some(CopyAction::CreateDir)
    );
    assert_eq!(
        copy_action(CopyFilter::Template, &parts("src/main.rs"), EntryKind::File),
        Some(CopyAction::CopyFile)
    );
    assert_eq!(
        copy_action(CopyFilter::Project, &parts("docs/link"), EntryKind::Symlink),
        Some(CopyAction::CopySymlink)
    );
    assert_eq!(copy_action(CopyFilter::Project, &parts("fifo"), EntryKind::Other), None);
    assert_eq!(copy_action(CopyFilter::Template, &parts(".git/HEAD"), EntryKind::File), None);
    assert_eq!(
        copy_action(CopyFilter::Template, &parts(".uplate/state"), EntryKind::File),
        Some(CopyAction::CopyFile)
    );
    assert_eq!(copy_action(CopyFilter::Project, &parts(".uplate/state"), EntryKind::File), None);
    assert_eq!(copy_action(CopyFilter::Project, &parts("a/.git"), EntryKind::Directory), None);
    assert_eq!(
        copy_action(CopyFilter::Project, &parts(".uplate.jsonc"), EntryKind::File),
        Some(CopyAction::CopyFile)
    );
}

#[test]
fn clearing_keeps_git_and_removes_links_by_themselves() {
    assert_eq!(clear_action(".git", true, false), None);
    assert_eq!(clear_action("src", true, false), Some(ClearAction::RemoveTree));
    assert_eq!(clear_action("linked", true, true), Some(ClearAction::RemoveFile));
    assert_eq!(clear_action("README.md", false, false), Some(ClearAction::RemoveFile));
    assert_eq!(clear_action(".gitignore", false, false), Some(ClearAction::RemoveFile));
}

#[test]
fn relative_symlink_targets_are_accepted_and_absolute_ones_refused() {
    assert!(check_symlink_target("tpl/link", "../shared/config.json").is_ok());
    assert!(check_symlink_target("tpl/link", "config.json").is_ok());
    match check_symlink_target("tpl/link", "/etc/passwd") {
        Err(e) => assert_eq!(
            e.to_string(),
            "refusing to copy absolute symlink tpl/link -> /etc/passwd"
        ),
        Ok(()) => panic!("absolute target accepted"),
    }
}
