use agstash::commands::{
    apply_stash_content, default_template, handle_apply, handle_clean, handle_init,
    handle_stash, handle_uninstall, ApplyContentOutcome, ApplyOutcome, CleanOutcome,
    InitOutcome, StashOutcome, UninstallOutcome,
};
use agstash::paths::AgStashError;
use agstash::validation::basic_validation;

#[test]
fn init_creates_file() {
    assert!(matches!(handle_init(false, false), InitOutcome::Create));
    let template = default_template();
    assert!(template.starts_with("# AGENTS\n"));
    assert!(basic_validation(&template));
    assert_eq!(
        template,
        "# AGENTS\n\n- be concise and factual.\n- always test after changes are made.\n- create tests after a new feature is added.\n"
    );
}

#[test]
fn init_does_not_overwrite() {
    assert!(matches!(handle_init(true, false), InitOutcome::AlreadyExists));
}

#[test]
fn init_force_overwrites() {
    assert!(matches!(handle_init(true, true), InitOutcome::Create));
}

#[test]
fn clean_removes_file() {
    assert!(matches!(handle_clean(true), CleanOutcome::Removed));
}

#[test]
fn clean_does_not_error_on_missing_file() {
    // A second clean in a row finds nothing and still succeeds.
    assert!(matches!(handle_clean(false), CleanOutcome::DoesNotExist));
    assert!(matches!(handle_clean(false), CleanOutcome::DoesNotExist));
}

#[test]
fn stash_creates_file() {
    let cwd = vec!["work".to_string(), "myproject".to_string()];
    let markers = vec![true, false, false];
    let r = handle_stash(
        &cwd,
        &markers,
        Some("/home/u"),
        true,
        "# AGENTS\n\n- some content\n",
    )
    .unwrap();
    match r {
        StashOutcome::Stashed {
            project_name,
            stash_dir,
            stash_path,
        } => {
            assert_eq!(project_name, "myproject");
            assert_eq!(stash_dir, "/home/u/.agstash/stashes");
            assert_eq!(stash_path, "/home/u/.agstash/stashes/stash-myproject.md");
        }
        other => panic!("expected a stash, got {:?}", other),
    }
}

#[test]
fn stash_fails_when_agents_missing() {
    let cwd = vec!["p".to_string()];
    let markers = vec![true, false];
    let r = handle_stash(&cwd, &markers, Some("/home/u"), false, "").unwrap();
    assert!(matches!(r, StashOutcome::FileMissing));
}

#[test]
fn stash_rejects_invalid_agents_content() {
    let cwd = vec!["p".to_string()];
    let markers = vec![true, false];
    let r = handle_stash(&cwd, &markers, Some("/home/u"), true, "Some invalid content").unwrap();
    assert!(matches!(r, StashOutcome::InvalidContent));
}

#[test]
fn stash_propagates_missing_root() {
    let cwd = vec!["p".to_string()];
    let markers = vec![false, false];
    let err = handle_stash(&cwd, &markers, Some("/home/u"), true, "# AGENTS").unwrap_err();
    assert!(matches!(err, AgStashError::ProjectRootNotFound));
}

#[test]
fn stash_propagates_missing_home() {
    let cwd = vec!["p".to_string()];
    let markers = vec![true, false];
    let err = handle_stash(&cwd, &markers, None, true, "# AGENTS").unwrap_err();
    assert!(matches!(err, AgStashError::HomeDirNotFound));
}

#[test]
fn stash_refuses_oversized_content() {
    let cwd = vec!["p".to_string()];
    let markers = vec![true, false];
    let big = "x".repeat(10_000_000);
    let err = handle_stash(&cwd, &markers, Some("/home/u"), true, &big).unwrap_err();
    assert!(matches!(err, AgStashError::ContentTooLarge));
}

#[test]
fn apply_fails_when_stash_missing() {
    let cwd = vec!["work".to_string(), "p".to_string()];
    let markers = vec![true, false, false];
    let r = handle_apply(&cwd, &markers, Some("/home/u"), false, false, false, None).unwrap();
    match r {
        ApplyOutcome::NoStashFound { project_name } => assert_eq!(project_name, "p"),
        other => panic!("expected no stash, got {:?}", other),
    }
}

#[test]
fn apply_prompts_on_existing_file_abort() {
    let cwd = vec!["p".to_string()];
    let markers = vec![true, false];
    // First round: an existing file and no force ask for confirmation.
    let r = handle_apply(&cwd, &markers, Some("/home/u"), true, true, false, None).unwrap();
    assert!(matches!(r, ApplyOutcome::NeedsConfirmation));
    // Second round: the user declines.
    let r = handle_apply(&cwd, &markers, Some("/home/u"), true, true, false, Some("n\n")).unwrap();
    assert!(matches!(r, ApplyOutcome::Declined));
}

#[test]
fn apply_prompts_on_existing_file_overwrite() {
    let cwd = vec!["p".to_string()];
    let markers = vec![true, false];
    let r = handle_apply(&cwd, &markers, Some("/home/u"), true, true, false, Some("y\n")).unwrap();
    match r {
        ApplyOutcome::Proceed {
            project_name,
            stash_path,
            target_path,
        } => {
            assert_eq!(project_name, "p");
            assert_eq!(stash_path, "/home/u/.agstash/stashes/stash-p.md");
            assert_eq!(target_path, "/p/AGENTS.md");
        }
        other => panic!("expected to proceed, got {:?}", other),
    }
}

#[test]
fn apply_force_overwrites_without_prompt() {
    let cwd = vec!["p".to_string()];
    let markers = vec![true, false];
    // force: no confirmation round at all, straight to the copy.
    let r = handle_apply(&cwd, &markers, Some("/home/u"), true, true, true, None).unwrap();
    assert!(matches!(r, ApplyOutcome::Proceed { .. }));
}

#[test]
fn apply_restores_file() {
    // No existing convention file: no prompt, the stash entry is applied.
    let cwd = vec!["p".to_string()];
    let markers = vec![true, false];
    let r = handle_apply(&cwd, &markers, Some("/home/u"), true, false, false, None).unwrap();
    assert!(matches!(r, ApplyOutcome::Proceed { .. }));
    let c = apply_stash_content("# AGENTS\n\nStashed Content").unwrap();
    assert!(matches!(c, ApplyContentOutcome::Apply));
}

#[test]
fn apply_rejects_invalid_stash_content() {
    let c = apply_stash_content("Invalid stash content").unwrap();
    assert!(matches!(c, ApplyContentOutcome::InvalidContent));
}

#[test]
fn apply_refuses_oversized_stash_content() {
    let big = "x".repeat(10_000_000);
    let err = apply_stash_content(&big).unwrap_err();
    assert!(matches!(err, AgStashError::ContentTooLarge));
}

#[test]
fn apply_propagates_missing_root_and_home() {
    let cwd = vec!["p".to_string()];
    let err = handle_apply(&cwd, &vec![false, false], Some("/h"), true, false, false, None)
        .unwrap_err();
    assert!(matches!(err, AgStashError::ProjectRootNotFound));
    let err =
        handle_apply(&cwd, &vec![true, false], None, true, false, false, None).unwrap_err();
    assert!(matches!(err, AgStashError::HomeDirNotFound));
}

#[test]
fn uninstall_removes_directory() {
    let r = handle_uninstall(Some("/home/u"), true).unwrap();
    match r {
        UninstallOutcome::Removed { dir } => assert_eq!(dir, "/home/u/.agstash"),
        other => panic!("expected a removal, got {:?}", other),
    }
}

#[test]
fn uninstall_is_idempotent() {
    let r = handle_uninstall(Some("/home/u"), false).unwrap();
    assert!(matches!(r, UninstallOutcome::DoesNotExist));
    let err = handle_uninstall(None, true).unwrap_err();
    assert!(matches!(err, AgStashError::HomeDirNotFound));
}

#[test]
fn round_trip_stash_then_apply_restores_content() {
    let content = "# AGENTS\n\n- round trip\n";
    let cwd = vec!["proj".to_string()];
    let markers = vec![true, false];
    // Stash the valid convention file.
    let stashed = handle_stash(&cwd, &markers, Some("/home/u"), true, content).unwrap();
    let stash_path = match stashed {
        StashOutcome::Stashed { stash_path, .. } => stash_path,
        other => panic!("expected a stash, got {:?}", other),
    };
    assert_eq!(stash_path, "/home/u/.agstash/stashes/stash-proj.md");
    // The convention file is deleted, then apply runs with no prompt.
    let applied = handle_apply(&cwd, &markers, Some("/home/u"), true, false, false, None).unwrap();
    match applied {
        ApplyOutcome::Proceed { stash_path: sp, target_path, .. } => {
            assert_eq!(sp, stash_path);
            assert_eq!(target_path, "/proj/AGENTS.md");
        }
        other => panic!("expected to proceed, got {:?}", other),
    }
    // The stash entry holds the content verbatim; a valid entry is applied
    // verbatim, so the round trip reproduces it exactly.
    let c = apply_stash_content(content).unwrap();
    assert!(matches!(c, ApplyContentOutcome::Apply));
    assert_eq!(content, "# AGENTS\n\n- round trip\n");
}
