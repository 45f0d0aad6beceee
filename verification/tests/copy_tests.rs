use moldy::copy::{
    check_depth_restriction, containing_directory, inspect_depth, copy_mode_for, depth_verdict, determine_copy_mode, entry_destination,
    entry_kind, overwrite_answer, plan_copy, plan_into, place_entry, answer_verdict, CopyCounts, CopyMode, DestinationSetup, EntryAction,
    EntryKind, EntryPlan,
};
use moldy::error::MoldyError;
use tempfile::TempDir;

fn text(p: &std::path::Path) -> String {
    p.to_str().unwrap().to_string()
}

#[test]
fn test_check_depth_restriction_target_exists() {
    let temp_dir = TempDir::new().unwrap();
    let existing = tempfile::Builder::new()
        .prefix("existing")
        .rand_bytes(0)
        .tempdir_in(temp_dir.path())
        .unwrap();
    let target = existing.path().to_path_buf();

    let result = check_depth_restriction(&text(&target));
    assert!(result.is_ok());
}

#[test]
fn test_check_depth_restriction_parent_exists() {
    let temp_dir = TempDir::new().unwrap();
    let target = temp_dir.path().join("new_dir");

    let result = check_depth_restriction(&text(&target));
    assert!(result.is_ok());
}

#[test]
fn test_check_depth_restriction_parent_missing() {
    let temp_dir = TempDir::new().unwrap();
    let target = temp_dir.path().join("nonexistent1").join("nonexistent2");

    let result = check_depth_restriction(&text(&target));
    assert!(matches!(result, Err(MoldyError::ParentDirMissing(_))));
}

#[test]
fn missing_parent_is_named() {
    let temp_dir = TempDir::new().unwrap();
    let parent = temp_dir.path().join("nonexistent1");
    let target = parent.join("nonexistent2");
    match check_depth_restriction(&text(&target)) {
        Err(MoldyError::ParentDirMissing(p)) => assert_eq!(p, text(&parent)),
        other => panic!("unexpected result: {:?}", other),
    }
}

#[test]
fn path_without_parent_reports_dot() {
    match check_depth_restriction("") {
        Err(MoldyError::ParentDirMissing(p)) => assert_eq!(p, "."),
        other => panic!("unexpected result: {:?}", other),
    }
}

#[test]
fn depth_verdict_allows_one_new_level_only() {
    assert!(depth_verdict(true, &None, false).is_ok());
    assert!(depth_verdict(true, &Some("/p".to_string()), false).is_ok());
    assert!(depth_verdict(false, &Some("/p".to_string()), true).is_ok());
    match depth_verdict(false, &Some("/p".to_string()), false) {
        Err(MoldyError::ParentDirMissing(p)) => assert_eq!(p, "/p"),
        other => panic!("unexpected result: {:?}", other),
    }
    match depth_verdict(false, &None, true) {
        Err(MoldyError::ParentDirMissing(p)) => assert_eq!(p, "."),
        other => panic!("unexpected result: {:?}", other),
    }
}

#[test]
fn test_determine_copy_mode_target_exists() {
    let temp_dir = TempDir::new().unwrap();
    let existing = tempfile::Builder::new()
        .prefix("existing")
        .rand_bytes(0)
        .tempdir_in(temp_dir.path())
        .unwrap();
    let target = existing.path().to_path_buf();

    let (mode, _, _) = determine_copy_mode(&text(&target));
    assert_eq!(mode, CopyMode::IntoTarget);
}

#[test]
fn test_determine_copy_mode_target_missing() {
    let temp_dir = TempDir::new().unwrap();
    let target = temp_dir.path().join("new_dir");

    let (mode, _, _) = determine_copy_mode(&text(&target));
    assert_eq!(mode, CopyMode::CreateTarget);
}

#[test]
fn existing_file_target_is_created_over() {
    let temp_dir = TempDir::new().unwrap();
    let file = tempfile::NamedTempFile::new_in(temp_dir.path()).unwrap();
    let target = file.path().to_path_buf();
    assert_eq!(determine_copy_mode(&text(&target)), (CopyMode::CreateTarget, true, false));
}

#[test]
fn copy_mode_table() {
    assert_eq!(copy_mode_for(true, true), CopyMode::IntoTarget);
    assert_eq!(copy_mode_for(true, false), CopyMode::CreateTarget);
    assert_eq!(copy_mode_for(false, true), CopyMode::CreateTarget);
    assert_eq!(copy_mode_for(false, false), CopyMode::CreateTarget);
}

#[test]
fn into_target_lands_under_the_source_name() {
    let plan = plan_copy("/templates/react", "/home/u/projects", CopyMode::IntoTarget).unwrap();
    assert_eq!(plan.destination, "/home/u/projects/react");
    assert_eq!(plan.setup, DestinationSetup::CreateIfMissing);
}

#[test]
fn create_target_is_the_copy_itself() {
    let plan = plan_copy("/templates/react", "/home/u/my-app", CopyMode::CreateTarget).unwrap();
    assert_eq!(plan.destination, "/home/u/my-app");
    assert_eq!(plan.setup, DestinationSetup::CreateAlways);
}

#[test]
fn source_without_name_cannot_go_into_a_directory() {
    match plan_copy("/", "/home/u/projects", CopyMode::IntoTarget) {
        Err(MoldyError::CopyError(m)) => assert_eq!(m, "Source has no file name"),
        other => panic!("unexpected result: {:?}", other),
    }
    match plan_copy("/templates/..", "/home/u/projects", CopyMode::IntoTarget) {
        Err(MoldyError::CopyError(m)) => assert_eq!(m, "Source has no file name"),
        other => panic!("unexpected result: {:?}", other),
    }
}

#[test]
fn entries_keep_their_place_below_the_destination() {
    assert_eq!(
        entry_destination("/t/react", "/p/app", "/t/react/src/main.rs").unwrap(),
        "/p/app/src/main.rs"
    );
    assert_eq!(entry_destination("/t/react", "/p/app", "/t/react/a").unwrap(), "/p/app/a");
    match entry_destination("/t/react", "/p/app", "/elsewhere/a") {
        Err(MoldyError::CopyError(m)) => assert!(m.starts_with("Failed to get relative path: ")),
        other => panic!("unexpected result: {:?}", other),
    }
}

#[test]
fn entry_kinds_in_priority_order() {
    assert_eq!(entry_kind(true, true, true), EntryKind::Symlink);
    assert_eq!(entry_kind(false, true, true), EntryKind::Directory);
    assert_eq!(entry_kind(false, false, true), EntryKind::File);
    assert_eq!(entry_kind(false, false, false), EntryKind::Other);
}

fn plan(confirm: bool, remove: bool, action: EntryAction) -> EntryPlan {
    EntryPlan { confirm_overwrite: confirm, remove_existing: remove, action }
}

#[test]
fn each_entry_gets_its_plan_and_is_counted() {
    let mut counts = CopyCounts::new();
    assert_eq!(counts.step(EntryKind::Directory, false), plan(false, false, EntryAction::CreateDirectory));
    assert_eq!(counts.step(EntryKind::Directory, true), plan(false, false, EntryAction::Skip));
    assert_eq!(counts.step(EntryKind::File, false), plan(false, false, EntryAction::CopyFile));
    assert_eq!(counts.step(EntryKind::File, true), plan(true, false, EntryAction::CopyFile));
    assert_eq!(counts.step(EntryKind::Symlink, false), plan(false, false, EntryAction::RecreateSymlink));
    assert_eq!(counts.step(EntryKind::Symlink, true), plan(true, true, EntryAction::RecreateSymlink));
    assert_eq!(counts.step(EntryKind::Other, true), plan(false, false, EntryAction::Skip));
    assert_eq!(counts.files_copied, 4);
    assert_eq!(counts.dirs_created, 1);
}

#[test]
fn only_a_yes_confirms_an_overwrite() {
    assert!(overwrite_answer("y\n").is_ok());
    assert!(overwrite_answer("yes").is_ok());
    assert!(overwrite_answer("  YES \n").is_ok());
    assert!(overwrite_answer("Y").is_ok());
    for answer in ["", "\n", "n", "no", "yess", "y e s"] {
        match overwrite_answer(answer) {
            Err(MoldyError::CopyError(m)) => assert_eq!(m, "User cancelled overwrite"),
            other => panic!("unexpected result for {:?}: {:?}", answer, other),
        }
    }
}

#[test]
fn destination_setup_decides_creation() {
    assert!(DestinationSetup::CreateAlways.creates(true));
    assert!(DestinationSetup::CreateAlways.creates(false));
    assert!(!DestinationSetup::CreateIfMissing.creates(true));
    assert!(DestinationSetup::CreateIfMissing.creates(false));
}

#[test]
fn counting_stops_short_of_overflow() {
    let full = CopyCounts { files_copied: usize::MAX, dirs_created: usize::MAX };
    assert!(!full.can_step(EntryKind::File, false));
    assert!(!full.can_step(EntryKind::Symlink, true));
    assert!(!full.can_step(EntryKind::Directory, false));
    assert!(full.can_step(EntryKind::Directory, true));
    assert!(full.can_step(EntryKind::Other, false));
    assert!(CopyCounts::new().can_step(EntryKind::File, true));
}

#[test]
fn placing_inside_a_directory_needs_a_name() {
    let plan = plan_into("/p", Some("react".to_string())).unwrap();
    assert_eq!(plan.destination, "/p/react");
    assert_eq!(plan.setup, DestinationSetup::CreateIfMissing);
    match plan_into("/p", None) {
        Err(MoldyError::CopyError(m)) => assert_eq!(m, "Source has no file name"),
        other => panic!("unexpected result: {:?}", other),
    }
}

#[test]
fn placing_an_entry() {
    assert_eq!(place_entry("/p/app", Ok("src/a.rs".to_string())).unwrap(), "/p/app/src/a.rs");
    assert_eq!(place_entry("/p/app/", Ok("a".to_string())).unwrap(), "/p/app/a");
    match place_entry("/p/app", Err("prefix not found".to_string())) {
        Err(MoldyError::CopyError(m)) => assert_eq!(m, "Failed to get relative path: prefix not found"),
        other => panic!("unexpected result: {:?}", other),
    }
}

#[test]
fn only_y_or_yes_is_a_yes() {
    assert!(answer_verdict("y").is_ok());
    assert!(answer_verdict("yes").is_ok());
    for answer in ["", "Y", " y", "n", "ye", "yess"] {
        match answer_verdict(answer) {
            Err(MoldyError::CopyError(m)) => assert_eq!(m, "User cancelled overwrite"),
            other => panic!("unexpected result for {:?}: {:?}", answer, other),
        }
    }
}

#[test]
fn determine_copy_mode_reports_what_it_saw() {
    let temp_dir = TempDir::new().unwrap();
    assert_eq!(determine_copy_mode(&text(temp_dir.path())), (CopyMode::IntoTarget, true, true));
    let missing = temp_dir.path().join("missing");
    assert_eq!(determine_copy_mode(&text(&missing)), (CopyMode::CreateTarget, false, false));
}

#[test]
fn relative_target_of_one_level_is_allowed() {
    assert!(check_depth_restriction("moldy-target-that-does-not-exist").is_ok());
    match check_depth_restriction("moldy-missing-parent-xyz/child") {
        Err(MoldyError::ParentDirMissing(p)) => assert_eq!(p, "moldy-missing-parent-xyz"),
        other => panic!("unexpected result: {:?}", other),
    }
}

#[test]
fn empty_parent_is_the_current_directory() {
    assert_eq!(containing_directory(Some(String::new())), Some(".".to_string()));
    assert_eq!(containing_directory(Some("/p".to_string())), Some("/p".to_string()));
    assert_eq!(containing_directory(None), None);
}

#[test]
fn unicode_white_space_is_trimmed_from_answers() {
    assert!(overwrite_answer("\u{3000}y\u{00A0}\r\n").is_ok());
    assert!(overwrite_answer("\u{2028}Yes\t").is_ok());
}

#[test]
fn inspect_depth_reports_the_disk_answers() {
    let temp_dir = TempDir::new().unwrap();
    let existing = text(temp_dir.path());
    let check = inspect_depth(&existing);
    assert!(check.target_exists && check.parent.is_none() && !check.parent_exists);
    assert!(check.outcome.is_ok());

    let new_dir = temp_dir.path().join("new_dir");
    let check = inspect_depth(&text(&new_dir));
    assert!(!check.target_exists);
    assert_eq!(check.parent, Some(existing.clone()));
    assert!(check.parent_exists && check.outcome.is_ok());

    let deep = temp_dir.path().join("a").join("b");
    let check = inspect_depth(&text(&deep));
    assert_eq!(check.parent, Some(text(&temp_dir.path().join("a"))));
    assert!(!check.parent_exists);
    assert!(matches!(check.outcome, Err(MoldyError::ParentDirMissing(_))));
}
