//! Tests for the pure view logic: tab order, names, file selection, number
//! formatting and error text.

use gitz::app::View;
use gitz::errors::GitzError;
use gitz::file_list::get_file_at_index;
use gitz::repo_view::RepoView;
use gitz::repository::{branch_display, is_blank_str};
use gitz::status::RepoStatus;
use gitz::utils::format_duration;
use gitz::workflow_view::WorkflowView;
use gitz::worktrees_view::WorktreesView;

#[test]
fn test_get_file_at_index() {
    let status = RepoStatus {
        modified: vec!["mod.rs".to_string()],
        added: vec!["new.rs".to_string()],
        deleted: vec!["old.rs".to_string()],
    };

    assert_eq!(get_file_at_index(&status, 0), Some("mod.rs".to_string()));
    assert_eq!(get_file_at_index(&status, 1), Some("new.rs".to_string()));
    assert_eq!(get_file_at_index(&status, 2), Some("old.rs".to_string()));
    assert_eq!(get_file_at_index(&status, 3), None);
}

#[test]
fn test_new_view_is_clean() {
    let view = RepoView::new();
    assert!(view.status.is_clean());
    assert_eq!(view.selected_file_index, 0);
}

#[test]
fn test_navigation() {
    let mut view = RepoView::new();
    view.status = RepoStatus {
        modified: vec!["file1.rs".to_string(), "file2.rs".to_string()],
        added: vec![],
        deleted: vec![],
    };

    // Start at 0
    assert_eq!(view.selected_file_index, 0);

    // Can't go below 0
    view.selected_file_index = 0;
    assert_eq!(view.selected_file_index, 0);

    // Move down
    view.selected_file_index = 1;
    assert_eq!(view.selected_file_index, 1);
}

#[test]
fn test_view_names() {
    assert_eq!(View::Files.name(), "Files");
    assert_eq!(View::Branches.name(), "Branches");
    assert_eq!(View::Commits.name(), "Commits");
    assert_eq!(View::Stashes.name(), "Stashes");
    assert_eq!(View::Remotes.name(), "Remotes");
    assert_eq!(View::Worktrees.name(), "Worktrees");
    assert_eq!(View::Workflows.name(), "Workflows");
}

#[test]
fn test_view_all_in_tab_order() {
    let all = View::all();
    assert_eq!(all.len(), 7);
    assert_eq!(all[0], View::Files);
    assert_eq!(all[6], View::Workflows);
}

#[test]
fn test_view_next_wraps() {
    assert_eq!(View::Files.next(), View::Branches);
    assert_eq!(View::Workflows.next(), View::Files);
}

#[test]
fn test_view_prev_wraps() {
    assert_eq!(View::Files.prev(), View::Workflows);
    assert_eq!(View::Branches.prev(), View::Files);
}

#[test]
fn test_view_next_prev_round_trip() {
    for v in View::all() {
        assert_eq!(v.next().prev(), v);
        assert_eq!(v.prev().next(), v);
    }
}

#[test]
fn test_format_duration() {
    assert_eq!(format_duration(0), "00:00");
    assert_eq!(format_duration(59), "00:59");
    assert_eq!(format_duration(65), "01:05");
    assert_eq!(format_duration(600), "10:00");
    assert_eq!(format_duration(3661), "61:01");
}

#[test]
fn test_error_text() {
    assert_eq!(
        GitzError::InvalidInput("Commit message cannot be empty".to_string()).text(),
        "Invalid input: Commit message cannot be empty"
    );
    assert_eq!(
        GitzError::GitOperationFailed("boom".to_string()).text(),
        "Git operation failed: boom"
    );
    assert_eq!(GitzError::AuthFailed.text(), "Authentication failed");
    assert_eq!(
        GitzError::RepoNotFound("/tmp/nowhere".to_string()).text(),
        "Repository not found at `/tmp/nowhere`"
    );
}

#[test]
fn test_is_blank_str() {
    assert!(is_blank_str(""));
    assert!(is_blank_str("   "));
    assert!(is_blank_str(" \t\r\n"));
    assert!(is_blank_str("\u{00A0}\u{2003}"));
    assert!(!is_blank_str("quick commit"));
    assert!(!is_blank_str("  x  "));
}

#[test]
fn test_branch_display() {
    assert_eq!(branch_display(true, Some("main".to_string())), "main");
    assert_eq!(branch_display(true, None), "HEAD");
    assert_eq!(branch_display(false, Some("main".to_string())), "HEAD (detached)");
}

#[test]
fn test_new_worktrees_view_is_empty() {
    let view = WorktreesView::new();
    assert!(view.worktrees.is_empty());
    assert_eq!(view.selected_index, 0);
    assert_eq!(view.status_message, "Ready");
}

#[test]
fn test_new_workflow_view() {
    let view = WorkflowView::new();
    assert_eq!(view.workflows.len(), 4);
    assert_eq!(view.workflows[0], "Feature Branch Workflow");
    assert_eq!(view.selected, 0);
}
