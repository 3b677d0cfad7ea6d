//! Tests against a real repository in a temporary directory: staging,
//! committing, status refresh and the event loop's view of them.

use std::io::Write;

use gitz::app::{App, EventOutcome};
use gitz::events::AppEvent;
use gitz::commands;
use gitz::config::Config;
use gitz::errors::GitzError;
use gitz::keys::Key;
use gitz::repo_view::RepoView;
use gitz::repository::Repository;
use gitz::worktrees_view::WorktreesView;

fn temp_repo() -> (tempfile::TempDir, Repository) {
    let dir = tempfile::tempdir().unwrap();
    let repo = Repository::init(dir.path().to_str().unwrap()).unwrap();
    let raw = git2::Repository::open(dir.path()).unwrap();
    let mut config = raw.config().unwrap();
    config.set_str("user.name", "Tester").unwrap();
    config.set_str("user.email", "tester@example.com").unwrap();
    (dir, repo)
}

fn new_file(dir: &tempfile::TempDir, content: &[u8]) -> tempfile::NamedTempFile {
    let mut file = tempfile::NamedTempFile::new_in(dir.path()).unwrap();
    file.write_all(content).unwrap();
    file.flush().unwrap();
    file
}

#[test]
fn test_open_missing_repository_fails() {
    let r = Repository::open("/definitely/not/a/repository/anywhere");
    match r {
        Err(GitzError::RepoNotFound(p)) => {
            assert_eq!(p, "/definitely/not/a/repository/anywhere");
        }
        Err(other) => panic!("expected a not-found error, got {:?}", other),
        Ok(_) => panic!("expected a not-found error, got a repository"),
    }
}

#[test]
fn test_fresh_repository_is_clean() {
    let (_dir, repo) = temp_repo();
    let status = repo.status().unwrap();
    assert!(status.is_clean());
    assert!(repo.list_worktrees().unwrap().is_empty());
}

#[test]
fn test_status_sees_untracked_file() {
    let (dir, repo) = temp_repo();
    let _file = new_file(&dir, b"hello\n");
    let status = repo.status().unwrap();
    assert_eq!(status.added.len(), 1);
    assert_eq!(status.total_changes(), 1);
}

#[test]
fn test_commit_blank_message_rejected_and_repo_unchanged() {
    let (dir, repo) = temp_repo();
    let _file = new_file(&dir, b"content\n");
    repo.add_all().unwrap();

    let before = repo.status().unwrap();
    for message in ["", "   ", " \t\n "] {
        let r = repo.commit(message);
        match r {
            Err(GitzError::InvalidInput(m)) => {
                assert_eq!(m, "Commit message cannot be empty");
            }
            other => panic!("expected invalid input, got {:?}", other),
        }
    }
    let after = repo.status().unwrap();
    assert_eq!(before.total_changes(), after.total_changes());
    // No commit was created: history is still empty.
    assert!(repo.recent_commits(1).is_err() || repo.recent_commits(1).unwrap().is_empty());
}

#[test]
fn test_commands_commit_blank_message_rejected() {
    let (dir, repo) = temp_repo();
    let _file = new_file(&dir, b"content\n");
    commands::stage_all(&repo).unwrap();
    let r = commands::commit(&repo, "  ");
    assert!(matches!(r, Err(GitzError::InvalidInput(_))));
}

#[test]
fn test_commit_and_recent_commits() {
    let (dir, repo) = temp_repo();
    let _file = new_file(&dir, b"content\n");
    repo.add_all().unwrap();
    let oid = repo.commit("first commit").unwrap();
    assert_eq!(oid.len(), 40);

    let commits = repo.recent_commits(5).unwrap();
    assert_eq!(commits.len(), 1);
    assert_eq!(commits[0].message, "first commit");
    assert_eq!(commits[0].author, "Tester");
    assert_eq!(commits[0].oid, oid);

    let branch = repo.current_branch().unwrap();
    assert!(!branch.is_empty());
    assert_ne!(branch, "HEAD (detached)");
}

#[test]
fn test_recent_commits_bounded() {
    let (dir, repo) = temp_repo();
    for i in 0..3 {
        let _file = new_file(&dir, b"data\n");
        repo.add_all().unwrap();
        repo.commit(&format!("commit {}", i)).unwrap();
    }
    assert_eq!(repo.recent_commits(2).unwrap().len(), 2);
    assert_eq!(repo.recent_commits(10).unwrap().len(), 3);
    // Most recent first.
    assert_eq!(repo.recent_commits(1).unwrap()[0].message, "commit 2");
}

#[test]
fn test_stage_all_keeps_total_and_categories_disjoint() {
    let (dir, repo) = temp_repo();
    // One file to modify, one to delete, both committed first.
    let mut keep = new_file(&dir, b"original\n");
    let gone = new_file(&dir, b"short lived\n");
    repo.add_all().unwrap();
    repo.commit("base").unwrap();
    assert!(repo.status().unwrap().is_clean());

    // Now: modify one, delete one, add a third.
    keep.write_all(b"changed\n").unwrap();
    keep.flush().unwrap();
    drop(gone);
    let _extra = new_file(&dir, b"brand new\n");

    let before = repo.status().unwrap();
    assert_eq!(before.modified.len(), 1);
    assert_eq!(before.added.len(), 1);
    assert_eq!(before.deleted.len(), 1);
    assert_eq!(before.total_changes(), 3);

    commands::stage_all(&repo).unwrap();
    let after = repo.status().unwrap();
    assert_eq!(after.total_changes(), before.total_changes());
    assert_eq!(after.modified.len(), 1);
    assert_eq!(after.added.len(), 1);
    assert_eq!(after.deleted.len(), 1);
    // No file appears in two categories.
    let all = after.all_files();
    for (i, a) in all.iter().enumerate() {
        for b in all.iter().skip(i + 1) {
            assert_ne!(a, b);
        }
    }
}

#[test]
fn test_selection_navigation_scenario() {
    // Two modified files and one added: three files in all.
    let (_dir, repo) = temp_repo();
    let config = Config::default();
    let mut view = RepoView::new();
    view.status = gitz::status::RepoStatus {
        modified: vec!["one.rs".to_string(), "two.rs".to_string()],
        added: vec!["three.rs".to_string()],
        deleted: vec![],
    };

    assert_eq!(view.selected_file_index, 0);
    assert_eq!(view.handle_key(Key::Down, &repo, &config).unwrap(), false);
    assert_eq!(view.handle_key(Key::Down, &repo, &config).unwrap(), false);
    assert_eq!(view.selected_file_index, 2);
    view.handle_key(Key::End, &repo, &config).unwrap();
    assert_eq!(view.selected_file_index, 2);
    view.handle_key(Key::Down, &repo, &config).unwrap();
    assert_eq!(view.selected_file_index, 2);
    view.handle_key(Key::Home, &repo, &config).unwrap();
    assert_eq!(view.selected_file_index, 0);
    view.handle_key(Key::Up, &repo, &config).unwrap();
    assert_eq!(view.selected_file_index, 0);
}

#[test]
fn test_navigation_on_empty_list_stays_at_zero() {
    let (_dir, repo) = temp_repo();
    let config = Config::default();
    let mut view = RepoView::new();
    for key in [Key::Down, Key::Up, Key::End, Key::Home, Key::Char('j'), Key::Char('G')] {
        view.handle_key(key, &repo, &config).unwrap();
        assert_eq!(view.selected_file_index, 0);
    }
}

#[test]
fn test_commit_on_clean_repository_is_refused() {
    let (_dir, repo) = temp_repo();
    let config = Config::default();
    let mut view = RepoView::new();

    let quit = view.handle_key(Key::Char('c'), &repo, &config).unwrap();
    assert_eq!(quit, false);
    assert_eq!(view.status_message, "nothing to commit");
    // No commit was created and the repository is still clean.
    assert!(repo.status().unwrap().is_clean());
    assert!(repo.recent_commits(1).is_err() || repo.recent_commits(1).unwrap().is_empty());
}

#[test]
fn test_stage_then_commit_leaves_repository_clean() {
    let (dir, repo) = temp_repo();
    let config = Config::default();
    let mut view = RepoView::new();
    let _file = new_file(&dir, b"work\n");

    view.refresh(&repo).unwrap();
    assert!(!view.status.is_clean());

    view.handle_key(Key::Char('s'), &repo, &config).unwrap();
    assert_eq!(view.status_message, "Staged all changes");
    assert!(!view.status.is_clean());

    view.handle_key(Key::Char('c'), &repo, &config).unwrap();
    assert_eq!(view.status_message, "Committed changes");
    assert!(view.status.is_clean());
    assert!(repo.status().unwrap().is_clean());

    let commits = repo.recent_commits(1).unwrap();
    assert_eq!(commits.len(), 1);
    assert_eq!(commits[0].message, "quick commit");
}

#[test]
fn test_refresh_key_updates_message() {
    let (dir, repo) = temp_repo();
    let config = Config::default();
    let mut view = RepoView::new();
    let _file = new_file(&dir, b"dirty\n");

    view.handle_key(Key::Char('r'), &repo, &config).unwrap();
    assert_eq!(view.status_message, "Refreshed: 1 added");
}

#[test]
fn test_refresh_clamps_selection_into_new_bounds() {
    // A selection near the end of a large stale snapshot is clamped when a
    // refresh finds fewer files.
    let (dir, repo) = temp_repo();
    let config = Config::default();
    let mut view = RepoView::new();
    view.status = gitz::status::RepoStatus {
        modified: vec!["a.rs".to_string(), "b.rs".to_string(), "c.rs".to_string()],
        added: vec![],
        deleted: vec![],
    };
    view.handle_key(Key::End, &repo, &config).unwrap();
    assert_eq!(view.selected_file_index, 2);

    // The repository really holds one untracked file.
    let _file = new_file(&dir, b"only one\n");
    view.refresh(&repo).unwrap();
    assert_eq!(view.status.total_changes(), 1);
    assert_eq!(view.selected_file_index, 0);

    // A refresh that finds nothing sends the selection back to zero.
    drop(_file);
    view.refresh(&repo).unwrap();
    assert!(view.status.is_clean());
    assert_eq!(view.selected_file_index, 0);
}

#[test]
fn test_worktrees_view_refresh() {
    let (_dir, repo) = temp_repo();
    let config = Config::default();
    let mut view = WorktreesView::new();
    view.handle_key(Key::Char('r'), &repo, &config).unwrap();
    assert_eq!(view.status_message, "Refreshed: 0 worktrees");
    assert_eq!(view.selected_index, 0);
}

#[test]
fn test_digit_keys_select_views_from_any_state() {
    let (_dir, repo) = temp_repo();
    let config = Config::default();
    let mut app = App::new();

    for (digit, view) in [
        ('1', gitz::app::View::Files),
        ('2', gitz::app::View::Branches),
        ('3', gitz::app::View::Commits),
        ('4', gitz::app::View::Stashes),
        ('5', gitz::app::View::Remotes),
        ('6', gitz::app::View::Worktrees),
        ('7', gitz::app::View::Workflows),
    ] {
        // From two different starting views, the digit lands on the same one.
        app.current_view = gitz::app::View::Files;
        app.handle_event(AppEvent::Key(Key::Char(digit)), &repo, &config);
        assert_eq!(app.current_view, view);
        app.current_view = gitz::app::View::Worktrees;
        app.handle_event(AppEvent::Key(Key::Char(digit)), &repo, &config);
        assert_eq!(app.current_view, view);
    }
}

#[test]
fn test_tab_and_back_tab_cycle() {
    let (_dir, repo) = temp_repo();
    let config = Config::default();
    let mut app = App::new();

    assert_eq!(app.current_view, gitz::app::View::Files);
    app.handle_event(AppEvent::Key(Key::Tab), &repo, &config);
    assert_eq!(app.current_view, gitz::app::View::Branches);
    app.handle_event(AppEvent::Key(Key::BackTab), &repo, &config);
    assert_eq!(app.current_view, gitz::app::View::Files);
    // Wraps around the first view.
    app.handle_event(AppEvent::Key(Key::BackTab), &repo, &config);
    assert_eq!(app.current_view, gitz::app::View::Workflows);
    app.handle_event(AppEvent::Key(Key::Tab), &repo, &config);
    assert_eq!(app.current_view, gitz::app::View::Files);
}

#[test]
fn test_event_outcomes() {
    let (_dir, repo) = temp_repo();
    let config = Config::default();
    let mut app = App::new();

    assert_eq!(app.handle_event(AppEvent::Refresh, &repo, &config), EventOutcome::Redraw);
    assert_eq!(
        app.handle_event(AppEvent::Key(Key::Char('x')), &repo, &config),
        EventOutcome::Redraw
    );
    assert_eq!(
        app.handle_event(AppEvent::Key(Key::Char('q')), &repo, &config),
        EventOutcome::Quit
    );
    assert_eq!(app.handle_event(AppEvent::Quit, &repo, &config), EventOutcome::Quit);
}

#[test]
fn test_view_key_error_becomes_status_message() {
    // A stage request on a repository directory that has been removed
    // fails; the failure must surface as a status message, not an error.
    let (dir, repo) = temp_repo();
    let config = Config::default();
    let mut app = App::new();
    drop(dir);

    let outcome = app.handle_event(AppEvent::Key(Key::Char('s')), &repo, &config);
    assert_eq!(outcome, EventOutcome::Redraw);
    assert!(app.repo_view.status_message.starts_with("Git operation failed:"));
}

#[test]
fn test_list_worktrees_sees_created_worktree() {
    let (dir, repo) = temp_repo();
    let _file = new_file(&dir, b"content\n");
    repo.add_all().unwrap();
    repo.commit("base").unwrap();

    let raw = git2::Repository::open(dir.path()).unwrap();
    let wt_dir = tempfile::tempdir().unwrap();
    raw.worktree("side", &wt_dir.path().join("side"), None).unwrap();

    let names = repo.list_worktrees().unwrap();
    assert_eq!(names, vec!["side".to_string()]);
}

#[test]
fn test_current_branch_detached_head() {
    let (dir, repo) = temp_repo();
    let _file = new_file(&dir, b"content\n");
    repo.add_all().unwrap();
    let oid = repo.commit("base").unwrap();

    let raw = git2::Repository::open(dir.path()).unwrap();
    raw.set_head_detached(git2::Oid::from_str(&oid).unwrap()).unwrap();

    assert_eq!(repo.current_branch().unwrap(), "HEAD (detached)");
}
