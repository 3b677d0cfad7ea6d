//! The worktrees view: the cached list of worktree names, the selected
//! entry, and a status message, with the key handling that mutates them.

use vstd::prelude::*;

use crate::config::Config;
use crate::errors::GitzError;
use crate::keys::{clamp_index, is_nav_key, nav_index, selection_ok, Key};
use crate::numfmt::{dec_rep, usize_to_string};
use crate::repository::Repository;

verus! {

/// Per-view state for the worktrees view.
#[derive(Debug)]
pub struct WorktreesView {
    /// The cached worktree names, refreshed on demand.
    pub worktrees: Vec<String>,
    /// The index of the selected worktree.
    pub selected_index: usize,
    /// The short human-readable status line.
    pub status_message: String,
}

/// The keys the worktrees view reacts to.
pub open spec fn worktrees_view_handles(k: Key) -> bool {
    is_nav_key(k) || k == Key::Char('r') || k == Key::Char('q') || k == Key::F(5)
}

impl WorktreesView {
    /// The selection lies in `[0, count - 1]` when the list is non-empty,
    /// and is `0` when it is empty.
    pub open spec fn selection_in_bounds(&self) -> bool {
        selection_ok(self.selected_index as nat, self.worktrees@.len())
    }

    /// The state after one navigation key: the same list and message, with
    /// the selection moved.
    pub open spec fn nav_step(self, k: Key) -> WorktreesView {
        WorktreesView {
            selected_index: nav_index(
                k,
                self.selected_index as nat,
                self.worktrees@.len(),
            ) as usize,
            ..self
        }
    }

    /// Create the view with an empty list, the selection at the start and
    /// a ready message.
    pub fn new() -> (r: WorktreesView)
        ensures
            r.worktrees@.len() == 0,
            r.selected_index == 0,
            r.status_message@ == "Ready"@,
            r.selection_in_bounds(),
    {
        WorktreesView {
            worktrees: Vec::new(),
            selected_index: 0,
            status_message: "Ready".to_owned(),
        }
    }

    /// Refresh the cached list from the repository and report how many
    /// worktrees it holds. The selection is kept where it was, clamped
    /// into the new list's bounds. On an engine failure nothing changes.
    pub fn refresh(&mut self, repo: &Repository) -> (r: Result<(), GitzError>)
        ensures
            r is Ok ==> {
                &&& final (self).selected_index as nat == clamp_index(
                    old(self).selected_index as nat,
                    final (self).worktrees@.len(),
                )
                &&& final (self).selection_in_bounds()
                &&& final (self).status_message@ == "Refreshed: "@ + dec_rep(
                    final (self).worktrees@.len(),
                ) + " worktrees"@
            },
            r matches Err(e) ==> *final (self) == *old(self) && e is GitOperationFailed,
    {
        match repo.list_worktrees() {
            Ok(worktrees) => {
                self.worktrees = worktrees;
                let total = self.worktrees.len();
                if total == 0 {
                    self.selected_index = 0;
                } else if self.selected_index >= total {
                    self.selected_index = total - 1;
                }
                let mut msg: String = "Refreshed: ".to_owned();
                let count = usize_to_string(self.worktrees.len());
                msg.append(count.as_str());
                msg.append(" worktrees");
                self.status_message = msg;
                Ok(())
            },
            Err(e) => Err(e),
        }
    }

    /// Handle a key press. Navigation keys move the selection exactly as
    /// `nav_step` says and never fail; `r` refreshes the list, clamping
    /// the selection into the new list's bounds; `q` asks to quit. An
    /// engine failure leaves the state unchanged and is returned; a key
    /// without a binding here does nothing.
    pub fn handle_key(&mut self, key: Key, repo: &Repository, _config: &Config) -> (r: Result<
        bool,
        GitzError,
    >)
        ensures
            is_nav_key(key) ==> (r matches Ok(b) && b == false
                && *final (self) == old(self).nav_step(key)),
            old(self).selection_in_bounds() ==> final (self).selection_in_bounds(),
            key == Key::Char('q') ==> (r matches Ok(b) && b == true
                && *final (self) == *old(self)),
            key == Key::Char('r') || key == Key::F(5) ==> {
                &&& r matches Ok(b) ==> b == false
                    && final (self).selected_index as nat == clamp_index(
                    old(self).selected_index as nat,
                    final (self).worktrees@.len(),
                ) && final (self).status_message@ == "Refreshed: "@ + dec_rep(
                    final (self).worktrees@.len(),
                ) + " worktrees"@
                &&& r matches Err(e) ==> *final (self) == *old(self) && e is GitOperationFailed
            },
            !worktrees_view_handles(key) ==> (r matches Ok(b) && b == false
                && *final (self) == *old(self)),
    {
        if key == Key::Char('r') || key == Key::F(5) {
            match self.refresh(repo) {
                Ok(()) => {},
                Err(e) => {
                    return Err(e);
                },
            }
            Ok(false)
        } else if key == Key::Char('q') {
            Ok(true)
        } else if key == Key::Down || key == Key::Char('j') {
            let total = self.worktrees.len();
            if total > 0 && self.selected_index < total - 1 {
                self.selected_index += 1;
            }
            Ok(false)
        } else if key == Key::Up || key == Key::Char('k') {
            if self.selected_index > 0 {
                self.selected_index -= 1;
            }
            Ok(false)
        } else if key == Key::Home || key == Key::Char('g') {
            self.selected_index = 0;
            Ok(false)
        } else if key == Key::End || key == Key::Char('G') {
            let total = self.worktrees.len();
            if total > 0 {
                self.selected_index = total - 1;
            }
            Ok(false)
        } else {
            Ok(false)
        }
    }
}

impl Default for WorktreesView {
    /// The starting state, the same as `new`.
    fn default() -> (r: WorktreesView)
        ensures
            r.worktrees@.len() == 0,
            r.selected_index == 0,
            r.status_message@ == "Ready"@,
            r.selection_in_bounds(),
    {
        WorktreesView::new()
    }
}

} // verus!
