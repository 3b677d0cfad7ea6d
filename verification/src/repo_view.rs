//! The main repository view: the cached status snapshot, the selected file,
//! and a status message, with the key handling that mutates them.

use vstd::prelude::*;

use crate::config::Config;
use crate::errors::GitzError;
use crate::keys::{clamp_index, is_nav_key, nav_index, selection_ok, Key};
use crate::repository::{is_blank, is_space, Repository};
use crate::status::{summary_rep, RepoStatus};

verus! {

/// Per-view state for the files view.
#[derive(Debug)]
pub struct RepoView {
    /// The cached status snapshot, refreshed on demand.
    pub status: RepoStatus,
    /// The index of the selected file in the combined file list.
    pub selected_file_index: usize,
    /// The short human-readable status line.
    pub status_message: String,
}

/// The keys the files view reacts to.
pub open spec fn repo_view_handles(k: Key) -> bool {
    is_nav_key(k) || k == Key::Char('s') || k == Key::Char('c') || k == Key::Char('r') || k
        == Key::Char('q') || k == Key::F(5)
}

impl RepoView {
    /// The snapshot's total never overflows a machine count; established
    /// at creation and preserved by every refresh.
    pub open spec fn wf(&self) -> bool {
        self.status.spec_total() <= usize::MAX
    }

    /// The selection lies in `[0, count - 1]` when the snapshot has
    /// changes, and is `0` when it has none.
    pub open spec fn selection_in_bounds(&self) -> bool {
        selection_ok(self.selected_file_index as nat, self.status.spec_total())
    }

    /// The state after one navigation key: the same snapshot and message,
    /// with the selection moved.
    pub open spec fn nav_step(self, k: Key) -> RepoView {
        RepoView {
            selected_file_index: nav_index(
                k,
                self.selected_file_index as nat,
                self.status.spec_total(),
            ) as usize,
            ..self
        }
    }

    /// Create the view with an empty snapshot, the selection at the start
    /// and a ready message.
    pub fn new() -> (r: RepoView)
        ensures
            r.status.spec_is_clean(),
            r.selected_file_index == 0,
            r.status_message@ == "Ready"@,
            r.wf(),
            r.selection_in_bounds(),
    {
        RepoView {
            status: RepoStatus::new(),
            selected_file_index: 0,
            status_message: "Ready".to_owned(),
        }
    }

    /// Refresh the cached snapshot from the repository and report it in
    /// the status message. The selection is kept where it was, clamped
    /// into the new snapshot's bounds, so it always stays within
    /// `[0, count - 1]` (and at `0` for a clean snapshot). On an engine
    /// failure nothing changes.
    pub fn refresh(&mut self, repo: &Repository) -> (r: Result<(), GitzError>)
        ensures
            r is Ok ==> {
                &&& final (self).wf()
                &&& final (self).selected_file_index as nat == clamp_index(
                    old(self).selected_file_index as nat,
                    final (self).status.spec_total(),
                )
                &&& final (self).selection_in_bounds()
                &&& final (self).status_message@ == "Refreshed: "@ + summary_rep(
                    final (self).status.modified@.len(),
                    final (self).status.added@.len(),
                    final (self).status.deleted@.len(),
                )
            },
            r matches Err(e) ==> *final (self) == *old(self) && e is GitOperationFailed,
    {
        match repo.status() {
            Ok(status) => {
                self.status = status;
                let total = self.status.total_changes();
                if total == 0 {
                    self.selected_file_index = 0;
                } else if self.selected_file_index >= total {
                    self.selected_file_index = total - 1;
                }
                let mut msg: String = "Refreshed: ".to_owned();
                let summary = self.status.summary();
                msg.append(summary.as_str());
                self.status_message = msg;
                Ok(())
            },
            Err(e) => Err(e),
        }
    }

    /// Handle a key press. Navigation keys move the selection exactly as
    /// `nav_step` says and never fail; `s` stages everything and
    /// refreshes; `c` commits with a fixed message unless the snapshot is
    /// clean, in which case nothing is committed and the message reads
    /// "nothing to commit"; `r` refreshes; `q` asks to quit. A refresh
    /// clamps the selection into the new snapshot's bounds, so a selection
    /// in bounds stays in bounds under every key. An engine failure leaves
    /// the state unchanged and is returned; a key without a binding here
    /// does nothing.
    pub fn handle_key(&mut self, key: Key, repo: &Repository, _config: &Config) -> (r: Result<
        bool,
        GitzError,
    >)
        requires
            old(self).wf(),
        ensures
            final (self).wf(),
            is_nav_key(key) ==> (r matches Ok(b) && b == false
                && *final (self) == old(self).nav_step(key)),
            old(self).selection_in_bounds() ==> final (self).selection_in_bounds(),
            key == Key::Char('q') ==> (r matches Ok(b) && b == true
                && *final (self) == *old(self)),
            key == Key::Char('s') ==> {
                &&& r matches Ok(b) ==> b == false
                    && final (self).selected_file_index as nat == clamp_index(
                    old(self).selected_file_index as nat,
                    final (self).status.spec_total(),
                ) && final (self).status_message@ == "Staged all changes"@
                &&& r matches Err(e) ==> *final (self) == *old(self) && e is GitOperationFailed
            },
            key == Key::Char('c') && old(self).status.spec_is_clean() ==> (r matches Ok(b)
                && b == false && final (self).status == old(self).status
                && final (self).selected_file_index == old(self).selected_file_index
                && final (self).status_message@ == "nothing to commit"@),
            key == Key::Char('c') && !old(self).status.spec_is_clean() ==> {
                &&& r matches Ok(b) ==> b == false
                    && final (self).selected_file_index as nat == clamp_index(
                    old(self).selected_file_index as nat,
                    final (self).status.spec_total(),
                ) && final (self).status_message@ == "Committed changes"@
                &&& r matches Err(e) ==> *final (self) == *old(self) && e is GitOperationFailed
            },
            key == Key::Char('r') || key == Key::F(5) ==> {
                &&& r matches Ok(b) ==> b == false
                    && final (self).selected_file_index as nat == clamp_index(
                    old(self).selected_file_index as nat,
                    final (self).status.spec_total(),
                ) && final (self).status_message@ == "Refreshed: "@ + summary_rep(
                    final (self).status.modified@.len(),
                    final (self).status.added@.len(),
                    final (self).status.deleted@.len(),
                )
                &&& r matches Err(e) ==> *final (self) == *old(self) && e is GitOperationFailed
            },
            !repo_view_handles(key) ==> (r matches Ok(b) && b == false
                && *final (self) == *old(self)),
    {
        if key == Key::Char('s') {
            match crate::commands::stage_all(repo) {
                Ok(()) => {},
                Err(e) => {
                    return Err(e);
                },
            }
            match self.refresh(repo) {
                Ok(()) => {},
                Err(e) => {
                    return Err(e);
                },
            }
            self.status_message = "Staged all changes".to_owned();
            Ok(false)
        } else if key == Key::Char('c') {
            if self.status.is_clean() {
                self.status_message = "nothing to commit".to_owned();
                Ok(false)
            } else {
                proof {
                    reveal_strlit("quick commit");
                    assert(!is_space("quick commit"@[0]));
                    assert(!is_blank("quick commit"@));
                }
                match crate::commands::commit(repo, "quick commit") {
                    Ok(_) => {},
                    Err(e) => {
                        return Err(e);
                    },
                }
                match self.refresh(repo) {
                    Ok(()) => {},
                    Err(e) => {
                        return Err(e);
                    },
                }
                self.status_message = "Committed changes".to_owned();
                Ok(false)
            }
        } else if key == Key::Char('r') || key == Key::F(5) {
            match self.refresh(repo) {
                Ok(()) => {},
                Err(e) => {
                    return Err(e);
                },
            }
            Ok(false)
        } else if key == Key::Char('q') {
            Ok(true)
        } else if key == Key::Down || key == Key::Char('j') {
            let total = self.status.total_changes();
            if total > 0 && self.selected_file_index < total - 1 {
                self.selected_file_index += 1;
            }
            Ok(false)
        } else if key == Key::Up || key == Key::Char('k') {
            if self.selected_file_index > 0 {
                self.selected_file_index -= 1;
            }
            Ok(false)
        } else if key == Key::Home || key == Key::Char('g') {
            self.selected_file_index = 0;
            Ok(false)
        } else if key == Key::End || key == Key::Char('G') {
            let total = self.status.total_changes();
            if total > 0 {
                self.selected_file_index = total - 1;
            }
            Ok(false)
        } else {
            Ok(false)
        }
    }
}

impl Default for RepoView {
    /// The starting state, the same as `new`.
    fn default() -> (r: RepoView)
        ensures
            r.status.spec_is_clean(),
            r.selected_file_index == 0,
            r.status_message@ == "Ready"@,
            r.wf(),
            r.selection_in_bounds(),
    {
        RepoView::new()
    }
}

} // verus!
