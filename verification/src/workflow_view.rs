//! The workflows view: a fixed list of named workflows and a selection,
//! moved with the arrow keys.

use vstd::prelude::*;

use crate::config::Config;
use crate::errors::GitzError;
use crate::keys::Key;
use crate::repository::Repository;

verus! {

/// Per-view state for the workflows view.
#[derive(Debug)]
pub struct WorkflowView {
    /// The workflow names on offer.
    pub workflows: Vec<String>,
    /// The index of the selected workflow.
    pub selected: usize,
}

impl WorkflowView {
    /// Create the view with its fixed list of workflows and the selection
    /// at the start.
    pub fn new() -> (r: WorkflowView)
        ensures
            r.workflows@.len() == 4,
            r.workflows@[0]@ == "Feature Branch Workflow"@,
            r.workflows@[1]@ == "Hotfix Workflow"@,
            r.workflows@[2]@ == "Release Workflow"@,
            r.workflows@[3]@ == "Bugfix Workflow"@,
            r.selected == 0,
    {
        let mut workflows: Vec<String> = Vec::new();
        workflows.push("Feature Branch Workflow".to_owned());
        workflows.push("Hotfix Workflow".to_owned());
        workflows.push("Release Workflow".to_owned());
        workflows.push("Bugfix Workflow".to_owned());
        WorkflowView { workflows, selected: 0 }
    }

    /// Handle a key press: up and down move the selection by one, clamped
    /// to the list; every other key does nothing. Never fails.
    pub fn handle_key(&mut self, key: Key, _repo: &Repository, _config: &Config) -> (r: Result<
        (),
        GitzError,
    >)
        ensures
            r is Ok,
            final (self).workflows == old(self).workflows,
            key == Key::Up ==> final (self).selected == (if old(self).selected > 0 {
                old(self).selected - 1
            } else {
                0int
            }),
            key == Key::Down ==> final (self).selected == (if old(self).selected + 1 < old(
                self,
            ).workflows@.len() {
                old(self).selected + 1
            } else {
                old(self).selected as int
            }),
            key != Key::Up && key != Key::Down ==> *final (self) == *old(self),
    {
        if key == Key::Up {
            if self.selected > 0 {
                self.selected -= 1;
            }
            Ok(())
        } else if key == Key::Down {
            let len = self.workflows.len();
            if len > 0 && self.selected < len - 1 {
                self.selected += 1;
            }
            Ok(())
        } else {
            Ok(())
        }
    }
}

} // verus!
