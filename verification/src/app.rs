//! The application state machine: the tabbed views, the global key
//! bindings, and the handling of one event at a time. The terminal, the
//! event channel and the drawing sit outside; they feed events in and act
//! on the outcome handed back.

use vstd::prelude::*;
use vstd::view::View as _;

use crate::config::Config;
use crate::errors::{engine_failure_text, GitzError};
use crate::events::AppEvent;
use crate::keys::{is_nav_key, Key};
use crate::numfmt::dec_rep;
use crate::repo_view::RepoView;
use crate::repository::Repository;
use crate::status::summary_rep;
use crate::workflow_view::WorkflowView;
use crate::worktrees_view::WorktreesView;

verus! {

/// Available views in the application, in tab order.
#[derive(Debug, Clone, Copy, PartialEq, Eq, Structural)]
pub enum View {
    /// The files view, with the status snapshot.
    Files,
    /// The branches view (placeholder).
    Branches,
    /// The commits view (placeholder).
    Commits,
    /// The stashes view (placeholder).
    Stashes,
    /// The remotes view (placeholder).
    Remotes,
    /// The worktrees view.
    Worktrees,
    /// The workflows view.
    Workflows,
}

/// All views, in tab order.
pub open spec fn view_order() -> Seq<View> {
    seq![
        View::Files,
        View::Branches,
        View::Commits,
        View::Stashes,
        View::Remotes,
        View::Worktrees,
        View::Workflows,
    ]
}

/// The view a digit key selects: `1` through `7` name the views in tab
/// order; any other character selects nothing.
pub open spec fn digit_view(c: char) -> Option<View> {
    if c == '1' {
        Some(View::Files)
    } else if c == '2' {
        Some(View::Branches)
    } else if c == '3' {
        Some(View::Commits)
    } else if c == '4' {
        Some(View::Stashes)
    } else if c == '5' {
        Some(View::Remotes)
    } else if c == '6' {
        Some(View::Worktrees)
    } else if c == '7' {
        Some(View::Workflows)
    } else {
        None
    }
}

impl View {
    /// The display name for the tab.
    pub open spec fn spec_name(self) -> Seq<char> {
        match self {
            View::Files => "Files"@,
            View::Branches => "Branches"@,
            View::Commits => "Commits"@,
            View::Stashes => "Stashes"@,
            View::Remotes => "Remotes"@,
            View::Worktrees => "Worktrees"@,
            View::Workflows => "Workflows"@,
        }
    }

    /// The view that follows this one in tab order, wrapping around.
    pub open spec fn spec_next(self) -> View {
        match self {
            View::Files => View::Branches,
            View::Branches => View::Commits,
            View::Commits => View::Stashes,
            View::Stashes => View::Remotes,
            View::Remotes => View::Worktrees,
            View::Worktrees => View::Workflows,
            View::Workflows => View::Files,
        }
    }

    /// The view that precedes this one in tab order, wrapping around.
    pub open spec fn spec_prev(self) -> View {
        match self {
            View::Files => View::Workflows,
            View::Branches => View::Files,
            View::Commits => View::Branches,
            View::Stashes => View::Commits,
            View::Remotes => View::Stashes,
            View::Worktrees => View::Remotes,
            View::Workflows => View::Worktrees,
        }
    }

    /// Get the display name for the tab.
    pub fn name(&self) -> (r: &'static str)
        ensures
            r@ == self.spec_name(),
    {
        match self {
            View::Files => "Files",
            View::Branches => "Branches",
            View::Commits => "Commits",
            View::Stashes => "Stashes",
            View::Remotes => "Remotes",
            View::Worktrees => "Worktrees",
            View::Workflows => "Workflows",
        }
    }

    /// Get all views for tab iteration, in tab order.
    pub fn all() -> (r: Vec<View>)
        ensures
            r@ == view_order(),
    {
        let mut all: Vec<View> = Vec::new();
        all.push(View::Files);
        all.push(View::Branches);
        all.push(View::Commits);
        all.push(View::Stashes);
        all.push(View::Remotes);
        all.push(View::Worktrees);
        all.push(View::Workflows);
        proof {
            assert(all@ =~= view_order());
        }
        all
    }

    /// Switch to the next view, cyclically.
    pub fn next(&self) -> (r: View)
        ensures
            r == self.spec_next(),
    {
        match self {
            View::Files => View::Branches,
            View::Branches => View::Commits,
            View::Commits => View::Stashes,
            View::Stashes => View::Remotes,
            View::Remotes => View::Worktrees,
            View::Worktrees => View::Workflows,
            View::Workflows => View::Files,
        }
    }

    /// Switch to the previous view, cyclically.
    pub fn prev(&self) -> (r: View)
        ensures
            r == self.spec_prev(),
    {
        match self {
            View::Files => View::Workflows,
            View::Branches => View::Files,
            View::Commits => View::Branches,
            View::Stashes => View::Commits,
            View::Remotes => View::Stashes,
            View::Worktrees => View::Remotes,
            View::Workflows => View::Worktrees,
        }
    }
}

/// Stepping forward then backward through the tabs, or backward then
/// forward, returns to the same view — also across the wrap at the first
/// and last view.
pub proof fn lemma_next_prev_inverse(v: View)
    ensures
        v.spec_next().spec_prev() == v,
        v.spec_prev().spec_next() == v,
{
}

/// What a key asks for at the global level: the view a digit selects, the
/// neighbouring view for tab and back-tab, or nothing, in which case the
/// key belongs to the current view.
pub open spec fn global_target(v: View, k: Key) -> Option<View> {
    match k {
        Key::Tab => Some(v.spec_next()),
        Key::BackTab => Some(v.spec_prev()),
        Key::Char(c) => digit_view(c),
        _ => None,
    }
}

/// A digit key selects its view no matter which view is current.
pub proof fn lemma_digit_select_deterministic(v1: View, v2: View, c: char)
    ensures
        global_target(v1, Key::Char(c)) == global_target(v2, Key::Char(c)),
{
}

/// What the main loop should do after one event.
#[derive(Debug, Clone, Copy, PartialEq, Eq, Structural)]
pub enum EventOutcome {
    /// Redraw the current view and wait for the next event.
    Redraw,
    /// Leave the loop and shut down.
    Quit,
}

/// The application state the event loop drives: which view is current, and
/// the state of each view that holds any.
#[derive(Debug)]
pub struct App {
    /// The view shown; exactly one view is current at any time.
    pub current_view: View,
    /// State of the files view.
    pub repo_view: RepoView,
    /// State of the worktrees view.
    pub worktrees_view: WorktreesView,
    /// State of the workflows view.
    pub workflow_view: WorkflowView,
}

impl App {
    /// Every cached snapshot stays within machine bounds.
    pub open spec fn wf(&self) -> bool {
        self.repo_view.wf()
    }

    /// Initialise the application state: the files view is current and
    /// every view starts in its default state — empty snapshot and list,
    /// selections at the start, ready messages, and the fixed workflow
    /// list.
    pub fn new() -> (r: App)
        ensures
            r.current_view == View::Files,
            r.repo_view.status.spec_is_clean(),
            r.repo_view.selected_file_index == 0,
            r.repo_view.status_message@ == "Ready"@,
            r.worktrees_view.worktrees@.len() == 0,
            r.worktrees_view.selected_index == 0,
            r.worktrees_view.status_message@ == "Ready"@,
            r.workflow_view.selected == 0,
            r.workflow_view.workflows@.len() == 4,
            r.workflow_view.workflows@[0]@ == "Feature Branch Workflow"@,
            r.workflow_view.workflows@[1]@ == "Hotfix Workflow"@,
            r.workflow_view.workflows@[2]@ == "Release Workflow"@,
            r.workflow_view.workflows@[3]@ == "Bugfix Workflow"@,
            r.wf(),
            r.repo_view.selection_in_bounds(),
            r.worktrees_view.selection_in_bounds(),
    {
        App {
            current_view: View::Files,
            repo_view: RepoView::new(),
            worktrees_view: WorktreesView::new(),
            workflow_view: WorkflowView::new(),
        }
    }

    /// Handle the global key bindings that work across all views: tab and
    /// back-tab step through the views, a digit selects one directly.
    /// Returns whether the key was handled here; an unhandled key belongs
    /// to the current view, which is then left untouched.
    pub fn handle_global_key(&mut self, key: Key) -> (handled: bool)
        ensures
            handled == (global_target(old(self).current_view, key) is Some),
            global_target(old(self).current_view, key) matches Some(t) ==> final (self).current_view == t,
            !handled ==> *final (self) == *old(self),
            final (self).repo_view == old(self).repo_view,
            final (self).worktrees_view == old(self).worktrees_view,
            final (self).workflow_view == old(self).workflow_view,
    {
        if key == Key::Tab {
            self.current_view = self.current_view.next();
            true
        } else if key == Key::BackTab {
            self.current_view = self.current_view.prev();
            true
        } else if key == Key::Char('1') {
            self.current_view = View::Files;
            true
        } else if key == Key::Char('2') {
            self.current_view = View::Branches;
            true
        } else if key == Key::Char('3') {
            self.current_view = View::Commits;
            true
        } else if key == Key::Char('4') {
            self.current_view = View::Stashes;
            true
        } else if key == Key::Char('5') {
            self.current_view = View::Remotes;
            true
        } else if key == Key::Char('6') {
            self.current_view = View::Worktrees;
            true
        } else if key == Key::Char('7') {
            self.current_view = View::Workflows;
            true
        } else {
            false
        }
    }

    /// Forward a key to the current view's handler. A failure of a
    /// key-triggered engine call is caught here and turned into a
    /// status-message update on that view — after a mutation key the
    /// view's message is either its success text or the rendered engine
    /// failure — so the loop goes on. The placeholder views accept no
    /// local keys.
    pub fn handle_view_key(&mut self, key: Key, repo: &Repository, config: &Config) -> (r: Result<
        (),
        GitzError,
    >)
        requires
            old(self).wf(),
        ensures
            r is Ok,
            final (self).wf(),
            final (self).current_view == old(self).current_view,
            old(self).current_view == View::Branches || old(self).current_view == View::Commits
                || old(self).current_view == View::Stashes || old(self).current_view
                == View::Remotes ==> *final (self) == *old(self),
            old(self).current_view == View::Files ==> final (self).worktrees_view == old(self).worktrees_view && final (self).workflow_view == old(self).workflow_view,
            old(self).current_view == View::Worktrees ==> final (self).repo_view == old(self).repo_view && final (self).workflow_view == old(self).workflow_view,
            old(self).current_view == View::Workflows ==> final (self).repo_view == old(self).repo_view && final (self).worktrees_view == old(self).worktrees_view,
            old(self).current_view == View::Files && is_nav_key(key) ==> final (self).repo_view
                == old(self).repo_view.nav_step(key),
            old(self).current_view == View::Worktrees && is_nav_key(key) ==> final (self).worktrees_view == old(self).worktrees_view.nav_step(key),
            old(self).repo_view.selection_in_bounds() ==> final (self).repo_view.selection_in_bounds(),
            old(self).worktrees_view.selection_in_bounds() ==> final (self).worktrees_view.selection_in_bounds(),
            old(self).current_view == View::Files && key == Key::Char('s') ==> (final (self).repo_view.status_message@ == "Staged all changes"@ || engine_failure_text(
                final (self).repo_view.status_message@,
            )),
            old(self).current_view == View::Files && key == Key::Char('c') && old(self).repo_view.status.spec_is_clean() ==> final (self).repo_view.status_message@
                == "nothing to commit"@,
            old(self).current_view == View::Files && key == Key::Char('c') && !old(self).repo_view.status.spec_is_clean() ==> (final (self).repo_view.status_message@
                == "Committed changes"@ || engine_failure_text(
                final (self).repo_view.status_message@,
            )),
            old(self).current_view == View::Files && (key == Key::Char('r') || key == Key::F(5))
                ==> (final (self).repo_view.status_message@ == "Refreshed: "@ + summary_rep(
                final (self).repo_view.status.modified@.len(),
                final (self).repo_view.status.added@.len(),
                final (self).repo_view.status.deleted@.len(),
            ) || engine_failure_text(final (self).repo_view.status_message@)),
            old(self).current_view == View::Worktrees && (key == Key::Char('r') || key == Key::F(
                5,
            )) ==> (final (self).worktrees_view.status_message@ == "Refreshed: "@ + dec_rep(
                final (self).worktrees_view.worktrees@.len(),
            ) + " worktrees"@ || engine_failure_text(final (self).worktrees_view.status_message@)),
    {
        match self.current_view {
            View::Files => {
                match self.repo_view.handle_key(key, repo, config) {
                    Ok(_) => {},
                    Err(e) => {
                        self.repo_view.status_message = e.text();
                        proof {
                            assert(engine_failure_text(self.repo_view.status_message@));
                        }
                    },
                }
            },
            View::Branches => {},
            View::Commits => {},
            View::Stashes => {},
            View::Remotes => {},
            View::Worktrees => {
                match self.worktrees_view.handle_key(key, repo, config) {
                    Ok(_) => {},
                    Err(e) => {
                        self.worktrees_view.status_message = e.text();
                        proof {
                            assert(engine_failure_text(self.worktrees_view.status_message@));
                        }
                    },
                }
            },
            View::Workflows => {
                match self.workflow_view.handle_key(key, repo, config) {
                    Ok(_) => {},
                    Err(_) => {},
                }
            },
        }
        Ok(())
    }

    /// Handle one event from the channel, to completion: `q` and a quit
    /// event end the loop; a refresh event only redraws; any other key is
    /// routed first to the global bindings and otherwise to the current
    /// view, and then asks for one redraw.
    pub fn handle_event(&mut self, event: AppEvent, repo: &Repository, config: &Config) -> (r:
        EventOutcome)
        requires
            old(self).wf(),
        ensures
            final (self).wf(),
            old(self).repo_view.selection_in_bounds() ==> final (self).repo_view.selection_in_bounds(),
            old(self).worktrees_view.selection_in_bounds() ==> final (self).worktrees_view.selection_in_bounds(),
            event == AppEvent::Quit ==> r == EventOutcome::Quit && *final (self) == *old(self),
            event == AppEvent::Key(Key::Char('q')) ==> r == EventOutcome::Quit && *final (self)
                == *old(self),
            event == AppEvent::Refresh ==> r == EventOutcome::Redraw && *final (self) == *old(self),
            event matches AppEvent::Key(k) ==> (k != Key::Char('q') ==> {
                &&& r == EventOutcome::Redraw
                &&& (global_target(old(self).current_view, k) matches Some(t) ==> final (self).current_view == t
                    && final (self).repo_view == old(self).repo_view
                    && final (self).worktrees_view == old(self).worktrees_view
                    && final (self).workflow_view == old(self).workflow_view)
                &&& global_target(old(self).current_view, k) is None ==> final (self).current_view
                    == old(self).current_view
                &&& global_target(old(self).current_view, k) is None && old(self).current_view
                    == View::Files && is_nav_key(k) ==> final (self).repo_view == old(self).repo_view.nav_step(k)
                &&& global_target(old(self).current_view, k) is None && old(self).current_view
                    == View::Worktrees && is_nav_key(k) ==> final (self).worktrees_view == old(self).worktrees_view.nav_step(k)
            }),
    {
        match event {
            AppEvent::Quit => EventOutcome::Quit,
            AppEvent::Refresh => EventOutcome::Redraw,
            AppEvent::Key(k) => {
                if k == Key::Char('q') {
                    return EventOutcome::Quit;
                }
                let handled = self.handle_global_key(k);
                if !handled {
                    match self.handle_view_key(k, repo, config) {
                        Ok(()) => {},
                        Err(_) => {},
                    }
                }
                EventOutcome::Redraw
            },
        }
    }
}

} // verus!
