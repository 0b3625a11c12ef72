//! What the updater does by itself when it starts: it updates itself, and then
//! checks for the latest release of NextUI.

use super::release_check::{
    check_begun, check_resumed, do_nextui_release_check, ReleaseCheck, ReleaseCheckView,
};
use super::self_update::{
    do_self_update, self_update_begun, self_update_task_resumed, SelfUpdateTask, SelfUpdateView,
};
use crate::app_state::{AppState, AppStateView};
use crate::work::{Event, EventView, Work, WorkView};
use vstd::prelude::*;

verus! {

/// Where the start stands.
#[derive(Debug)]
pub enum Startup {
    Updating(SelfUpdateTask),
    Checking(ReleaseCheck),
}

#[verifier::ext_equal]
pub enum StartupView {
    Updating(SelfUpdateView),
    Checking(ReleaseCheckView),
}

impl View for Startup {
    type V = StartupView;

    open spec fn view(&self) -> StartupView {
        match *self {
            Startup::Updating(task) => StartupView::Updating(task.step@),
            Startup::Checking(step) => StartupView::Checking(step@),
        }
    }
}

impl StartupView {
    /// The start goes on with this event.
    pub open spec fn awaits(self, event: EventView) -> bool {
        match self {
            StartupView::Updating(step) => step.awaits(event),
            StartupView::Checking(step) => step.awaits(event),
        }
    }
}

impl StartupView {
    /// The start once the package was looked into, where that is due.
    pub open spec fn prepared(self) -> StartupView {
        match self {
            StartupView::Updating(step) => StartupView::Updating(step.prepared()),
            StartupView::Checking(_) => self,
        }
    }
}

/// The start begins, with a self-update of the installed version.
pub open spec fn startup_begun(s: AppStateView, installed: Seq<char>) -> (
    AppStateView,
    StartupView,
    WorkView,
) {
    let (after, step, work) = self_update_begun(s, installed);
    (after, StartupView::Updating(step), work)
}

/// The start goes on. Once the self-update is over, however it ended, the check
/// begins.
pub open spec fn startup_resumed(s: AppStateView, startup: StartupView, event: EventView) -> (
    AppStateView,
    StartupView,
    WorkView,
) {
    match startup {
        StartupView::Updating(step) => {
            let (after, next, work) = self_update_task_resumed(s, step, event);
            if next is Finished {
                let (begun, check, first) = check_begun(after);
                (begun, StartupView::Checking(check), first)
            } else {
                (after, StartupView::Updating(next), work)
            }
        },
        StartupView::Checking(step) => {
            let (after, next, work) = check_resumed(s, step, event);
            (after, StartupView::Checking(next), work)
        },
    }
}

/// Begins what the updater of the installed version does by itself.
pub fn start(app_state: &mut AppState, installed: &str) -> (r: (Startup, Work))
    ensures
        (final(app_state)@, r.0@, r.1@) == startup_begun(old(app_state)@, installed@),
{
    let (task, work) = do_self_update(app_state, installed);
    (Startup::Updating(task), work)
}

impl Startup {
    /// Looks into the package where that is due.
    pub fn prepare(self) -> (r: Startup)
        ensures
            r@ == self@.prepared(),
    {
        match self {
            Startup::Updating(task) => Startup::Updating(task.prepare()),
            startup => startup,
        }
    }

    /// Goes on with the start, told how the work that it asked for ended.
    pub fn resume(self, app_state: &mut AppState, event: Event) -> (r: (Startup, Work))
        requires
            self@.awaits(event@),
        ensures
            (final(app_state)@, r.0@, r.1@) == startup_resumed(old(app_state)@, self@, event@),
    {
        match self {
            Startup::Updating(task) => {
                let (next, work) = task.resume(app_state, event);
                if next.is_finished() {
                    let (check, first) = do_nextui_release_check(app_state);
                    (Startup::Checking(check), first)
                } else {
                    (Startup::Updating(next), work)
                }
            },
            Startup::Checking(step) => {
                let (next, work) = step.resume(app_state, event);
                (Startup::Checking(next), work)
            },
        }
    }
}

} // verus!
