//! What holds of every run of an operation, whatever its surroundings answer.
//!
//! An operation shares its state with the screen and with other operations, so
//! each time that it goes on it may find the state changed. A run is the sequence
//! of the states that it finds and the events that it is told. Before each turn it
//! looks into the package that it was brought, where that is due.

pub mod choices;
pub mod nextui;
pub mod pakman;
pub mod release_check;
pub mod replies;
pub mod self_update;
pub mod startup;
pub mod texts;
pub mod views;

use crate::app_state::{AppStateView, Progress};
use crate::github::{status_line, ReplyView};
use crate::work::{EventView, WorkView};
use vstd::prelude::*;

verus! {

/// An operation goes on: the state that it finds, and the event that it is told.
pub struct Told {
    pub found: AppStateView,
    pub event: EventView,
}

/// The state before the last turn: the one that was found, or at the start of the
/// run the one in which the operation began.
pub open spec fn last_found(s: AppStateView, run: Seq<Told>) -> AppStateView {
    if run.len() == 0 {
        s
    } else {
        run.last().found
    }
}

/// The reply is an answer of success with this body.
pub open spec fn answered<V>(reply: ReplyView<V>, body: V) -> bool {
    reply matches ReplyView::Answered { status, body: Ok(brought) } && 200 <= status <= 299
        && brought == body
}

/// The reply brought nothing, and this text says why.
pub open spec fn unanswered<V>(reply: ReplyView<V>, text: Seq<char>) -> bool {
    match reply {
        ReplyView::Unsent(why) => text == why,
        ReplyView::Answered { status, body } => if 200 <= status <= 299 {
            body matches Err(why) && text == why
        } else {
            text == "GitHub API request failed: "@ + status_line(status)
        },
    }
}

/// The same state, with this operation on the screen and a spinner below it.
pub open spec fn showing(s: AppStateView, operation: Seq<char>) -> AppStateView {
    AppStateView {
        current_operation: Some(operation),
        progress: Some(Progress::Indeterminate),
        ..s
    }
}

/// The same state, with this operation on the screen and the progress as it was.
pub open spec fn renamed(s: AppStateView, operation: Seq<char>) -> AppStateView {
    AppStateView { current_operation: Some(operation), ..s }
}

/// The same state with no operation on the screen.
pub open spec fn cleared(s: AppStateView) -> AppStateView {
    AppStateView { current_operation: None, progress: None, ..s }
}

/// The same state with no operation on the screen, and this error.
pub open spec fn blamed(s: AppStateView, error: Seq<char>) -> AppStateView {
    AppStateView { current_operation: None, progress: None, error: Some(error), ..s }
}

/// The state and the work with which a check for NextUI's latest release begins.
pub open spec fn asks_for_nextui(before: AppStateView, t: AppStateView, work: WorkView) -> bool {
    &&& t == showing(before, "Fetching latest NextUI release..."@)
    &&& work == (WorkView::FetchRelease {
        url: "https://api.github.com/repos/"@ + "LoveRetro/NextUI"@ + "/releases/latest"@,
    })
}

/// Only the operation, the progress and the error differ.
pub open spec fn only_operation_differs(s: AppStateView, t: AppStateView) -> bool {
    t == (AppStateView {
        current_operation: t.current_operation,
        progress: t.progress,
        error: t.error,
        ..s
    })
}

} // verus!
