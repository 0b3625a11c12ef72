//! Learning about the latest release of NextUI and its tag.

use crate::app_state::{AppState, AppStateView, Reporting};
use crate::github::{
    fetch_latest_release, fetch_tag, fetched, fetched_tag, release_address, release_url,
    tags_address, tags_url,
};
use crate::text::concat2;
use crate::work::{Event, EventView, Work, WorkView};
use vstd::prelude::*;

verus! {

/// The repository of NextUI.
pub const NEXTUI_REPO: &'static str = "LoveRetro/NextUI";

/// Where a check stands: what it waits for.
#[derive(Debug)]
pub enum ReleaseCheck {
    AwaitRelease,
    AwaitTags { tag_name: String },
    Finished,
}

#[verifier::ext_equal]
pub enum ReleaseCheckView {
    AwaitRelease,
    AwaitTags { tag_name: Seq<char> },
    Finished,
}

impl View for ReleaseCheck {
    type V = ReleaseCheckView;

    open spec fn view(&self) -> ReleaseCheckView {
        match *self {
            ReleaseCheck::AwaitRelease => ReleaseCheckView::AwaitRelease,
            ReleaseCheck::AwaitTags { tag_name } => ReleaseCheckView::AwaitTags {
                tag_name: tag_name@,
            },
            ReleaseCheck::Finished => ReleaseCheckView::Finished,
        }
    }
}

impl ReleaseCheckView {
    /// The check goes on with this event.
    pub open spec fn awaits(self, event: EventView) -> bool {
        &&& event.well_formed()
        &&& match self {
            ReleaseCheckView::AwaitRelease => event is Release,
            ReleaseCheckView::AwaitTags { .. } => event is Tags,
            ReleaseCheckView::Finished => false,
        }
    }
}

/// The error shown when the release could not be had.
pub open spec fn release_failure(reporting: Reporting, text: Seq<char>) -> Seq<char> {
    match reporting {
        Reporting::Terse => "Fetch failed: "@ + text,
        Reporting::Staged => "Release fetch failed: "@ + text,
    }
}

/// The error shown when the tag could not be had.
pub open spec fn tag_failure(reporting: Reporting, text: Seq<char>) -> Seq<char> {
    match reporting {
        Reporting::Terse => "Fetch failed: "@ + text,
        Reporting::Staged => "Tag fetch failed: "@ + text,
    }
}

/// A check begins: the latest release is asked for.
pub open spec fn check_begun(s: AppStateView) -> (AppStateView, ReleaseCheckView, WorkView) {
    (
        s.started("Fetching latest NextUI release..."@),
        ReleaseCheckView::AwaitRelease,
        WorkView::FetchRelease { url: release_address(NEXTUI_REPO@) },
    )
}

/// A check goes on. A release is noted, and the tags are asked for; its tag is
/// noted, and the check is over. Whatever cannot be had ends it with an error.
pub open spec fn check_resumed(
    s: AppStateView,
    step: ReleaseCheckView,
    event: EventView,
) -> (AppStateView, ReleaseCheckView, WorkView) {
    match (step, event) {
        (ReleaseCheckView::AwaitRelease, EventView::Release(reply)) => match fetched(reply) {
            Ok(release) => (
                (AppStateView { nextui_release: Some(release), ..s }).started(
                    "Fetching latest NextUI tag..."@,
                ),
                ReleaseCheckView::AwaitTags { tag_name: release.tag_name },
                WorkView::FetchTags { url: tags_address(NEXTUI_REPO@) },
            ),
            Err(text) => (
                s.failed(release_failure(s.reporting, text)),
                ReleaseCheckView::Finished,
                WorkView::Nothing,
            ),
        },
        (ReleaseCheckView::AwaitTags { tag_name }, EventView::Tags(reply)) => (
            match fetched_tag(reply, tag_name) {
                Ok(tag) => (AppStateView { nextui_tag: Some(tag), ..s }).finished(),
                Err(text) => s.failed(tag_failure(s.reporting, text)),
            },
            ReleaseCheckView::Finished,
            WorkView::Nothing,
        ),
        _ => (s, step, WorkView::Nothing),
    }
}

/// Begins a check for the latest release of NextUI.
pub fn do_nextui_release_check(app_state: &mut AppState) -> (r: (ReleaseCheck, Work))
    ensures
        (final(app_state)@, r.0@, r.1@) == check_begun(old(app_state)@),
{
    app_state.start_operation("Fetching latest NextUI release...".to_owned());
    (ReleaseCheck::AwaitRelease, Work::FetchRelease { url: release_url(NEXTUI_REPO) })
}

impl ReleaseCheck {
    /// Goes on with a check, told how the work that it asked for ended.
    pub fn resume(self, app_state: &mut AppState, event: Event) -> (r: (ReleaseCheck, Work))
        requires
            self@.awaits(event@),
        ensures
            (final(app_state)@, r.0@, r.1@) == check_resumed(old(app_state)@, self@, event@),
    {
        match (self, event) {
            (ReleaseCheck::AwaitRelease, Event::Release(reply)) => {
                match fetch_latest_release(reply) {
                    Ok(release) => {
                        let tag_name = release.tag_name.clone();
                        app_state.set_nextui_release(Some(release));
                        app_state.start_operation("Fetching latest NextUI tag...".to_owned());
                        (
                            ReleaseCheck::AwaitTags { tag_name },
                            Work::FetchTags { url: tags_url(NEXTUI_REPO) },
                        )
                    },
                    Err(text) => {
                        let prefix = match app_state.reporting {
                            Reporting::Terse => "Fetch failed: ",
                            Reporting::Staged => "Release fetch failed: ",
                        };
                        app_state.set_operation_failed(concat2(prefix, text.as_str()));
                        (ReleaseCheck::Finished, Work::Nothing)
                    },
                }
            },
            (ReleaseCheck::AwaitTags { tag_name }, Event::Tags(reply)) => {
                match fetch_tag(reply, tag_name.as_str()) {
                    Ok(tag) => {
                        app_state.set_nextui_tag(Some(tag));
                    },
                    Err(text) => {
                        let prefix = match app_state.reporting {
                            Reporting::Terse => "Fetch failed: ",
                            Reporting::Staged => "Tag fetch failed: ",
                        };
                        app_state.set_operation_failed(concat2(prefix, text.as_str()));
                    },
                }
                app_state.finish_operation();
                (ReleaseCheck::Finished, Work::Nothing)
            },
            (step, _) => (step, Work::Nothing),
        }
    }

    /// Whether the check is over.
    pub fn is_finished(&self) -> (r: bool)
        ensures
            r == (self@ is Finished),
    {
        matches!(self, ReleaseCheck::Finished)
    }
}

} // verus!
