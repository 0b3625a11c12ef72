//! Pakman: learning about its latest release, and installing it.

use crate::app_state::{AppState, AppStateView};
use crate::archive::package_archive;
use crate::github::{
    fetch_latest_release, fetched, release_address, release_url, Release, ReleaseView,
};
use crate::text::{concat2, concat3};
use crate::work::{
    extract_zip, extraction, outcome, work_result, Event, EventView, Work, WorkView,
};
use vstd::prelude::*;

verus! {

/// The repository of Pakman.
pub const PAKMAN_REPO: &'static str = "josegonzalez/pakman";

/// Where a check stands.
#[derive(Clone, Copy, Debug, PartialEq, Eq, Structural)]
pub enum PakmanCheck {
    AwaitRelease,
    Finished,
}

impl PakmanCheck {
    /// The check goes on with this event.
    pub open spec fn awaits(self, event: EventView) -> bool {
        event.well_formed() && self is AwaitRelease && event is Release
    }
}

/// A check begins: the latest release of Pakman is asked for.
pub open spec fn pakman_check_begun(s: AppStateView) -> (AppStateView, PakmanCheck, WorkView) {
    (
        s.started("Fetching latest Pakman release..."@),
        PakmanCheck::AwaitRelease,
        WorkView::FetchRelease { url: release_address(PAKMAN_REPO@) },
    )
}

/// A check ends: the release is noted, or an error is shown.
pub open spec fn pakman_check_resumed(s: AppStateView, event: EventView) -> AppStateView {
    match event {
        EventView::Release(reply) => match fetched(reply) {
            Ok(release) => (AppStateView { pakman_release: Some(release), ..s }).finished(),
            Err(text) => s.failed("Fetch failed: "@ + text),
        },
        _ => s,
    }
}

/// Begins a check for the latest release of Pakman.
pub fn do_pakman_release_check(app_state: &mut AppState) -> (r: (PakmanCheck, Work))
    ensures
        (final(app_state)@, r.0, r.1@) == pakman_check_begun(old(app_state)@),
{
    app_state.start_operation("Fetching latest Pakman release...".to_owned());
    (PakmanCheck::AwaitRelease, Work::FetchRelease { url: release_url(PAKMAN_REPO) })
}

impl PakmanCheck {
    /// Ends a check, told how the work that it asked for ended.
    pub fn resume(self, app_state: &mut AppState, event: Event) -> (r: (PakmanCheck, Work))
        requires
            self.awaits(event@),
        ensures
            final(app_state)@ == pakman_check_resumed(old(app_state)@, event@),
            r.0 is Finished,
            r.1@ is Nothing,
    {
        if let Event::Release(reply) = event {
            match fetch_latest_release(reply) {
                Ok(release) => {
                    app_state.pakman_release = Some(release);
                    app_state.finish_operation();
                },
                Err(text) => {
                    app_state.set_operation_failed(concat2("Fetch failed: ", text.as_str()));
                },
            }
        }
        (PakmanCheck::Finished, Work::Nothing)
    }
}

/// Where an update of Pakman stands.
#[derive(Debug)]
pub enum PakmanUpdate {
    AwaitPackage { tag_name: String },
    /// The package is to be looked into.
    Opening { package: Vec<u8> },
    /// The package was looked into: the work that unpacks it, or an error.
    Opened { work: Result<Work, String> },
    AwaitExtraction,
    AwaitPause,
    Finished(Result<(), String>),
}

#[verifier::ext_equal]
pub enum PakmanUpdateView {
    AwaitPackage { tag_name: Seq<char> },
    Opening { package: Seq<u8> },
    Opened { work: Result<WorkView, Seq<char>> },
    AwaitExtraction,
    AwaitPause,
    Finished(Result<(), Seq<char>>),
}

impl View for PakmanUpdate {
    type V = PakmanUpdateView;

    open spec fn view(&self) -> PakmanUpdateView {
        match *self {
            PakmanUpdate::AwaitPackage { tag_name } => PakmanUpdateView::AwaitPackage {
                tag_name: tag_name@,
            },
            PakmanUpdate::Opening { package } => PakmanUpdateView::Opening { package: package@ },
            PakmanUpdate::Opened { work } => PakmanUpdateView::Opened { work: work_result(work) },
            PakmanUpdate::AwaitExtraction => PakmanUpdateView::AwaitExtraction,
            PakmanUpdate::AwaitPause => PakmanUpdateView::AwaitPause,
            PakmanUpdate::Finished(r) => PakmanUpdateView::Finished(outcome(r)),
        }
    }
}

impl PakmanUpdateView {
    /// The update goes on with this event.
    pub open spec fn awaits(self, event: EventView) -> bool {
        match self {
            PakmanUpdateView::AwaitPackage { .. } => event is Package,
            PakmanUpdateView::Opening { .. } => false,
            PakmanUpdateView::Opened { .. } => event is Opened,
            PakmanUpdateView::AwaitExtraction => event is Extracted,
            PakmanUpdateView::AwaitPause => event is Paused,
            PakmanUpdateView::Finished(_) => false,
        }
    }

    /// The step once the package was looked into; any other step stays.
    pub open spec fn prepared(self) -> PakmanUpdateView {
        match self {
            PakmanUpdateView::Opening { package } => PakmanUpdateView::Opened {
                work: extraction(package_archive(package), true),
            },
            _ => self,
        }
    }
}

/// A release that is to be installed has an asset.
pub open spec fn installable(release: Option<ReleaseView>) -> bool {
    release matches Some(r) ==> r.assets.len() > 0
}

/// The update is over.
pub open spec fn pakman_over(s: AppStateView, r: Result<(), Seq<char>>) -> (
    AppStateView,
    PakmanUpdateView,
    WorkView,
) {
    (s, PakmanUpdateView::Finished(r), WorkView::Nothing)
}

/// A download of Pakman is announced.
pub open spec fn pakman_announced(s: AppStateView, tag_name: Seq<char>) -> AppStateView {
    s.started("Downloading Pakman "@ + tag_name + "..."@)
}

/// An update begins: the first asset of the release that is known is downloaded;
/// without a release the update is over at once.
pub open spec fn pakman_begun(s: AppStateView) -> (AppStateView, PakmanUpdateView, WorkView) {
    match s.pakman_release {
        Some(release) => (
            pakman_announced(s, release.tag_name),
            PakmanUpdateView::AwaitPackage { tag_name: release.tag_name },
            WorkView::Download { url: release.assets[0].url, lenient: false },
        ),
        None => pakman_over(s, Err("No release found"@)),
    }
}

/// There is work that unpacks the package, or an error.
pub open spec fn pakman_opened(work: Result<WorkView, Seq<char>>) -> (
    PakmanUpdateView,
    WorkView,
) {
    match work {
        Ok(work) => (PakmanUpdateView::AwaitExtraction, work),
        Err(text) => (PakmanUpdateView::Finished(Err(text)), WorkView::Nothing),
    }
}

/// An update goes on.
pub open spec fn pakman_resumed(
    s: AppStateView,
    step: PakmanUpdateView,
    event: EventView,
) -> (AppStateView, PakmanUpdateView, WorkView) {
    match (step, event) {
        (PakmanUpdateView::AwaitPackage { tag_name }, EventView::Package(r)) => match r {
            Ok(package) => (
                s.started(
                    "Extracting Pakman "@ + tag_name
                        + "...\nPlease be patient, this may take a while..."@,
                ),
                PakmanUpdateView::Opening { package },
                WorkView::OpenPackage,
            ),
            Err(text) => pakman_over(s, Err(text)),
        },
        (PakmanUpdateView::Opened { work }, EventView::Opened) => {
            let (next, after) = pakman_opened(work);
            (s, next, after)
        },
        (PakmanUpdateView::AwaitExtraction, EventView::Extracted(r)) => match r {
            Ok(_) => (
                s.with_operation("Pakman update success!"@),
                PakmanUpdateView::AwaitPause,
                WorkView::Pause { seconds: 4 },
            ),
            Err(text) => pakman_over(s, Err(text)),
        },
        (PakmanUpdateView::AwaitPause, EventView::Paused) => pakman_over(s.finished(), Ok(())),
        _ => (s, step, WorkView::Nothing),
    }
}

/// Announces the download of a release of Pakman.
pub fn announce_pakman(app_state: &mut AppState, tag_name: &str)
    ensures
        final(app_state)@ == pakman_announced(old(app_state)@, tag_name@),
{
    app_state.start_operation(concat3("Downloading Pakman ", tag_name, "..."));
}

/// Begins an update to the release of Pakman that is known.
pub fn update_pakman(app_state: &mut AppState) -> (r: (PakmanUpdate, Work))
    requires
        installable(old(app_state)@.pakman_release),
    ensures
        (final(app_state)@, r.0@, r.1@) == pakman_begun(old(app_state)@),
{
    match &app_state.pakman_release {
        Some(release) => {
            assert(release@.assets.len() > 0);
            let tag_name = release.tag_name.clone();
            let url = release.assets[0].url.clone();
            announce_pakman(app_state, tag_name.as_str());
            (PakmanUpdate::AwaitPackage { tag_name }, Work::Download { url, lenient: false })
        },
        None => (PakmanUpdate::Finished(Err("No release found".to_owned())), Work::Nothing),
    }
}

/// Goes on once there is work that unpacks the package, or an error.
pub fn install_pakman(work: Result<Work, String>) -> (r: (PakmanUpdate, Work))
    ensures
        (r.0@, r.1@) == pakman_opened(work_result(work)),
{
    match work {
        Ok(work) => (PakmanUpdate::AwaitExtraction, work),
        Err(text) => (PakmanUpdate::Finished(Err(text)), Work::Nothing),
    }
}

impl PakmanUpdate {
    /// Looks into the package where that is due, which takes its time and needs no
    /// state; any other step is handed back as it is.
    pub fn prepare(self) -> (r: PakmanUpdate)
        ensures
            r@ == self@.prepared(),
    {
        match self {
            PakmanUpdate::Opening { package } => PakmanUpdate::Opened {
                work: extract_zip(package, true),
            },
            step => step,
        }
    }

    /// Goes on with an update, told how the work that it asked for ended.
    pub fn resume(self, app_state: &mut AppState, event: Event) -> (r: (PakmanUpdate, Work))
        requires
            self@.awaits(event@),
        ensures
            (final(app_state)@, r.0@, r.1@) == pakman_resumed(old(app_state)@, self@, event@),
    {
        match (self, event) {
            (PakmanUpdate::AwaitPackage { tag_name }, Event::Package(r)) => match r {
                Ok(package) => {
                    app_state.start_operation(
                        concat3(
                            "Extracting Pakman ",
                            tag_name.as_str(),
                            "...\nPlease be patient, this may take a while...",
                        ),
                    );
                    (PakmanUpdate::Opening { package }, Work::OpenPackage)
                },
                Err(text) => (PakmanUpdate::Finished(Err(text)), Work::Nothing),
            },
            (PakmanUpdate::Opened { work }, Event::Opened) => install_pakman(work),
            (PakmanUpdate::AwaitExtraction, Event::Extracted(r)) => match r {
                Ok(_) => {
                    app_state.set_current_operation(Some("Pakman update success!".to_owned()));
                    (PakmanUpdate::AwaitPause, Work::Pause { seconds: 4 })
                },
                Err(text) => (PakmanUpdate::Finished(Err(text)), Work::Nothing),
            },
            (PakmanUpdate::AwaitPause, Event::Paused) => {
                app_state.finish_operation();
                (PakmanUpdate::Finished(Ok(())), Work::Nothing)
            },
            (step, _) => (step, Work::Nothing),
        }
    }
}

/// What the end of an update leaves on the screen: an error where it failed.
pub open spec fn pakman_settled(s: AppStateView, step: PakmanUpdateView) -> AppStateView {
    match step {
        PakmanUpdateView::Finished(Err(text)) => s.failed("Update failed: "@ + text),
        _ => s,
    }
}

/// An update that cleans up after itself begins.
pub open spec fn pakman_task_begun(s: AppStateView) -> (
    AppStateView,
    PakmanUpdateView,
    WorkView,
) {
    let (after, step, work) = pakman_begun(s);
    (pakman_settled(after, step), step, work)
}

/// An update that cleans up after itself goes on.
pub open spec fn pakman_task_resumed(
    s: AppStateView,
    step: PakmanUpdateView,
    event: EventView,
) -> (AppStateView, PakmanUpdateView, WorkView) {
    let (after, next, work) = pakman_resumed(s, step, event);
    (pakman_settled(after, next), next, work)
}

/// An update of Pakman that cleans up after itself.
#[derive(Debug)]
pub struct PakmanTask {
    pub step: PakmanUpdate,
}

fn settle(app_state: &mut AppState, step: &PakmanUpdate)
    ensures
        final(app_state)@ == pakman_settled(old(app_state)@, step@),
{
    if let PakmanUpdate::Finished(Err(text)) = step {
        app_state.set_operation_failed(concat2("Update failed: ", text.as_str()));
    }
}

/// Begins an update of Pakman that cleans up after itself.
pub fn do_pakman_update(app_state: &mut AppState) -> (r: (PakmanTask, Work))
    requires
        installable(old(app_state)@.pakman_release),
    ensures
        (final(app_state)@, r.0.step@, r.1@) == pakman_task_begun(old(app_state)@),
{
    let (step, work) = update_pakman(app_state);
    settle(app_state, &step);
    (PakmanTask { step }, work)
}

impl PakmanTask {
    /// Looks into the package where that is due.
    pub fn prepare(self) -> (r: PakmanTask)
        ensures
            r.step@ == self.step@.prepared(),
    {
        PakmanTask { step: self.step.prepare() }
    }

    /// Goes on with an update, told how the work that it asked for ended.
    pub fn resume(self, app_state: &mut AppState, event: Event) -> (r: (PakmanTask, Work))
        requires
            self.step@.awaits(event@),
        ensures
            (final(app_state)@, r.0.step@, r.1@) == pakman_task_resumed(
                old(app_state)@,
                self.step@,
                event@,
            ),
    {
        let (step, work) = self.step.resume(app_state, event);
        settle(app_state, &step);
        (PakmanTask { step }, work)
    }

    /// Whether the update is over.
    pub fn is_finished(&self) -> (r: bool)
        ensures
            r == (self.step@ is Finished),
    {
        matches!(self.step, PakmanUpdate::Finished(_))
    }
}

} // verus!
