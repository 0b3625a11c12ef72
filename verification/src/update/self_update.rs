//! Replacing the updater itself by a newer version.

use crate::app_state::{AppState, AppStateView};
use crate::archive::package_archive;
use crate::github::{
    fetch_latest_release, fetched, release_address, release_url, Release, ReleaseView,
};
use crate::text::{concat2, concat3};
use crate::version::{is_newer, offer, offer_result, parsed_version};
use crate::work::{
    extract_zip, extraction, outcome, work_result, Event, EventView, Work, WorkView,
};
use vstd::prelude::*;

verus! {

/// The repository of the updater.
pub const UPDATER_REPO: &'static str = "LanderN/nextui-updater-pak";

/// The code that asks whoever started the program to start it again.
pub const RESTART_CODE: i32 = 5;

/// The extension of the running program's file while it is moved aside.
pub const BACKUP_EXTENSION: &'static str = "bak";

/// Where a self-update stands: what it waits for, and what it keeps till then.
#[derive(Debug)]
pub enum SelfUpdate {
    AwaitRelease { installed: String },
    AwaitClient { release: Release },
    AwaitPackage { tag_name: String },
    AwaitBackUp { package: Vec<u8> },
    /// The package is to be looked into.
    Opening { package: Vec<u8> },
    /// The package was looked into: the work that unpacks it, or an error.
    Opened { work: Result<Work, String> },
    AwaitExtraction,
    AwaitRestore,
    AwaitPause,
    Exiting,
    Finished(Result<(), String>),
}

#[verifier::ext_equal]
pub enum SelfUpdateView {
    AwaitRelease { installed: Seq<char> },
    AwaitClient { release: ReleaseView },
    AwaitPackage { tag_name: Seq<char> },
    AwaitBackUp { package: Seq<u8> },
    Opening { package: Seq<u8> },
    Opened { work: Result<WorkView, Seq<char>> },
    AwaitExtraction,
    AwaitRestore,
    AwaitPause,
    Exiting,
    Finished(Result<(), Seq<char>>),
}

impl View for SelfUpdate {
    type V = SelfUpdateView;

    open spec fn view(&self) -> SelfUpdateView {
        match *self {
            SelfUpdate::AwaitRelease { installed } => SelfUpdateView::AwaitRelease {
                installed: installed@,
            },
            SelfUpdate::AwaitClient { release } => SelfUpdateView::AwaitClient {
                release: release@,
            },
            SelfUpdate::AwaitPackage { tag_name } => SelfUpdateView::AwaitPackage {
                tag_name: tag_name@,
            },
            SelfUpdate::AwaitBackUp { package } => SelfUpdateView::AwaitBackUp {
                package: package@,
            },
            SelfUpdate::Opening { package } => SelfUpdateView::Opening { package: package@ },
            SelfUpdate::Opened { work } => SelfUpdateView::Opened { work: work_result(work) },
            SelfUpdate::AwaitExtraction => SelfUpdateView::AwaitExtraction,
            SelfUpdate::AwaitRestore => SelfUpdateView::AwaitRestore,
            SelfUpdate::AwaitPause => SelfUpdateView::AwaitPause,
            SelfUpdate::Exiting => SelfUpdateView::Exiting,
            SelfUpdate::Finished(r) => SelfUpdateView::Finished(outcome(r)),
        }
    }
}

impl SelfUpdateView {
    /// The self-update goes on with this event. A release that is to be
    /// downloaded has an asset.
    pub open spec fn awaits(self, event: EventView) -> bool {
        &&& event.well_formed()
        &&& match self {
            SelfUpdateView::AwaitRelease { .. } => event is Release,
            SelfUpdateView::AwaitClient { release } => match event {
                EventView::Client(Ok(_)) => release.assets.len() > 0,
                _ => event is Client,
            },
            SelfUpdateView::AwaitPackage { .. } => event is Package,
            SelfUpdateView::AwaitBackUp { .. } => event is BackedUp,
            SelfUpdateView::Opening { .. } => false,
            SelfUpdateView::Opened { .. } => event is Opened,
            SelfUpdateView::AwaitExtraction => event is Extracted,
            SelfUpdateView::AwaitRestore => event is Restored,
            SelfUpdateView::AwaitPause => event is Paused,
            SelfUpdateView::Exiting => false,
            SelfUpdateView::Finished(_) => false,
        }
    }

    /// The step once the package was looked into; any other step stays.
    pub open spec fn prepared(self) -> SelfUpdateView {
        match self {
            SelfUpdateView::Opening { package } => SelfUpdateView::Opened {
                work: extraction(package_archive(package), false),
            },
            _ => self,
        }
    }
}

/// The self-update is over.
pub open spec fn self_update_over(s: AppStateView, r: Result<(), Seq<char>>) -> (
    AppStateView,
    SelfUpdateView,
    WorkView,
) {
    (s, SelfUpdateView::Finished(r), WorkView::Nothing)
}

/// A self-update begins: the updater's latest release is asked for.
pub open spec fn self_update_begun(s: AppStateView, installed: Seq<char>) -> (
    AppStateView,
    SelfUpdateView,
    WorkView,
) {
    (
        s.started("Fetching latest updater release..."@),
        SelfUpdateView::AwaitRelease { installed },
        WorkView::FetchRelease { url: release_address(UPDATER_REPO@) },
    )
}

/// The latest release is known, and whether it is newer than what is installed.
/// Only a newer one goes on.
pub open spec fn self_update_weighed(
    s: AppStateView,
    release: ReleaseView,
    newer: Result<bool, Seq<char>>,
) -> (AppStateView, SelfUpdateView, WorkView) {
    match newer {
        Ok(true) => (
            s.with_operation("Downloading updater..."@),
            SelfUpdateView::AwaitClient { release },
            WorkView::BuildClient,
        ),
        Ok(false) => self_update_over(s, Ok(())),
        Err(text) => self_update_over(s, Err(text)),
    }
}

/// The program's file has been moved aside, and there is work that unpacks the
/// package, or an error. An error has the file moved back.
pub open spec fn self_update_opened(work: Result<WorkView, Seq<char>>) -> (
    SelfUpdateView,
    WorkView,
) {
    match work {
        Ok(work) => (SelfUpdateView::AwaitExtraction, work),
        Err(_) => (
            SelfUpdateView::AwaitRestore,
            WorkView::RestoreBinary { extension: BACKUP_EXTENSION@ },
        ),
    }
}

/// A self-update goes on.
pub open spec fn self_update_resumed(
    s: AppStateView,
    step: SelfUpdateView,
    event: EventView,
) -> (AppStateView, SelfUpdateView, WorkView) {
    match (step, event) {
        (SelfUpdateView::AwaitRelease { installed }, EventView::Release(reply)) => match fetched(
            reply,
        ) {
            Ok(release) => self_update_weighed(
                s,
                release,
                offer(parsed_version(release.tag_name), parsed_version(installed)),
            ),
            Err(text) => self_update_over(s, Err(text)),
        },
        (SelfUpdateView::AwaitClient { release }, EventView::Client(r)) => match r {
            Ok(_) => (
                s,
                SelfUpdateView::AwaitPackage { tag_name: release.tag_name },
                WorkView::Download { url: release.assets[0].url, lenient: true },
            ),
            Err(text) => self_update_over(s, Err(text)),
        },
        (SelfUpdateView::AwaitPackage { tag_name }, EventView::Package(r)) => match r {
            Ok(package) => (
                s.started("Extracting NextUI Updater "@ + tag_name + "..."@),
                SelfUpdateView::AwaitBackUp { package },
                WorkView::BackUpBinary { extension: BACKUP_EXTENSION@ },
            ),
            Err(text) => self_update_over(s, Err(text)),
        },
        (SelfUpdateView::AwaitBackUp { package }, EventView::BackedUp(r)) => match r {
            Ok(_) => (s, SelfUpdateView::Opening { package }, WorkView::OpenPackage),
            Err(text) => self_update_over(s, Err(text)),
        },
        (SelfUpdateView::Opened { work }, EventView::Opened) => {
            let (next, after) = self_update_opened(work);
            (s, next, after)
        },
        (SelfUpdateView::AwaitExtraction, EventView::Extracted(r)) => match r {
            Ok(_) => (
                s.with_operation("Self-update success! Restarting updater..."@),
                SelfUpdateView::AwaitPause,
                WorkView::Pause { seconds: 1 },
            ),
            Err(_) => (
                s,
                SelfUpdateView::AwaitRestore,
                WorkView::RestoreBinary { extension: BACKUP_EXTENSION@ },
            ),
        },
        (SelfUpdateView::AwaitRestore, EventView::Restored(r)) => match r {
            Ok(_) => self_update_over(s, Err("Failed to extract update package"@)),
            Err(text) => self_update_over(s, Err(text)),
        },
        (SelfUpdateView::AwaitPause, EventView::Paused) => (
            s,
            SelfUpdateView::Exiting,
            WorkView::Exit { code: RESTART_CODE },
        ),
        _ => (s, step, WorkView::Nothing),
    }
}

/// Begins a self-update of the installed version.
pub fn self_update(app_state: &mut AppState, installed: &str) -> (r: (SelfUpdate, Work))
    ensures
        (final(app_state)@, r.0@, r.1@) == self_update_begun(old(app_state)@, installed@),
{
    app_state.start_operation("Fetching latest updater release...".to_owned());
    (
        SelfUpdate::AwaitRelease { installed: installed.to_owned() },
        Work::FetchRelease { url: release_url(UPDATER_REPO) },
    )
}

/// Goes on once the latest release is known, and whether it is newer.
pub fn weigh_release(
    app_state: &mut AppState,
    release: Release,
    newer: Result<bool, String>,
) -> (r: (SelfUpdate, Work))
    ensures
        (final(app_state)@, r.0@, r.1@) == self_update_weighed(
            old(app_state)@,
            release@,
            offer_result(newer),
        ),
{
    match newer {
        Ok(true) => {
            app_state.set_current_operation(Some("Downloading updater...".to_owned()));
            (SelfUpdate::AwaitClient { release }, Work::BuildClient)
        },
        Ok(false) => (SelfUpdate::Finished(Ok(())), Work::Nothing),
        Err(text) => (SelfUpdate::Finished(Err(text)), Work::Nothing),
    }
}

/// The work that moves the running program's file back.
fn restoring() -> (r: Work)
    ensures
        r@ == (WorkView::RestoreBinary { extension: BACKUP_EXTENSION@ }),
{
    Work::RestoreBinary { extension: BACKUP_EXTENSION.to_owned() }
}

/// Goes on once there is work that unpacks the package, or an error.
pub fn install_package(work: Result<Work, String>) -> (r: (SelfUpdate, Work))
    ensures
        (r.0@, r.1@) == self_update_opened(work_result(work)),
{
    match work {
        Ok(work) => (SelfUpdate::AwaitExtraction, work),
        Err(_) => (SelfUpdate::AwaitRestore, restoring()),
    }
}

impl SelfUpdate {
    /// Looks into the package where that is due, which takes its time and needs no
    /// state; any other step is handed back as it is.
    pub fn prepare(self) -> (r: SelfUpdate)
        ensures
            r@ == self@.prepared(),
    {
        match self {
            SelfUpdate::Opening { package } => SelfUpdate::Opened {
                work: extract_zip(package, false),
            },
            step => step,
        }
    }

    /// Goes on with a self-update, told how the work that it asked for ended.
    pub fn resume(self, app_state: &mut AppState, event: Event) -> (r: (SelfUpdate, Work))
        requires
            self@.awaits(event@),
        ensures
            (final(app_state)@, r.0@, r.1@) == self_update_resumed(
                old(app_state)@,
                self@,
                event@,
            ),
    {
        match (self, event) {
            (SelfUpdate::AwaitRelease { installed }, Event::Release(reply)) => {
                match fetch_latest_release(reply) {
                    Ok(release) => {
                        let newer = is_newer(release.tag_name.as_str(), installed.as_str());
                        weigh_release(app_state, release, newer)
                    },
                    Err(text) => (SelfUpdate::Finished(Err(text)), Work::Nothing),
                }
            },
            (SelfUpdate::AwaitClient { release }, Event::Client(r)) => match r {
                Ok(_) => {
                    let url = release.assets[0].url.clone();
                    (
                        SelfUpdate::AwaitPackage { tag_name: release.tag_name },
                        Work::Download { url, lenient: true },
                    )
                },
                Err(text) => (SelfUpdate::Finished(Err(text)), Work::Nothing),
            },
            (SelfUpdate::AwaitPackage { tag_name }, Event::Package(r)) => match r {
                Ok(package) => {
                    app_state.start_operation(
                        concat3("Extracting NextUI Updater ", tag_name.as_str(), "..."),
                    );
                    (
                        SelfUpdate::AwaitBackUp { package },
                        Work::BackUpBinary { extension: BACKUP_EXTENSION.to_owned() },
                    )
                },
                Err(text) => (SelfUpdate::Finished(Err(text)), Work::Nothing),
            },
            (SelfUpdate::AwaitBackUp { package }, Event::BackedUp(r)) => match r {
                Ok(_) => (SelfUpdate::Opening { package }, Work::OpenPackage),
                Err(text) => (SelfUpdate::Finished(Err(text)), Work::Nothing),
            },
            (SelfUpdate::Opened { work }, Event::Opened) => install_package(work),
            (SelfUpdate::AwaitExtraction, Event::Extracted(r)) => match r {
                Ok(_) => {
                    app_state.set_current_operation(
                        Some("Self-update success! Restarting updater...".to_owned()),
                    );
                    (SelfUpdate::AwaitPause, Work::Pause { seconds: 1 })
                },
                Err(_) => (SelfUpdate::AwaitRestore, restoring()),
            },
            (SelfUpdate::AwaitRestore, Event::Restored(r)) => match r {
                Ok(_) => (
                    SelfUpdate::Finished(Err("Failed to extract update package".to_owned())),
                    Work::Nothing,
                ),
                Err(text) => (SelfUpdate::Finished(Err(text)), Work::Nothing),
            },
            (SelfUpdate::AwaitPause, Event::Paused) => (
                SelfUpdate::Exiting,
                Work::Exit { code: RESTART_CODE },
            ),
            (step, _) => (step, Work::Nothing),
        }
    }
}

/// What the end of a self-update leaves on the screen.
pub open spec fn self_update_settled(s: AppStateView, step: SelfUpdateView) -> AppStateView {
    match step {
        SelfUpdateView::Finished(Ok(_)) => s.finished(),
        SelfUpdateView::Finished(Err(text)) => s.failed("Self-update failed: "@ + text),
        _ => s,
    }
}

/// A self-update that cleans up after itself goes on.
pub open spec fn self_update_task_resumed(
    s: AppStateView,
    step: SelfUpdateView,
    event: EventView,
) -> (AppStateView, SelfUpdateView, WorkView) {
    let (after, next, work) = self_update_resumed(s, step, event);
    (self_update_settled(after, next), next, work)
}

/// A self-update that cleans up after itself.
#[derive(Debug)]
pub struct SelfUpdateTask {
    pub step: SelfUpdate,
}

fn settle(app_state: &mut AppState, step: &SelfUpdate)
    ensures
        final(app_state)@ == self_update_settled(old(app_state)@, step@),
{
    match step {
        SelfUpdate::Finished(Ok(_)) => app_state.finish_operation(),
        SelfUpdate::Finished(Err(text)) => app_state.set_operation_failed(
            concat2("Self-update failed: ", text.as_str()),
        ),
        _ => {},
    }
}

/// Begins a self-update of the installed version that cleans up after itself.
pub fn do_self_update(app_state: &mut AppState, installed: &str) -> (r: (SelfUpdateTask, Work))
    ensures
        (final(app_state)@, r.0.step@, r.1@) == self_update_begun(old(app_state)@, installed@),
{
    let (step, work) = self_update(app_state, installed);
    (SelfUpdateTask { step }, work)
}

impl SelfUpdateTask {
    /// Looks into the package where that is due.
    pub fn prepare(self) -> (r: SelfUpdateTask)
        ensures
            r.step@ == self.step@.prepared(),
    {
        SelfUpdateTask { step: self.step.prepare() }
    }

    /// Goes on with a self-update, told how the work that it asked for ended.
    /// Once it is over, no operation is left on the screen, but an error where
    /// there was one.
    pub fn resume(self, app_state: &mut AppState, event: Event) -> (r: (SelfUpdateTask, Work))
        requires
            self.step@.awaits(event@),
        ensures
            (final(app_state)@, r.0.step@, r.1@) == self_update_task_resumed(
                old(app_state)@,
                self.step@,
                event@,
            ),
    {
        let (step, work) = self.step.resume(app_state, event);
        settle(app_state, &step);
        (SelfUpdateTask { step }, work)
    }

    /// Whether the self-update is over.
    pub fn is_finished(&self) -> (r: bool)
        ensures
            r == (self.step@ is Finished),
    {
        matches!(self.step, SelfUpdate::Finished(_))
    }
}

} // verus!
