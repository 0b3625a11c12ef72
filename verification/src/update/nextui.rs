//! Updating NextUI: all of it, or `MinUI.zip` alone.

use super::release_check::{
    check_begun, check_resumed, do_nextui_release_check, ReleaseCheck, ReleaseCheckView,
};
use crate::app_state::{AppState, AppStateView, Reporting};
use crate::archive::{content_result, extract_minui, minui_content, package_archive, ArchiveView};
use crate::github::{choose_asset, update_asset, Release, ReleaseView};
use crate::text::{concat2, concat3};
use crate::work::{
    extract_zip, extraction, outcome, work_result, Event, EventView, Work, WorkView, SDCARD_ROOT,
};
use vstd::prelude::*;

verus! {

/// The command that restarts the machine.
pub const REBOOT_COMMAND: &'static str = "reboot";

/// Where an update stands: what it waits for, and what it keeps till then.
#[derive(Debug)]
pub enum NextuiUpdate {
    AwaitClient { release: Release, full: bool },
    AwaitPackage { asset_name: String, full: bool },
    /// The package is to be looked into.
    Opening { package: Vec<u8>, full: bool },
    /// The package was looked into: the work that installs it, or an error.
    Opened { work: Result<Work, String>, full: bool },
    AwaitInstallation { full: bool },
    AwaitPause,
    AwaitReboot,
    Finished(Result<(), String>),
}

#[verifier::ext_equal]
pub enum NextuiUpdateView {
    AwaitClient { release: ReleaseView, full: bool },
    AwaitPackage { asset_name: Seq<char>, full: bool },
    Opening { package: Seq<u8>, full: bool },
    Opened { work: Result<WorkView, Seq<char>>, full: bool },
    AwaitInstallation { full: bool },
    AwaitPause,
    AwaitReboot,
    Finished(Result<(), Seq<char>>),
}

impl View for NextuiUpdate {
    type V = NextuiUpdateView;

    open spec fn view(&self) -> NextuiUpdateView {
        match *self {
            NextuiUpdate::AwaitClient { release, full } => NextuiUpdateView::AwaitClient {
                release: release@,
                full,
            },
            NextuiUpdate::AwaitPackage { asset_name, full } => NextuiUpdateView::AwaitPackage {
                asset_name: asset_name@,
                full,
            },
            NextuiUpdate::Opening { package, full } => NextuiUpdateView::Opening {
                package: package@,
                full,
            },
            NextuiUpdate::Opened { work, full } => NextuiUpdateView::Opened {
                work: work_result(work),
                full,
            },
            NextuiUpdate::AwaitInstallation { full } => NextuiUpdateView::AwaitInstallation {
                full,
            },
            NextuiUpdate::AwaitPause => NextuiUpdateView::AwaitPause,
            NextuiUpdate::AwaitReboot => NextuiUpdateView::AwaitReboot,
            NextuiUpdate::Finished(r) => NextuiUpdateView::Finished(outcome(r)),
        }
    }
}

impl NextuiUpdateView {
    /// The update goes on with this event.
    pub open spec fn awaits(self, event: EventView) -> bool {
        &&& event.well_formed()
        &&& match self {
            NextuiUpdateView::AwaitClient { .. } => event is Client,
            NextuiUpdateView::AwaitPackage { .. } => event is Package,
            NextuiUpdateView::Opening { .. } => false,
            NextuiUpdateView::Opened { .. } => event is Opened,
            NextuiUpdateView::AwaitInstallation { full } => if full {
                event is Extracted
            } else {
                event is Written
            },
            NextuiUpdateView::AwaitPause => event is Paused,
            NextuiUpdateView::AwaitReboot => event is Rebooted,
            NextuiUpdateView::Finished(_) => false,
        }
    }

    /// The step once the package was looked into; any other step stays.
    pub open spec fn prepared(self) -> NextuiUpdateView {
        match self {
            NextuiUpdateView::Opening { package, full } => NextuiUpdateView::Opened {
                work: installation(package_archive(package), full),
                full,
            },
            _ => self,
        }
    }
}

/// Where a quick update puts `MinUI.zip`.
pub open spec fn minui_path() -> Seq<char> {
    SDCARD_ROOT@ + "/"@ + "MinUI.zip"@
}

/// The update is over.
pub open spec fn update_over(s: AppStateView, r: Result<(), Seq<char>>) -> (
    AppStateView,
    NextuiUpdateView,
    WorkView,
) {
    (s, NextuiUpdateView::Finished(r), WorkView::Nothing)
}

/// A download begins, shown as the way of reporting has it.
pub open spec fn download_begun(s: AppStateView, operation: Seq<char>) -> AppStateView {
    match s.reporting {
        Reporting::Terse => s.started(operation),
        Reporting::Staged => s.started_determinate(operation),
    }
}

/// The asset that the update takes is downloaded; without one the update is over.
pub open spec fn update_downloading(s: AppStateView, release: ReleaseView, full: bool) -> (
    AppStateView,
    NextuiUpdateView,
    WorkView,
) {
    match update_asset(release.assets, full) {
        Some(asset) => (
            download_begun(s, "Downloading "@ + asset.name + "..."@),
            NextuiUpdateView::AwaitPackage { asset_name: asset.name, full },
            WorkView::Download { url: asset.url, lenient: true },
        ),
        None => update_over(s, Err("No assets found"@)),
    }
}

/// An update to the release that is known begins; without one it is over at
/// once.
pub open spec fn update_begun(s: AppStateView, full: bool) -> (
    AppStateView,
    NextuiUpdateView,
    WorkView,
) {
    let announced = s.started("Downloading update..."@);
    match (s.reporting, s.nextui_release) {
        (Reporting::Terse, None) => update_over(s, Err("No release found"@)),
        (Reporting::Staged, None) => update_over(announced, Err("No release found"@)),
        (Reporting::Terse, Some(release)) => (
            announced,
            NextuiUpdateView::AwaitClient { release, full },
            WorkView::BuildClient,
        ),
        (Reporting::Staged, Some(release)) => update_downloading(announced, release, full),
    }
}

/// The work that installs a package, or an error: a full update unpacks all of
/// it, a quick one writes the `MinUI.zip` that it holds.
pub open spec fn installation(archive: Result<ArchiveView, Seq<char>>, full: bool) -> Result<
    WorkView,
    Seq<char>,
> {
    if full {
        extraction(archive, false)
    } else {
        minui_installation(minui_content(archive))
    }
}

/// The work that writes `MinUI.zip`, or the error that taking it out gave.
pub open spec fn minui_installation(content: Result<Seq<u8>, Seq<char>>) -> Result<
    WorkView,
    Seq<char>,
> {
    match content {
        Ok(content) => Ok(WorkView::WriteFile { path: minui_path(), content }),
        Err(text) => Err(text),
    }
}

/// The package was looked into: what it gave is installed, or the update is over.
pub open spec fn update_opened(work: Result<WorkView, Seq<char>>, full: bool) -> (
    NextuiUpdateView,
    WorkView,
) {
    match work {
        Ok(work) => (NextuiUpdateView::AwaitInstallation { full }, work),
        Err(text) => (NextuiUpdateView::Finished(Err(text)), WorkView::Nothing),
    }
}

/// The new files are in place, or could not be put there.
pub open spec fn update_installed(s: AppStateView, r: Result<(), Seq<char>>) -> (
    AppStateView,
    NextuiUpdateView,
    WorkView,
) {
    match r {
        Ok(_) => (
            s.with_operation("Update complete, preparing to reboot..."@),
            NextuiUpdateView::AwaitPause,
            WorkView::Pause { seconds: 2 },
        ),
        Err(text) => update_over(s, Err(text)),
    }
}

/// An update goes on.
pub open spec fn update_resumed(
    s: AppStateView,
    step: NextuiUpdateView,
    event: EventView,
) -> (AppStateView, NextuiUpdateView, WorkView) {
    match (step, event) {
        (NextuiUpdateView::AwaitClient { release, full }, EventView::Client(r)) => match r {
            Ok(_) => update_downloading(s, release, full),
            Err(text) => update_over(s, Err(text)),
        },
        (NextuiUpdateView::AwaitPackage { asset_name, full }, EventView::Package(r)) => match r {
            Ok(package) => (
                s.started("Extracting "@ + asset_name + "...\nPlease wait..."@),
                NextuiUpdateView::Opening { package, full },
                WorkView::OpenPackage,
            ),
            Err(text) => update_over(s, Err(text)),
        },
        (NextuiUpdateView::Opened { work, full }, EventView::Opened) => {
            let (next, after) = update_opened(work, full);
            (s, next, after)
        },
        (NextuiUpdateView::AwaitInstallation { .. }, EventView::Extracted(r)) => update_installed(
            s,
            r,
        ),
        (NextuiUpdateView::AwaitInstallation { .. }, EventView::Written(r)) => update_installed(
            s,
            r,
        ),
        (NextuiUpdateView::AwaitPause, EventView::Paused) => (
            s.with_operation("Rebooting system..."@),
            NextuiUpdateView::AwaitReboot,
            WorkView::Reboot { command: REBOOT_COMMAND@ },
        ),
        (NextuiUpdateView::AwaitReboot, EventView::Rebooted(r)) => update_over(s, r),
        _ => (s, step, WorkView::Nothing),
    }
}

fn begin_download(app_state: &mut AppState, release: Release, full: bool) -> (r: (
    NextuiUpdate,
    Work,
))
    ensures
        (final(app_state)@, r.0@, r.1@) == update_downloading(old(app_state)@, release@, full),
{
    match choose_asset(&release.assets, full) {
        Some(asset) => {
            let operation = concat3("Downloading ", asset.name.as_str(), "...");
            match app_state.reporting {
                Reporting::Terse => app_state.start_operation(operation),
                Reporting::Staged => app_state.start_determinate_operation(operation),
            }
            (
                NextuiUpdate::AwaitPackage { asset_name: asset.name, full },
                Work::Download { url: asset.url, lenient: true },
            )
        },
        None => (NextuiUpdate::Finished(Err("No assets found".to_owned())), Work::Nothing),
    }
}

/// Begins an update of NextUI to the release that is known: a full one, or a
/// quick one of `MinUI.zip` alone.
pub fn update_nextui(app_state: &mut AppState, full: bool) -> (r: (NextuiUpdate, Work))
    ensures
        (final(app_state)@, r.0@, r.1@) == update_begun(old(app_state)@, full),
{
    let release = app_state.nextui_release();
    match app_state.reporting {
        Reporting::Terse => match release {
            Some(release) => {
                app_state.start_operation("Downloading update...".to_owned());
                (NextuiUpdate::AwaitClient { release, full }, Work::BuildClient)
            },
            None => (NextuiUpdate::Finished(Err("No release found".to_owned())), Work::Nothing),
        },
        Reporting::Staged => {
            app_state.start_operation("Downloading update...".to_owned());
            match release {
                Some(release) => begin_download(app_state, release, full),
                None => (
                    NextuiUpdate::Finished(Err("No release found".to_owned())),
                    Work::Nothing,
                ),
            }
        },
    }
}

/// Makes what a quick update has taken out of the package into the work that
/// writes it.
pub fn write_minui(content: Result<Vec<u8>, String>) -> (r: Result<Work, String>)
    ensures
        work_result(r) == minui_installation(content_result(content)),
{
    match content {
        Ok(content) => Ok(
            Work::WriteFile { path: concat3(SDCARD_ROOT, "/", "MinUI.zip"), content },
        ),
        Err(text) => Err(text),
    }
}

/// Goes on once there is work that installs the package, or an error.
pub fn install_update(work: Result<Work, String>, full: bool) -> (r: (NextuiUpdate, Work))
    ensures
        (r.0@, r.1@) == update_opened(work_result(work), full),
{
    match work {
        Ok(work) => (NextuiUpdate::AwaitInstallation { full }, work),
        Err(text) => (NextuiUpdate::Finished(Err(text)), Work::Nothing),
    }
}

fn conclude(app_state: &mut AppState, installed: Result<(), String>) -> (r: (NextuiUpdate, Work))
    ensures
        (final(app_state)@, r.0@, r.1@) == update_installed(
            old(app_state)@,
            outcome(installed),
        ),
{
    match installed {
        Ok(_) => {
            app_state.set_current_operation(
                Some("Update complete, preparing to reboot...".to_owned()),
            );
            (NextuiUpdate::AwaitPause, Work::Pause { seconds: 2 })
        },
        Err(text) => (NextuiUpdate::Finished(Err(text)), Work::Nothing),
    }
}

impl NextuiUpdate {
    /// Looks into the package where that is due, which takes its time and needs no
    /// state; any other step is handed back as it is.
    pub fn prepare(self) -> (r: NextuiUpdate)
        ensures
            r@ == self@.prepared(),
    {
        match self {
            NextuiUpdate::Opening { package, full } => {
                let work = if full {
                    extract_zip(package, false)
                } else {
                    write_minui(extract_minui(package))
                };
                NextuiUpdate::Opened { work, full }
            },
            step => step,
        }
    }

    /// Goes on with an update, told how the work that it asked for ended.
    pub fn resume(self, app_state: &mut AppState, event: Event) -> (r: (NextuiUpdate, Work))
        requires
            self@.awaits(event@),
        ensures
            (final(app_state)@, r.0@, r.1@) == update_resumed(old(app_state)@, self@, event@),
    {
        match (self, event) {
            (NextuiUpdate::AwaitClient { release, full }, Event::Client(r)) => match r {
                Ok(_) => begin_download(app_state, release, full),
                Err(text) => (NextuiUpdate::Finished(Err(text)), Work::Nothing),
            },
            (NextuiUpdate::AwaitPackage { asset_name, full }, Event::Package(r)) => match r {
                Ok(package) => {
                    app_state.start_operation(
                        concat3("Extracting ", asset_name.as_str(), "...\nPlease wait..."),
                    );
                    (NextuiUpdate::Opening { package, full }, Work::OpenPackage)
                },
                Err(text) => (NextuiUpdate::Finished(Err(text)), Work::Nothing),
            },
            (NextuiUpdate::Opened { work, full }, Event::Opened) => install_update(work, full),
            (NextuiUpdate::AwaitInstallation { .. }, Event::Extracted(r)) => conclude(
                app_state,
                r,
            ),
            (NextuiUpdate::AwaitInstallation { .. }, Event::Written(r)) => conclude(app_state, r),
            (NextuiUpdate::AwaitPause, Event::Paused) => {
                app_state.set_current_operation(Some("Rebooting system...".to_owned()));
                (
                    NextuiUpdate::AwaitReboot,
                    Work::Reboot { command: REBOOT_COMMAND.to_owned() },
                )
            },
            (NextuiUpdate::AwaitReboot, Event::Rebooted(r)) => (
                NextuiUpdate::Finished(r),
                Work::Nothing,
            ),
            (step, _) => (step, Work::Nothing),
        }
    }
}

/// An update, and the check for the latest release that follows one that failed.
#[derive(Debug)]
pub enum UpdateTask {
    Updating(NextuiUpdate),
    Checking(ReleaseCheck),
}

#[verifier::ext_equal]
pub enum UpdateTaskView {
    Updating(NextuiUpdateView),
    Checking(ReleaseCheckView),
}

impl View for UpdateTask {
    type V = UpdateTaskView;

    open spec fn view(&self) -> UpdateTaskView {
        match *self {
            UpdateTask::Updating(step) => UpdateTaskView::Updating(step@),
            UpdateTask::Checking(step) => UpdateTaskView::Checking(step@),
        }
    }
}

impl UpdateTaskView {
    /// The task goes on with this event.
    pub open spec fn awaits(self, event: EventView) -> bool {
        match self {
            UpdateTaskView::Updating(step) => step.awaits(event),
            UpdateTaskView::Checking(step) => step.awaits(event),
        }
    }

    /// The task once the package was looked into, where that is due.
    pub open spec fn prepared(self) -> UpdateTaskView {
        match self {
            UpdateTaskView::Updating(step) => UpdateTaskView::Updating(step.prepared()),
            UpdateTaskView::Checking(_) => self,
        }
    }

    /// The task is over: the update went well, or the check after one that
    /// failed is over.
    pub open spec fn over(self) -> bool {
        match self {
            UpdateTaskView::Updating(step) => step is Finished,
            UpdateTaskView::Checking(step) => step is Finished,
        }
    }
}

/// An update that has failed shows why, and a check begins; else all is left as
/// it is.
pub open spec fn update_settled(s: AppStateView, step: NextuiUpdateView, work: WorkView) -> (
    AppStateView,
    UpdateTaskView,
    WorkView,
) {
    match step {
        NextuiUpdateView::Finished(Err(text)) => {
            let (after, check, next) = check_begun(s.failed("Update failed: "@ + text));
            (after, UpdateTaskView::Checking(check), next)
        },
        _ => (s, UpdateTaskView::Updating(step), work),
    }
}

/// The task begins.
pub open spec fn update_task_begun(s: AppStateView, full: bool) -> (
    AppStateView,
    UpdateTaskView,
    WorkView,
) {
    let (after, step, work) = update_begun(s, full);
    update_settled(after, step, work)
}

/// The task goes on.
pub open spec fn update_task_resumed(
    s: AppStateView,
    task: UpdateTaskView,
    event: EventView,
) -> (AppStateView, UpdateTaskView, WorkView) {
    match task {
        UpdateTaskView::Updating(step) => {
            let (after, next, work) = update_resumed(s, step, event);
            update_settled(after, next, work)
        },
        UpdateTaskView::Checking(step) => {
            let (after, next, work) = check_resumed(s, step, event);
            (after, UpdateTaskView::Checking(next), work)
        },
    }
}

fn settle(app_state: &mut AppState, step: NextuiUpdate, work: Work) -> (r: (UpdateTask, Work))
    ensures
        (final(app_state)@, r.0@, r.1@) == update_settled(old(app_state)@, step@, work@),
{
    match step {
        NextuiUpdate::Finished(Err(text)) => {
            app_state.set_operation_failed(concat2("Update failed: ", text.as_str()));
            let (check, next) = do_nextui_release_check(app_state);
            (UpdateTask::Checking(check), next)
        },
        step => (UpdateTask::Updating(step), work),
    }
}

/// Begins an update of NextUI, full or quick, that checks for the latest release
/// again where it fails.
pub fn do_update(app_state: &mut AppState, full: bool) -> (r: (UpdateTask, Work))
    ensures
        (final(app_state)@, r.0@, r.1@) == update_task_begun(old(app_state)@, full),
{
    let (step, work) = update_nextui(app_state, full);
    settle(app_state, step, work)
}

impl UpdateTask {
    /// Looks into the package where that is due.
    pub fn prepare(self) -> (r: UpdateTask)
        ensures
            r@ == self@.prepared(),
    {
        match self {
            UpdateTask::Updating(step) => UpdateTask::Updating(step.prepare()),
            task => task,
        }
    }

    /// Goes on with the task, told how the work that it asked for ended.
    pub fn resume(self, app_state: &mut AppState, event: Event) -> (r: (UpdateTask, Work))
        requires
            self@.awaits(event@),
        ensures
            (final(app_state)@, r.0@, r.1@) == update_task_resumed(
                old(app_state)@,
                self@,
                event@,
            ),
    {
        match self {
            UpdateTask::Updating(step) => {
                let (next, work) = step.resume(app_state, event);
                settle(app_state, next, work)
            },
            UpdateTask::Checking(step) => {
                let (next, work) = step.resume(app_state, event);
                (UpdateTask::Checking(next), work)
            },
        }
    }

    /// Whether the task is over.
    pub fn is_finished(&self) -> (r: bool)
        ensures
            r == self@.over(),
    {
        match self {
            UpdateTask::Updating(step) => matches!(step, NextuiUpdate::Finished(_)),
            UpdateTask::Checking(step) => step.is_finished(),
        }
    }
}

} // verus!
