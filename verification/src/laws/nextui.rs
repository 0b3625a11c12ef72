//! What holds of every update of NextUI.

use super::choices::law_update_takes_the_first_named;
use super::texts::holds_part;
use super::{
    asks_for_nextui, blamed, last_found, only_operation_differs, renamed, showing, Told,
};
use crate::app_state::{AppStateView, Progress, Reporting};
use crate::archive::{minui_content, package_archive, package_members, ArchiveView, Members};
use crate::github::{update_asset, AssetView, ReleaseView};
use crate::update::nextui::{
    minui_installation, minui_path, update_begun, update_opened, update_resumed,
    update_task_begun, update_task_resumed, NextuiUpdateView, UpdateTaskView, REBOOT_COMMAND,
};
use crate::update::release_check::{check_resumed, ReleaseCheckView};
use crate::work::{EventView, WorkView, SDCARD_ROOT};
use vstd::prelude::*;

verus! {

/// Where an update stands after a run.
pub open spec fn update_run(s: AppStateView, full: bool, run: Seq<Told>) -> (
    AppStateView,
    UpdateTaskView,
    WorkView,
)
    decreases run.len(),
{
    if run.len() == 0 {
        update_task_begun(s, full)
    } else {
        let (_, task, _) = update_run(s, full, run.drop_last());
        update_task_resumed(run.last().found, task.prepared(), run.last().event)
    }
}

/// Each event tells how the work ended that was asked for last.
pub open spec fn update_told(s: AppStateView, full: bool, run: Seq<Told>) -> bool
    decreases run.len(),
{
    run.len() > 0 ==> {
        &&& update_told(s, full, run.drop_last())
        &&& update_run(s, full, run.drop_last()).1.prepared().awaits(run.last().event)
    }
}

/// How many events come before the one that brings the package.
pub open spec fn before_package(s: AppStateView) -> int {
    match s.reporting {
        Reporting::Terse => 1,
        Reporting::Staged => 0,
    }
}

/// The asset of the release known at the start that the update takes.
pub open spec fn takes_asset(s: AppStateView, full: bool, asset: AssetView) -> bool {
    s.nextui_release matches Some(release) && update_asset(release.assets, full) == Some(asset)
}

/// This event tells that the new files are in place: the whole package, or the
/// one file of a quick update.
pub open spec fn in_place(event: EventView, full: bool) -> bool {
    if full {
        event matches EventView::Extracted(Ok(_))
    } else {
        event matches EventView::Written(Ok(_))
    }
}

/// What is known of a run from the step that it led to.
spec fn history(
    s: AppStateView,
    full: bool,
    run: Seq<Told>,
    task: UpdateTaskView,
    work: WorkView,
) -> bool {
    let k = before_package(s);
    match task {
        UpdateTaskView::Updating(NextuiUpdateView::AwaitClient { release, full: kept }) => {
            &&& kept == full
            &&& run.len() == 0
            &&& k == 1
            &&& s.nextui_release == Some(release)
            &&& work is BuildClient
        },
        UpdateTaskView::Updating(NextuiUpdateView::AwaitPackage { asset_name, full: kept }) => {
            &&& kept == full
            &&& run.len() == k
            &&& exists|asset: AssetView| #[trigger]
                takes_asset(s, full, asset) && asset.name == asset_name && work == (
                WorkView::Download { url: asset.url, lenient: true })
        },
        UpdateTaskView::Updating(NextuiUpdateView::Opening { package, full: kept }) => {
            &&& kept == full
            &&& run.len() == k + 1
            &&& run[k].event == EventView::Package(Ok(package))
            &&& work is OpenPackage
        },
        UpdateTaskView::Updating(NextuiUpdateView::Opened { .. }) => false,
        UpdateTaskView::Updating(NextuiUpdateView::AwaitInstallation { full: kept }) => {
            &&& kept == full
            &&& run.len() == k + 2
            &&& run[k + 1].event is Opened
            &&& run[k].event matches EventView::Package(Ok(package)) && if full {
                package_archive(package) matches Ok(archive) && work == (WorkView::Extract {
                    archive,
                    root: SDCARD_ROOT@,
                    unwrap_root: false,
                })
            } else {
                minui_content(package_archive(package)) matches Ok(content) && work == (
                WorkView::WriteFile { path: minui_path(), content })
            }
        },
        UpdateTaskView::Updating(NextuiUpdateView::AwaitPause) => {
            &&& run.len() == k + 3
            &&& in_place(run[k + 2].event, full)
            &&& work is Pause
        },
        UpdateTaskView::Updating(NextuiUpdateView::AwaitReboot) => {
            &&& run.len() == k + 4
            &&& in_place(run[k + 2].event, full)
            &&& work == (WorkView::Reboot { command: REBOOT_COMMAND@ })
        },
        UpdateTaskView::Updating(NextuiUpdateView::Finished(r)) => {
            &&& r is Ok
            &&& run.len() == k + 5
            &&& work is Nothing
        },
        UpdateTaskView::Checking(ReleaseCheckView::AwaitRelease) => {
            run.len() <= k + 5 && work is FetchRelease
        },
        UpdateTaskView::Checking(ReleaseCheckView::AwaitTags { .. }) => {
            1 <= run.len() <= k + 6 && work is FetchTags
        },
        UpdateTaskView::Checking(ReleaseCheckView::Finished) => {
            1 <= run.len() <= k + 7 && work is Nothing
        },
    }
}

proof fn lemma_history(s: AppStateView, full: bool, run: Seq<Told>)
    requires
        update_told(s, full, run),
    ensures
        history(s, full, run, update_run(s, full, run).1, update_run(s, full, run).2),
    decreases run.len(),
{
    if let Some(release) = s.nextui_release {
        if let Some(asset) = update_asset(release.assets, full) {
            assert(takes_asset(s, full, asset));
        }
    }
    if run.len() > 0 {
        let earlier = run.drop_last();
        lemma_history(s, full, earlier);
        assert(forall|i: int| 0 <= i < earlier.len() ==> earlier[i] == run[i]);
    }
}

/// What is downloaded is the asset that the release known at the start has for
/// this kind of update.
pub proof fn law_downloads_the_chosen_asset(s: AppStateView, full: bool, run: Seq<Told>)
    requires
        update_told(s, full, run),
    ensures
        update_run(s, full, run).2 matches WorkView::Download { url, .. } ==> exists|
            asset: AssetView,
        | #[trigger]
            takes_asset(s, full, asset) && url == asset.url,
{
    lemma_history(s, full, run);
}

/// Only a full update unpacks, and it unpacks all of the package that it was
/// brought.
pub proof fn law_full_update_unpacks_all(s: AppStateView, full: bool, run: Seq<Told>)
    requires
        update_told(s, full, run),
    ensures
        update_run(s, full, run).2 matches WorkView::Extract { archive, root, unwrap_root } ==> {
            &&& full
            &&& run.len() > 1
            &&& run[run.len() - 2].event matches EventView::Package(Ok(package))
            &&& archive.package == package
            &&& package_members(package) == Ok::<Members, Seq<char>>(archive.members)
            &&& root == SDCARD_ROOT@
            &&& !unwrap_root
        },
{
    lemma_history(s, full, run);
}

/// Only a quick update writes a file, and it is the `MinUI.zip` that the package
/// holds.
pub proof fn law_quick_update_writes_minui(s: AppStateView, full: bool, run: Seq<Told>)
    requires
        update_told(s, full, run),
    ensures
        update_run(s, full, run).2 matches WorkView::WriteFile { path, content } ==> {
            &&& !full
            &&& path == minui_path()
            &&& run.len() > 1
            &&& run[run.len() - 2].event matches EventView::Package(Ok(package))
            &&& package_members(package) matches Ok(members)
            &&& members.contains_key("MinUI.zip"@)
            &&& members["MinUI.zip"@] == Ok::<Seq<u8>, Seq<char>>(content)
        },
{
    lemma_history(s, full, run);
}

/// The machine is restarted only after the new files were put in place.
pub proof fn law_reboots_only_when_installed(s: AppStateView, full: bool, run: Seq<Told>)
    requires
        update_told(s, full, run),
    ensures
        update_run(s, full, run).2 matches WorkView::Reboot { command } ==> {
            &&& command == REBOOT_COMMAND@
            &&& run.len() >= 2
            &&& run.last().event is Paused
            &&& in_place(run[run.len() - 2].event, full)
        },
{
    lemma_history(s, full, run);
    if run.len() > 0 {
        lemma_history(s, full, run.drop_last());
    }
}

/// An update that fails shows why, and goes on to check for the latest release.
pub proof fn law_failure_checks_again(s: AppStateView, full: bool, run: Seq<Told>)
    requires
        update_told(s, full, run),
        update_run(s, full, run).1 == UpdateTaskView::Checking(ReleaseCheckView::AwaitRelease),
    ensures
        ({
            let (t, _, work) = update_run(s, full, run);
            &&& work is FetchRelease
            &&& t.current_operation == Some("Fetching latest NextUI release..."@)
            &&& exists|text: Seq<char>| t.error == Some(#[trigger] ("Update failed: "@ + text))
        }),
{
    lemma_history(s, full, run);
    if run.len() > 0 {
        lemma_history(s, full, run.drop_last());
    }
}

/// An update that is over has restarted the machine, or has failed and left no
/// operation on the screen.
pub proof fn law_ends_rebooted_or_idle(s: AppStateView, full: bool, run: Seq<Told>)
    requires
        update_told(s, full, run),
    ensures
        ({
            let (t, task, work) = update_run(s, full, run);
            &&& work is Nothing <==> task.over()
            &&& task.over() ==> {
                ||| run.len() > 0 && run.last().event matches EventView::Rebooted(Ok(_))
                ||| task is Checking && t.idle()
            }
        }),
{
    lemma_history(s, full, run);
    if run.len() > 0 {
        lemma_history(s, full, run.drop_last());
    }
}

/// An update with the check after it asks for at most eight pieces of work.
pub proof fn law_is_bounded(s: AppStateView, full: bool, run: Seq<Told>)
    requires
        update_told(s, full, run),
    ensures
        run.len() <= 8,
{
    lemma_history(s, full, run);
}

/// An update waits for just the end of the work that it asked for.
pub proof fn law_waits_for_its_work(s: AppStateView, full: bool, run: Seq<Told>, next: EventView)
    requires
        update_told(s, full, run),
    ensures
        update_run(s, full, run).1.prepared().awaits(next) <==> update_run(
            s,
            full,
            run,
        ).2.ends_in(next),
{
    lemma_history(s, full, run);
}

/// The update has failed with this error: the screen shows it, the latest release of
/// NextUI is asked for, and nothing else has changed.
pub open spec fn failed_with(
    found: AppStateView,
    t: AppStateView,
    task: UpdateTaskView,
    work: WorkView,
    text: Seq<char>,
) -> bool {
    &&& asks_for_nextui(blamed(found, "Update failed: "@ + text), t, work)
    &&& task == UpdateTaskView::Checking(ReleaseCheckView::AwaitRelease)
}

/// This asset of a release is the one for a full or a quick update: the first with
/// `all` or with `base` in its name, or the first of all where no name holds that.
pub open spec fn is_meant(assets: Seq<AssetView>, full: bool, at: int) -> bool {
    let keyword = if full {
        "all"@
    } else {
        "base"@
    };
    &&& 0 <= at < assets.len()
    &&& {
        ||| {
            &&& holds_part(assets[at].name, keyword)
            &&& forall|j: int| 0 <= j < at ==> !holds_part(#[trigger] assets[j].name, keyword)
        }
        ||| {
            &&& at == 0
            &&& forall|j: int|
                0 <= j < assets.len() ==> !holds_part(#[trigger] assets[j].name, keyword)
        }
    }
}

/// The download of this asset begins, with a spinner or at nothing of the whole.
pub open spec fn downloads(
    found: AppStateView,
    t: AppStateView,
    work: WorkView,
    asset: AssetView,
) -> bool {
    let shown = showing(found, "Downloading "@ + asset.name + "..."@);
    &&& t == match found.reporting {
        Reporting::Terse => shown,
        Reporting::Staged => AppStateView {
            progress: Some(Progress::Determinate { done: 0, total: 1 }),
            ..shown
        },
    }
    &&& work == (WorkView::Download { url: asset.url, lenient: true })
}

/// An update begins with the release that is known, and fails at once without one.
/// Terse, it makes a client first; staged, it goes on to the download, which needs
/// an asset.
pub proof fn law_begins_with_the_known_release(s: AppStateView, full: bool, at: int)
    ensures
        ({
            let (t, task, work) = update_run(s, full, seq![]);
            &&& s.nextui_release is None ==> failed_with(s, t, task, work, "No release found"@)
            &&& s.nextui_release matches Some(release) ==> match s.reporting {
                Reporting::Terse => t == showing(s, "Downloading update..."@) && work
                    is BuildClient,
                Reporting::Staged => {
                    &&& is_meant(release.assets, full, at) ==> downloads(
                        s,
                        t,
                        work,
                        release.assets[at],
                    )
                    &&& release.assets.len() == 0 ==> failed_with(
                        s,
                        t,
                        task,
                        work,
                        "No assets found"@,
                    )
                },
            }
        }),
{
    if let Some(release) = s.nextui_release {
        law_update_takes_the_first_named(release.assets, full, at);
    }
}

/// Once there is a client, the asset of the known release that is meant for the
/// update is downloaded; without an asset, or without a client, the update fails.
pub proof fn law_client_downloads_what_is_meant(
    s: AppStateView,
    full: bool,
    run: Seq<Told>,
    release: ReleaseView,
    at: int,
)
    requires
        update_told(s, full, run),
        run.len() > 0,
        run.last().event is Client,
        s.nextui_release == Some(release),
    ensures
        ({
            let (t, task, work) = update_run(s, full, run);
            let found = run.last().found;
            match run.last().event {
                EventView::Client(Ok(_)) => {
                    &&& is_meant(release.assets, full, at) ==> downloads(
                        found,
                        t,
                        work,
                        release.assets[at],
                    )
                    &&& release.assets.len() == 0 ==> failed_with(
                        found,
                        t,
                        task,
                        work,
                        "No assets found"@,
                    )
                },
                EventView::Client(Err(text)) => failed_with(found, t, task, work, text),
                _ => false,
            }
        }),
{
    lemma_history(s, full, run.drop_last());
    law_update_takes_the_first_named(release.assets, full, at);
}

/// A package that has arrived is looked into, while the screen says that the asset
/// is unpacked; one that has not arrived ends the update with its error.
pub proof fn law_arrived_package_is_looked_into(
    s: AppStateView,
    full: bool,
    run: Seq<Told>,
    release: ReleaseView,
    at: int,
)
    requires
        update_told(s, full, run),
        run.len() > 0,
        run.last().event is Package,
        s.nextui_release == Some(release),
        is_meant(release.assets, full, at),
    ensures
        ({
            let (t, task, work) = update_run(s, full, run);
            let found = run.last().found;
            match run.last().event {
                EventView::Package(Ok(_)) => {
                    &&& t == showing(
                        found,
                        "Extracting "@ + release.assets[at].name + "...\nPlease wait..."@,
                    )
                    &&& work is OpenPackage
                },
                EventView::Package(Err(text)) => failed_with(found, t, task, work, text),
                _ => false,
            }
        }),
{
    lemma_history(s, full, run.drop_last());
    law_update_takes_the_first_named(release.assets, full, at);
}

/// A full update unpacks the whole package as it is below the card's root. A quick
/// one takes the member `MinUI.zip` out of it and writes that to the card's root,
/// and nothing else. What cannot be opened, found or read ends the update.
pub proof fn law_package_is_installed(s: AppStateView, full: bool, run: Seq<Told>)
    requires
        update_told(s, full, run),
        run.len() > 0,
        run.last().event is Opened,
    ensures
        ({
            let (t, task, work) = update_run(s, full, run);
            let found = run.last().found;
            &&& run.len() >= 2
            &&& run[run.len() - 2].event matches EventView::Package(Ok(package))
            &&& match package_members(package) {
                Err(text) => failed_with(found, t, task, work, text),
                Ok(members) => if full {
                    &&& t == found
                    &&& work == (WorkView::Extract {
                        archive: ArchiveView { package, members },
                        root: "/mnt/SDCARD/"@,
                        unwrap_root: false,
                    })
                } else if members.contains_key("MinUI.zip"@) {
                    match members["MinUI.zip"@] {
                        Ok(content) => {
                            &&& t == found
                            &&& work == (WorkView::WriteFile {
                                path: "/mnt/SDCARD/"@ + "/"@ + "MinUI.zip"@,
                                content,
                            })
                        },
                        Err(text) => failed_with(found, t, task, work, text),
                    }
                } else {
                    failed_with(found, t, task, work, "File MinUI.zip not found in archive"@)
                },
            }
        }),
{
    let earlier = run.drop_last();
    lemma_history(s, full, earlier);
    assert(forall|i: int| 0 <= i < earlier.len() ==> earlier[i] == run[i]);
}

/// Once the new files are in place, the update says so, waits two seconds, says that
/// it reboots and has the machine restarted with `reboot`, and is over when that was
/// done. What fails on the way ends it with that error.
pub proof fn law_installed_update_reboots(s: AppStateView, full: bool, run: Seq<Told>)
    requires
        update_told(s, full, run),
        run.len() > 0,
    ensures
        ({
            let (t, task, work) = update_run(s, full, run);
            let found = run.last().found;
            match run.last().event {
                EventView::Extracted(Ok(_)) | EventView::Written(Ok(_)) => {
                    &&& t == renamed(found, "Update complete, preparing to reboot..."@)
                    &&& work == (WorkView::Pause { seconds: 2 })
                },
                EventView::Extracted(Err(text)) => failed_with(found, t, task, work, text),
                EventView::Written(Err(text)) => failed_with(found, t, task, work, text),
                EventView::Paused => {
                    &&& t == renamed(found, "Rebooting system..."@)
                    &&& work == (WorkView::Reboot { command: "reboot"@ })
                },
                EventView::Rebooted(Ok(_)) => {
                    &&& t == found
                    &&& task matches UpdateTaskView::Updating(NextuiUpdateView::Finished(Ok(_)))
                    &&& work is Nothing
                },
                EventView::Rebooted(Err(text)) => failed_with(found, t, task, work, text),
                _ => true,
            }
        }),
{
    lemma_history(s, full, run.drop_last());
}

/// Once an update has failed, what is left of it is a check for the latest release,
/// and nothing else.
pub proof fn law_then_checks(
    s: AppStateView,
    full: bool,
    run: Seq<Told>,
    check: ReleaseCheckView,
)
    requires
        update_told(s, full, run),
        run.len() > 0,
        update_run(s, full, run.drop_last()).1 == UpdateTaskView::Checking(check),
    ensures
        check.awaits(run.last().event),
        ({
            let (u, next, w) = check_resumed(run.last().found, check, run.last().event);
            update_run(s, full, run) == (u, UpdateTaskView::Checking(next), w)
        }),
{
}

/// An update that leaves its end to the caller goes the same way; at its end it
/// leaves the state as it found it.
pub proof fn law_end_is_left_to_the_caller(
    s: AppStateView,
    step: NextuiUpdateView,
    event: EventView,
)
    requires
        step.awaits(event),
    ensures
        ({
            let (t, next, work) = update_resumed(s, step, event);
            let (u, task, after) = update_task_resumed(s, UpdateTaskView::Updating(step), event);
            &&& next is Finished ==> t == s && work is Nothing
            &&& match next {
                NextuiUpdateView::Finished(Err(text)) => failed_with(s, u, task, after, text),
                _ => t == u && task == UpdateTaskView::Updating(next) && after == work,
            }
        }),
{
}

/// An update that leaves its end to the caller begins the same way; without a
/// release it ends at once, announced only where it is staged.
pub proof fn law_beginning_is_the_same(s: AppStateView, full: bool)
    ensures
        ({
            let (t, step, work) = update_begun(s, full);
            let (u, task, after) = update_task_begun(s, full);
            &&& s.nextui_release is None ==> {
                &&& step == NextuiUpdateView::Finished(Err("No release found"@))
                &&& work is Nothing
                &&& t == match s.reporting {
                    Reporting::Terse => s,
                    Reporting::Staged => showing(s, "Downloading update..."@),
                }
            }
            &&& (s.nextui_release matches Some(release) && s.reporting == Reporting::Staged
                && release.assets.len() == 0) ==> {
                &&& step == NextuiUpdateView::Finished(Err("No assets found"@))
                &&& work is Nothing
                &&& t == showing(s, "Downloading update..."@)
            }
            &&& match step {
                NextuiUpdateView::Finished(Err(text)) => failed_with(s, u, task, after, text),
                _ => t == u && task == UpdateTaskView::Updating(step) && after == work,
            }
        }),
{
    if let Some(release) = s.nextui_release {
        law_update_takes_the_first_named(release.assets, full, 0);
    }
}

/// The work that there is to install a package is done, else the update is over; and
/// what was taken out of a package is written to the card's root.
pub proof fn law_goes_by_what_it_is_told(
    work: Result<WorkView, Seq<char>>,
    full: bool,
    content: Result<Seq<u8>, Seq<char>>,
)
    ensures
        match work {
            Ok(installing) => update_opened(work, full) == (
                NextuiUpdateView::AwaitInstallation { full },
                installing,
            ),
            Err(text) => update_opened(work, full) == (
                NextuiUpdateView::Finished(Err(text)),
                WorkView::Nothing,
            ),
        },
        match content {
            Ok(bytes) => minui_installation(content) == Ok::<WorkView, Seq<char>>(
                WorkView::WriteFile {
                    path: "/mnt/SDCARD/"@ + "/"@ + "MinUI.zip"@,
                    content: bytes,
                },
            ),
            Err(text) => minui_installation(content) == Err::<WorkView, Seq<char>>(text),
        },
{
}

/// Looking into a package changes no step but the one that has a package to look
/// into.
pub proof fn law_prepares_only_a_package(step: NextuiUpdateView)
    ensures
        match step {
            NextuiUpdateView::Opening { full, .. } => step.prepared()
                matches NextuiUpdateView::Opened { full: kept, .. } && kept == full,
            _ => step.prepared() == step,
        },
{
}

/// An update touches nothing but the operation, the progress and the error; the
/// check after it, which notes what it learns, leaves the screen and what is
/// known of Pakman. Both keep what is shown a share of something.
pub proof fn law_leaves_the_rest(s: AppStateView, full: bool, run: Seq<Told>)
    requires
        update_told(s, full, run),
    ensures
        ({
            let (t, task, _) = update_run(s, full, run);
            let found = last_found(s, run);
            &&& task is Updating ==> only_operation_differs(found, t)
            &&& t.same_screen(found)
            &&& t.pakman_release == found.pakman_release
            &&& found.well_formed() ==> t.well_formed()
        }),
{
}

} // verus!
