//! What holds of every self-update.

use super::choices::law_greater_numbers_are_offered;
use super::replies::law_only_success_brings;
use super::{
    answered, blamed, cleared, last_found, only_operation_differs, renamed, showing, unanswered,
    Told,
};
use crate::app_state::AppStateView;
use crate::archive::{package_archive, package_members, ArchiveView, Members};
use crate::github::{fetched, ReleaseView};
use crate::update::self_update::{
    self_update_begun, self_update_opened, self_update_resumed, self_update_task_resumed,
    self_update_weighed, SelfUpdateView, BACKUP_EXTENSION, RESTART_CODE,
};
use crate::version::{offer, parsed_version, VersionView};
use crate::work::{EventView, WorkView, SDCARD_ROOT};
use vstd::prelude::*;

verus! {

/// Where a self-update of the installed version stands after a run.
pub open spec fn self_update_run(
    s: AppStateView,
    installed: Seq<char>,
    run: Seq<Told>,
) -> (AppStateView, SelfUpdateView, WorkView)
    decreases run.len(),
{
    if run.len() == 0 {
        self_update_begun(s, installed)
    } else {
        let (_, step, _) = self_update_run(s, installed, run.drop_last());
        self_update_task_resumed(run.last().found, step.prepared(), run.last().event)
    }
}

/// Each event tells how the work ended that was asked for last, and the
/// release that is to be downloaded has an asset.
pub open spec fn self_update_told(
    s: AppStateView,
    installed: Seq<char>,
    run: Seq<Told>,
) -> bool
    decreases run.len(),
{
    run.len() > 0 ==> {
        &&& self_update_told(s, installed, run.drop_last())
        &&& self_update_run(s, installed, run.drop_last()).1.prepared().awaits(run.last().event)
    }
}

/// The first event brought this release, and it is newer than what is installed.
pub open spec fn brought_newer(
    installed: Seq<char>,
    run: Seq<Told>,
    release: ReleaseView,
) -> bool {
    &&& run.len() > 0
    &&& run[0].event matches EventView::Release(reply) && fetched(reply) == Ok::<
        ReleaseView,
        Seq<char>,
    >(release)
    &&& offer(parsed_version(release.tag_name), parsed_version(installed)) == Ok::<
        bool,
        Seq<char>,
    >(true)
}

/// This event tells that the program's file was moved aside.
pub open spec fn moved_aside(event: EventView) -> bool {
    event matches EventView::BackedUp(Ok(_))
}

/// This event tells that the package was unpacked.
pub open spec fn unpacked(event: EventView) -> bool {
    event matches EventView::Extracted(Ok(_))
}

/// What is known of a run from the step that it led to.
spec fn history(
    installed: Seq<char>,
    run: Seq<Told>,
    step: SelfUpdateView,
    work: WorkView,
) -> bool {
    &&& match step {
        SelfUpdateView::AwaitRelease { installed: kept } => {
            &&& run.len() == 0
            &&& kept == installed
            &&& work is FetchRelease
        },
        SelfUpdateView::AwaitClient { release } => {
            &&& run.len() == 1
            &&& brought_newer(installed, run, release)
            &&& work is BuildClient
        },
        SelfUpdateView::AwaitPackage { tag_name } => {
            &&& run.len() == 2
            &&& exists|release: ReleaseView|
                {
                    &&& #[trigger] brought_newer(installed, run, release)
                    &&& release.tag_name == tag_name
                    &&& release.assets.len() > 0
                    &&& work == (WorkView::Download { url: release.assets[0].url, lenient: true })
                }
            &&& forall|i: int| 0 <= i < 2 ==> !moved_aside(run[i].event)
        },
        SelfUpdateView::AwaitBackUp { package } => {
            &&& run.len() == 3
            &&& run[2].event == EventView::Package(Ok(package))
            &&& forall|i: int| 0 <= i < 3 ==> !moved_aside(run[i].event)
            &&& work == (WorkView::BackUpBinary { extension: BACKUP_EXTENSION@ })
        },
        SelfUpdateView::Opening { package } => {
            &&& run.len() == 4
            &&& run[2].event == EventView::Package(Ok(package))
            &&& moved_aside(run[3].event)
            &&& work is OpenPackage
        },
        SelfUpdateView::Opened { .. } => false,
        SelfUpdateView::AwaitExtraction => {
            &&& run.len() == 5
            &&& moved_aside(run[3].event)
            &&& run[2].event matches EventView::Package(Ok(package)) && package_archive(package)
                matches Ok(archive) && work == (WorkView::Extract {
                archive,
                root: SDCARD_ROOT@,
                unwrap_root: false,
            })
        },
        SelfUpdateView::AwaitRestore => {
            &&& run.len() == 5 || (run.len() == 6 && run[5].event is Extracted)
            &&& moved_aside(run[3].event)
            &&& work == (WorkView::RestoreBinary { extension: BACKUP_EXTENSION@ })
        },
        SelfUpdateView::AwaitPause => {
            &&& run.len() == 6
            &&& moved_aside(run[3].event)
            &&& unpacked(run[5].event)
            &&& work is Pause
        },
        SelfUpdateView::Exiting => {
            &&& run.len() == 7
            &&& moved_aside(run[3].event)
            &&& unpacked(run[5].event)
            &&& work == (WorkView::Exit { code: RESTART_CODE })
        },
        SelfUpdateView::Finished(_) => {
            &&& 1 <= run.len() <= 7
            &&& run.last().event is Restored || forall|i: int|
                0 <= i < run.len() ==> !moved_aside(run[i].event)
            &&& work is Nothing
        },
    }
    &&& run.len() >= 2 ==> exists|release: ReleaseView| brought_newer(installed, run, release)
}

proof fn lemma_history(s: AppStateView, installed: Seq<char>, run: Seq<Told>)
    requires
        self_update_told(s, installed, run),
    ensures
        history(
            installed,
            run,
            self_update_run(s, installed, run).1,
            self_update_run(s, installed, run).2,
        ),
    decreases run.len(),
{
    if run.len() > 0 {
        let earlier = run.drop_last();
        lemma_history(s, installed, earlier);
        let step = self_update_run(s, installed, earlier).1;
        assert(forall|i: int| 0 <= i < earlier.len() ==> earlier[i] == run[i]);
        if run.len() >= 2 {
            assert(earlier.len() > 0);
            assert(forall|release: ReleaseView|
                brought_newer(installed, earlier, release) ==> #[trigger] brought_newer(
                    installed,
                    run,
                    release,
                ));
            if earlier.len() == 1 {
                assert(step is AwaitClient);
                let release = step->AwaitClient_release;
                assert(brought_newer(installed, run, release));
            } else {
                let release = choose|release: ReleaseView|
                    brought_newer(installed, earlier, release);
                assert(brought_newer(installed, run, release));
            }
        }
    }
}

/// Beyond asking for the latest release, nothing is done unless that release was
/// brought and is newer than what is installed; and what is downloaded is the
/// first asset of that release.
pub proof fn law_only_newer_is_installed(
    s: AppStateView,
    installed: Seq<char>,
    run: Seq<Told>,
)
    requires
        self_update_told(s, installed, run),
    ensures
        ({
            let work = self_update_run(s, installed, run).2;
            &&& work is FetchRelease || work is Nothing || exists|release: ReleaseView|
                brought_newer(installed, run, release)
            &&& work matches WorkView::Download { url, .. } ==> exists|release: ReleaseView|
                #[trigger] brought_newer(installed, run, release) && release.assets.len() > 0
                    && url == release.assets[0].url
        }),
{
    lemma_history(s, installed, run);
}

/// What is unpacked is all of the package that was downloaded, and only after the
/// program's file was moved aside.
pub proof fn law_unpacks_the_download(
    s: AppStateView,
    installed: Seq<char>,
    run: Seq<Told>,
)
    requires
        self_update_told(s, installed, run),
    ensures
        self_update_run(s, installed, run).2 matches WorkView::Extract {
            archive,
            root,
            unwrap_root,
        } ==> {
            &&& run.len() == 5
            &&& moved_aside(run[3].event)
            &&& run[2].event matches EventView::Package(Ok(package))
            &&& archive.package == package
            &&& package_members(package) == Ok::<Members, Seq<char>>(archive.members)
            &&& root == SDCARD_ROOT@
            &&& !unwrap_root
        },
{
    lemma_history(s, installed, run);
}

/// The program's file is moved aside to its name with the backup extension, and is
/// moved back only after that, and from there.
pub proof fn law_restores_what_was_moved_aside(
    s: AppStateView,
    installed: Seq<char>,
    run: Seq<Told>,
)
    requires
        self_update_told(s, installed, run),
    ensures
        match self_update_run(s, installed, run).2 {
            WorkView::BackUpBinary { extension } => extension == BACKUP_EXTENSION@,
            WorkView::RestoreBinary { extension } => {
                &&& extension == BACKUP_EXTENSION@
                &&& run.len() > 3
                &&& moved_aside(run[3].event)
            },
            _ => true,
        },
{
    lemma_history(s, installed, run);
}

/// When the package does not open, or unpacking fails, the next thing to do is to
/// move the program's file back; and no self-update that has moved it aside is
/// over before that was tried.
pub proof fn law_failure_restores_the_program(
    s: AppStateView,
    installed: Seq<char>,
    run: Seq<Told>,
)
    requires
        self_update_told(s, installed, run),
        run.len() > 0,
    ensures
        ({
            let (_, step, work) = self_update_run(s, installed, run);
            &&& run.last().event matches EventView::Extracted(Err(_)) ==> work is RestoreBinary
            &&& run.last().event is Opened && (run[2].event matches EventView::Package(Ok(package))
                && package_members(package) is Err) ==> work is RestoreBinary
            &&& step is Finished && (exists|i: int|
                0 <= i < run.len() && #[trigger] moved_aside(run[i].event))
                ==> run.last().event is Restored
        }),
{
    lemma_history(s, installed, run);
    lemma_history(s, installed, run.drop_last());
}

/// The program asks to be started again only after the new version was unpacked.
pub proof fn law_restarts_only_when_installed(
    s: AppStateView,
    installed: Seq<char>,
    run: Seq<Told>,
)
    requires
        self_update_told(s, installed, run),
    ensures
        self_update_run(s, installed, run).2 matches WorkView::Exit { code } ==> {
            &&& code == RESTART_CODE
            &&& run.len() == 7
            &&& moved_aside(run[3].event)
            &&& unpacked(run[5].event)
        },
{
    lemma_history(s, installed, run);
}

/// A self-update that is over leaves no operation on the screen. One that found
/// nothing newer leaves the last error, one that failed shows its own; and until
/// it is over, the last error stays.
pub proof fn law_ends_clean(s: AppStateView, installed: Seq<char>, run: Seq<Told>)
    requires
        self_update_told(s, installed, run),
    ensures
        ({
            let (t, step, work) = self_update_run(s, installed, run);
            &&& work is Nothing <==> step is Finished
            &&& match step {
                SelfUpdateView::Finished(Ok(_)) => t.idle() && t.error == last_found(s, run).error,
                SelfUpdateView::Finished(Err(text)) => {
                    t.idle() && t.error == Some("Self-update failed: "@ + text)
                },
                _ => t.error == last_found(s, run).error,
            }
        }),
{
    lemma_history(s, installed, run);
}

/// A self-update begins with the request for the updater's latest release, and says
/// so.
pub proof fn law_begins_with_the_release(s: AppStateView, installed: Seq<char>)
    ensures
        ({
            let (t, _, work) = self_update_run(s, installed, seq![]);
            &&& t == showing(s, "Fetching latest updater release..."@)
            &&& work == (WorkView::FetchRelease {
                url: "https://api.github.com/repos/"@ + "LanderN/nextui-updater-pak"@
                    + "/releases/latest"@,
            })
        }),
{
}

/// The event tells that an answer of success brought this release.
pub open spec fn tells_of(event: EventView, release: ReleaseView) -> bool {
    event matches EventView::Release(reply) && answered(reply, release)
}

/// A release whose numbers, from left to right, are greater than the installed ones
/// is gone after; one whose numbers are smaller, or which is the installed one, is
/// not, and leaves nothing on the screen.
pub proof fn law_greater_release_is_gone_after(
    s: AppStateView,
    installed: Seq<char>,
    told: Told,
    release: ReleaseView,
    a: VersionView,
    b: VersionView,
)
    requires
        self_update_told(s, installed, seq![told]),
        tells_of(told.event, release),
        parsed_version(release.tag_name) == Ok::<VersionView, Seq<char>>(a),
        parsed_version(installed) == Ok::<VersionView, Seq<char>>(b),
    ensures
        ({
            let (t, step, work) = self_update_run(s, installed, seq![told]);
            let same = a.major == b.major && a.minor == b.minor && a.patch == b.patch;
            let greater = {
                ||| a.major > b.major
                ||| a.major == b.major && a.minor > b.minor
                ||| a.major == b.major && a.minor == b.minor && a.patch > b.patch
            };
            &&& greater || (same && a.pre.len() == 0 && b.pre.len() > 0) ==> {
                &&& t == renamed(told.found, "Downloading updater..."@)
                &&& work is BuildClient
            }
            &&& !greater && !same || (same && a.pre == b.pre && a.build == b.build) || (same
                && a.pre.len() > 0 && b.pre.len() == 0) ==> {
                &&& t == cleared(told.found)
                &&& step matches SelfUpdateView::Finished(Ok(_))
                &&& work is Nothing
            }
        }),
{
    reveal_with_fuel(self_update_run, 2);
    assert(seq![told].drop_last() =~= Seq::<Told>::empty());
    law_greater_numbers_are_offered(release.tag_name, installed, a, b);
    if let EventView::Release(reply) = told.event {
        law_only_success_brings(reply, release, seq![]);
    }
}

/// What comes of the release: a newer one is gone after, with nothing but the
/// operation's name changed; one that is not newer ends the self-update well;
/// whatever is wrong ends it with an error.
pub proof fn law_release_decides(
    s: AppStateView,
    installed: Seq<char>,
    told: Told,
    release: ReleaseView,
    text: Seq<char>,
)
    requires
        self_update_told(s, installed, seq![told]),
    ensures
        ({
            let (t, step, work) = self_update_run(s, installed, seq![told]);
            &&& tells_of(told.event, release) ==> match offer(
                parsed_version(release.tag_name),
                parsed_version(installed),
            ) {
                Ok(true) => t == renamed(told.found, "Downloading updater..."@) && work
                    is BuildClient,
                Ok(false) => t == cleared(told.found) && work is Nothing && (step
                    matches SelfUpdateView::Finished(Ok(_))),
                Err(why) => failed_with(told.found, t, step, work, why),
            }
            &&& (told.event matches EventView::Release(reply) && unanswered(reply, text))
                ==> failed_with(told.found, t, step, work, text)
        }),
{
    reveal_with_fuel(self_update_run, 2);
    assert(seq![told].drop_last() =~= Seq::<Told>::empty());
    if let EventView::Release(reply) = told.event {
        law_only_success_brings(reply, release, text);
    }
}

/// The self-update is over with this error, which the screen shows, and nothing
/// else has changed.
pub open spec fn failed_with(
    found: AppStateView,
    t: AppStateView,
    step: SelfUpdateView,
    work: WorkView,
    text: Seq<char>,
) -> bool {
    &&& t == blamed(found, "Self-update failed: "@ + text)
    &&& step == SelfUpdateView::Finished(Err(text))
    &&& work is Nothing
}

/// Of the release that it was told of, a self-update downloads the first asset, with
/// a client that accepts anything; it then moves the program's file aside to its
/// name with `bak`, while it says that it unpacks that release. Whatever fails till
/// then ends it with that error.
pub proof fn law_first_asset_is_downloaded(
    s: AppStateView,
    installed: Seq<char>,
    run: Seq<Told>,
    release: ReleaseView,
)
    requires
        self_update_told(s, installed, run),
        2 <= run.len() <= 4,
        tells_of(run[0].event, release),
    ensures
        ({
            let (t, step, work) = self_update_run(s, installed, run);
            let found = run.last().found;
            match run.last().event {
                EventView::Client(Ok(_)) => {
                    &&& run.len() == 2
                    &&& t == found
                    &&& release.assets.len() > 0
                    &&& work == (WorkView::Download { url: release.assets[0].url, lenient: true })
                },
                EventView::Client(Err(text)) => run.len() == 2 && failed_with(
                    found,
                    t,
                    step,
                    work,
                    text,
                ),
                EventView::Package(Ok(_)) => {
                    &&& run.len() == 3
                    &&& t == showing(
                        found,
                        "Extracting NextUI Updater "@ + release.tag_name + "..."@,
                    )
                    &&& work == (WorkView::BackUpBinary { extension: "bak"@ })
                },
                EventView::Package(Err(text)) => run.len() == 3 && failed_with(
                    found,
                    t,
                    step,
                    work,
                    text,
                ),
                EventView::BackedUp(Ok(_)) => run.len() == 4 && t == found && work is OpenPackage,
                EventView::BackedUp(Err(text)) => run.len() == 4 && failed_with(
                    found,
                    t,
                    step,
                    work,
                    text,
                ),
                _ => false,
            }
        }),
{
    let earlier = run.drop_last();
    lemma_history(s, installed, earlier);
    assert(forall|i: int| 0 <= i < earlier.len() ==> earlier[i] == run[i]);
    if let EventView::Release(reply) = run[0].event {
        law_only_success_brings(reply, release, seq![]);
    }
}

/// The package that was downloaded is unpacked, all of it and as it is, below the
/// card's root; then the program says so, waits a second and ends with the code 5.
/// Where the package does not open, or is not unpacked, the program's file is moved
/// back from its name with `bak`, and the self-update fails.
pub proof fn law_download_replaces_the_program(
    s: AppStateView,
    installed: Seq<char>,
    run: Seq<Told>,
)
    requires
        self_update_told(s, installed, run),
        run.len() >= 5,
    ensures
        ({
            let (t, step, work) = self_update_run(s, installed, run);
            let found = run.last().found;
            match run.last().event {
                EventView::Opened => {
                    &&& run.len() == 5
                    &&& t == found
                    &&& run[2].event matches EventView::Package(Ok(package))
                    &&& match package_members(package) {
                        Ok(members) => work == (WorkView::Extract {
                            archive: ArchiveView { package, members },
                            root: "/mnt/SDCARD/"@,
                            unwrap_root: false,
                        }),
                        Err(_) => work == (WorkView::RestoreBinary { extension: "bak"@ }),
                    }
                },
                EventView::Extracted(Ok(_)) => {
                    &&& run.len() == 6
                    &&& t == renamed(found, "Self-update success! Restarting updater..."@)
                    &&& work == (WorkView::Pause { seconds: 1 })
                },
                EventView::Extracted(Err(_)) => {
                    &&& run.len() == 6
                    &&& t == found
                    &&& work == (WorkView::RestoreBinary { extension: "bak"@ })
                },
                EventView::Restored(Ok(_)) => failed_with(
                    found,
                    t,
                    step,
                    work,
                    "Failed to extract update package"@,
                ),
                EventView::Restored(Err(text)) => failed_with(found, t, step, work, text),
                EventView::Paused => {
                    &&& run.len() == 7
                    &&& t == found
                    &&& work == (WorkView::Exit { code: 5 })
                },
                _ => false,
            }
        }),
{
    let earlier = run.drop_last();
    lemma_history(s, installed, earlier);
    assert(forall|i: int| 0 <= i < earlier.len() ==> earlier[i] == run[i]);
}

/// A self-update that leaves the end to its caller goes the same way; at its end it
/// leaves the state as it found it.
pub proof fn law_end_is_left_to_the_caller(
    s: AppStateView,
    step: SelfUpdateView,
    event: EventView,
)
    requires
        step.awaits(event),
    ensures
        ({
            let (t, next, work) = self_update_resumed(s, step, event);
            let (u, same_next, same_work) = self_update_task_resumed(s, step, event);
            &&& next == same_next && work == same_work
            &&& next is Finished ==> t == s
            &&& next matches SelfUpdateView::Finished(Ok(_)) ==> u == cleared(s)
            &&& next matches SelfUpdateView::Finished(Err(text)) ==> u == blamed(
                s,
                "Self-update failed: "@ + text,
            )
            &&& !(next is Finished) ==> t == u
        }),
{
}

/// Only what is newer is gone after, by whatever it was weighed; and work that there
/// is to unpack a package is done, else the program's file is moved back.
pub proof fn law_goes_by_what_it_is_told(
    s: AppStateView,
    release: ReleaseView,
    newer: Result<bool, Seq<char>>,
    work: Result<WorkView, Seq<char>>,
)
    ensures
        match newer {
            Ok(true) => self_update_weighed(s, release, newer) == (
                renamed(s, "Downloading updater..."@),
                SelfUpdateView::AwaitClient { release },
                WorkView::BuildClient,
            ),
            Ok(false) => {
                let (t, step, next) = self_update_weighed(s, release, newer);
                t == s && (step matches SelfUpdateView::Finished(Ok(_))) && next is Nothing
            },
            Err(text) => self_update_weighed(s, release, newer) == (
                s,
                SelfUpdateView::Finished(Err(text)),
                WorkView::Nothing,
            ),
        },
        match work {
            Ok(unpacking) => self_update_opened(work) == (
                SelfUpdateView::AwaitExtraction,
                unpacking,
            ),
            Err(_) => self_update_opened(work) == (
                SelfUpdateView::AwaitRestore,
                WorkView::RestoreBinary { extension: "bak"@ },
            ),
        },
{
}

/// Looking into a package changes no step but the one that has a package to look
/// into.
pub proof fn law_prepares_only_a_package(step: SelfUpdateView)
    ensures
        match step {
            SelfUpdateView::Opening { package } => step.prepared() matches SelfUpdateView::Opened {
                work,
            } && (work is Ok <==> package_members(package) is Ok),
            _ => step.prepared() == step,
        },
{
}

/// A self-update touches nothing but the operation, the progress and the error,
/// and keeps what is shown a share of something.
pub proof fn law_touches_only_the_operation(
    s: AppStateView,
    installed: Seq<char>,
    run: Seq<Told>,
)
    requires
        self_update_told(s, installed, run),
    ensures
        ({
            let t = self_update_run(s, installed, run).0;
            &&& only_operation_differs(last_found(s, run), t)
            &&& last_found(s, run).well_formed() ==> t.well_formed()
        }),
{
}

/// A self-update asks for at most seven pieces of work that end.
pub proof fn law_is_bounded(s: AppStateView, installed: Seq<char>, run: Seq<Told>)
    requires
        self_update_told(s, installed, run),
    ensures
        run.len() <= 7,
{
    lemma_history(s, installed, run);
}

/// A self-update waits for just the end of the work that it asked for; but with a
/// release that has no asset it does not go on to the download.
pub proof fn law_waits_for_its_work(
    s: AppStateView,
    installed: Seq<char>,
    run: Seq<Told>,
    next: EventView,
)
    requires
        self_update_told(s, installed, run),
    ensures
        ({
            let (_, step, work) = self_update_run(s, installed, run);
            step.prepared().awaits(next) <==> work.ends_in(next) && !(step
                matches SelfUpdateView::AwaitClient { release } && release.assets.len() == 0
                && next matches EventView::Client(Ok(_)))
        }),
{
    lemma_history(s, installed, run);
}

} // verus!
