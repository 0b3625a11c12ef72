//! What holds of every check for Pakman, and of every update of it.

use super::replies::law_only_success_brings;
use super::{
    answered, blamed, cleared, last_found, only_operation_differs, renamed, showing, unanswered,
    Told,
};
use crate::app_state::AppStateView;
use crate::archive::{package_archive, package_members, ArchiveView, Members};
use crate::github::{fetched, ReleaseView, ReplyView};
use crate::pakman::{
    installable, pakman_announced, pakman_begun, pakman_check_begun, pakman_check_resumed,
    pakman_opened, pakman_resumed, pakman_task_begun, pakman_task_resumed, PakmanCheck,
    PakmanUpdateView,
};
use crate::work::{EventView, WorkView, SDCARD_ROOT};
use vstd::prelude::*;

verus! {

/// Whatever comes of a check, it ends with no operation on the screen; it notes
/// the release that it was brought and leaves the last error, or shows an error
/// and leaves the release that was known.
pub proof fn law_check_ends_idle(s: AppStateView, event: EventView)
    requires
        pakman_check_begun(s).2.ends_in(event),
    ensures
        pakman_check_resumed(s, event).idle(),
        pakman_check_resumed(s, event).same_screen(s),
        event matches EventView::Release(reply) && match fetched(reply) {
            Ok(release) => {
                &&& pakman_check_resumed(s, event).pakman_release == Some(release)
                &&& pakman_check_resumed(s, event).error == s.error
            },
            Err(text) => {
                &&& pakman_check_resumed(s, event).pakman_release == s.pakman_release
                &&& pakman_check_resumed(s, event).error == Some("Fetch failed: "@ + text)
            },
        },
{
}

/// A check asks for the latest release of Pakman, and says so. Told of the release,
/// it notes that, else it shows why; all else stays.
pub proof fn law_check_notes_the_release(
    s: AppStateView,
    found: AppStateView,
    reply: ReplyView<ReleaseView>,
    release: ReleaseView,
    text: Seq<char>,
)
    ensures
        ({
            let (t, check, work) = pakman_check_begun(s);
            &&& t == showing(s, "Fetching latest Pakman release..."@)
            &&& check is AwaitRelease
            &&& work == (WorkView::FetchRelease {
                url: "https://api.github.com/repos/"@ + "josegonzalez/pakman"@
                    + "/releases/latest"@,
            })
        }),
        answered(reply, release) ==> pakman_check_resumed(found, EventView::Release(reply))
            == cleared(AppStateView { pakman_release: Some(release), ..found }),
        unanswered(reply, text) ==> pakman_check_resumed(found, EventView::Release(reply))
            == blamed(found, "Fetch failed: "@ + text),
{
    law_only_success_brings(reply, release, text);
}

/// A check waits for just the end of the request that it made.
pub proof fn law_check_waits_for_the_release(s: AppStateView, check: PakmanCheck, event: EventView)
    ensures
        pakman_check_begun(s).1.awaits(event) <==> pakman_check_begun(s).2.ends_in(event),
        check is Finished ==> !check.awaits(event),
{
}

/// Where an update stands after a run.
pub open spec fn pakman_run(s: AppStateView, run: Seq<Told>) -> (
    AppStateView,
    PakmanUpdateView,
    WorkView,
)
    decreases run.len(),
{
    if run.len() == 0 {
        pakman_task_begun(s)
    } else {
        let (_, step, _) = pakman_run(s, run.drop_last());
        pakman_task_resumed(run.last().found, step.prepared(), run.last().event)
    }
}

/// Each event tells how the work ended that was asked for last.
pub open spec fn pakman_told(s: AppStateView, run: Seq<Told>) -> bool
    decreases run.len(),
{
    run.len() > 0 ==> {
        &&& pakman_told(s, run.drop_last())
        &&& pakman_run(s, run.drop_last()).1.prepared().awaits(run.last().event)
    }
}

/// What is known of a run from the step that it led to.
spec fn history(
    s: AppStateView,
    run: Seq<Told>,
    step: PakmanUpdateView,
    work: WorkView,
) -> bool {
    match step {
        PakmanUpdateView::AwaitPackage { tag_name } => {
            &&& run.len() == 0
            &&& s.pakman_release matches Some(release) && tag_name == release.tag_name && work == (
            WorkView::Download { url: release.assets[0].url, lenient: false })
        },
        PakmanUpdateView::Opening { package } => {
            &&& run.len() == 1
            &&& run[0].event == EventView::Package(Ok(package))
            &&& work is OpenPackage
        },
        PakmanUpdateView::Opened { .. } => false,
        PakmanUpdateView::AwaitExtraction => {
            &&& run.len() == 2
            &&& run[0].event matches EventView::Package(Ok(package)) && package_archive(package)
                matches Ok(archive) && work == (WorkView::Extract {
                archive,
                root: SDCARD_ROOT@,
                unwrap_root: true,
            })
        },
        PakmanUpdateView::AwaitPause => {
            &&& run.len() == 3
            &&& run[2].event matches EventView::Extracted(Ok(_))
            &&& work is Pause
        },
        PakmanUpdateView::Finished(r) => {
            &&& run.len() <= 4
            &&& r is Ok ==> run.len() == 4 && (run[2].event matches EventView::Extracted(Ok(_)))
            &&& work is Nothing
        },
    }
}

proof fn lemma_history(s: AppStateView, run: Seq<Told>)
    requires
        pakman_told(s, run),
    ensures
        history(s, run, pakman_run(s, run).1, pakman_run(s, run).2),
    decreases run.len(),
{
    if run.len() > 0 {
        let earlier = run.drop_last();
        lemma_history(s, earlier);
        assert(forall|i: int| 0 <= i < earlier.len() ==> earlier[i] == run[i]);
    }
}

/// What is downloaded is the first asset of the release known at the start; and
/// what is unpacked is all of the package that came, without the directory that
/// holds all the rest.
pub proof fn law_installs_the_known_release(s: AppStateView, run: Seq<Told>)
    requires
        installable(s.pakman_release),
        pakman_told(s, run),
    ensures
        match pakman_run(s, run).2 {
            WorkView::Download { url, .. } => {
                s.pakman_release matches Some(release) && release.assets.len() > 0 && url
                    == release.assets[0].url
            },
            WorkView::Extract { archive, root, unwrap_root } => {
                &&& run.len() == 2
                &&& run[0].event matches EventView::Package(Ok(package))
                &&& archive.package == package
                &&& package_members(package) == Ok::<Members, Seq<char>>(archive.members)
                &&& root == SDCARD_ROOT@
                &&& unwrap_root
            },
            _ => true,
        },
{
    lemma_history(s, run);
}

/// An update that is over leaves no operation on the screen. It went well only if
/// the package was unpacked, and then leaves the last error; one that failed
/// shows why.
pub proof fn law_update_ends_idle(s: AppStateView, run: Seq<Told>)
    requires
        pakman_told(s, run),
    ensures
        ({
            let (t, step, work) = pakman_run(s, run);
            &&& run.len() <= 4
            &&& work is Nothing <==> step is Finished
            &&& match step {
                PakmanUpdateView::Finished(Ok(_)) => {
                    &&& t.idle()
                    &&& t.error == last_found(s, run).error
                    &&& run.len() == 4
                    &&& run[2].event matches EventView::Extracted(Ok(_))
                },
                PakmanUpdateView::Finished(Err(text)) => {
                    t.idle() && t.error == Some("Update failed: "@ + text)
                },
                _ => t.error == last_found(s, run).error,
            }
        }),
{
    lemma_history(s, run);
    if run.len() > 0 {
        lemma_history(s, run.drop_last());
    }
}

/// An update waits for just the end of the work that it asked for.
pub proof fn law_waits_for_its_work(s: AppStateView, run: Seq<Told>, next: EventView)
    requires
        pakman_told(s, run),
    ensures
        pakman_run(s, run).1.prepared().awaits(next) <==> pakman_run(s, run).2.ends_in(next),
{
    lemma_history(s, run);
}

/// The update is over with this error, which the screen shows, and nothing else has
/// changed.
pub open spec fn failed_with(
    found: AppStateView,
    t: AppStateView,
    step: PakmanUpdateView,
    work: WorkView,
    text: Seq<char>,
) -> bool {
    &&& t == blamed(found, "Update failed: "@ + text)
    &&& step == PakmanUpdateView::Finished(Err(text))
    &&& work is Nothing
}

/// An update downloads the first asset of the release that is known, with an ordinary
/// client, and says so; without a release it fails at once.
pub proof fn law_first_asset_is_downloaded(s: AppStateView)
    requires
        installable(s.pakman_release),
    ensures
        ({
            let (t, step, work) = pakman_run(s, seq![]);
            match s.pakman_release {
                Some(release) => {
                    &&& t == showing(s, "Downloading Pakman "@ + release.tag_name + "..."@)
                    &&& release.assets.len() > 0
                    &&& work == (WorkView::Download { url: release.assets[0].url, lenient: false })
                },
                None => failed_with(s, t, step, work, "No release found"@),
            }
        }),
{
}

/// The package that was brought is unpacked, all of it but the directory that holds
/// all the rest, below the card's root; then the update says so, waits four seconds
/// and is over with nothing on the screen. What fails on the way ends it with that
/// error.
pub proof fn law_package_is_unpacked(s: AppStateView, run: Seq<Told>, release: ReleaseView)
    requires
        pakman_told(s, run),
        run.len() > 0,
        s.pakman_release == Some(release),
    ensures
        ({
            let (t, step, work) = pakman_run(s, run);
            let found = run.last().found;
            match run.last().event {
                EventView::Package(Ok(_)) => {
                    &&& run.len() == 1
                    &&& t == showing(
                        found,
                        "Extracting Pakman "@ + release.tag_name
                            + "...\nPlease be patient, this may take a while..."@,
                    )
                    &&& work is OpenPackage
                },
                EventView::Package(Err(text)) => run.len() == 1 && failed_with(
                    found,
                    t,
                    step,
                    work,
                    text,
                ),
                EventView::Opened => {
                    &&& run.len() == 2
                    &&& run[0].event matches EventView::Package(Ok(package))
                    &&& match package_members(package) {
                        Ok(members) => t == found && work == (WorkView::Extract {
                            archive: ArchiveView { package, members },
                            root: "/mnt/SDCARD/"@,
                            unwrap_root: true,
                        }),
                        Err(text) => failed_with(found, t, step, work, text),
                    }
                },
                EventView::Extracted(Ok(_)) => {
                    &&& run.len() == 3
                    &&& t == renamed(found, "Pakman update success!"@)
                    &&& work == (WorkView::Pause { seconds: 4 })
                },
                EventView::Extracted(Err(text)) => run.len() == 3 && failed_with(
                    found,
                    t,
                    step,
                    work,
                    text,
                ),
                EventView::Paused => {
                    &&& run.len() == 4
                    &&& t == cleared(found)
                    &&& step matches PakmanUpdateView::Finished(Ok(_))
                    &&& work is Nothing
                },
                _ => false,
            }
        }),
{
    let earlier = run.drop_last();
    lemma_history(s, earlier);
    assert(forall|i: int| 0 <= i < earlier.len() ==> earlier[i] == run[i]);
}

/// An update that leaves its end to the caller goes the same way, but where it fails
/// it leaves the state as it found it.
pub proof fn law_failure_is_left_to_the_caller(
    s: AppStateView,
    step: PakmanUpdateView,
    event: EventView,
)
    requires
        step.awaits(event),
    ensures
        ({
            let (t, next, work) = pakman_resumed(s, step, event);
            let (u, same_next, same_work) = pakman_task_resumed(s, step, event);
            &&& next == same_next && work == same_work
            &&& match next {
                PakmanUpdateView::Finished(Err(text)) => t == s && u == blamed(
                    s,
                    "Update failed: "@ + text,
                ),
                _ => t == u,
            }
        }),
        ({
            let (t, next, work) = pakman_begun(s);
            let (u, same_next, same_work) = pakman_task_begun(s);
            &&& next == same_next && work == same_work
            &&& s.pakman_release is None ==> t == s
            &&& s.pakman_release is Some ==> t == u
        }),
{
}

/// The download of a release is announced by its tag's name; and work that there is
/// to unpack a package is done, else the update is over.
pub proof fn law_goes_by_what_it_is_told(
    s: AppStateView,
    tag_name: Seq<char>,
    work: Result<WorkView, Seq<char>>,
)
    ensures
        pakman_announced(s, tag_name) == showing(s, "Downloading Pakman "@ + tag_name + "..."@),
        match work {
            Ok(unpacking) => pakman_opened(work) == (PakmanUpdateView::AwaitExtraction, unpacking),
            Err(text) => pakman_opened(work) == (
                PakmanUpdateView::Finished(Err(text)),
                WorkView::Nothing,
            ),
        },
{
}

/// Looking into a package changes no step but the one that has a package to look
/// into.
pub proof fn law_prepares_only_a_package(step: PakmanUpdateView)
    ensures
        step is Opening <==> step.prepared() != step,
        step is Opening ==> step.prepared() is Opened,
{
}

/// Just a release without assets cannot be installed.
pub proof fn law_installable_has_an_asset(release: Option<ReleaseView>)
    ensures
        !installable(release) <==> (release matches Some(r) && r.assets.len() == 0),
{
}

/// An update touches nothing but the operation, the progress and the error, and
/// keeps what is shown a share of something.
pub proof fn law_touches_only_the_operation(s: AppStateView, run: Seq<Told>)
    requires
        pakman_told(s, run),
    ensures
        only_operation_differs(last_found(s, run), pakman_run(s, run).0),
        last_found(s, run).well_formed() ==> pakman_run(s, run).0.well_formed(),
{
}

} // verus!
