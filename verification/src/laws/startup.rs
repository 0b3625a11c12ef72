//! What holds of every start of the updater.

use super::replies::law_only_success_brings;
use super::self_update::{law_ends_clean, self_update_run, self_update_told};
use super::{answered, asks_for_nextui, blamed, cleared, last_found, unanswered, Told};
use crate::app_state::AppStateView;
use crate::github::{release_address, ReleaseView};
use crate::update::release_check::{check_resumed, ReleaseCheckView, NEXTUI_REPO};
use crate::update::self_update::{self_update_task_resumed, SelfUpdateView};
use crate::update::startup::{startup_begun, startup_resumed, StartupView};
use crate::version::{offer, parsed_version};
use crate::work::{EventView, WorkView};
use vstd::prelude::*;

verus! {

/// Where a start with this installed version stands after a run.
pub open spec fn startup_run(s: AppStateView, installed: Seq<char>, run: Seq<Told>) -> (
    AppStateView,
    StartupView,
    WorkView,
)
    decreases run.len(),
{
    if run.len() == 0 {
        startup_begun(s, installed)
    } else {
        let (_, startup, _) = startup_run(s, installed, run.drop_last());
        startup_resumed(run.last().found, startup.prepared(), run.last().event)
    }
}

/// Each event tells how the work ended that was asked for last, and the release
/// that is to be downloaded has an asset.
pub open spec fn startup_told(s: AppStateView, installed: Seq<char>, run: Seq<Told>) -> bool
    decreases run.len(),
{
    run.len() > 0 ==> {
        &&& startup_told(s, installed, run.drop_last())
        &&& startup_run(s, installed, run.drop_last()).1.prepared().awaits(run.last().event)
    }
}

/// The start is over.
pub open spec fn startup_over(startup: StartupView) -> bool {
    startup == StartupView::Checking(ReleaseCheckView::Finished)
}

proof fn lemma_never_rests_on_a_finished_update(
    s: AppStateView,
    installed: Seq<char>,
    run: Seq<Told>,
)
    requires
        startup_told(s, installed, run),
    ensures
        startup_run(s, installed, run).1 matches StartupView::Updating(step) ==> !(step is Finished),
    decreases run.len(),
{
    if run.len() > 0 {
        lemma_never_rests_on_a_finished_update(s, installed, run.drop_last());
    }
}

/// However the self-update ends, unless with the end of the program, the check for
/// the latest release of NextUI follows at once; and a start that is over leaves
/// no operation on the screen.
pub proof fn law_always_checks(s: AppStateView, installed: Seq<char>, run: Seq<Told>)
    requires
        startup_told(s, installed, run),
    ensures
        ({
            let (t, startup, work) = startup_run(s, installed, run);
            &&& startup is Updating ==> !(startup->Updating_0 is Finished)
            &&& startup == StartupView::Checking(ReleaseCheckView::AwaitRelease) ==> work == (
            WorkView::FetchRelease { url: release_address(NEXTUI_REPO@) })
            &&& startup_over(startup) ==> t.idle()
        }),
{
    lemma_never_rests_on_a_finished_update(s, installed, run);
    if run.len() > 0 {
        lemma_never_rests_on_a_finished_update(s, installed, run.drop_last());
    }
}

/// As long as the self-update is under way, a start is that self-update and nothing
/// else.
pub proof fn law_updates_itself_first(s: AppStateView, installed: Seq<char>, run: Seq<Told>)
    requires
        startup_told(s, installed, run),
        startup_run(s, installed, run).1 is Updating,
    ensures
        self_update_told(s, installed, run),
        startup_run(s, installed, run).0 == self_update_run(s, installed, run).0,
        startup_run(s, installed, run).1 == StartupView::Updating(
            self_update_run(s, installed, run).1,
        ),
        startup_run(s, installed, run).2 == self_update_run(s, installed, run).2,
    decreases run.len(),
{
    if run.len() > 0 {
        law_updates_itself_first(s, installed, run.drop_last());
    }
}

/// Whatever the self-update comes to, found nothing newer or failed, the next thing
/// is the request for the latest release of NextUI; until then the self-update goes
/// on.
pub proof fn law_check_follows_the_self_update(
    s: AppStateView,
    installed: Seq<char>,
    run: Seq<Told>,
)
    requires
        startup_told(s, installed, run),
        run.len() > 0,
        startup_run(s, installed, run.drop_last()).1 is Updating,
    ensures
        self_update_told(s, installed, run),
        ({
            let (u, next, w) = self_update_run(s, installed, run);
            let (t, startup, work) = startup_run(s, installed, run);
            &&& next matches SelfUpdateView::Finished(_) ==> {
                &&& startup == StartupView::Checking(ReleaseCheckView::AwaitRelease)
                &&& asks_for_nextui(u, t, work)
            }
            &&& !(next is Finished) ==> {
                &&& startup == StartupView::Updating(next)
                &&& t == u
                &&& work == w
            }
        }),
{
    law_updates_itself_first(s, installed, run.drop_last());
}

/// Told of a release that is not newer, or why there is none, a start asks for the
/// latest release of NextUI at once; only an error is left on the screen.
pub proof fn law_start_without_an_update_checks(
    s: AppStateView,
    installed: Seq<char>,
    told: Told,
    release: ReleaseView,
    text: Seq<char>,
)
    requires
        startup_told(s, installed, seq![told]),
        told.event matches EventView::Release(reply) && {
            ||| answered(reply, release) && offer(
                parsed_version(release.tag_name),
                parsed_version(installed),
            ) != Ok::<bool, Seq<char>>(true)
            ||| unanswered(reply, text)
        },
    ensures
        ({
            let (t, startup, work) = startup_run(s, installed, seq![told]);
            let before = match told.event {
                EventView::Release(reply) => if answered(reply, release) {
                    match offer(parsed_version(release.tag_name), parsed_version(installed)) {
                        Ok(_) => cleared(told.found),
                        Err(why) => blamed(told.found, "Self-update failed: "@ + why),
                    }
                } else {
                    blamed(told.found, "Self-update failed: "@ + text)
                },
                _ => told.found,
            };
            &&& startup == StartupView::Checking(ReleaseCheckView::AwaitRelease)
            &&& asks_for_nextui(before, t, work)
        }),
{
    reveal_with_fuel(startup_run, 2);
    assert(seq![told].drop_last() =~= Seq::<Told>::empty());
    if let EventView::Release(reply) = told.event {
        law_only_success_brings(reply, release, text);
    }
}

/// Once the check has begun, a start is that check and nothing else.
pub proof fn law_then_checks(
    s: AppStateView,
    installed: Seq<char>,
    run: Seq<Told>,
    check: ReleaseCheckView,
)
    requires
        startup_told(s, installed, run),
        run.len() > 0,
        startup_run(s, installed, run.drop_last()).1 == StartupView::Checking(check),
    ensures
        check.awaits(run.last().event),
        ({
            let (u, next, w) = check_resumed(run.last().found, check, run.last().event);
            startup_run(s, installed, run) == (u, StartupView::Checking(next), w)
        }),
{
}

/// An event after the first tells of a release.
pub open spec fn told_of_nextui(run: Seq<Told>) -> bool {
    exists|i: int| 1 <= i < run.len() && (#[trigger] run[i]).event is Release
}

/// The first event of a start tells of the updater's release; and a start is over,
/// or on to the tags, only once it was told of the release of NextUI after that.
pub proof fn law_is_over_only_when_told_of_nextui(
    s: AppStateView,
    installed: Seq<char>,
    run: Seq<Told>,
)
    requires
        startup_told(s, installed, run),
    ensures
        ({
            let (_, startup, work) = startup_run(s, installed, run);
            &&& run.len() > 0 ==> run[0].event is Release
            &&& startup is Checking ==> run.len() > 0
            &&& startup matches StartupView::Checking(ReleaseCheckView::AwaitTags { .. })
                ==> told_of_nextui(run)
            &&& startup_over(startup) ==> told_of_nextui(run)
            &&& work is Nothing <==> startup_over(startup)
        }),
    decreases run.len(),
{
    lemma_never_rests_on_a_finished_update(s, installed, run);
    if startup_run(s, installed, run).1 is Updating {
        law_updates_itself_first(s, installed, run);
        law_ends_clean(s, installed, run);
    }
    if run.len() > 0 {
        let earlier = run.drop_last();
        law_is_over_only_when_told_of_nextui(s, installed, earlier);
        assert(forall|i: int| 0 <= i < earlier.len() ==> earlier[i] == run[i]);
        if told_of_nextui(earlier) {
            let i = choose|i: int| 1 <= i < earlier.len() && (#[trigger] earlier[i]).event
                is Release;
            assert(run[i].event is Release);
        }
        if startup_run(s, installed, earlier).1 == StartupView::Checking(
            ReleaseCheckView::AwaitRelease,
        ) {
            assert(run[run.len() - 1].event is Release);
        }
    }
}

/// A self-update that fails has its error on the screen when the check begins.
pub proof fn law_failure_stays_on_the_screen(
    s: AppStateView,
    installed: Seq<char>,
    run: Seq<Told>,
    before: SelfUpdateView,
    text: Seq<char>,
)
    requires
        startup_told(s, installed, run),
        run.len() > 0,
        startup_run(s, installed, run.drop_last()).1 == StartupView::Updating(before),
        self_update_task_resumed(run.last().found, before.prepared(), run.last().event).1
            == SelfUpdateView::Finished(Err(text)),
    ensures
        startup_run(s, installed, run).0.error == Some("Self-update failed: "@ + text),
        startup_run(s, installed, run).1 == StartupView::Checking(ReleaseCheckView::AwaitRelease),
{
}

/// A start leaves the screen, and what is known of Pakman, as it found them.
pub proof fn law_leaves_the_rest(s: AppStateView, installed: Seq<char>, run: Seq<Told>)
    requires
        startup_told(s, installed, run),
    ensures
        ({
            let t = startup_run(s, installed, run).0;
            &&& t.same_screen(last_found(s, run))
            &&& t.pakman_release == last_found(s, run).pakman_release
            &&& last_found(s, run).well_formed() ==> t.well_formed()
        }),
{
}

} // verus!
