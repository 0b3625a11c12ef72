//! What holds of every check for the latest release of NextUI.

use super::replies::{law_only_success_brings, law_tag_is_the_first_of_its_name};
use super::{answered, asks_for_nextui, blamed, cleared, last_found, showing, unanswered, Told};
use crate::app_state::{AppStateView, Reporting};
use crate::github::{fetched, fetched_tag, first_tag, ReleaseView, ReplyView, TagView};
use crate::update::release_check::{
    check_begun, check_resumed, release_failure, tag_failure, ReleaseCheckView,
};
use crate::work::{EventView, WorkView};
use vstd::prelude::*;

verus! {

/// Where a check stands after a run.
pub open spec fn check_run(s: AppStateView, run: Seq<Told>) -> (
    AppStateView,
    ReleaseCheckView,
    WorkView,
)
    decreases run.len(),
{
    if run.len() == 0 {
        check_begun(s)
    } else {
        let (_, step, _) = check_run(s, run.drop_last());
        check_resumed(run.last().found, step, run.last().event)
    }
}

/// Each event tells how the work ended that was asked for last.
pub open spec fn check_told(s: AppStateView, run: Seq<Told>) -> bool
    decreases run.len(),
{
    run.len() > 0 ==> {
        &&& check_told(s, run.drop_last())
        &&& check_run(s, run.drop_last()).1.awaits(run.last().event)
    }
}

/// The first event brought this release.
pub open spec fn brought_release(run: Seq<Told>, release: ReleaseView) -> bool {
    &&& run.len() > 0
    &&& run[0].event matches EventView::Release(reply) && fetched(reply) == Ok::<
        ReleaseView,
        Seq<char>,
    >(release)
}

/// What is known of a run from the step that it led to.
spec fn history(run: Seq<Told>, step: ReleaseCheckView, work: WorkView) -> bool {
    match step {
        ReleaseCheckView::AwaitRelease => run.len() == 0 && work is FetchRelease,
        ReleaseCheckView::AwaitTags { tag_name } => {
            &&& run.len() == 1
            &&& work is FetchTags
            &&& exists|release: ReleaseView|
                #[trigger] brought_release(run, release) && release.tag_name == tag_name
        },
        ReleaseCheckView::Finished => 1 <= run.len() <= 2 && work is Nothing,
    }
}

proof fn lemma_history(s: AppStateView, run: Seq<Told>)
    requires
        check_told(s, run),
    ensures
        history(run, check_run(s, run).1, check_run(s, run).2),
    decreases run.len(),
{
    if run.len() > 0 {
        lemma_history(s, run.drop_last());
        if run.len() == 1 {
            if let EventView::Release(reply) = run[0].event {
                if let Ok(release) = fetched(reply) {
                    assert(brought_release(run, release));
                }
            }
        }
    }
}

/// The first tag of a name has that name, and no earlier one has it.
pub proof fn law_first_tag_has_the_name(tags: Seq<TagView>, name: Seq<char>)
    ensures
        match first_tag(tags, name) {
            Some(tag) => tags.contains(tag) && tag.name == name && exists|i: int|
                {
                    &&& 0 <= i < tags.len()
                    &&& #[trigger] tags[i] == tag
                    &&& tag.name == name
                    &&& forall|j: int| 0 <= j < i ==> (#[trigger] tags[j]).name != name
                },
            None => forall|i: int| 0 <= i < tags.len() ==> (#[trigger] tags[i]).name != name,
        },
    decreases tags.len(),
{
    if tags.len() > 0 {
        let rest = tags.drop_first();
        law_first_tag_has_the_name(rest, name);
        assert(forall|i: int| 0 <= i < rest.len() ==> rest[i] == tags[i + 1]);
        if tags[0].name == name {
            assert(tags[0] == first_tag(tags, name)->0);
        } else {
            match first_tag(rest, name) {
                Some(tag) => {
                    let i = choose|i: int|
                        {
                            &&& 0 <= i < rest.len()
                            &&& #[trigger] rest[i] == tag
                            &&& tag.name == name
                            &&& forall|j: int| 0 <= j < i ==> (#[trigger] rest[j]).name != name
                        };
                    assert(tags[i + 1] == tag);
                    assert forall|j: int| 0 <= j < i + 1 implies (#[trigger] tags[j]).name
                        != name by {
                        if j > 0 {
                            assert(rest[j - 1] == tags[j]);
                        }
                    }
                },
                None => {
                    assert forall|i: int| 0 <= i < tags.len() implies (#[trigger] tags[i]).name
                        != name by {
                        if i > 0 {
                            assert(rest[i - 1] == tags[i]);
                        }
                    }
                },
            }
        }
    }
}

/// A check that is over leaves no operation on the screen, and was told at most
/// two events.
pub proof fn law_ends_idle(s: AppStateView, run: Seq<Told>)
    requires
        check_told(s, run),
    ensures
        ({
            let (t, step, work) = check_run(s, run);
            &&& run.len() <= 2
            &&& work is Nothing <==> step is Finished
            &&& step is Finished ==> t.idle()
        }),
{
    lemma_history(s, run);
    if run.len() > 0 {
        lemma_history(s, run.drop_last());
    }
}

/// A check that was brought both a release and its tag has noted both: the tag is
/// that of the release, and the last error stays. The release is noted at once, and
/// is still there at the end where nobody else has touched it.
pub proof fn law_notes_release_and_tag(
    s: AppStateView,
    run: Seq<Told>,
    release: ReleaseView,
    tag: TagView,
)
    requires
        check_told(s, run),
        run.len() == 2,
        brought_release(run, release),
        run[1].event matches EventView::Tags(reply) && fetched_tag(reply, release.tag_name)
            == Ok::<TagView, Seq<char>>(tag),
    ensures
        check_run(s, run.drop_last()).0.nextui_release == Some(release),
        check_run(s, run).0.nextui_tag == Some(tag),
        check_run(s, run).0.nextui_release == last_found(s, run).nextui_release,
        last_found(s, run) == check_run(s, run.drop_last()).0 ==> check_run(
            s,
            run,
        ).0.nextui_release == Some(release),
        tag.name == release.tag_name,
        check_run(s, run).0.error == last_found(s, run).error,
        check_run(s, run).1 is Finished,
{
    lemma_history(s, run);
    lemma_history(s, run.drop_last());
    assert(run.drop_last()[0] == run[0]);
    reveal_with_fuel(check_run, 3);
    if let EventView::Tags(reply) = run[1].event {
        if let Ok(tags) = fetched(reply) {
            law_first_tag_has_the_name(tags, release.tag_name);
        }
    }
}

/// A check that could not be brought the release, or could not find its tag, shows
/// why, and notes nothing of what it could not be brought.
pub proof fn law_failure_is_shown(s: AppStateView, run: Seq<Told>, text: Seq<char>)
    requires
        check_told(s, run),
        run.len() > 0,
        ({
            ||| run.len() == 1 && (run[0].event matches EventView::Release(reply) && fetched(reply)
                == Err::<ReleaseView, Seq<char>>(text))
            ||| run.len() == 2 && exists|release: ReleaseView| #[trigger]
                brought_release(run, release) && (run[1].event matches EventView::Tags(reply)
                    && fetched_tag(reply, release.tag_name) == Err::<TagView, Seq<char>>(text))
        }),
    ensures
        ({
            let found = last_found(s, run);
            check_run(s, run).0 == found.failed(
                if run.len() == 1 {
                    release_failure(found.reporting, text)
                } else {
                    tag_failure(found.reporting, text)
                },
            )
        }),
{
    lemma_history(s, run);
    lemma_history(s, run.drop_last());
    assert(run.len() == 2 ==> run.drop_last()[0] == run[0]);
    reveal_with_fuel(check_run, 3);
}

/// A check begins with the request for the latest release of NextUI, and says so.
pub proof fn law_begins_with_the_release(s: AppStateView)
    ensures
        asks_for_nextui(s, check_begun(s).0, check_begun(s).2),
        check_begun(s).1 is AwaitRelease,
{
}

/// A check that is told the release notes it, and asks for the tags of NextUI; one
/// that is told why there is none shows that and is over. All else stays.
pub proof fn law_told_the_release(
    s: AppStateView,
    reply: ReplyView<ReleaseView>,
    release: ReleaseView,
    text: Seq<char>,
)
    ensures
        ({
            let (t, step, work) = check_resumed(
                s,
                ReleaseCheckView::AwaitRelease,
                EventView::Release(reply),
            );
            &&& answered(reply, release) ==> {
                &&& t == showing(
                    AppStateView { nextui_release: Some(release), ..s },
                    "Fetching latest NextUI tag..."@,
                )
                &&& step == (ReleaseCheckView::AwaitTags { tag_name: release.tag_name })
                &&& work == (WorkView::FetchTags {
                    url: "https://api.github.com/repos/"@ + "LoveRetro/NextUI"@ + "/tags"@,
                })
            }
            &&& unanswered(reply, text) ==> {
                &&& t == match s.reporting {
                    Reporting::Terse => blamed(s, "Fetch failed: "@ + text),
                    Reporting::Staged => blamed(s, "Release fetch failed: "@ + text),
                }
                &&& step is Finished
                &&& work is Nothing
            }
        }),
{
    law_only_success_brings(reply, release, text);
}

/// A check that is told the tags is over. It notes the first of them that has the
/// name of the release's tag; without one, or told why there are no tags, it shows
/// that. All else stays, the noted release as well.
pub proof fn law_told_the_tags(
    s: AppStateView,
    tag_name: Seq<char>,
    reply: ReplyView<Seq<TagView>>,
    tags: Seq<TagView>,
    at: int,
    text: Seq<char>,
)
    ensures
        ({
            let (t, step, work) = check_resumed(
                s,
                ReleaseCheckView::AwaitTags { tag_name },
                EventView::Tags(reply),
            );
            let prefix = match s.reporting {
                Reporting::Terse => "Fetch failed: "@,
                Reporting::Staged => "Tag fetch failed: "@,
            };
            &&& step is Finished
            &&& work is Nothing
            &&& t.nextui_release == s.nextui_release
            &&& answered(reply, tags) && 0 <= at < tags.len() && tags[at].name == tag_name && (
            forall|j: int| 0 <= j < at ==> (#[trigger] tags[j]).name != tag_name) ==> t == cleared(
                AppStateView { nextui_tag: Some(tags[at]), ..s },
            )
            &&& answered(reply, tags) && (forall|j: int|
                0 <= j < tags.len() ==> (#[trigger] tags[j]).name != tag_name) ==> t == blamed(
                s,
                prefix + "Tag not found"@,
            )
            &&& unanswered(reply, text) ==> t == blamed(s, prefix + text)
        }),
{
    law_tag_is_the_first_of_its_name(reply, tags, tag_name, at, text);
}

/// A check waits for just the end of the work that it asked for.
pub proof fn law_waits_for_its_work(s: AppStateView, run: Seq<Told>, next: EventView)
    requires
        check_told(s, run),
    ensures
        check_run(s, run).1.awaits(next) <==> check_run(s, run).2.ends_in(next),
{
    lemma_history(s, run);
}

/// A check leaves the screen, and what is known of Pakman, as it found them, and
/// keeps what is shown a share of something.
pub proof fn law_leaves_the_rest(s: AppStateView, run: Seq<Told>)
    requires
        check_told(s, run),
    ensures
        ({
            let t = check_run(s, run).0;
            &&& t.same_screen(last_found(s, run))
            &&& t.pakman_release == last_found(s, run).pakman_release
            &&& last_found(s, run).well_formed() ==> t.well_formed()
        }),
{
}

} // verus!
