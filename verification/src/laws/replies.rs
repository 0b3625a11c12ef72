//! What holds of GitHub's replies, and of the work that asks for them.

use super::release_check::law_first_tag_has_the_name;
use super::{answered, unanswered};
use crate::github::{
    fetched, fetched_tag, refusal, release_address, tags_address, Reply, ReplyView,
    TagView, ASSET_MEDIA_TYPE, USER_AGENT,
};
use crate::work::{EventView, WorkView};
use vstd::prelude::*;

verus! {

/// A reply brings the body of an answer of success and nothing else; whatever
/// brings nothing says why.
pub proof fn law_only_success_brings<V>(reply: ReplyView<V>, body: V, text: Seq<char>)
    ensures
        fetched(reply) == Ok::<V, Seq<char>>(body) <==> answered(reply, body),
        fetched(reply) == Err::<V, Seq<char>>(text) <==> unanswered(reply, text),
{
}

/// Every request names the updater, and a download asks for bytes, whatever they are.
pub proof fn law_requests_name_the_updater()
    ensures
        USER_AGENT@ == "NextUI Updater"@,
        ASSET_MEDIA_TYPE@ == "application/octet-stream"@,
{
}

/// A refusal says what was refused, and the status at its end.
pub proof fn law_refusal_names_the_status(status: Seq<char>)
    ensures
        refusal(status) == "GitHub API request failed: "@ + status,
{
}

/// Just an answer whose status has not three digits is no reply.
pub proof fn law_replies_have_three_digits<T>(reply: Reply<T>)
    ensures
        !reply.well_formed() <==> (reply matches Reply::Answered { status, .. } && !(100 <= status
            <= 999)),
{
}

/// What a reply brings for one tag is the first of the tags that has just that
/// name; where none has it, or the reply brought no tags, it says so.
pub proof fn law_tag_is_the_first_of_its_name(
    reply: ReplyView<Seq<TagView>>,
    tags: Seq<TagView>,
    name: Seq<char>,
    at: int,
    text: Seq<char>,
)
    ensures
        answered(reply, tags) && 0 <= at < tags.len() && tags[at].name == name && (forall|j: int|
            0 <= j < at ==> (#[trigger] tags[j]).name != name) ==> fetched_tag(reply, name)
            == Ok::<TagView, Seq<char>>(tags[at]),
        answered(reply, tags) && (forall|j: int|
            0 <= j < tags.len() ==> (#[trigger] tags[j]).name != name) ==> fetched_tag(reply, name)
            == Err::<TagView, Seq<char>>("Tag not found"@),
        unanswered(reply, text) ==> fetched_tag(reply, name) == Err::<TagView, Seq<char>>(text),
{
    law_only_success_brings(reply, tags, text);
    law_first_tag_has_the_name(tags, name);
}

/// The latest release and the tags of a repository are asked for below the
/// repository's name on GitHub's API.
pub proof fn law_addresses(repo: Seq<char>)
    ensures
        release_address(repo) == "https://api.github.com/repos/"@ + repo + "/releases/latest"@,
        tags_address(repo) == "https://api.github.com/repos/"@ + repo + "/tags"@,
{
}

/// Each piece of work ends in its own kind of event, whatever that tells; of an
/// answer the status has three digits. Nothing follows the end of the program, or
/// of the operation.
pub proof fn law_work_ends_in_its_own_event(work: WorkView, event: EventView)
    ensures
        work.ends_in(event) <==> match event {
            EventView::Release(reply) => {
                &&& work is FetchRelease
                &&& reply matches ReplyView::Answered { status, .. } ==> 100 <= status <= 999
            },
            EventView::Tags(reply) => {
                &&& work is FetchTags
                &&& reply matches ReplyView::Answered { status, .. } ==> 100 <= status <= 999
            },
            EventView::Client(_) => work is BuildClient,
            EventView::Package(_) => work is Download,
            EventView::BackedUp(_) => work is BackUpBinary,
            EventView::Restored(_) => work is RestoreBinary,
            EventView::Opened => work is OpenPackage,
            EventView::Extracted(_) => work is Extract,
            EventView::Written(_) => work is WriteFile,
            EventView::Paused => work is Pause,
            EventView::Rebooted(_) => work is Reboot,
        },
{
}

} // verus!
