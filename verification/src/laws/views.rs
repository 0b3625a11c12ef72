//! What the views of the library's values keep of them: all there is.

use crate::app_state::AppState;
use crate::archive::{archive_bytes, archive_members, content_result, ArchiveView};
use crate::github::{
    asset_option, release_result, tag_result, Asset, AssetView, CommitView, Release, Reply,
    ReplyView, Tag, TagView,
};
use crate::text::{str_option, text_option};
use crate::version::offer_result;
use crate::work::{work_result, Event, EventView, Work, WorkView};
use vstd::prelude::*;

verus! {

/// A release is seen by its tag's name and by the names and addresses of all its
/// assets, in their order.
pub proof fn law_release_is_seen_whole(release: Release)
    ensures
        release@.tag_name == release.tag_name@,
        release@.assets.len() == release.assets@.len(),
        forall|i: int|
            0 <= i < release.assets@.len() ==> #[trigger] release@.assets[i] == (AssetView {
                name: release.assets@[i].name@,
                url: release.assets@[i].url@,
            }),
{
}

/// A tag is seen by its name and its commit's hash.
pub proof fn law_tag_is_seen_whole(tag: Tag)
    ensures
        tag@ == (TagView { name: tag.name@, commit: CommitView { sha: tag.commit.sha@ } }),
{
}

/// A state is seen field by field.
pub proof fn law_state_is_seen_whole(state: AppState)
    ensures
        state@.reporting == state.reporting,
        state@.submenu == state.submenu,
        state@.progress == state.progress,
        state@.should_quit == state.should_quit,
        state@.nextui_release is Some <==> state.nextui_release is Some,
        state.nextui_release matches Some(release) ==> state@.nextui_release == Some(release@),
        state@.nextui_tag is Some <==> state.nextui_tag is Some,
        state.nextui_tag matches Some(tag) ==> state@.nextui_tag == Some(tag@),
        state@.pakman_release is Some <==> state.pakman_release is Some,
        state.pakman_release matches Some(release) ==> state@.pakman_release == Some(release@),
        state@.current_operation is Some <==> state.current_operation is Some,
        state.current_operation matches Some(text) ==> state@.current_operation == Some(text@),
        state@.error is Some <==> state.error is Some,
        state.error matches Some(text) ==> state@.error == Some(text@),
        state@.hint is Some <==> state.hint is Some,
        state.hint matches Some(text) ==> state@.hint == Some(text@),
{
}

/// A piece of work is seen with all that it is to be done with.
pub proof fn law_work_is_seen_whole(work: Work)
    ensures
        match work {
            Work::FetchRelease { url } => work@ == (WorkView::FetchRelease { url: url@ }),
            Work::FetchTags { url } => work@ == (WorkView::FetchTags { url: url@ }),
            Work::BuildClient => work@ is BuildClient,
            Work::Download { url, lenient } => work@ == (WorkView::Download { url: url@, lenient }),
            Work::BackUpBinary { extension } => work@ == (WorkView::BackUpBinary {
                extension: extension@,
            }),
            Work::RestoreBinary { extension } => work@ == (WorkView::RestoreBinary {
                extension: extension@,
            }),
            Work::OpenPackage => work@ is OpenPackage,
            Work::Extract { archive, root, unwrap_root } => work@ == (WorkView::Extract {
                archive: ArchiveView {
                    package: archive_bytes(archive),
                    members: archive_members(archive),
                },
                root: root@,
                unwrap_root,
            }),
            Work::WriteFile { path, content } => work@ == (WorkView::WriteFile {
                path: path@,
                content: content@,
            }),
            Work::Pause { seconds } => work@ == (WorkView::Pause { seconds }),
            Work::Exit { code } => work@ == (WorkView::Exit { code }),
            Work::Reboot { command } => work@ == (WorkView::Reboot { command: command@ }),
            Work::Nothing => work@ is Nothing,
        },
{
}

/// A result is seen as it is: what went well by its view, an error by its text.
pub proof fn law_results_are_seen_whole(
    release: Result<Release, String>,
    tag: Result<Tag, String>,
    asset: Option<Asset>,
    content: Result<Vec<u8>, String>,
    newer: Result<bool, String>,
    work: Result<Work, String>,
    text: Option<String>,
    borrowed: Option<&str>,
)
    ensures
        match release {
            Ok(r) => release_result(release) matches Ok(v) && v == r@,
            Err(e) => release_result(release) matches Err(v) && v == e@,
        },
        match tag {
            Ok(t) => tag_result(tag) matches Ok(v) && v == t@,
            Err(e) => tag_result(tag) matches Err(v) && v == e@,
        },
        match asset {
            Some(a) => asset_option(asset) matches Some(v) && v == (AssetView {
                name: a.name@,
                url: a.url@,
            }),
            None => asset_option(asset) is None,
        },
        match content {
            Ok(c) => content_result(content) matches Ok(v) && v == c@,
            Err(e) => content_result(content) matches Err(v) && v == e@,
        },
        match newer {
            Ok(n) => offer_result(newer) matches Ok(v) && v == n,
            Err(e) => offer_result(newer) matches Err(v) && v == e@,
        },
        match work {
            Ok(w) => work_result(work) matches Ok(v) && v == w@,
            Err(e) => work_result(work) matches Err(v) && v == e@,
        },
        match text {
            Some(t) => text_option(text) matches Some(v) && v == t@,
            None => text_option(text) is None,
        },
        match borrowed {
            Some(t) => str_option(borrowed) matches Some(v) && v == t@,
            None => str_option(borrowed) is None,
        },
{
}

/// An event is seen with all that it tells: an error by its text, a package by its
/// bytes, an answer by its status and its body.
pub proof fn law_event_is_seen_whole(event: Event)
    ensures
        match event {
            Event::Release(Reply::Unsent(text)) => event@ == EventView::Release(
                ReplyView::Unsent(text@),
            ),
            Event::Release(Reply::Answered { status, body }) => event@
                matches EventView::Release(ReplyView::Answered { status: seen, body: b }) && seen
                == status && match body {
                Ok(release) => b matches Ok(r) && r == release@,
                Err(text) => b matches Err(t) && t == text@,
            },
            Event::Tags(Reply::Unsent(text)) => event@ == EventView::Tags(ReplyView::Unsent(text@)),
            Event::Tags(Reply::Answered { status, body }) => event@ matches EventView::Tags(
                ReplyView::Answered { status: seen, body: b },
            ) && seen == status && match body {
                Ok(tags) => b matches Ok(views) && views.len() == tags@.len() && forall|i: int|
                    0 <= i < tags@.len() ==> #[trigger] views[i] == tags@[i]@,
                Err(text) => b matches Err(t) && t == text@,
            },
            Event::Client(Ok(_)) => event@ matches EventView::Client(Ok(_)),
            Event::Client(Err(text)) => event@ matches EventView::Client(Err(t)) && t == text@,
            Event::Package(Ok(bytes)) => event@ matches EventView::Package(Ok(b)) && b == bytes@,
            Event::Package(Err(text)) => event@ matches EventView::Package(Err(t)) && t == text@,
            Event::BackedUp(Ok(_)) => event@ matches EventView::BackedUp(Ok(_)),
            Event::BackedUp(Err(text)) => event@ matches EventView::BackedUp(Err(t)) && t == text@,
            Event::Restored(Ok(_)) => event@ matches EventView::Restored(Ok(_)),
            Event::Restored(Err(text)) => event@ matches EventView::Restored(Err(t)) && t == text@,
            Event::Opened => event@ is Opened,
            Event::Extracted(Ok(_)) => event@ matches EventView::Extracted(Ok(_)),
            Event::Extracted(Err(text)) => event@ matches EventView::Extracted(Err(t)) && t
                == text@,
            Event::Written(Ok(_)) => event@ matches EventView::Written(Ok(_)),
            Event::Written(Err(text)) => event@ matches EventView::Written(Err(t)) && t == text@,
            Event::Paused => event@ is Paused,
            Event::Rebooted(Ok(_)) => event@ matches EventView::Rebooted(Ok(_)),
            Event::Rebooted(Err(text)) => event@ matches EventView::Rebooted(Err(t)) && t == text@,
        },
{
}

} // verus!
