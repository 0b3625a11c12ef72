//! What an operation asks of its surroundings, and what it is told in return.
//!
//! An operation never touches the network, the disk or the machine. It hands out
//! one piece of work at a time, and goes on when it is told how the work ended.

use crate::archive::{
    archive_view, content_result, open_archive, opened, package_archive, Archive, ArchiveView,
};
use crate::github::{
    release_reply, tags_reply, Release, ReleaseView, Reply, ReplyView, Tag, TagView,
};
use vstd::prelude::*;

verus! {

/// Where everything that is updated lies.
pub const SDCARD_ROOT: &'static str = "/mnt/SDCARD/";

/// A piece of work for the surroundings.
#[derive(Debug)]
pub enum Work {
    /// Ask for a release.
    FetchRelease { url: String },
    /// Ask for the tags of a repository.
    FetchTags { url: String },
    /// Make a client for downloads that accepts any certificate and any host
    /// name, and waits without end.
    BuildClient,
    /// Download a file, with a client that accepts anything where `lenient`
    /// says so, else with an ordinary one.
    Download { url: String, lenient: bool },
    /// Move the running program's file aside, to the same name with this
    /// extension in place of its own.
    BackUpBinary { extension: String },
    /// Move the running program's file back from the same name with this
    /// extension in place of its own.
    RestoreBinary { extension: String },
    /// Look into the package that was brought, which `prepare` of the operation
    /// does without the shared state.
    OpenPackage,
    /// Unpack an archive below a directory, without the one directory that
    /// holds all the rest where `unwrap_root` says so.
    Extract { archive: Archive, root: String, unwrap_root: bool },
    /// Write a file anew.
    WriteFile { path: String, content: Vec<u8> },
    /// Let some time pass.
    Pause { seconds: u64 },
    /// End the program.
    Exit { code: i32 },
    /// Restart the machine, with this command.
    Reboot { command: String },
    /// Nothing: the operation is over.
    Nothing,
}

#[verifier::ext_equal]
pub enum WorkView {
    FetchRelease { url: Seq<char> },
    FetchTags { url: Seq<char> },
    BuildClient,
    Download { url: Seq<char>, lenient: bool },
    BackUpBinary { extension: Seq<char> },
    RestoreBinary { extension: Seq<char> },
    OpenPackage,
    Extract { archive: ArchiveView, root: Seq<char>, unwrap_root: bool },
    WriteFile { path: Seq<char>, content: Seq<u8> },
    Pause { seconds: u64 },
    Exit { code: i32 },
    Reboot { command: Seq<char> },
    Nothing,
}

impl View for Work {
    type V = WorkView;

    open spec fn view(&self) -> WorkView {
        match *self {
            Work::FetchRelease { url } => WorkView::FetchRelease { url: url@ },
            Work::FetchTags { url } => WorkView::FetchTags { url: url@ },
            Work::BuildClient => WorkView::BuildClient,
            Work::Download { url, lenient } => WorkView::Download { url: url@, lenient },
            Work::BackUpBinary { extension } => WorkView::BackUpBinary { extension: extension@ },
            Work::RestoreBinary { extension } => WorkView::RestoreBinary { extension: extension@ },
            Work::OpenPackage => WorkView::OpenPackage,
            Work::Extract { archive, root, unwrap_root } => WorkView::Extract {
                archive: archive_view(archive),
                root: root@,
                unwrap_root,
            },
            Work::WriteFile { path, content } => WorkView::WriteFile {
                path: path@,
                content: content@,
            },
            Work::Pause { seconds } => WorkView::Pause { seconds },
            Work::Exit { code } => WorkView::Exit { code },
            Work::Reboot { command } => WorkView::Reboot { command: command@ },
            Work::Nothing => WorkView::Nothing,
        }
    }
}

pub open spec fn work_result(r: Result<Work, String>) -> Result<WorkView, Seq<char>> {
    match r {
        Ok(work) => Ok(work@),
        Err(text) => Err(text@),
    }
}

/// The work that unpacks a package below the card's root, or the text of the
/// error that opening the package gives.
pub open spec fn extraction(archive: Result<ArchiveView, Seq<char>>, do_root_dir: bool) -> Result<
    WorkView,
    Seq<char>,
> {
    match archive {
        Ok(archive) => Ok(
            WorkView::Extract { archive, root: SDCARD_ROOT@, unwrap_root: do_root_dir },
        ),
        Err(text) => Err(text),
    }
}

/// Makes an opened package into the work that unpacks it.
pub fn extract_archive(archive: Result<Archive, String>, do_root_dir: bool) -> (r: Result<
    Work,
    String,
>)
    ensures
        work_result(r) == extraction(opened(archive), do_root_dir),
{
    match archive {
        Ok(archive) => Ok(
            Work::Extract { archive, root: SDCARD_ROOT.to_owned(), unwrap_root: do_root_dir },
        ),
        Err(text) => Err(text),
    }
}

/// Opens a package, and makes it into the work that unpacks it.
pub fn extract_zip(package: Vec<u8>, do_root_dir: bool) -> (r: Result<Work, String>)
    ensures
        work_result(r) == extraction(package_archive(package@), do_root_dir),
{
    extract_archive(open_archive(package), do_root_dir)
}

/// How a piece of work ended. Errors are told by their text.
pub enum Event {
    Release(Reply<Release>),
    Tags(Reply<Vec<Tag>>),
    Client(Result<(), String>),
    Package(Result<Vec<u8>, String>),
    BackedUp(Result<(), String>),
    Restored(Result<(), String>),
    Opened,
    Extracted(Result<(), String>),
    Written(Result<(), String>),
    Paused,
    Rebooted(Result<(), String>),
}

pub enum EventView {
    Release(ReplyView<ReleaseView>),
    Tags(ReplyView<Seq<TagView>>),
    Client(Result<(), Seq<char>>),
    Package(Result<Seq<u8>, Seq<char>>),
    BackedUp(Result<(), Seq<char>>),
    Restored(Result<(), Seq<char>>),
    Opened,
    Extracted(Result<(), Seq<char>>),
    Written(Result<(), Seq<char>>),
    Paused,
    Rebooted(Result<(), Seq<char>>),
}

/// The end of an attempt, by its view.
pub open spec fn outcome(r: Result<(), String>) -> Result<(), Seq<char>> {
    match r {
        Ok(_) => Ok(()),
        Err(text) => Err(text@),
    }
}

impl View for Event {
    type V = EventView;

    open spec fn view(&self) -> EventView {
        match *self {
            Event::Release(reply) => EventView::Release(release_reply(reply)),
            Event::Tags(reply) => EventView::Tags(tags_reply(reply)),
            Event::Client(r) => EventView::Client(outcome(r)),
            Event::Package(r) => EventView::Package(content_result(r)),
            Event::BackedUp(r) => EventView::BackedUp(outcome(r)),
            Event::Restored(r) => EventView::Restored(outcome(r)),
            Event::Opened => EventView::Opened,
            Event::Extracted(r) => EventView::Extracted(outcome(r)),
            Event::Written(r) => EventView::Written(outcome(r)),
            Event::Paused => EventView::Paused,
            Event::Rebooted(r) => EventView::Rebooted(outcome(r)),
        }
    }
}

impl EventView {
    /// The status of an answer has three digits.
    pub open spec fn well_formed(self) -> bool {
        match self {
            EventView::Release(ReplyView::Answered { status, .. }) => 100 <= status <= 999,
            EventView::Tags(ReplyView::Answered { status, .. }) => 100 <= status <= 999,
            _ => true,
        }
    }
}

impl WorkView {
    /// This event tells how this piece of work ended. Nothing follows the end of
    /// the program or of the operation.
    pub open spec fn ends_in(self, event: EventView) -> bool {
        &&& event.well_formed()
        &&& match self {
            WorkView::FetchRelease { .. } => event is Release,
            WorkView::FetchTags { .. } => event is Tags,
            WorkView::BuildClient => event is Client,
            WorkView::Download { .. } => event is Package,
            WorkView::BackUpBinary { .. } => event is BackedUp,
            WorkView::RestoreBinary { .. } => event is Restored,
            WorkView::OpenPackage => event is Opened,
            WorkView::Extract { .. } => event is Extracted,
            WorkView::WriteFile { .. } => event is Written,
            WorkView::Pause { .. } => event is Paused,
            WorkView::Reboot { .. } => event is Rebooted,
            WorkView::Exit { .. } => false,
            WorkView::Nothing => false,
        }
    }
}

} // verus!
