//! Update packages: zip archives, opened in memory.

use std::io::{Cursor, Read};
use vstd::prelude::*;
use zip::ZipArchive;

verus! {

/// `std::io::Cursor`, in which a package is read.
#[verifier::external_type_specification]
#[verifier::external_body]
#[verifier::reject_recursive_types(T)]
pub struct ExCursor<T>(std::io::Cursor<T>);

/// `zip::ZipArchive`, an archive whose directory has been read.
#[verifier::external_type_specification]
#[verifier::external_body]
#[verifier::reject_recursive_types(R)]
pub struct ExZipArchive<R>(zip::ZipArchive<R>);

/// An archive that lies in memory.
pub type Archive = ZipArchive<Cursor<Vec<u8>>>;

/// The members of an archive that can be looked up, by their names, each with
/// its content or with the text of the error that reading it gives.
pub type Members = Map<Seq<char>, Result<Seq<u8>, Seq<char>>>;

/// The members that an opened archive holds.
pub uninterp spec fn archive_members(archive: ZipArchive<Cursor<Vec<u8>>>) -> Map<
    Seq<char>,
    Result<Seq<u8>, Seq<char>>,
>;

/// The bytes in memory that an opened archive reads from.
pub uninterp spec fn archive_bytes(archive: ZipArchive<Cursor<Vec<u8>>>) -> Seq<u8>;

/// The members of the archive that a package is, or the text of the error that
/// opening it gives.
pub uninterp spec fn package_members(package: Seq<u8>) -> Result<
    Map<Seq<char>, Result<Seq<u8>, Seq<char>>>,
    Seq<char>,
>;

/// An opened archive: the package that it is, with all that unpacking it goes by,
/// and the members that can be looked up in it.
#[verifier::ext_equal]
pub struct ArchiveView {
    pub package: Seq<u8>,
    pub members: Members,
}

/// An opened archive by its view.
pub open spec fn archive_view(archive: Archive) -> ArchiveView {
    ArchiveView { package: archive_bytes(archive), members: archive_members(archive) }
}

pub open spec fn opened(r: Result<Archive, String>) -> Result<ArchiveView, Seq<char>> {
    match r {
        Ok(archive) => Ok(archive_view(archive)),
        Err(text) => Err(text@),
    }
}

/// The archive that a package is, or the text of the error that opening it gives.
pub open spec fn package_archive(package: Seq<u8>) -> Result<ArchiveView, Seq<char>> {
    match package_members(package) {
        Ok(members) => Ok(ArchiveView { package, members }),
        Err(text) => Err(text),
    }
}

pub open spec fn members_opened(r: Result<Archive, String>) -> Result<Members, Seq<char>> {
    match r {
        Ok(archive) => Ok(archive_members(archive)),
        Err(text) => Err(text@),
    }
}

/// What looking a member up gives: nothing, its content, or the text of the
/// error that reading it gives.
pub open spec fn member(members: Members, name: Seq<char>) -> Option<Result<Seq<u8>, Seq<char>>> {
    if members.contains_key(name) {
        Some(members[name])
    } else {
        None
    }
}

pub open spec fn content_result(r: Result<Vec<u8>, String>) -> Result<Seq<u8>, Seq<char>> {
    match r {
        Ok(content) => Ok(content@),
        Err(text) => Err(text@),
    }
}

pub open spec fn found(r: Option<Result<Vec<u8>, String>>) -> Option<Result<Seq<u8>, Seq<char>>> {
    match r {
        Some(content) => Some(content_result(content)),
        None => None,
    }
}

/// Calls `zip::ZipArchive::new` on the package in memory. The archive reads from
/// the package's bytes. The members that it holds, or the text of the error, are a
/// function of them.
#[verifier::external_body]
pub(crate) fn open_archive(package: Vec<u8>) -> (r: Result<Archive, String>)
    ensures
        members_opened(r) == package_members(package@),
        r matches Ok(archive) ==> archive_bytes(archive) == package@,
{
    ZipArchive::new(Cursor::new(package)).map_err(|e| e.to_string())
}

/// Calls `zip::ZipArchive::by_name`, and `read_to_end` on the file that it gives.
/// A name that `by_name` refuses, for whatever reason, is no member; a member's
/// content, or the text of the error that reading it gives, is what the archive
/// holds under that name. The archive reads from the same bytes and holds the same
/// members afterwards.
#[verifier::external_body]
fn read_member(archive: &mut Archive, name: &str) -> (r: Option<Result<Vec<u8>, String>>)
    ensures
        archive_bytes(*final(archive)) == archive_bytes(*old(archive)),
        archive_members(*final(archive)) == archive_members(*old(archive)),
        found(r) == member(archive_members(*old(archive)), name@),
{
    match archive.by_name(name) {
        Ok(mut file) => {
            let mut content = Vec::new();
            let read = file.read_to_end(&mut content);
            Some(read.map(|_| content).map_err(|e| e.to_string()))
        },
        Err(_) => None,
    }
}

/// What a quick update makes of looking `MinUI.zip` up.
pub open spec fn payload(looked_up: Option<Result<Seq<u8>, Seq<char>>>) -> Result<
    Seq<u8>,
    Seq<char>,
> {
    match looked_up {
        Some(content) => content,
        None => Err("File MinUI.zip not found in archive"@),
    }
}

/// What a quick update makes of looking `MinUI.zip` up: its content, or an error
/// where it is missing or cannot be read.
pub fn quick_payload(looked_up: Option<Result<Vec<u8>, String>>) -> (r: Result<Vec<u8>, String>)
    ensures
        content_result(r) == payload(found(looked_up)),
{
    match looked_up {
        Some(content) => content,
        None => Err("File MinUI.zip not found in archive".to_owned()),
    }
}

/// What a quick update installs: the `MinUI.zip` that the package holds.
pub open spec fn minui_content(archive: Result<ArchiveView, Seq<char>>) -> Result<
    Seq<u8>,
    Seq<char>,
> {
    match archive {
        Ok(archive) => payload(member(archive.members, "MinUI.zip"@)),
        Err(text) => Err(text),
    }
}

/// Takes what a quick update installs, `MinUI.zip`, out of a package.
pub fn extract_minui(package: Vec<u8>) -> (r: Result<Vec<u8>, String>)
    ensures
        content_result(r) == minui_content(package_archive(package@)),
{
    match open_archive(package) {
        Ok(archive) => {
            let mut archive = archive;
            quick_payload(read_member(&mut archive, "MinUI.zip"))
        },
        Err(text) => Err(text),
    }
}

} // verus!
