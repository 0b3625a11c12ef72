//! What the GitHub API answers: releases with their assets, and tags.

use crate::text::{concat2, concat3, contains, has_substring, same_text};
use vstd::prelude::*;

verus! {

/// The client's name, sent with every request.
pub const USER_AGENT: &'static str = "NextUI Updater";

/// The media type that is asked for when an asset is downloaded.
pub const ASSET_MEDIA_TYPE: &'static str = "application/octet-stream";

/// A file that belongs to a release.
#[derive(Debug)]
pub struct Asset {
    pub name: String,
    pub url: String,
}

/// A published release.
#[derive(Debug)]
pub struct Release {
    pub tag_name: String,
    pub assets: Vec<Asset>,
}

/// The commit that a tag stands for.
#[derive(Debug)]
pub struct Commit {
    pub sha: String,
}

/// A tag of a repository.
#[derive(Debug)]
pub struct Tag {
    pub name: String,
    pub commit: Commit,
}

#[verifier::ext_equal]
pub struct AssetView {
    pub name: Seq<char>,
    pub url: Seq<char>,
}

#[verifier::ext_equal]
pub struct ReleaseView {
    pub tag_name: Seq<char>,
    pub assets: Seq<AssetView>,
}

#[verifier::ext_equal]
pub struct CommitView {
    pub sha: Seq<char>,
}

#[verifier::ext_equal]
pub struct TagView {
    pub name: Seq<char>,
    pub commit: CommitView,
}

impl View for Asset {
    type V = AssetView;

    open spec fn view(&self) -> AssetView {
        AssetView { name: self.name@, url: self.url@ }
    }
}

/// The assets of a list, each by its view.
pub open spec fn asset_views(assets: Seq<Asset>) -> Seq<AssetView> {
    assets.map_values(|a: Asset| a@)
}

impl View for Release {
    type V = ReleaseView;

    open spec fn view(&self) -> ReleaseView {
        ReleaseView { tag_name: self.tag_name@, assets: asset_views(self.assets@) }
    }
}

impl View for Commit {
    type V = CommitView;

    open spec fn view(&self) -> CommitView {
        CommitView { sha: self.sha@ }
    }
}

impl View for Tag {
    type V = TagView;

    open spec fn view(&self) -> TagView {
        TagView { name: self.name@, commit: self.commit@ }
    }
}

/// The tags of a list, each by its view.
pub open spec fn tag_views(tags: Seq<Tag>) -> Seq<TagView> {
    tags.map_values(|t: Tag| t@)
}

impl Clone for Asset {
    fn clone(&self) -> (r: Self)
        ensures
            r@ == self@,
    {
        Asset { name: self.name.clone(), url: self.url.clone() }
    }
}

impl Clone for Release {
    fn clone(&self) -> (r: Self)
        ensures
            r@ == self@,
    {
        let mut assets: Vec<Asset> = Vec::new();
        let mut i: usize = 0;
        while i < self.assets.len()
            invariant
                i <= self.assets@.len(),
                asset_views(assets@) =~= asset_views(self.assets@).take(i as int),
            decreases self.assets@.len() - i,
        {
            let asset = self.assets[i].clone();
            assert(asset_views(assets@.push(asset)) =~= asset_views(assets@).push(asset@));
            assert(asset_views(self.assets@).take(i + 1) =~= asset_views(self.assets@).take(
                i as int,
            ).push(self.assets@[i as int]@));
            assets.push(asset);
            i = i + 1;
        }
        let release = Release { tag_name: self.tag_name.clone(), assets };
        assert(release@.assets =~= self@.assets);
        release
    }
}

impl Clone for Commit {
    fn clone(&self) -> (r: Self)
        ensures
            r@ == self@,
    {
        Commit { sha: self.sha.clone() }
    }
}

impl Clone for Tag {
    fn clone(&self) -> (r: Self)
        ensures
            r@ == self@,
    {
        Tag { name: self.name.clone(), commit: self.commit.clone() }
    }
}

/// What came of a request: it could not be sent, or an answer came with a status
/// and a body that was decoded or could not be. Errors are held by their text.
#[derive(Debug)]
pub enum Reply<T> {
    Unsent(String),
    Answered { status: u16, body: Result<T, String> },
}

pub enum ReplyView<V> {
    Unsent(Seq<char>),
    Answered { status: u16, body: Result<V, Seq<char>> },
}

impl<T> Reply<T> {
    /// An answer's status has three digits.
    pub open spec fn well_formed(self) -> bool {
        self matches Reply::Answered { status, .. } ==> 100 <= status <= 999
    }
}

/// A reply to the request for a release, by its view.
pub open spec fn release_reply(reply: Reply<Release>) -> ReplyView<ReleaseView> {
    match reply {
        Reply::Unsent(text) => ReplyView::Unsent(text@),
        Reply::Answered { status, body: Ok(release) } => ReplyView::Answered {
            status,
            body: Ok(release@),
        },
        Reply::Answered { status, body: Err(text) } => ReplyView::Answered {
            status,
            body: Err(text@),
        },
    }
}

/// A reply to the request for the tags, by its view.
pub open spec fn tags_reply(reply: Reply<Vec<Tag>>) -> ReplyView<Seq<TagView>> {
    match reply {
        Reply::Unsent(text) => ReplyView::Unsent(text@),
        Reply::Answered { status, body: Ok(tags) } => ReplyView::Answered {
            status,
            body: Ok(tag_views(tags@)),
        },
        Reply::Answered { status, body: Err(text) } => ReplyView::Answered {
            status,
            body: Err(text@),
        },
    }
}

/// A status of success is one from 200 to 299.
pub open spec fn is_success(status: u16) -> bool {
    200 <= status <= 299
}

/// The text of a status: its number and its reason phrase.
pub uninterp spec fn status_line(status: u16) -> Seq<char>;

/// The error that an answer without success gives, from the text of its status.
pub open spec fn refusal(status: Seq<char>) -> Seq<char> {
    "GitHub API request failed: "@ + status
}

/// What a reply brings: the body of a successful answer, or the text of what
/// went wrong, the request before the status before the body.
pub open spec fn fetched<V>(reply: ReplyView<V>) -> Result<V, Seq<char>> {
    match reply {
        ReplyView::Unsent(text) => Err(text),
        ReplyView::Answered { status, body } => if is_success(status) {
            body
        } else {
            Err(refusal(status_line(status)))
        },
    }
}

/// Formats a status with `Display` of `reqwest::StatusCode`, which is made by
/// `from_u16`: the result is a function of the number, and begins with the
/// number's three digits and a space.
#[verifier::external_body]
fn status_text(status: u16) -> (r: String)
    requires
        100 <= status <= 999,
    ensures
        r@ == status_line(status),
        r@.len() >= 4,
        r@[0] as int == '0' as int + status / 100,
        r@[1] as int == '0' as int + (status / 10) % 10,
        r@[2] as int == '0' as int + status % 10,
        r@[3] == ' ',
{
    reqwest::StatusCode::from_u16(status).unwrap().to_string()
}

/// The error that an answer without success gives, from the text of its status.
pub fn refused(status: &str) -> (r: String)
    ensures
        r@ == refusal(status@),
{
    concat2("GitHub API request failed: ", status)
}

/// Takes the body out of a reply, or says what went wrong.
fn accept<T>(reply: Reply<T>) -> (r: Result<T, String>)
    requires
        reply.well_formed(),
    ensures
        match reply {
            Reply::Unsent(text) => r == Err::<T, String>(text),
            Reply::Answered { status, body } => if is_success(status) {
                r == body
            } else {
                r matches Err(text) && text@ == refusal(status_line(status))
            },
        },
{
    match reply {
        Reply::Unsent(text) => Err(text),
        Reply::Answered { status, body } => {
            if 200 <= status && status <= 299 {
                body
            } else {
                Err(refused(status_text(status).as_str()))
            }
        },
    }
}

/// A release, or the text of what went wrong, by its view.
pub open spec fn release_result(r: Result<Release, String>) -> Result<ReleaseView, Seq<char>> {
    match r {
        Ok(release) => Ok(release@),
        Err(text) => Err(text@),
    }
}

/// A tag, or the text of what went wrong, by its view.
pub open spec fn tag_result(r: Result<Tag, String>) -> Result<TagView, Seq<char>> {
    match r {
        Ok(tag) => Ok(tag@),
        Err(text) => Err(text@),
    }
}

pub open spec fn release_address(repo: Seq<char>) -> Seq<char> {
    "https://api.github.com/repos/"@ + repo + "/releases/latest"@
}

pub open spec fn tags_address(repo: Seq<char>) -> Seq<char> {
    "https://api.github.com/repos/"@ + repo + "/tags"@
}

/// Where a repository's latest release is asked for.
pub fn release_url(repo: &str) -> (r: String)
    ensures
        r@ == release_address(repo@),
{
    concat3("https://api.github.com/repos/", repo, "/releases/latest")
}

/// Where a repository's tags are asked for.
pub fn tags_url(repo: &str) -> (r: String)
    ensures
        r@ == tags_address(repo@),
{
    concat3("https://api.github.com/repos/", repo, "/tags")
}

/// What the reply to the request for the latest release brings.
pub fn fetch_latest_release(reply: Reply<Release>) -> (r: Result<Release, String>)
    requires
        reply.well_formed(),
    ensures
        release_result(r) == fetched(release_reply(reply)),
{
    accept(reply)
}

/// The first tag with a given name.
pub open spec fn first_tag(tags: Seq<TagView>, name: Seq<char>) -> Option<TagView>
    decreases tags.len(),
{
    if tags.len() == 0 {
        None
    } else if tags[0].name == name {
        Some(tags[0])
    } else {
        first_tag(tags.drop_first(), name)
    }
}

/// What the reply to the request for the tags brings for one tag.
pub open spec fn fetched_tag(reply: ReplyView<Seq<TagView>>, name: Seq<char>) -> Result<
    TagView,
    Seq<char>,
> {
    match fetched(reply) {
        Ok(tags) => match first_tag(tags, name) {
            Some(tag) => Ok(tag),
            None => Err("Tag not found"@),
        },
        Err(text) => Err(text),
    }
}

/// What the reply to the request for the tags brings for one tag: the first of
/// that name.
pub fn fetch_tag(reply: Reply<Vec<Tag>>, tag: &str) -> (r: Result<Tag, String>)
    requires
        reply.well_formed(),
    ensures
        tag_result(r) == fetched_tag(tags_reply(reply), tag@),
{
    match accept(reply) {
        Ok(tags) => {
            let ghost views = tag_views(tags@);
            let mut i: usize = 0;
            assert(views.skip(0) =~= views);
            while i < tags.len()
                invariant
                    i <= tags@.len(),
                    views == tag_views(tags@),
                    first_tag(views, tag@) == first_tag(views.skip(i as int), tag@),
                    fetched(tags_reply(reply)) == Ok::<Seq<TagView>, Seq<char>>(views),
                decreases tags@.len() - i,
            {
                if same_text(tags[i].name.as_str(), tag) {
                    return Ok(tags[i].clone());
                }
                assert(views.skip(i as int).drop_first() =~= views.skip(i + 1));
                i = i + 1;
            }
            Err("Tag not found".to_owned())
        },
        Err(text) => Err(text),
    }
}

/// The first asset whose name holds a keyword.
pub open spec fn first_named(assets: Seq<AssetView>, keyword: Seq<char>) -> Option<AssetView>
    decreases assets.len(),
{
    if assets.len() == 0 {
        None
    } else if has_substring(assets[0].name, keyword) {
        Some(assets[0])
    } else {
        first_named(assets.drop_first(), keyword)
    }
}

/// What the name of a release's asset for a full or a quick update holds.
pub open spec fn asset_keyword(full: bool) -> Seq<char> {
    if full {
        "all"@
    } else {
        "base"@
    }
}

/// The asset that an update takes: the first with the keyword in its name, and
/// where no name holds it, the first of all.
pub open spec fn update_asset(assets: Seq<AssetView>, full: bool) -> Option<AssetView> {
    match first_named(assets, asset_keyword(full)) {
        Some(asset) => Some(asset),
        None => if assets.len() > 0 {
            Some(assets[0])
        } else {
            None
        },
    }
}

pub open spec fn asset_option(o: Option<Asset>) -> Option<AssetView> {
    match o {
        Some(asset) => Some(asset@),
        None => None,
    }
}

/// Chooses the asset that a full or a quick update takes.
pub fn choose_asset(assets: &Vec<Asset>, full: bool) -> (r: Option<Asset>)
    ensures
        asset_option(r) == update_asset(asset_views(assets@), full),
{
    let keyword: &str = if full {
        "all"
    } else {
        "base"
    };
    let ghost views = asset_views(assets@);
    let mut i: usize = 0;
    assert(views.skip(0) =~= views);
    while i < assets.len()
        invariant
            i <= assets@.len(),
            views == asset_views(assets@),
            keyword@ == asset_keyword(full),
            first_named(views, keyword@) == first_named(views.skip(i as int), keyword@),
        decreases assets@.len() - i,
    {
        if contains(assets[i].name.as_str(), keyword) {
            return Some(assets[i].clone());
        }
        assert(views.skip(i as int).drop_first() =~= views.skip(i + 1));
        i = i + 1;
    }
    if assets.len() > 0 {
        Some(assets[0].clone())
    } else {
        None
    }
}

} // verus!
