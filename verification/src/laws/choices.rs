//! What holds of the choices that the updater makes.

use super::texts::{holds_part, law_prefix_is_continued, law_substring_is_a_part};
use super::{blamed, cleared, renamed, showing};
use crate::app_state::{initial_state, AppStateView, Progress, Reporting, Submenu};
use crate::archive::{minui_content, package_archive, package_members, ArchiveView, Members};
use crate::download::{DownloadView, Received};
use crate::files::preferred_font;
use crate::github::{asset_keyword, first_named, update_asset, AssetView};
use crate::input::{
    goes_back, key_of, reaction, search_from, search_resumed, Button, ControllerSearch, Input, Key,
    Reaction,
};
use crate::screen::{
    menu_pressed, nextui_screen, pakman_label, pakman_pressed, update_hint, update_pressed,
    ButtonState,
};
use crate::text::{has_prefix, has_substring, line_length, lines};
use crate::version::{exceeds, identifiers_exceed, offer, parsed_version, VersionView};
use crate::work::{extraction, WorkView};
use vstd::prelude::*;

verus! {

/// The first asset that a keyword names is one of the list, its name holds the
/// keyword, and no earlier name does.
pub proof fn law_first_named_is_first(assets: Seq<AssetView>, keyword: Seq<char>)
    ensures
        match first_named(assets, keyword) {
            Some(asset) => exists|i: int|
                {
                    &&& 0 <= i < assets.len()
                    &&& #[trigger] assets[i] == asset
                    &&& has_substring(asset.name, keyword)
                    &&& forall|j: int|
                        0 <= j < i ==> !has_substring(#[trigger] assets[j].name, keyword)
                },
            None => forall|i: int|
                0 <= i < assets.len() ==> !has_substring(#[trigger] assets[i].name, keyword),
        },
    decreases assets.len(),
{
    if assets.len() > 0 {
        let rest = assets.drop_first();
        law_first_named_is_first(rest, keyword);
        assert(forall|i: int| 0 <= i < rest.len() ==> rest[i] == assets[i + 1]);
        if has_substring(assets[0].name, keyword) {
            assert(assets[0] == first_named(assets, keyword)->0);
        } else {
            match first_named(rest, keyword) {
                Some(asset) => {
                    let i = choose|i: int|
                        {
                            &&& 0 <= i < rest.len()
                            &&& #[trigger] rest[i] == asset
                            &&& has_substring(asset.name, keyword)
                            &&& forall|j: int|
                                0 <= j < i ==> !has_substring(#[trigger] rest[j].name, keyword)
                        };
                    assert(assets[i + 1] == asset);
                    assert forall|j: int| 0 <= j < i + 1 implies !has_substring(
                        #[trigger] assets[j].name,
                        keyword,
                    ) by {
                        if j > 0 {
                            assert(rest[j - 1] == assets[j]);
                        }
                    }
                },
                None => {
                    assert forall|j: int| 0 <= j < assets.len() implies !has_substring(
                        #[trigger] assets[j].name,
                        keyword,
                    ) by {
                        if j > 0 {
                            assert(rest[j - 1] == assets[j]);
                        }
                    }
                },
            }
        }
    }
}

/// Every release with an asset has one for an update, one of its own; and where a
/// name holds the keyword, that of the chosen one does.
pub proof fn law_update_asset_is_one_of_the_release(assets: Seq<AssetView>, full: bool)
    ensures
        match update_asset(assets, full) {
            Some(asset) => {
                &&& assets.contains(asset)
                &&& (exists|i: int|
                    0 <= i < assets.len() && has_substring(
                        #[trigger] assets[i].name,
                        asset_keyword(full),
                    )) ==> has_substring(asset.name, asset_keyword(full))
            },
            None => assets.len() == 0,
        },
{
    law_first_named_is_first(assets, asset_keyword(full));
}

/// A full update takes the first asset with `all` in its name, a quick one the
/// first with `base` in it; where no name holds that, the first asset of all is
/// taken, and none only where there is none.
pub proof fn law_update_takes_the_first_named(assets: Seq<AssetView>, full: bool, at: int)
    ensures
        ({
            let keyword = if full {
                "all"@
            } else {
                "base"@
            };
            &&& 0 <= at < assets.len() && holds_part(assets[at].name, keyword) && (forall|j: int|
                0 <= j < at ==> !holds_part(#[trigger] assets[j].name, keyword)) ==> update_asset(
                assets,
                full,
            ) == Some(assets[at])
            &&& assets.len() > 0 && (forall|j: int|
                0 <= j < assets.len() ==> !holds_part(#[trigger] assets[j].name, keyword))
                ==> update_asset(assets, full) == Some(assets[0])
            &&& update_asset(assets, full) is None <==> assets.len() == 0
        }),
{
    let keyword = if full {
        "all"@
    } else {
        "base"@
    };
    assert(asset_keyword(full) == keyword);
    law_first_named_is_first(assets, keyword);
    assert forall|j: int| 0 <= j < assets.len() implies has_substring(
        #[trigger] assets[j].name,
        keyword,
    ) == holds_part(assets[j].name, keyword) by {
        law_substring_is_a_part(assets[j].name, keyword);
    }
}

/// Between versions whose three numbers differ, a release is offered just where
/// its numbers, from left to right, are the greater ones. With the same numbers, a
/// release is offered over its pre-releases and no pre-release over it, and nothing
/// over itself; what else there is the identifiers decide.
pub proof fn law_greater_numbers_are_offered(
    tag: Seq<char>,
    installed: Seq<char>,
    a: VersionView,
    b: VersionView,
)
    requires
        parsed_version(tag) == Ok::<VersionView, Seq<char>>(a),
        parsed_version(installed) == Ok::<VersionView, Seq<char>>(b),
    ensures
        ({
            let offered = offer(parsed_version(tag), parsed_version(installed));
            let same = a.major == b.major && a.minor == b.minor && a.patch == b.patch;
            &&& offered is Ok
            &&& !same ==> (offered == Ok::<bool, Seq<char>>(true) <==> {
                ||| a.major > b.major
                ||| a.major == b.major && a.minor > b.minor
                ||| a.major == b.major && a.minor == b.minor && a.patch > b.patch
            })
            &&& same && a.pre.len() == 0 && b.pre.len() > 0 ==> offered == Ok::<bool, Seq<char>>(
                true,
            )
            &&& same && a.pre.len() > 0 && b.pre.len() == 0 ==> offered == Ok::<bool, Seq<char>>(
                false,
            )
            &&& same && a.pre == b.pre && a.build == b.build ==> offered == Ok::<bool, Seq<char>>(
                false,
            )
            &&& same && (a.pre.len() == 0 <==> b.pre.len() == 0) && (a.pre != b.pre || a.build
                != b.build) ==> offered == Ok::<bool, Seq<char>>(
                identifiers_exceed(a.pre, a.build, b.pre, b.build),
            )
        }),
{
}

/// Where one of the two texts spells no version, nothing is offered, and what is
/// wrong with it is told, of the published one first.
pub proof fn law_offers_only_versions(tag: Seq<char>, installed: Seq<char>, text: Seq<char>)
    ensures
        parsed_version(tag) == Err::<VersionView, Seq<char>>(text) ==> offer(
            parsed_version(tag),
            parsed_version(installed),
        ) == Err::<bool, Seq<char>>(text),
        parsed_version(tag) is Ok && parsed_version(installed) == Err::<VersionView, Seq<char>>(
            text,
        ) ==> offer(parsed_version(tag), parsed_version(installed)) == Err::<bool, Seq<char>>(text),
{
}

/// No version is newer than itself.
pub proof fn law_nothing_is_newer_than_itself(version: Result<VersionView, Seq<char>>)
    ensures
        offer(version, version) != Ok::<bool, Seq<char>>(true),
{
}

/// Between versions with different numbers the numbers decide: just one of the
/// two is newer, and a version that is newer than a newer one is newer still.
pub proof fn law_numbers_order_versions(a: VersionView, b: VersionView, c: VersionView)
    ensures
        (a.major, a.minor, a.patch) != (b.major, b.minor, b.patch) ==> exceeds(a, b)
            == !exceeds(b, a),
        (a.major, a.minor, a.patch) != (b.major, b.minor, b.patch) && (b.major, b.minor, b.patch)
            != (c.major, c.minor, c.patch) && exceeds(a, b) && exceeds(b, c) ==> exceeds(a, c),
{
}

/// A release is newer than each of its pre-releases, and none of them is newer
/// than it.
pub proof fn law_release_follows_its_prereleases(release: VersionView, earlier: VersionView)
    requires
        (release.major, release.minor, release.patch) == (
            earlier.major,
            earlier.minor,
            earlier.patch,
        ),
        release.pre.len() == 0,
        earlier.pre.len() > 0,
    ensures
        exceeds(release, earlier),
        !exceeds(earlier, release),
{
}

/// The NextUI menu offers no update exactly where the latest tag is known, and its
/// commit's hash begins with the installed version.
pub proof fn law_offers_unless_up_to_date(s: AppStateView, installed: Option<Seq<char>>)
    ensures
        !nextui_screen(s, installed).1 <==> (installed matches Some(version) && s.nextui_tag
            matches Some(tag) && has_prefix(tag.commit.sha, version)),
{
}

/// A text begins with each of its own beginnings, and what it begins with stands
/// in it.
pub proof fn law_beginnings(text: Seq<char>, n: int, prefix: Seq<char>)
    requires
        0 <= n <= text.len(),
    ensures
        has_prefix(text, text.take(n)),
        has_prefix(text, prefix) ==> has_substring(text, prefix),
{
    assert(text.subrange(0, n) =~= text.take(n));
}

pub(super) proof fn lemma_line_is_unbroken(text: Seq<char>)
    ensures
        line_length(text) <= text.len(),
        forall|i: int| 0 <= i < line_length(text) ==> text[i] != '\n',
        line_length(text) < text.len() ==> text[line_length(text) as int] == '\n',
    decreases text.len(),
{
    if text.len() > 0 && text[0] != '\n' {
        let rest = text.drop_first();
        lemma_line_is_unbroken(rest);
        assert forall|i: int| 0 <= i < line_length(text) implies text[i] != '\n' by {
            if i > 0 {
                assert(rest[i - 1] == text[i]);
            }
        }
    }
}

/// No line holds a line feed.
pub proof fn law_lines_are_unbroken(text: Seq<char>, number: int)
    requires
        0 <= number < lines(text).len(),
    ensures
        !lines(text)[number].contains('\n'),
    decreases text.len(),
{
    let end = line_length(text) as int;
    lemma_line_is_unbroken(text);
    if end < text.len() {
        if number > 0 {
            law_lines_are_unbroken(text.skip(end + 1), number - 1);
        }
    }
}

/// With the installed version and the latest tag known, whatever else is, the
/// NextUI menu says that the installed one is the latest where the tag's hash goes
/// on from it, and offers no update; else it says that a new one is there. Without
/// one of the two it names the release that is known, and offers an update.
pub proof fn law_menu_says_latest_unless_it_offers(
    s: AppStateView,
    installed: Option<Seq<char>>,
)
    ensures
        ({
            let (label, offers) = nextui_screen(s, installed);
            match (installed, s.nextui_tag) {
                (Some(version), Some(tag)) => {
                    let latest = exists|rest: Seq<char>|
                        tag.commit.sha == #[trigger] (version + rest);
                    &&& latest ==> !offers && label
                        == "You currently have the latest available version:\nNextUI "@ + tag.name
                    &&& !latest ==> offers && label == "New version available: NextUI "@ + tag.name
                },
                _ => {
                    &&& offers
                    &&& s.nextui_release matches Some(release) ==> label
                        == "Latest version: NextUI "@ + release.tag_name
                    &&& s.nextui_release is None ==> label == "No release information available"@
                },
            }
        }),
{
    if let (Some(version), Some(tag)) = (installed, s.nextui_tag) {
        law_prefix_is_continued(tag.commit.sha, version);
    }
}

/// The Pakman menu names the release that is known, and nothing else.
pub proof fn law_pakman_menu_names_the_release(s: AppStateView)
    ensures
        s.pakman_release is None <==> pakman_label(s) is None,
        s.pakman_release matches Some(release) ==> pakman_label(s) == Some(
            "Latest version: Pakman "@ + release.tag_name,
        ),
{
}

/// A click on an update button takes the last error away, and nothing else does;
/// the focus decides the hint, and all else stays.
pub proof fn law_update_buttons(s: AppStateView, quick: ButtonState, full: ButtonState)
    ensures
        ({
            let t = update_pressed(s, quick, full);
            &&& t == (AppStateView { error: t.error, hint: t.hint, ..s })
            &&& quick.clicked ==> t.error is None
            &&& full.clicked ==> t.error is None
            &&& !quick.clicked && !full.clicked ==> t.error == s.error
            &&& quick.focused ==> t.hint == Some("Update MinUI.zip only"@)
            &&& full.focused && !quick.focused ==> t.hint == Some(
                "Extract full zip files (base + extras)"@,
            )
            &&& !quick.focused && !full.focused ==> t.hint is None
        }),
{
}

/// A click on Pakman's button takes the last error away, and nothing else does; the
/// focus decides the hint, and all else stays.
pub proof fn law_pakman_button(s: AppStateView, button: ButtonState)
    ensures
        ({
            let t = pakman_pressed(s, button);
            &&& t == (AppStateView { error: t.error, hint: t.hint, ..s })
            &&& button.clicked ==> t.error is None
            &&& !button.clicked ==> t.error == s.error
            &&& button.focused ==> t.hint == Some("Update pakman by josegonzalez (aka savant)"@)
            &&& !button.focused ==> t.hint is None
        }),
{
}

/// A click on a product in the main menu goes to its menu, and to that of Pakman
/// where both were clicked; a click on the last button ends the program, and nothing
/// takes that back; the focus decides the hint, and all else stays.
pub proof fn law_main_menu(
    s: AppStateView,
    nextui: ButtonState,
    pakman: ButtonState,
    quit: ButtonState,
)
    ensures
        ({
            let t = menu_pressed(s, nextui, pakman, quit);
            &&& t == (AppStateView {
                submenu: t.submenu,
                hint: t.hint,
                should_quit: t.should_quit,
                ..s
            })
            &&& pakman.clicked ==> t.submenu == Submenu::Pakman
            &&& nextui.clicked && !pakman.clicked ==> t.submenu == Submenu::NextUI
            &&& !nextui.clicked && !pakman.clicked ==> t.submenu == s.submenu
            &&& nextui.focused ==> t.hint == Some("Update NextUI"@)
            &&& pakman.focused && !nextui.focused ==> t.hint == Some(
                "Update pakman by josegonzalez (aka savant)"@,
            )
            &&& !nextui.focused && !pakman.focused ==> t.hint is None
            &&& t.should_quit <==> s.should_quit || quit.clicked
        }),
{
}

/// The hint of the NextUI menu is that of the button with the focus; there is none
/// without a focus.
pub proof fn law_hint_follows_the_focus(quick: ButtonState, full: ButtonState)
    ensures
        quick.focused ==> update_hint(quick, full) == Some("Update MinUI.zip only"@),
        full.focused && !quick.focused ==> update_hint(quick, full) == Some(
            "Extract full zip files (base + extras)"@,
        ),
        !quick.focused && !full.focused ==> update_hint(quick, full) is None,
{
}

/// The program starts in the menu of NextUI and knows nothing yet.
pub proof fn law_starts_empty(reporting: Reporting)
    ensures
        ({
            let s = initial_state(reporting);
            &&& s.reporting == reporting
            &&& s.submenu == Submenu::NextUI
            &&& s.nextui_release is None && s.nextui_tag is None && s.pakman_release is None
            &&& s.current_operation is None && s.progress is None
            &&& s.error is None && s.hint is None
            &&& !s.should_quit
        }),
{
}

/// Beginning, renaming and ending an operation, well or with an error, changes
/// what the screen says of it and nothing else; and an operation that begins and
/// ends well is gone without a trace.
pub proof fn law_operations_come_and_go(s: AppStateView, text: Seq<char>)
    ensures
        s.started(text) == showing(s, text),
        s.started_determinate(text) == (AppStateView {
            current_operation: Some(text),
            progress: Some(Progress::Determinate { done: 0, total: 1 }),
            ..s
        }),
        s.with_operation(text) == renamed(s, text),
        s.finished() == cleared(s),
        s.failed(text) == blamed(s, text),
        s.started(text).finished() == cleared(s),
        s.failed(text).idle() && s.finished().idle(),
{
}

/// The font is the round one just where the settings could be read and ask for
/// it, else the bold one.
pub proof fn law_font_follows_the_settings(settings: Option<Seq<char>>)
    ensures
        preferred_font(settings) == if settings matches Some(text) && holds_part(text, "font=1"@) {
            "chillroundm.ttf"@
        } else {
            "BPreplayBold-unhinted.otf"@
        },
{
    if let Some(text) = settings {
        law_substring_is_a_part(text, "font=1"@);
    }
}

/// A package is unpacked as it is, below the card's root, unless it cannot be
/// opened, which is told by its own text; and so is an archive that is open.
pub proof fn law_package_is_unpacked_as_it_is(
    package: Seq<u8>,
    archive: ArchiveView,
    text: Seq<char>,
    unwrap_root: bool,
)
    ensures
        extraction(Ok::<ArchiveView, Seq<char>>(archive), unwrap_root) == Ok::<WorkView, Seq<char>>(
            WorkView::Extract { archive, root: "/mnt/SDCARD/"@, unwrap_root },
        ),
        extraction(Err::<ArchiveView, Seq<char>>(text), unwrap_root) == Err::<WorkView, Seq<char>>(
            text,
        ),
        match package_members(package) {
            Ok(members) => extraction(package_archive(package), unwrap_root) == Ok::<
                WorkView,
                Seq<char>,
            >(
                WorkView::Extract {
                    archive: ArchiveView { package, members },
                    root: "/mnt/SDCARD/"@,
                    unwrap_root,
                },
            ),
            Err(text) => extraction(package_archive(package), unwrap_root) == Err::<
                WorkView,
                Seq<char>,
            >(text),
        },
{
}

/// What is taken out of a package is its member `MinUI.zip`, or the error that
/// reading that one gives.
pub proof fn law_minui_is_taken_out(package: Seq<u8>, members: Members, text: Seq<char>)
    ensures
        package_members(package) == Ok::<Members, Seq<char>>(members) ==> {
            &&& members.contains_key("MinUI.zip"@) ==> minui_content(package_archive(package))
                == members["MinUI.zip"@]
            &&& !members.contains_key("MinUI.zip"@) ==> minui_content(package_archive(package))
                == Err::<Seq<u8>, Seq<char>>("File MinUI.zip not found in archive"@)
        },
        package_members(package) == Err::<Members, Seq<char>>(text) ==> minui_content(
            package_archive(package),
        ) == Err::<Seq<u8>, Seq<char>>(text),
{
}

/// All pieces, one after the other.
pub open spec fn joined(pieces: Seq<Seq<u8>>) -> Seq<u8>
    decreases pieces.len(),
{
    if pieces.len() == 0 {
        seq![]
    } else {
        joined(pieces.drop_last()) + pieces.last()
    }
}

/// A download after it was given these pieces.
pub open spec fn after_pieces(start: DownloadView, pieces: Seq<Seq<u8>>) -> DownloadView
    decreases pieces.len(),
{
    if pieces.len() == 0 {
        start
    } else {
        after_pieces(start, pieces.drop_last()).with_piece(pieces.last())
    }
}

/// A download gives all its pieces, in the order in which they came, and nothing
/// else.
pub proof fn law_download_is_all_pieces(content_length: Option<u64>, pieces: Seq<Seq<u8>>)
    ensures
        after_pieces(DownloadView::begun(content_length), pieces) == (DownloadView {
            bytes: joined(pieces),
            ..DownloadView::begun(content_length)
        }),
        after_pieces(DownloadView::begun(content_length), pieces).total == match content_length {
            Some(total) => total,
            None => 0u64,
        },
    decreases pieces.len(),
{
    if pieces.len() > 0 {
        law_download_is_all_pieces(content_length, pieces.drop_last());
    }
}

/// An empty piece, and no other, ends a download; with any other the share that has
/// then arrived is shown.
pub proof fn law_only_an_empty_piece_ends(download: DownloadView, piece: Seq<u8>)
    ensures
        download.received(piece) is Complete <==> piece.len() == 0,
        piece.len() > 0 ==> download.received(piece) == Received::Partial(
            download.with_piece(piece).share(),
        ),
{
}

/// The share that is shown is what has arrived of what was announced; where nothing
/// was, none is shown.
pub proof fn law_share_is_what_has_arrived(content_length: Option<u64>, pieces: Seq<Seq<u8>>)
    requires
        joined(pieces).len() <= u64::MAX,
    ensures
        ({
            let share = after_pieces(DownloadView::begun(content_length), pieces).share();
            match content_length {
                Some(announced) => {
                    &&& announced > 0 ==> (share matches Some(Progress::Determinate { done, total })
                        && done == joined(pieces).len() && total == announced)
                    &&& announced == 0 ==> share is None
                },
                None => share is None,
            }
        }),
{
    law_download_is_all_pieces(content_length, pieces);
}

/// The share that is shown never shrinks, and is one of something.
pub proof fn law_share_grows(download: DownloadView, piece: Seq<u8>)
    requires
        download.bytes.len() + piece.len() <= u64::MAX,
    ensures
        match (download.share(), download.with_piece(piece).share()) {
            (
                Some(Progress::Determinate { done, total }),
                Some(Progress::Determinate { done: later, total: whole }),
            ) => 0 < total && total == whole && done <= later,
            (None, None) => true,
            _ => false,
        },
{
}

/// The cross stands for the arrow keys, `B` for the return key and `A` for the
/// escape key; the other buttons stand for none.
pub proof fn law_buttons_stand_for_keys(button: Button, key: Key)
    ensures
        key_of(button) == Some(key) <==> match key {
            Key::Up => button == Button::DPadUp,
            Key::Down => button == Button::DPadDown,
            Key::Left => button == Button::DPadLeft,
            Key::Right => button == Button::DPadRight,
            Key::Return => button == Button::B,
            Key::Escape => button == Button::A,
        },
{
}

/// A button that goes down or up is told as its key that goes the same way, and
/// one that stands for no key is not told at all; closing the window alone stops
/// the program at once; the escape key is not told, and all else is handed on.
pub proof fn law_input_is_told_as_keys(input: Input, button: Button, key: Key)
    ensures
        reaction(Input::ButtonDown(button)) == Reaction::KeyDown(key) <==> key_of(button) == Some(
            key,
        ),
        reaction(Input::ButtonUp(button)) == Reaction::KeyUp(key) <==> key_of(button) == Some(key),
        key_of(button) is None <==> reaction(Input::ButtonDown(button)) == Reaction::Ignore,
        key_of(button) is None <==> reaction(Input::ButtonUp(button)) == Reaction::Ignore,
        reaction(input) == Reaction::Stop <==> input == Input::Quit,
        reaction(input) == Reaction::Forward <==> input == Input::Other,
        reaction(Input::EscapeDown) == Reaction::Ignore,
{
}

/// Only letting the button `A` go, or pressing the escape key, means going back.
pub proof fn law_back_is_a_or_escape(input: Input)
    ensures
        goes_back(input) <==> match input {
            Input::ButtonUp(button) => button == Button::A,
            Input::EscapeDown => true,
            _ => false,
        },
{
}

/// No two buttons stand for the same key.
pub proof fn law_keys_are_distinct(a: Button, b: Button)
    requires
        key_of(a) is Some,
        key_of(a) == key_of(b),
    ensures
        a == b,
{
}

/// The search tries to open a joystick only once that was said to be a controller,
/// asks about no joystick that is not there, and stays with what it has found.
pub proof fn law_search_opens_controllers_only(search: ControllerSearch, answer: bool)
    requires
        search.well_formed(),
    ensures
        search_resumed(search, answer) matches ControllerSearch::Open { id, available } ==> answer
            && search == (ControllerSearch::Probe { id, available }),
        search_resumed(search, answer) matches ControllerSearch::Probe { id, available } ==> id
            < available && !answer,
        search matches ControllerSearch::Done(found) ==> search_resumed(search, answer)
            == ControllerSearch::Done(found),
{
}

/// How many questions the search still asks at most.
pub open spec fn remaining(search: ControllerSearch) -> int {
    match search {
        ControllerSearch::Probe { id, available } => if id < available {
            2 * (available - id)
        } else {
            2
        },
        ControllerSearch::Open { id, available } => if id < available {
            2 * (available - id) - 1
        } else {
            1
        },
        ControllerSearch::Done(_) => 0,
    }
}

/// The answer to the question that the search asks.
pub open spec fn answer(
    search: ControllerSearch,
    is_controller: spec_fn(u32) -> bool,
    opens: spec_fn(u32) -> bool,
) -> bool {
    match search {
        ControllerSearch::Probe { id, .. } => is_controller(id),
        ControllerSearch::Open { id, .. } => opens(id),
        ControllerSearch::Done(_) => false,
    }
}

/// What the search finds in the end.
pub open spec fn search_end(
    search: ControllerSearch,
    is_controller: spec_fn(u32) -> bool,
    opens: spec_fn(u32) -> bool,
) -> Option<u32>
    decreases remaining(search),
{
    match search {
        ControllerSearch::Done(found) => found,
        _ => search_end(
            search_resumed(search, answer(search, is_controller, opens)),
            is_controller,
            opens,
        ),
    }
}

proof fn lemma_search_from(
    start: u32,
    available: u32,
    is_controller: spec_fn(u32) -> bool,
    opens: spec_fn(u32) -> bool,
)
    requires
        start <= available,
    ensures
        match search_end(search_from(start as int, available), is_controller, opens) {
            Some(id) => {
                &&& start <= id < available
                &&& is_controller(id) && opens(id)
                &&& forall|other: u32|
                    start <= other < id ==> !(#[trigger] is_controller(other) && opens(other))
            },
            None => forall|other: u32|
                start <= other < available ==> !(#[trigger] is_controller(other) && opens(other)),
        },
    decreases available - start,
{
    reveal_with_fuel(search_end, 4);
    if start < available {
        lemma_search_from((start + 1) as u32, available, is_controller, opens);
        let rest = search_end(search_from(start + 1, available), is_controller, opens);
        if !(is_controller(start) && opens(start)) {
            assert(search_end(search_from(start as int, available), is_controller, opens) == rest);
        }
    }
}

/// The controller that is found is the first of the joysticks that is a game
/// controller and can be opened; none is found only where there is none.
pub proof fn law_first_usable_controller_is_found(
    available: u32,
    is_controller: spec_fn(u32) -> bool,
    opens: spec_fn(u32) -> bool,
)
    ensures
        match search_end(search_from(0, available), is_controller, opens) {
            Some(id) => {
                &&& id < available
                &&& is_controller(id) && opens(id)
                &&& forall|other: u32|
                    other < id ==> !(#[trigger] is_controller(other) && opens(other))
            },
            None => forall|other: u32|
                other < available ==> !(#[trigger] is_controller(other) && opens(other)),
        },
{
    lemma_search_from(0, available, is_controller, opens);
}

} // verus!
