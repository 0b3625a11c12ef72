//! What the menus say, and what their buttons do.

use crate::app_state::{AppState, AppStateView, Submenu};
use crate::text::{concat2, has_prefix, starts_with, str_option, text_option};
use vstd::prelude::*;

verus! {

/// What happened to a button in a frame.
#[derive(Clone, Copy, Debug, PartialEq, Eq, Structural)]
pub struct ButtonState {
    pub clicked: bool,
    pub focused: bool,
}

/// What the NextUI menu says, and whether it offers an update.
#[derive(Debug)]
pub struct NextuiScreen {
    pub label: String,
    pub update_available: bool,
}

/// The NextUI menu offers no update exactly where the installed version, the
/// start of a commit's hash, is that of the latest tag. What it says names the
/// tag where both are known, else the release, where that is known.
pub open spec fn nextui_screen(s: AppStateView, current_version: Option<Seq<char>>) -> (
    Seq<char>,
    bool,
) {
    match (current_version, s.nextui_tag, s.nextui_release) {
        (Some(version), Some(tag), _) => if has_prefix(tag.commit.sha, version) {
            ("You currently have the latest available version:\nNextUI "@ + tag.name, false)
        } else {
            ("New version available: NextUI "@ + tag.name, true)
        },
        (_, _, Some(release)) => ("Latest version: NextUI "@ + release.tag_name, true),
        _ => ("No release information available"@, true),
    }
}

/// What the NextUI menu says, and whether it offers an update.
pub fn nextui_ui(app_state: &AppState, current_version: Option<&str>) -> (r: NextuiScreen)
    ensures
        (r.label@, r.update_available) == nextui_screen(
            app_state@,
            str_option(current_version),
        ),
{
    match (current_version, &app_state.nextui_tag, &app_state.nextui_release) {
        (Some(version), Some(tag), _) => {
            if starts_with(tag.commit.sha.as_str(), version) {
                NextuiScreen {
                    label: concat2(
                        "You currently have the latest available version:\nNextUI ",
                        tag.name.as_str(),
                    ),
                    update_available: false,
                }
            } else {
                NextuiScreen {
                    label: concat2("New version available: NextUI ", tag.name.as_str()),
                    update_available: true,
                }
            }
        },
        (_, _, Some(release)) => NextuiScreen {
            label: concat2("Latest version: NextUI ", release.tag_name.as_str()),
            update_available: true,
        },
        _ => NextuiScreen {
            label: "No release information available".to_owned(),
            update_available: true,
        },
    }
}

/// The updates that the buttons of the NextUI menu ask for.
#[derive(Clone, Copy, Debug, PartialEq, Eq, Structural)]
pub struct NextuiOrders {
    pub quick: bool,
    pub full: bool,
}

/// The hint for the update button that has the focus.
pub open spec fn update_hint(quick: ButtonState, full: ButtonState) -> Option<Seq<char>> {
    if quick.focused {
        Some("Update MinUI.zip only"@)
    } else if full.focused {
        Some("Extract full zip files (base + extras)"@)
    } else {
        None
    }
}

/// The state after the two update buttons were shown.
pub open spec fn update_pressed(
    s: AppStateView,
    quick: ButtonState,
    full: ButtonState,
) -> AppStateView {
    AppStateView {
        error: if quick.clicked || full.clicked {
            None
        } else {
            s.error
        },
        hint: update_hint(quick, full),
        ..s
    }
}

/// The two update buttons: a click asks for an update and takes the last error
/// away, and the focus decides the hint.
pub fn press_update(app_state: &mut AppState, quick: ButtonState, full: ButtonState) -> (r:
    NextuiOrders)
    ensures
        r == (NextuiOrders { quick: quick.clicked, full: full.clicked }),
        final(app_state)@ == (AppStateView {
            error: if quick.clicked || full.clicked {
                None
            } else {
                old(app_state)@.error
            },
            hint: update_hint(quick, full),
            ..old(app_state)@
        }),
        final(app_state)@ == update_pressed(old(app_state)@, quick, full),
{
    if quick.clicked || full.clicked {
        app_state.clear_error();
    }
    if quick.focused {
        app_state.hint = Some("Update MinUI.zip only".to_owned());
    } else if full.focused {
        app_state.hint = Some("Extract full zip files (base + extras)".to_owned());
    } else {
        app_state.hint = None;
    }
    NextuiOrders { quick: quick.clicked, full: full.clicked }
}

/// The quit button: a click ends the program.
pub fn press_quit(app_state: &mut AppState, quit: ButtonState)
    ensures
        final(app_state)@ == (AppStateView {
            should_quit: old(app_state)@.should_quit || quit.clicked,
            ..old(app_state)@
        }),
{
    if quit.clicked {
        app_state.quit();
    }
}

/// What the Pakman menu says: its latest release, where that is known.
pub open spec fn pakman_label(s: AppStateView) -> Option<Seq<char>> {
    match s.pakman_release {
        Some(release) => Some("Latest version: Pakman "@ + release.tag_name),
        None => None,
    }
}

/// What the Pakman menu says: its latest release, where that is known.
pub fn pakman_ui(app_state: &AppState) -> (r: Option<String>)
    ensures
        text_option(r) == pakman_label(app_state@),
{
    match &app_state.pakman_release {
        Some(release) => Some(concat2("Latest version: Pakman ", release.tag_name.as_str())),
        None => None,
    }
}

/// The state after the button that updates Pakman was shown.
pub open spec fn pakman_pressed(s: AppStateView, button: ButtonState) -> AppStateView {
    AppStateView {
        error: if button.clicked {
            None
        } else {
            s.error
        },
        hint: if button.focused {
            Some("Update pakman by josegonzalez (aka savant)"@)
        } else {
            None
        },
        ..s
    }
}

/// The button that updates Pakman: a click asks for the update and takes the last
/// error away, and the focus decides the hint.
pub fn press_pakman(app_state: &mut AppState, button: ButtonState) -> (r: bool)
    ensures
        r == button.clicked,
        final(app_state)@ == (AppStateView {
            error: if button.clicked {
                None
            } else {
                old(app_state)@.error
            },
            hint: if button.focused {
                Some("Update pakman by josegonzalez (aka savant)"@)
            } else {
                None
            },
            ..old(app_state)@
        }),
        final(app_state)@ == pakman_pressed(old(app_state)@, button),
{
    if button.clicked {
        app_state.clear_error();
    }
    if button.focused {
        app_state.hint = Some("Update pakman by josegonzalez (aka savant)".to_owned());
    } else {
        app_state.hint = None;
    }
    button.clicked
}

/// The checks that the buttons of the main menu ask for.
#[derive(Clone, Copy, Debug, PartialEq, Eq, Structural)]
pub struct MenuOrders {
    pub check_nextui: bool,
    pub check_pakman: bool,
}

/// The state after the main menu was shown.
pub open spec fn menu_pressed(
    s: AppStateView,
    nextui: ButtonState,
    pakman: ButtonState,
    quit: ButtonState,
) -> AppStateView {
    AppStateView {
        submenu: if pakman.clicked {
            Submenu::Pakman
        } else if nextui.clicked {
            Submenu::NextUI
        } else {
            s.submenu
        },
        hint: if nextui.focused {
            Some("Update NextUI"@)
        } else if pakman.focused {
            Some("Update pakman by josegonzalez (aka savant)"@)
        } else {
            None
        },
        should_quit: s.should_quit || quit.clicked,
        ..s
    }
}

/// The main menu: a click on a product goes to its menu and asks for a check, a
/// click on the last button ends the program, and the focus decides the hint.
pub fn press_menu(
    app_state: &mut AppState,
    nextui: ButtonState,
    pakman: ButtonState,
    quit: ButtonState,
) -> (r: MenuOrders)
    ensures
        r == (MenuOrders { check_nextui: nextui.clicked, check_pakman: pakman.clicked }),
        final(app_state)@ == (AppStateView {
            submenu: if pakman.clicked {
                Submenu::Pakman
            } else if nextui.clicked {
                Submenu::NextUI
            } else {
                old(app_state)@.submenu
            },
            hint: if nextui.focused {
                Some("Update NextUI"@)
            } else if pakman.focused {
                Some("Update pakman by josegonzalez (aka savant)"@)
            } else {
                None
            },
            should_quit: old(app_state)@.should_quit || quit.clicked,
            ..old(app_state)@
        }),
        final(app_state)@ == menu_pressed(old(app_state)@, nextui, pakman, quit),
{
    if nextui.clicked {
        app_state.enter_submenu(Submenu::NextUI);
    }
    if pakman.clicked {
        app_state.enter_submenu(Submenu::Pakman);
    }
    if quit.clicked {
        app_state.quit();
    }
    if nextui.focused {
        app_state.hint = Some("Update NextUI".to_owned());
    } else if pakman.focused {
        app_state.hint = Some("Update pakman by josegonzalez (aka savant)".to_owned());
    } else {
        app_state.hint = None;
    }
    MenuOrders { check_nextui: nextui.clicked, check_pakman: pakman.clicked }
}

/// The heading of every screen, which is the title of the window too.
pub fn heading(version: &str) -> (r: String)
    ensures
        r@ == "NextUI Updater "@ + version@,
{
    concat2("NextUI Updater ", version)
}

} // verus!
