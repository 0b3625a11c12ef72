use nextui_updater::app_state::{AppState, Progress, Reporting, Submenu};
use nextui_updater::github::{Commit, Release, Tag};
use nextui_updater::input::{
    controller_to_key, handle_input, Button, ControllerSearch, Input, Key, Reaction,
};
use nextui_updater::screen::{
    heading, nextui_ui, pakman_ui, press_menu, press_pakman, press_quit, press_update, ButtonState,
    MenuOrders, NextuiOrders,
};

const UP: ButtonState = ButtonState { clicked: false, focused: false };
const CLICKED: ButtonState = ButtonState { clicked: true, focused: false };
const FOCUSED: ButtonState = ButtonState { clicked: false, focused: true };

fn state() -> AppState {
    AppState::new(Reporting::Terse)
}

fn release(tag_name: &str) -> Option<Release> {
    Some(Release { tag_name: tag_name.to_string(), assets: Vec::new() })
}

fn tag(name: &str, sha: &str) -> Option<Tag> {
    Some(Tag { name: name.to_string(), commit: Commit { sha: sha.to_string() } })
}

#[test]
fn starts_in_the_nextui_menu_with_nothing_known() {
    let state = state();
    assert_eq!(state.submenu, Submenu::NextUI);
    assert!(state.nextui_release.is_none() && state.nextui_tag.is_none());
    assert!(state.pakman_release.is_none());
    assert!(state.current_operation.is_none() && state.progress.is_none());
    assert!(state.error.is_none() && state.hint.is_none() && !state.should_quit);
    assert!(state.controls_enabled());
}

#[test]
fn an_operation_disables_the_controls_until_it_ends() {
    let mut state = state();
    state.start_operation("Working...".to_string());
    assert!(!state.controls_enabled());
    assert_eq!(state.progress, Some(Progress::Indeterminate));
    state.set_operation_failed("Broken".to_string());
    assert!(state.controls_enabled());
    assert_eq!(state.error.as_deref(), Some("Broken"));
    state.start_determinate_operation("Working...".to_string());
    assert_eq!(state.progress, Some(Progress::Determinate { done: 0, total: 1 }));
    state.finish_operation();
    assert!(state.controls_enabled());
    assert_eq!(state.progress, None);
    assert_eq!(state.error.as_deref(), Some("Broken"));
}

#[test]
fn says_that_the_latest_version_is_installed() {
    let mut state = state();
    state.set_nextui_release(release("v6.0.1"));
    state.set_nextui_tag(tag("v6.0.1", "abcdef0123456789"));
    let screen = nextui_ui(&state, Some("abcdef0"));
    assert_eq!(
        screen.label,
        "You currently have the latest available version:\nNextUI v6.0.1"
    );
    assert!(!screen.update_available);
}

#[test]
fn says_that_a_new_version_is_there() {
    let mut state = state();
    state.set_nextui_release(release("v6.0.1"));
    state.set_nextui_tag(tag("v6.0.1", "abcdef0123456789"));
    let screen = nextui_ui(&state, Some("1234567"));
    assert_eq!(screen.label, "New version available: NextUI v6.0.1");
    assert!(screen.update_available);
}

#[test]
fn names_the_release_where_the_versions_cannot_be_compared() {
    let mut state = state();
    state.set_nextui_release(release("v6.0.1"));
    let screen = nextui_ui(&state, Some("1234567"));
    assert_eq!(screen.label, "Latest version: NextUI v6.0.1");
    assert!(screen.update_available);
    state.set_nextui_tag(tag("v6.0.1", "abcdef0"));
    assert_eq!(nextui_ui(&state, None).label, "Latest version: NextUI v6.0.1");
}

#[test]
fn says_that_nothing_is_known() {
    let mut state = state();
    let screen = nextui_ui(&state, Some("1234567"));
    assert_eq!(screen.label, "No release information available");
    assert!(screen.update_available);
    state.set_nextui_tag(tag("v6.0.1", "abcdef0"));
    assert_eq!(nextui_ui(&state, None).label, "No release information available");
}

#[test]
fn update_buttons_ask_and_hint() {
    let mut state = state();
    state.error = Some("old".to_string());
    assert_eq!(press_update(&mut state, UP, UP), NextuiOrders { quick: false, full: false });
    assert_eq!(state.error.as_deref(), Some("old"));
    assert_eq!(state.hint, None);
    assert_eq!(press_update(&mut state, FOCUSED, CLICKED), NextuiOrders { quick: false, full: true });
    assert_eq!(state.error, None);
    assert_eq!(state.hint.as_deref(), Some("Update MinUI.zip only"));
    assert_eq!(press_update(&mut state, CLICKED, FOCUSED), NextuiOrders { quick: true, full: false });
    assert_eq!(state.hint.as_deref(), Some("Extract full zip files (base + extras)"));
}

#[test]
fn quit_button_quits() {
    let mut state = state();
    state.hint = Some("stays".to_string());
    press_quit(&mut state, FOCUSED);
    assert!(!state.should_quit);
    press_quit(&mut state, CLICKED);
    assert!(state.should_quit);
    assert_eq!(state.hint.as_deref(), Some("stays"));
}

#[test]
fn pakman_menu_names_its_release() {
    let mut state = state();
    assert_eq!(pakman_ui(&state), None);
    state.pakman_release = release("v0.3");
    assert_eq!(pakman_ui(&state).as_deref(), Some("Latest version: Pakman v0.3"));
    state.error = Some("old".to_string());
    assert!(!press_pakman(&mut state, FOCUSED));
    assert_eq!(state.error.as_deref(), Some("old"));
    assert_eq!(state.hint.as_deref(), Some("Update pakman by josegonzalez (aka savant)"));
    assert!(press_pakman(&mut state, CLICKED));
    assert_eq!(state.error, None);
    assert_eq!(state.hint, None);
}

#[test]
fn main_menu_goes_where_it_was_asked() {
    let mut state = state();
    state.enter_submenu(Submenu::Main);
    assert_eq!(
        press_menu(&mut state, FOCUSED, UP, UP),
        MenuOrders { check_nextui: false, check_pakman: false }
    );
    assert_eq!(state.submenu, Submenu::Main);
    assert_eq!(state.hint.as_deref(), Some("Update NextUI"));
    assert_eq!(
        press_menu(&mut state, CLICKED, FOCUSED, UP),
        MenuOrders { check_nextui: true, check_pakman: false }
    );
    assert_eq!(state.submenu, Submenu::NextUI);
    assert_eq!(state.hint.as_deref(), Some("Update pakman by josegonzalez (aka savant)"));
    assert_eq!(
        press_menu(&mut state, UP, CLICKED, UP),
        MenuOrders { check_nextui: false, check_pakman: true }
    );
    assert_eq!(state.submenu, Submenu::Pakman);
    assert_eq!(state.hint, None);
    assert!(!state.should_quit);
    press_menu(&mut state, UP, UP, CLICKED);
    assert!(state.should_quit);
}

#[test]
fn heading_names_the_version() {
    assert_eq!(heading("1.2.3"), "NextUI Updater 1.2.3");
}

#[test]
fn buttons_stand_for_keys() {
    assert_eq!(controller_to_key(Button::DPadUp), Some(Key::Up));
    assert_eq!(controller_to_key(Button::DPadDown), Some(Key::Down));
    assert_eq!(controller_to_key(Button::DPadLeft), Some(Key::Left));
    assert_eq!(controller_to_key(Button::DPadRight), Some(Key::Right));
    assert_eq!(controller_to_key(Button::B), Some(Key::Return));
    assert_eq!(controller_to_key(Button::A), Some(Key::Escape));
    assert_eq!(controller_to_key(Button::Other), None);
}

#[test]
fn letting_the_back_button_go_quits() {
    let mut state = state();
    assert_eq!(
        handle_input(&mut state, Input::ButtonDown(Button::A)),
        Reaction::KeyDown(Key::Escape)
    );
    assert!(!state.should_quit);
    assert_eq!(handle_input(&mut state, Input::ButtonUp(Button::A)), Reaction::KeyUp(Key::Escape));
    assert!(state.should_quit);
}

#[test]
fn other_input_reaches_the_widgets() {
    let mut state = state();
    assert_eq!(
        handle_input(&mut state, Input::ButtonUp(Button::B)),
        Reaction::KeyUp(Key::Return)
    );
    assert_eq!(handle_input(&mut state, Input::ButtonDown(Button::Other)), Reaction::Ignore);
    assert_eq!(handle_input(&mut state, Input::ButtonUp(Button::Other)), Reaction::Ignore);
    assert_eq!(handle_input(&mut state, Input::Other), Reaction::Forward);
    assert_eq!(handle_input(&mut state, Input::Quit), Reaction::Stop);
    assert!(!state.should_quit);
    assert_eq!(handle_input(&mut state, Input::EscapeDown), Reaction::Ignore);
    assert!(state.should_quit);
}

fn search(joysticks: &[(bool, bool)]) -> Option<u32> {
    let mut search = ControllerSearch::new(joysticks.len() as u32);
    loop {
        search = match search {
            ControllerSearch::Probe { id, .. } => search.resume(joysticks[id as usize].0),
            ControllerSearch::Open { id, .. } => search.resume(joysticks[id as usize].1),
            ControllerSearch::Done(found) => return found,
        };
    }
}

#[test]
fn finds_the_first_controller_that_opens() {
    assert_eq!(search(&[]), None);
    assert_eq!(search(&[(false, true), (true, false)]), None);
    assert_eq!(search(&[(false, true), (true, false), (true, true), (true, true)]), Some(2));
    assert_eq!(search(&[(true, true)]), Some(0));
}
