//! The game controller: finding it, and what its buttons mean.

use crate::app_state::{AppState, AppStateView};
use vstd::prelude::*;

verus! {

/// The buttons of a game controller that mean something here.
#[derive(Clone, Copy, Debug, PartialEq, Eq, Structural)]
pub enum Button {
    DPadUp,
    DPadDown,
    DPadLeft,
    DPadRight,
    A,
    B,
    Other,
}

/// The keys that the buttons stand for.
#[derive(Clone, Copy, Debug, PartialEq, Eq, Structural)]
pub enum Key {
    Up,
    Down,
    Left,
    Right,
    Return,
    Escape,
}

/// The key that a button stands for, where it stands for one.
pub open spec fn key_of(button: Button) -> Option<Key> {
    match button {
        Button::DPadUp => Some(Key::Up),
        Button::DPadDown => Some(Key::Down),
        Button::DPadLeft => Some(Key::Left),
        Button::DPadRight => Some(Key::Right),
        Button::B => Some(Key::Return),
        Button::A => Some(Key::Escape),
        Button::Other => None,
    }
}

/// The key that a button stands for, where it stands for one.
pub fn controller_to_key(button: Button) -> (r: Option<Key>)
    ensures
        r == key_of(button),
{
    match button {
        Button::DPadUp => Some(Key::Up),
        Button::DPadDown => Some(Key::Down),
        Button::DPadLeft => Some(Key::Left),
        Button::DPadRight => Some(Key::Right),
        Button::B => Some(Key::Return),
        Button::A => Some(Key::Escape),
        Button::Other => None,
    }
}

/// What a user did.
#[derive(Clone, Copy, Debug, PartialEq, Eq, Structural)]
pub enum Input {
    /// The window was closed.
    Quit,
    ButtonDown(Button),
    ButtonUp(Button),
    /// The escape key of a keyboard went down.
    EscapeDown,
    Other,
}

/// What follows from it.
#[derive(Clone, Copy, Debug, PartialEq, Eq, Structural)]
pub enum Reaction {
    /// The main loop ends at once.
    Stop,
    /// The widgets are told that this key went down.
    KeyDown(Key),
    /// The widgets are told that this key went up.
    KeyUp(Key),
    /// The widgets are told nothing.
    Ignore,
    /// The widgets are told what the user did.
    Forward,
}

/// Whether what the user did means going back, which ends the program: letting
/// the button `A` go, or pressing the escape key.
pub open spec fn goes_back(input: Input) -> bool {
    input == Input::ButtonUp(Button::A) || input == Input::EscapeDown
}

/// What the widgets are told of what a user did.
pub open spec fn reaction(input: Input) -> Reaction {
    match input {
        Input::Quit => Reaction::Stop,
        Input::ButtonDown(button) => match key_of(button) {
            Some(key) => Reaction::KeyDown(key),
            None => Reaction::Ignore,
        },
        Input::ButtonUp(button) => match key_of(button) {
            Some(key) => Reaction::KeyUp(key),
            None => Reaction::Ignore,
        },
        Input::EscapeDown => Reaction::Ignore,
        Input::Other => Reaction::Forward,
    }
}

/// Reacts to what a user did.
pub fn handle_input(app_state: &mut AppState, input: Input) -> (r: Reaction)
    ensures
        r == reaction(input),
        final(app_state)@ == (AppStateView {
            should_quit: old(app_state)@.should_quit || goes_back(input),
            ..old(app_state)@
        }),
{
    match input {
        Input::Quit => Reaction::Stop,
        Input::ButtonDown(button) => match controller_to_key(button) {
            Some(key) => Reaction::KeyDown(key),
            None => Reaction::Ignore,
        },
        Input::ButtonUp(button) => {
            if button == Button::A {
                app_state.quit();
            }
            match controller_to_key(button) {
                Some(key) => Reaction::KeyUp(key),
                None => Reaction::Ignore,
            }
        },
        Input::EscapeDown => {
            app_state.quit();
            Reaction::Ignore
        },
        Input::Other => Reaction::Forward,
    }
}

/// The search for a controller among the joysticks that are there, numbered from
/// zero: what is to be found out next, or what was found.
#[derive(Clone, Copy, Debug, PartialEq, Eq, Structural)]
pub enum ControllerSearch {
    /// Is this joystick a game controller?
    Probe { id: u32, available: u32 },
    /// Can this game controller be opened?
    Open { id: u32, available: u32 },
    /// The controller that was opened, if one was.
    Done(Option<u32>),
}

/// The search goes on from a joystick.
pub open spec fn search_from(id: int, available: u32) -> ControllerSearch {
    if id < available {
        ControllerSearch::Probe { id: id as u32, available }
    } else {
        ControllerSearch::Done(None)
    }
}

/// The search goes on with the answer to its question: a joystick that is no
/// controller, or cannot be opened, is passed over, and the first that can be
/// opened is it.
pub open spec fn search_resumed(search: ControllerSearch, answer: bool) -> ControllerSearch {
    match search {
        ControllerSearch::Probe { id, available } => if answer {
            ControllerSearch::Open { id, available }
        } else {
            search_from(id + 1, available)
        },
        ControllerSearch::Open { id, available } => if answer {
            ControllerSearch::Done(Some(id))
        } else {
            search_from(id + 1, available)
        },
        ControllerSearch::Done(_) => search,
    }
}

impl ControllerSearch {
    /// Joysticks are asked about that are there.
    pub open spec fn well_formed(self) -> bool {
        match self {
            ControllerSearch::Probe { id, available } => id < available,
            ControllerSearch::Open { id, available } => id < available,
            ControllerSearch::Done(_) => true,
        }
    }

    fn from(id: u32, available: u32) -> (r: ControllerSearch)
        ensures
            r == search_from(id as int, available),
    {
        if id < available {
            ControllerSearch::Probe { id, available }
        } else {
            ControllerSearch::Done(None)
        }
    }

    /// Begins the search among the joysticks that are there.
    pub fn new(available: u32) -> (r: ControllerSearch)
        ensures
            r == search_from(0, available),
            r.well_formed(),
    {
        ControllerSearch::from(0, available)
    }

    /// Goes on with the answer to the search's question.
    pub fn resume(self, answer: bool) -> (r: ControllerSearch)
        requires
            self.well_formed(),
        ensures
            r == search_resumed(self, answer),
            r.well_formed(),
    {
        match self {
            ControllerSearch::Probe { id, available } => if answer {
                ControllerSearch::Open { id, available }
            } else {
                ControllerSearch::from(id + 1, available)
            },
            ControllerSearch::Open { id, available } => if answer {
                ControllerSearch::Done(Some(id))
            } else {
                ControllerSearch::from(id + 1, available)
            },
            ControllerSearch::Done(_) => self,
        }
    }
}

} // verus!
