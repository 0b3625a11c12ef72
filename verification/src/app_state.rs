//! What the updater shows, and what it has learned so far.

use crate::github::{Release, ReleaseView, Tag, TagView};
use crate::text::text_option;
use vstd::prelude::*;

verus! {

/// How far an operation has come: unknown, or a share of a whole.
#[derive(Clone, Copy, Debug, PartialEq, Eq, Structural)]
pub enum Progress {
    Indeterminate,
    Determinate { done: u64, total: u64 },
}

/// The menu on the screen.
#[derive(Clone, Copy, Debug, PartialEq, Eq, Structural)]
pub enum Submenu {
    Main,
    NextUI,
    Pakman,
}

/// How closely the NextUI operations follow their own stages.
///
/// With `Terse`, an update is announced once it is known what to update to, its
/// download begins without a share, and every failed request reads alike. With
/// `Staged`, an update is announced before anything else, its download begins
/// at nothing of the whole, and a failed request says which one it was.
#[derive(Clone, Copy, Debug, PartialEq, Eq, Structural)]
pub enum Reporting {
    Terse,
    Staged,
}

/// The state that the screen and the operations share.
#[derive(Debug)]
pub struct AppState {
    pub reporting: Reporting,
    pub submenu: Submenu,
    pub nextui_release: Option<Release>,
    pub nextui_tag: Option<Tag>,
    pub pakman_release: Option<Release>,
    pub current_operation: Option<String>,
    pub progress: Option<Progress>,
    pub error: Option<String>,
    pub hint: Option<String>,
    pub should_quit: bool,
}

#[verifier::ext_equal]
pub struct AppStateView {
    pub reporting: Reporting,
    pub submenu: Submenu,
    pub nextui_release: Option<ReleaseView>,
    pub nextui_tag: Option<TagView>,
    pub pakman_release: Option<ReleaseView>,
    pub current_operation: Option<Seq<char>>,
    pub progress: Option<Progress>,
    pub error: Option<Seq<char>>,
    pub hint: Option<Seq<char>>,
    pub should_quit: bool,
}

/// A release that may be missing, by its view.
pub open spec fn release_option(o: Option<Release>) -> Option<ReleaseView> {
    match o {
        Some(release) => Some(release@),
        None => None,
    }
}

/// A tag that may be missing, by its view.
pub open spec fn tag_option(o: Option<Tag>) -> Option<TagView> {
    match o {
        Some(tag) => Some(tag@),
        None => None,
    }
}

impl View for AppState {
    type V = AppStateView;

    open spec fn view(&self) -> AppStateView {
        AppStateView {
            reporting: self.reporting,
            submenu: self.submenu,
            nextui_release: release_option(self.nextui_release),
            nextui_tag: tag_option(self.nextui_tag),
            pakman_release: release_option(self.pakman_release),
            current_operation: text_option(self.current_operation),
            progress: self.progress,
            error: text_option(self.error),
            hint: text_option(self.hint),
            should_quit: self.should_quit,
        }
    }
}

impl AppStateView {
    /// A share is one of a whole that is not nothing.
    pub open spec fn well_formed(self) -> bool {
        self.progress matches Some(Progress::Determinate { total, .. }) ==> total > 0
    }

    /// No operation is under way.
    pub open spec fn idle(self) -> bool {
        self.current_operation is None && self.progress is None
    }

    /// The same state with another operation on the screen.
    pub open spec fn with_operation(self, operation: Seq<char>) -> AppStateView {
        AppStateView { current_operation: Some(operation), ..self }
    }

    /// An operation has begun, and nobody knows how long it takes.
    pub open spec fn started(self, operation: Seq<char>) -> AppStateView {
        AppStateView {
            current_operation: Some(operation),
            progress: Some(Progress::Indeterminate),
            ..self
        }
    }

    /// An operation has begun whose share of the whole will be known.
    pub open spec fn started_determinate(self, operation: Seq<char>) -> AppStateView {
        AppStateView {
            current_operation: Some(operation),
            progress: Some(Progress::Determinate { done: 0, total: 1 }),
            ..self
        }
    }

    /// The operation has ended well.
    pub open spec fn finished(self) -> AppStateView {
        AppStateView { current_operation: None, progress: None, ..self }
    }

    /// The operation has failed.
    pub open spec fn failed(self, message: Seq<char>) -> AppStateView {
        AppStateView { current_operation: None, progress: None, error: Some(message), ..self }
    }

    /// What no operation touches is the same in both states: the menu, the hint,
    /// the wish to quit and the way of reporting.
    pub open spec fn same_screen(self, other: AppStateView) -> bool {
        &&& self.reporting == other.reporting
        &&& self.submenu == other.submenu
        &&& self.hint == other.hint
        &&& self.should_quit == other.should_quit
    }
}

/// The state at the start of the program.
pub open spec fn initial_state(reporting: Reporting) -> AppStateView {
    AppStateView {
        reporting,
        submenu: Submenu::NextUI,
        nextui_release: None,
        nextui_tag: None,
        pakman_release: None,
        current_operation: None,
        progress: None,
        error: None,
        hint: None,
        should_quit: false,
    }
}

impl AppState {
    /// The state at the start of the program.
    pub fn new(reporting: Reporting) -> (r: AppState)
        ensures
            r@ == initial_state(reporting),
            r@.well_formed(),
    {
        AppState {
            reporting,
            submenu: Submenu::NextUI,
            nextui_release: None,
            nextui_tag: None,
            pakman_release: None,
            current_operation: None,
            progress: None,
            error: None,
            hint: None,
            should_quit: false,
        }
    }

    /// Puts an operation on the screen.
    pub fn set_current_operation(&mut self, operation: Option<String>)
        ensures
            final(self)@ == (AppStateView {
                current_operation: text_option(operation),
                ..old(self)@
            }),
    {
        self.current_operation = operation;
    }

    /// Shows how far a download has come, where that is known.
    pub fn update_progress(&mut self, progress: Option<Progress>)
        ensures
            final(self)@ == (match progress {
                Some(share) => AppStateView { progress: Some(share), ..old(self)@ },
                None => old(self)@,
            }),
    {
        if let Some(share) = progress {
            self.progress = Some(share);
        }
    }

    /// Begins an operation that takes nobody knows how long.
    pub fn start_operation(&mut self, operation: String)
        ensures
            final(self)@ == old(self)@.started(operation@),
    {
        self.current_operation = Some(operation);
        self.progress = Some(Progress::Indeterminate);
    }

    /// Begins an operation whose share of the whole will be known.
    pub fn start_determinate_operation(&mut self, operation: String)
        ensures
            final(self)@ == old(self)@.started_determinate(operation@),
    {
        self.current_operation = Some(operation);
        self.progress = Some(Progress::Determinate { done: 0, total: 1 });
    }

    /// Ends the operation.
    pub fn finish_operation(&mut self)
        ensures
            final(self)@ == old(self)@.finished(),
    {
        self.current_operation = None;
        self.progress = None;
    }

    /// Ends the operation with an error.
    pub fn set_operation_failed(&mut self, message: String)
        ensures
            final(self)@ == old(self)@.failed(message@),
    {
        self.current_operation = None;
        self.error = Some(message);
        self.progress = None;
    }

    /// Takes note of the latest release of NextUI.
    pub fn set_nextui_release(&mut self, release: Option<Release>)
        ensures
            final(self)@ == (AppStateView {
                nextui_release: release_option(release),
                ..old(self)@
            }),
    {
        self.nextui_release = release;
    }

    /// Takes note of the tag of the latest release of NextUI.
    pub fn set_nextui_tag(&mut self, tag: Option<Tag>)
        ensures
            final(self)@ == (AppStateView { nextui_tag: tag_option(tag), ..old(self)@ }),
    {
        self.nextui_tag = tag;
    }

    /// The latest release of NextUI, as far as it is known.
    pub fn nextui_release(&self) -> (r: Option<Release>)
        ensures
            release_option(r) == self@.nextui_release,
    {
        match &self.nextui_release {
            Some(release) => Some(release.clone()),
            None => None,
        }
    }

    /// Whether the controls can be used: no operation is named on the screen.
    pub fn controls_enabled(&self) -> (r: bool)
        ensures
            r == (self@.current_operation is None),
    {
        self.current_operation.is_none()
    }

    /// Goes to another menu.
    pub fn enter_submenu(&mut self, submenu: Submenu)
        ensures
            final(self)@ == (AppStateView { submenu, hint: None, ..old(self)@ }),
    {
        self.submenu = submenu;
        self.hint = None;
    }

    /// Asks for the end of the program.
    pub fn quit(&mut self)
        ensures
            final(self)@ == (AppStateView { should_quit: true, ..old(self)@ }),
    {
        self.should_quit = true;
    }

    /// Forgets the last error, before a new update is begun.
    pub fn clear_error(&mut self)
        ensures
            final(self)@ == (AppStateView { error: None, ..old(self)@ }),
    {
        self.error = None;
    }
}

} // verus!
