//! The window-lifecycle state machine.
//!
//! The application owns exactly one window. Its modelled visibility is
//! either [`Visibility::Visible`] or [`Visibility::Hidden`]; the window
//! starts visible and is never destroyed while the process runs. Native
//! events (a close request, a tray-menu selection, a second launch
//! attempt, the window's content becoming ready) are delivered one at a
//! time on the UI event loop; [`AppState::step`] consumes each event and
//! returns the single [`Action`] the host must perform.

use vstd::prelude::*;

verus! {

/// The modelled visibility of the one application window.
#[derive(Clone, Copy, Debug, PartialEq, Eq, Structural)]
pub enum Visibility {
    Visible,
    Hidden,
}

/// A tray-menu selection, identified by its stable tag.
///
/// The menu is fixed at construction: an entry tagged `"show"` and an
/// entry tagged `"quit"`. Any other tag the shell may deliver is
/// `Other` and is handled as an unrecognized diagnostic.
#[derive(Clone, Copy, Debug, PartialEq, Eq, Structural)]
pub enum TrayTag {
    Show,
    Quit,
    Other,
}

/// A native event delivered to the coordination logic.
#[derive(Clone, Copy, Debug, PartialEq, Eq, Structural)]
pub enum Event {
    /// The user asked the OS to close the window.
    CloseRequested,
    /// A tray-menu entry was selected.
    TrayMenu(TrayTag),
    /// A second process launch was redirected to this instance.
    SecondLaunch,
    /// The window's content finished loading, once per window creation.
    WindowReady,
}

/// The one native operation the host must perform after a step.
#[derive(Clone, Copy, Debug, PartialEq, Eq, Structural)]
pub enum Action {
    /// Nothing to do.
    NoOp,
    /// Request OS focus for the window.
    FocusWindow,
    /// Make the window visible.
    ShowWindow,
    /// Suppress the pending close and hide the window instead.
    PreventCloseAndHide,
    /// Run the style-injection payload against the window's content.
    InjectStyle,
    /// Terminate the process with the given exit code.
    Exit(i32),
    /// Log an "unhandled menu item" diagnostic; no state change.
    LogUnhandled,
    /// Log that the window could not be located; no state change.
    LogWindowMissing,
}

/// The process-scoped coordination state, constructed once at startup
/// and threaded through every event callback.
#[derive(Clone, Copy, Debug, PartialEq, Eq, Structural)]
pub struct AppState {
    /// The modelled visibility of the application window.
    pub visibility: Visibility,
    /// Whether the process is still running; cleared only by the tray's
    /// quit entry, the one path that terminates the process.
    pub running: bool,
}

/// The tag a tray-menu selection carries, as the shell delivers it.
///
/// The two entries this application installs are tagged `"show"` and
/// `"quit"`; every other tag maps to [`TrayTag::Other`].
pub open spec fn spec_parse_tray_tag(tag: Seq<char>) -> TrayTag {
    if tag == "show"@ {
        TrayTag::Show
    } else if tag == "quit"@ {
        TrayTag::Quit
    } else {
        TrayTag::Other
    }
}

/// Translate the tag string of a tray-menu selection into the menu
/// entry it names.
pub fn parse_tray_tag(tag: &str) -> (t: TrayTag)
    ensures
        t == spec_parse_tray_tag(tag@),
{
    let owned = tag.to_owned();
    let show = String::from_str("show");
    let quit = String::from_str("quit");
    if owned == show {
        TrayTag::Show
    } else if owned == quit {
        TrayTag::Quit
    } else {
        TrayTag::Other
    }
}

/// One entry of the tray menu: its stable tag, its display label, and
/// whether it can be selected.
pub struct TrayMenuEntry {
    pub tag: String,
    pub label: String,
    pub enabled: bool,
}

/// The tray configuration this application installs: the fixed
/// two-entry menu, immutable after construction, and the option that
/// clicking the icon's primary region opens the menu.
pub struct TrayConfig {
    pub entries: Vec<TrayMenuEntry>,
    pub menu_on_primary_click: bool,
}

/// Build the tray configuration: the show entry, then the quit entry,
/// both enabled, and each tag exactly one the selection handler
/// recognizes.
pub fn tray_config() -> (c: TrayConfig)
    ensures
        c.entries@.len() == 2,
        c.entries@[0].tag@ == "show"@,
        c.entries@[0].label@ == "Show"@,
        c.entries@[0].enabled,
        c.entries@[1].tag@ == "quit"@,
        c.entries@[1].label@ == "Quit"@,
        c.entries@[1].enabled,
        c.menu_on_primary_click,
        spec_parse_tray_tag(c.entries@[0].tag@) == TrayTag::Show,
        spec_parse_tray_tag(c.entries@[1].tag@) == TrayTag::Quit,
{
    proof {
        reveal_strlit("show");
        reveal_strlit("quit");
        assert("show"@[0] == 's');
        assert("quit"@[0] == 'q');
    }
    let mut entries: Vec<TrayMenuEntry> = Vec::new();
    entries.push(
        TrayMenuEntry { tag: String::from_str("show"), label: String::from_str("Show"), enabled: true },
    );
    entries.push(
        TrayMenuEntry { tag: String::from_str("quit"), label: String::from_str("Quit"), enabled: true },
    );
    TrayConfig { entries, menu_on_primary_click: true }
}

/// The window controller's visibility query: the window counts as
/// visible only when the underlying query succeeded and answered yes.
/// A failed query defaults to hidden, so that the tray's show entry
/// favors a show over a no-op.
pub fn visibility_of_query(q: Option<bool>) -> (v: bool)
    ensures
        v == (q == Some(true)),
{
    match q {
        Some(b) => b,
        None => false,
    }
}

/// The single-instance guard's translation of a redirected launch
/// attempt: the request's arguments and working directory are ignored,
/// only the occurrence matters.
pub fn launch_request_event(_args: &Vec<String>, _cwd: &String) -> (e: Event)
    ensures
        e == Event::SecondLaunch,
{
    Event::SecondLaunch
}

/// The transition function of the lifecycle state machine: from a state,
/// an event and whether the window could be located, to the next state
/// and the action the host must perform.
///
/// A state with `running == false` is inert: the process has exited and
/// no event can reach it, so every event leaves it unchanged.
pub open spec fn spec_step(s: AppState, event: Event, window_present: bool) -> (AppState, Action) {
    if !s.running {
        (s, Action::NoOp)
    } else {
        match event {
            Event::CloseRequested => (
                AppState { visibility: Visibility::Hidden, ..s },
                Action::PreventCloseAndHide,
            ),
            Event::TrayMenu(TrayTag::Show) => if !window_present {
                (s, Action::LogWindowMissing)
            } else if s.visibility == Visibility::Visible {
                (s, Action::FocusWindow)
            } else {
                (AppState { visibility: Visibility::Visible, ..s }, Action::ShowWindow)
            },
            Event::TrayMenu(TrayTag::Quit) => (
                AppState { running: false, ..s },
                Action::Exit(0),
            ),
            Event::TrayMenu(TrayTag::Other) => (s, Action::LogUnhandled),
            Event::SecondLaunch => if window_present {
                (s, Action::FocusWindow)
            } else {
                (s, Action::NoOp)
            },
            Event::WindowReady => if window_present {
                (s, Action::InjectStyle)
            } else {
                (s, Action::NoOp)
            },
        }
    }
}

impl AppState {
    /// The state at the end of startup: the window is created visible
    /// and the process is running.
    pub fn new() -> (s: AppState)
        ensures
            s.visibility == Visibility::Visible,
            s.running,
    {
        AppState { visibility: Visibility::Visible, running: true }
    }

    /// The modelled visibility query of the window controller.
    pub fn is_visible(&self) -> (v: bool)
        ensures
            v == (self.visibility == Visibility::Visible),
    {
        match self.visibility {
            Visibility::Visible => true,
            Visibility::Hidden => false,
        }
    }

    /// Consume one native event: move to the next state and return the
    /// action the host must perform. Exactly [`spec_step`].
    pub fn step(&mut self, event: Event, window_present: bool) -> (a: Action)
        ensures
            *final(self) == spec_step(*old(self), event, window_present).0,
            a == spec_step(*old(self), event, window_present).1,
    {
        if !self.running {
            return Action::NoOp;
        }
        match event {
            Event::CloseRequested => {
                self.visibility = Visibility::Hidden;
                Action::PreventCloseAndHide
            },
            Event::TrayMenu(TrayTag::Show) => {
                if !window_present {
                    Action::LogWindowMissing
                } else if self.is_visible() {
                    Action::FocusWindow
                } else {
                    self.visibility = Visibility::Visible;
                    Action::ShowWindow
                }
            },
            Event::TrayMenu(TrayTag::Quit) => {
                self.running = false;
                Action::Exit(0)
            },
            Event::TrayMenu(TrayTag::Other) => Action::LogUnhandled,
            Event::SecondLaunch => {
                if window_present {
                    Action::FocusWindow
                } else {
                    Action::NoOp
                }
            },
            Event::WindowReady => {
                if window_present {
                    Action::InjectStyle
                } else {
                    Action::NoOp
                }
            },
        }
    }
}

} // verus!
