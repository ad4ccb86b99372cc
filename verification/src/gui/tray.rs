//! System tray affordance: one toggle entry whose label always names the
//! action it would take, and a quit entry guarded by a confirmation.

use vstd::prelude::*;

use crate::chan::IntentSender;
use crate::chan::StateSender;
use crate::task::AppState;
use crate::task::EngineEvent;
use crate::task::state::WindowState;

verus! {

/// The label on the tray's toggle entry: always the action a click would
/// take next.
#[derive(Debug, Clone, Copy, PartialEq, Eq, Structural)]
pub enum TrayLabel {
    /// Clicking hides the window to the tray
    ExitToTray,
    /// Clicking shows the window again
    ShowWindow,
}

/// The tray's own state: whether it believes the window is currently shown.
#[derive(Debug, Clone, Copy, PartialEq, Eq, Structural)]
pub struct Tray {
    /// The window is currently shown
    pub shown: bool,
}

impl Tray {
    /// The label that matches a visibility state: while shown, the entry
    /// offers to hide; while hidden, to show.
    pub open spec fn label_spec(shown: bool) -> TrayLabel {
        if shown {
            TrayLabel::ExitToTray
        } else {
            TrayLabel::ShowWindow
        }
    }

    /// The intent a click on the toggle entry sends: the opposite of the
    /// current visibility.
    pub open spec fn toggle_intent_spec(shown: bool) -> AppState {
        if shown {
            AppState::Window(WindowState::Hidden)
        } else {
            AppState::Window(WindowState::Shown)
        }
    }

    /// The intent the quit entry sends. `confirmed` is `None` where the
    /// platform offers no confirmation dialog; that defaults to confirmed
    /// so shutdown is never blocked.
    pub open spec fn quit_intent_spec(confirmed: Option<bool>) -> Option<AppState> {
        match confirmed {
            Some(false) => None,
            _ => Some(AppState::Window(WindowState::Closed)),
        }
    }

    /// A fresh tray; the window starts shown.
    pub fn init() -> (t: Tray)
        ensures
            t.shown,
    {
        Tray { shown: true }
    }

    /// Flip the tray's notion of visibility and hand back the label the
    /// toggle entry must now carry.
    pub fn toggle_button(&mut self) -> (l: TrayLabel)
        ensures
            final(self).shown == !old(self).shown,
            l == Tray::label_spec(final(self).shown),
    {
        self.shown = !self.shown;
        if self.shown {
            TrayLabel::ExitToTray
        } else {
            TrayLabel::ShowWindow
        }
    }

    /// A click on the toggle entry: put the opposite visibility on the
    /// downstream channel for the presentation adapter to apply. Send
    /// failures mean the other side is gone and are ignored.
    pub fn dispatch_toggle(&self, down: &StateSender) -> (s: AppState)
        ensures
            s == Tray::toggle_intent_spec(self.shown),
    {
        let s = if self.shown {
            AppState::Window(WindowState::Hidden)
        } else {
            AppState::Window(WindowState::Shown)
        };
        let _ = down.send_blocking(s);
        s
    }

    /// The decision the quit entry takes for one confirmation result.
    pub fn quit_intent(confirmed: Option<bool>) -> (r: Option<AppState>)
        ensures
            r == Tray::quit_intent_spec(confirmed),
    {
        match confirmed {
            Some(false) => None,
            _ => Some(AppState::Window(WindowState::Closed)),
        }
    }

    /// A click on the quit entry: unless the user declined, hand the
    /// terminal `Closed` intent to the engine.
    pub fn dispatch_quit(confirmed: Option<bool>, up: &IntentSender) -> (sent: Option<AppState>)
        ensures
            sent == Tray::quit_intent_spec(confirmed),
    {
        let sent = Tray::quit_intent(confirmed);
        if let Some(s) = sent {
            let _ = up.send_intent(s);
        }
        sent
    }
}

} // verus!
