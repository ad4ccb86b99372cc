//! Presentation side: the decision logic behind the window's callbacks and
//! the single-threaded consumer that applies downstream state to the UI.

use vstd::prelude::*;

pub mod tray;

use crate::chan::IntentSender;
use crate::chan::StateSender;
use crate::task::engine_init;
use crate::task::op_emissions_upto;
use crate::task::Action;
use crate::task::AppState;
use crate::task::EngineEvent;
use crate::task::Operation;
use crate::task::TaskEngine;
use crate::task::state::UploadState;
use crate::task::state::WindowState;

verus! {

/// A user interaction on the upload page.
#[derive(Debug, Clone, Copy, PartialEq, Eq, Structural)]
pub enum UiEvent {
    /// The upload button was pressed
    DoUpload,
    /// The cancel button was pressed
    CancelUpload,
}

/// Reply to the window's close request: this shell hides to the tray rather
/// than quitting, unless the user declines.
#[derive(Debug, Clone, Copy, PartialEq, Eq, Structural)]
pub enum CloseDecision {
    /// Hide the window; the process stays resident in the tray
    HideWindow,
    /// Keep the window as it is
    KeepWindowShown,
}

/// What one UI event puts on the wires: a value reflected downstream at
/// once so the page reacts immediately, and the same value handed upstream
/// as the user's intent.
#[derive(Debug, Clone, Copy, PartialEq, Eq)]
pub struct EventResponse {
    /// Reflected on the downstream channel for immediate rendering
    pub downstream: Option<AppState>,
    /// Sent on the upstream channel as intent for the engine
    pub upstream: Option<AppState>,
}

/// The window's callback handler. Callbacks must be registered before any
/// event can be dispatched.
#[derive(Debug, Clone, Copy, PartialEq, Eq, Structural)]
pub struct Handler {
    /// The page callbacks have been wired up
    pub callbacks_registered: bool,
}

impl Handler {
    /// What each page event puts on the two channels: a press of the upload
    /// button starts an upload at progress zero, a press of the cancel
    /// button requests cancellation; both are rendered at once and handed
    /// to the engine.
    pub open spec fn response_spec(ev: UiEvent) -> EventResponse {
        match ev {
            UiEvent::DoUpload => EventResponse {
                downstream: Some(AppState::Upload(UploadState::Uploading { progress: 0 })),
                upstream: Some(AppState::Upload(UploadState::Uploading { progress: 0 })),
            },
            UiEvent::CancelUpload => EventResponse {
                downstream: Some(AppState::Upload(UploadState::Cancelling)),
                upstream: Some(AppState::Upload(UploadState::Cancelling)),
            },
        }
    }

    /// What the close request does: unless the user declined, the window
    /// hides to the tray and the hidden state is reflected downstream.
    /// `confirmed` is `None` where the platform offers no confirmation
    /// dialog; that defaults to confirmed so shutdown is never blocked.
    pub open spec fn close_spec(confirmed: Option<bool>) -> (CloseDecision, Option<AppState>) {
        match confirmed {
            Some(false) => (CloseDecision::KeepWindowShown, None),
            _ => (CloseDecision::HideWindow, Some(AppState::Window(WindowState::Hidden))),
        }
    }

    /// A handler whose callbacks are not yet wired up.
    pub fn init() -> (h: Handler)
        ensures
            !h.callbacks_registered,
    {
        Handler { callbacks_registered: false }
    }

    /// Wire up the page callbacks; only then may events be dispatched.
    pub fn register_callback(self) -> (h: Handler)
        ensures
            h.callbacks_registered,
    {
        Handler { callbacks_registered: true }
    }

    /// The decision a registered callback takes for one page event.
    pub fn on_event(&self, ev: UiEvent) -> (r: EventResponse)
        requires
            self.callbacks_registered,
        ensures
            r == Handler::response_spec(ev),
    {
        match ev {
            UiEvent::DoUpload => EventResponse {
                downstream: Some(AppState::Upload(UploadState::Uploading { progress: 0 })),
                upstream: Some(AppState::Upload(UploadState::Uploading { progress: 0 })),
            },
            UiEvent::CancelUpload => EventResponse {
                downstream: Some(AppState::Upload(UploadState::Cancelling)),
                upstream: Some(AppState::Upload(UploadState::Cancelling)),
            },
        }
    }

    /// The decision the close-requested callback takes.
    pub fn on_close_requested(&self, confirmed: Option<bool>) -> (r: (
        CloseDecision,
        Option<AppState>,
    ))
        requires
            self.callbacks_registered,
        ensures
            r == Handler::close_spec(confirmed),
    {
        match confirmed {
            Some(false) => (CloseDecision::KeepWindowShown, None),
            _ => (CloseDecision::HideWindow, Some(AppState::Window(WindowState::Hidden))),
        }
    }

    /// Take the decision for one page event and put it on the wires, as the
    /// registered callbacks do. Send failures mean the other side is gone
    /// and are deliberately ignored, as everywhere in this shell.
    pub fn dispatch_event(&self, ev: UiEvent, down: &StateSender, up: &IntentSender) -> (r:
        EventResponse)
        requires
            self.callbacks_registered,
        ensures
            r == Handler::response_spec(ev),
    {
        let r = self.on_event(ev);
        if let Some(s) = r.downstream {
            let _ = down.send_blocking(s);
        }
        if let Some(s) = r.upstream {
            let _ = up.send_intent(s);
        }
        r
    }
}

/// A visual update the presentation adapter marshals onto the UI thread.
#[derive(Debug, Clone, Copy, PartialEq, Eq, Structural)]
pub enum UiAction {
    /// Show the upload page at rest
    SetIdle,
    /// Show the upload page at the given progress (hundredths)
    SetUploading { progress: u8 },
    /// Show the upload page cancelling
    SetCancelling,
    /// Show the window and toggle the tray affordance
    ShowWindow,
    /// Hide the window and toggle the tray affordance
    HideWindow,
    /// Nothing to render; `Closed` is the engine's business, not the
    /// renderer's
    Ignore,
}

/// The visual update each downstream state value calls for.
pub open spec fn ui_action_spec(s: AppState) -> UiAction {
    match s {
        AppState::Upload(UploadState::Idle) => UiAction::SetIdle,
        AppState::Upload(UploadState::Uploading { progress }) => UiAction::SetUploading {
            progress,
        },
        AppState::Upload(UploadState::Cancelling) => UiAction::SetCancelling,
        AppState::Window(WindowState::Shown) => UiAction::ShowWindow,
        AppState::Window(WindowState::Hidden) => UiAction::HideWindow,
        AppState::Window(WindowState::Closed) => UiAction::Ignore,
    }
}

/// The presentation adapter: the single consumer of the downstream channel.
/// It tracks only what it last rendered; the engine's state is whatever the
/// last consumed message said.
#[derive(Debug, Clone, Copy, PartialEq, Eq, Structural)]
pub struct StateHandler {
    /// The upload state last applied to the page
    pub rendered: UploadState,
}

impl StateHandler {
    /// A fresh adapter; the page starts at rest.
    pub fn init() -> (h: StateHandler)
        ensures
            h.rendered == UploadState::Idle,
    {
        StateHandler { rendered: UploadState::Idle }
    }

    /// Consume one downstream value: decide the visual update to marshal
    /// onto the UI thread and remember what the page now shows.
    pub fn apply(&mut self, s: AppState) -> (a: UiAction)
        ensures
            a == ui_action_spec(s),
            final(self).rendered == (match s {
                AppState::Upload(u) => u,
                AppState::Window(_) => old(self).rendered,
            }),
    {
        match s {
            AppState::Upload(u) => {
                self.rendered = u;
                match u {
                    UploadState::Idle => UiAction::SetIdle,
                    UploadState::Uploading { progress } => UiAction::SetUploading { progress },
                    UploadState::Cancelling => UiAction::SetCancelling,
                }
            },
            AppState::Window(WindowState::Shown) => UiAction::ShowWindow,
            AppState::Window(WindowState::Hidden) => UiAction::HideWindow,
            AppState::Window(WindowState::Closed) => UiAction::Ignore,
        }
    }
}

/// Everything the quick-cancel session puts downstream, seen from the UI:
/// the button's immediate `Uploading` at progress zero, the `k` progress
/// values the operation managed before the cancel button, the button's
/// immediate `Cancelling`, and the engine's terminal `Idle` once the
/// operation's termination is confirmed.
pub open spec fn ui_cancel_run_emissions(k: int) -> Seq<AppState> {
    seq![AppState::Upload(UploadState::Uploading { progress: 0 })] + op_emissions_upto(k) + seq![
        AppState::Upload(UploadState::Cancelling),
        AppState::Upload(UploadState::Idle),
    ]
}

/// Deterministic replay of the session in which the user presses upload and
/// then cancel while the operation has made `k` steps of progress. Returns
/// the downstream emissions in order and the final engine: ready again, no
/// handle leaked.
pub fn run_ui_upload_cancel(k: u8) -> (r: (Vec<AppState>, TaskEngine))
    requires
        k < 100,
    ensures
        r.0@ == ui_cancel_run_emissions(k as int),
        r.1 == engine_init(),
{
    let handler = Handler::init().register_callback();
    let mut engine = TaskEngine::init();
    let mut v: Vec<AppState> = Vec::new();

    let start = handler.on_event(UiEvent::DoUpload);
    if let Some(s) = start.downstream {
        v.push(s);
    }
    let a = engine.handle_event(
        EngineEvent::Intent(AppState::Upload(UploadState::Uploading { progress: 0 })),
    );
    assert(a == Action::StartOperation);

    let mut op = Operation::new();
    proof {
        assert(v@ =~= seq![
            AppState::Upload(UploadState::Uploading { progress: 0 }),
        ] + op_emissions_upto(0));
    }
    while op.progress < k
        invariant
            k < 100,
            op.progress <= k,
            v@ == seq![AppState::Upload(UploadState::Uploading { progress: 0 })]
                + op_emissions_upto(op.progress as int),
            engine == (TaskEngine { active: true, closed: false }),
        decreases k - op.progress,
    {
        let em = op.step();
        v.push(em);
        proof {
            assert(v@ =~= seq![
                AppState::Upload(UploadState::Uploading { progress: 0 }),
            ] + op_emissions_upto(op.progress as int));
        }
    }

    let cancel = handler.on_event(UiEvent::CancelUpload);
    if let Some(s) = cancel.downstream {
        v.push(s);
    }
    let c = engine.handle_event(EngineEvent::Intent(AppState::Upload(UploadState::Cancelling)));
    assert(c == Action::CancelOperation);
    v.push(Operation::terminal_emission());
    proof {
        assert(v@ =~= ui_cancel_run_emissions(k as int));
    }
    (v, engine)
}

} // verus!
