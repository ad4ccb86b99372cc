use picgox::chan::IntentSender;
use picgox::chan::StateSender;
use picgox::gui::tray::Tray;
use picgox::gui::Handler;
use picgox::gui::UiEvent;
use picgox::task::state::UploadState;
use picgox::task::state::WindowState;
use picgox::task::AppState;
use picgox::task::EngineEvent;

#[test]
fn state_sender_delivers_the_very_value() {
    let (tx, mut rx) = tokio::sync::mpsc::channel::<AppState>(4);
    let sender = StateSender::new(tx);
    let sent = AppState::Upload(UploadState::Uploading { progress: 37 });
    assert_eq!(sender.send_blocking(sent), Ok(()));
    assert_eq!(rx.blocking_recv(), Some(sent));
}

#[test]
fn state_sender_keeps_fifo_order() {
    let (tx, mut rx) = tokio::sync::mpsc::channel::<AppState>(4);
    let sender = StateSender::new(tx);
    let first = AppState::Upload(UploadState::Uploading { progress: 1 });
    let second = AppState::Upload(UploadState::Idle);
    assert_eq!(sender.send_blocking(first), Ok(()));
    assert_eq!(sender.send_blocking(second), Ok(()));
    assert_eq!(rx.blocking_recv(), Some(first));
    assert_eq!(rx.blocking_recv(), Some(second));
}

#[test]
fn state_sender_hands_the_value_back_when_the_receiver_is_gone() {
    let (tx, rx) = tokio::sync::mpsc::channel::<AppState>(1);
    drop(rx);
    let sender = StateSender::new(tx);
    let sent = AppState::Window(WindowState::Hidden);
    assert_eq!(sender.send_blocking(sent), Err(sent));
}

#[test]
fn intent_sender_wraps_the_state_as_an_intent() {
    let (tx, mut rx) = tokio::sync::mpsc::channel::<EngineEvent>(4);
    let sender = IntentSender::new(tx);
    let state = AppState::Upload(UploadState::Cancelling);
    assert_eq!(sender.send_intent(state), Ok(()));
    assert_eq!(rx.blocking_recv(), Some(EngineEvent::Intent(state)));
}

#[test]
fn intent_sender_hands_the_event_back_when_the_receiver_is_gone() {
    let (tx, rx) = tokio::sync::mpsc::channel::<EngineEvent>(256);
    drop(rx);
    let sender = IntentSender::new(tx);
    let state = AppState::Window(WindowState::Closed);
    assert_eq!(sender.send_intent(state), Err(EngineEvent::Intent(state)));
}

#[test]
fn dispatching_an_upload_press_puts_the_start_on_both_wires() {
    let (dtx, mut drx) = tokio::sync::mpsc::channel::<AppState>(4);
    let (utx, mut urx) = tokio::sync::mpsc::channel::<EngineEvent>(4);
    let down = StateSender::new(dtx);
    let up = IntentSender::new(utx);
    let handler = Handler::init().register_callback();

    let r = handler.dispatch_event(UiEvent::DoUpload, &down, &up);
    let started = AppState::Upload(UploadState::Uploading { progress: 0 });
    assert_eq!(r.downstream, Some(started));
    assert_eq!(r.upstream, Some(started));
    assert_eq!(drx.blocking_recv(), Some(started));
    assert_eq!(urx.blocking_recv(), Some(EngineEvent::Intent(started)));
}

#[test]
fn dispatching_the_tray_toggle_reflects_the_opposite_visibility() {
    let (dtx, mut drx) = tokio::sync::mpsc::channel::<AppState>(4);
    let down = StateSender::new(dtx);
    let tray = Tray::init();
    let sent = tray.dispatch_toggle(&down);
    assert_eq!(sent, AppState::Window(WindowState::Hidden));
    assert_eq!(drx.blocking_recv(), Some(sent));
}

#[test]
fn dispatching_a_confirmed_quit_sends_closed_upstream() {
    let (utx, mut urx) = tokio::sync::mpsc::channel::<EngineEvent>(4);
    let up = IntentSender::new(utx);
    let sent = Tray::dispatch_quit(None, &up);
    assert_eq!(sent, Some(AppState::Window(WindowState::Closed)));
    assert_eq!(
        urx.blocking_recv(),
        Some(EngineEvent::Intent(AppState::Window(WindowState::Closed)))
    );

    let declined = Tray::dispatch_quit(Some(false), &up);
    assert_eq!(declined, None);
}
