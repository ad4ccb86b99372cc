use picgox::gui::tray::Tray;
use picgox::gui::tray::TrayLabel;
use picgox::gui::CloseDecision;
use picgox::gui::Handler;
use picgox::gui::StateHandler;
use picgox::gui::UiAction;
use picgox::gui::UiEvent;
use picgox::task::state::UploadState;
use picgox::task::state::WindowState;
use picgox::task::AppState;

#[test]
fn upload_button_sends_a_fresh_start_both_ways() {
    let h = Handler::init().register_callback();
    let r = h.on_event(UiEvent::DoUpload);
    let started = AppState::Upload(UploadState::Uploading { progress: 0 });
    assert_eq!(r.downstream, Some(started));
    assert_eq!(r.upstream, Some(started));
}

#[test]
fn cancel_button_sends_cancelling_both_ways() {
    let h = Handler::init().register_callback();
    let r = h.on_event(UiEvent::CancelUpload);
    assert_eq!(r.downstream, Some(AppState::Upload(UploadState::Cancelling)));
    assert_eq!(r.upstream, Some(AppState::Upload(UploadState::Cancelling)));
}

#[test]
fn close_request_hides_to_tray_unless_declined() {
    let h = Handler::init().register_callback();

    let (d, sent) = h.on_close_requested(Some(true));
    assert_eq!(d, CloseDecision::HideWindow);
    assert_eq!(sent, Some(AppState::Window(WindowState::Hidden)));

    // No dialog on this platform: default to confirmed.
    let (d, sent) = h.on_close_requested(None);
    assert_eq!(d, CloseDecision::HideWindow);
    assert_eq!(sent, Some(AppState::Window(WindowState::Hidden)));

    let (d, sent) = h.on_close_requested(Some(false));
    assert_eq!(d, CloseDecision::KeepWindowShown);
    assert_eq!(sent, None);
}

#[test]
fn adapter_maps_each_state_to_its_visual_update() {
    let mut a = StateHandler::init();
    assert_eq!(a.rendered, UploadState::Idle);

    assert_eq!(
        a.apply(AppState::Upload(UploadState::Uploading { progress: 7 })),
        UiAction::SetUploading { progress: 7 }
    );
    assert_eq!(a.rendered, UploadState::Uploading { progress: 7 });

    assert_eq!(
        a.apply(AppState::Upload(UploadState::Cancelling)),
        UiAction::SetCancelling
    );
    assert_eq!(a.rendered, UploadState::Cancelling);

    assert_eq!(a.apply(AppState::Upload(UploadState::Idle)), UiAction::SetIdle);
    assert_eq!(a.rendered, UploadState::Idle);

    // Window states toggle visibility but never touch the rendered page.
    assert_eq!(a.apply(AppState::Window(WindowState::Shown)), UiAction::ShowWindow);
    assert_eq!(a.apply(AppState::Window(WindowState::Hidden)), UiAction::HideWindow);
    assert_eq!(a.apply(AppState::Window(WindowState::Closed)), UiAction::Ignore);
    assert_eq!(a.rendered, UploadState::Idle);
}

#[test]
fn tray_toggle_flips_state_and_label() {
    let mut t = Tray::init();
    assert!(t.shown);

    let l = t.toggle_button();
    assert!(!t.shown);
    assert_eq!(l, TrayLabel::ShowWindow);

    let l = t.toggle_button();
    assert!(t.shown);
    assert_eq!(l, TrayLabel::ExitToTray);
}

#[test]
fn tray_quit_defaults_to_confirmed_without_a_dialog() {
    let closed = AppState::Window(WindowState::Closed);
    assert_eq!(Tray::quit_intent(Some(true)), Some(closed));
    assert_eq!(Tray::quit_intent(None), Some(closed));
    assert_eq!(Tray::quit_intent(Some(false)), None);
}
