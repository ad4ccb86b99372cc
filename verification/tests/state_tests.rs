use picgox::task::state::UploadState;
use picgox::task::state::WindowState;
use picgox::task::AppState;

#[test]
fn upload_state_converts_into_envelope() {
    assert_eq!(
        AppState::from(UploadState::Idle),
        AppState::Upload(UploadState::Idle)
    );
    assert_eq!(
        AppState::from(UploadState::Uploading { progress: 42 }),
        AppState::Upload(UploadState::Uploading { progress: 42 })
    );
    assert_eq!(
        AppState::from(UploadState::Cancelling),
        AppState::Upload(UploadState::Cancelling)
    );
}

#[test]
fn upload_round_trip_is_lossless() {
    let all = [
        UploadState::Idle,
        UploadState::Uploading { progress: 0 },
        UploadState::Uploading { progress: 100 },
        UploadState::Cancelling,
    ];
    for u in all {
        assert_eq!(AppState::from(u).as_upload(), Some(u));
    }
}

#[test]
fn window_states_do_not_round_trip_as_upload() {
    assert_eq!(AppState::Window(WindowState::Shown).as_upload(), None);
    assert_eq!(AppState::Window(WindowState::Hidden).as_upload(), None);
    assert_eq!(AppState::Window(WindowState::Closed).as_upload(), None);
}
