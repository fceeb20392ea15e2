use wt_video_server::init::{
    listener_settings, validate_video, ListenerSettings, StartupError, ANY_PORT, KEEP_ALIVE_SECS,
    STARTUP_FAILURE_STATUS, VIDEO_PATH,
};

#[test]
fn listener_binds_any_port_and_probes_every_five_seconds() {
    assert_eq!(listener_settings(), ListenerSettings { bind_port: 0, keep_alive_secs: Some(5) });
    assert_eq!(ANY_PORT, 0);
    assert_eq!(KEEP_ALIVE_SECS, 5);
}

#[test]
fn present_media_file_lets_the_server_start() {
    assert_eq!(validate_video(true), Ok(()));
}

#[test]
fn missing_media_file_is_fatal() {
    assert_eq!(validate_video(false), Err(StartupError::MissingMedia));
    assert_eq!(StartupError::MissingMedia.exit_status(), 1);
    assert_eq!(STARTUP_FAILURE_STATUS, 1);
}

#[test]
fn media_file_is_test_mp4() {
    assert_eq!(VIDEO_PATH, "test.mp4");
}
