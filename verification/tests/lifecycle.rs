use photo_drop::errors::AppError;
use photo_drop::lifecycle::public_url;
use photo_drop::lifecycle::ServerHandle;
use photo_drop::lifecycle::SessionSlot;
use photo_drop::lifecycle::SERVER_PORT;

fn handle_with_url(url: &str) -> (ServerHandle, tokio::sync::oneshot::Receiver<()>) {
    let (tx, rx) = tokio::sync::oneshot::channel::<()>();
    (
        ServerHandle {
            shutdown_tx: tx,
            url: url.to_string(),
        },
        rx,
    )
}

#[test]
fn start_twice_yields_already_running() {
    let mut slot = SessionSlot::new();
    assert!(slot.check_can_start().is_ok());
    let (handle, _rx) = handle_with_url("http://192.168.1.15:7878");
    let url = slot.install(handle);
    assert_eq!(url, "http://192.168.1.15:7878");

    let second = slot.check_can_start();
    assert!(matches!(second, Err(AppError::AlreadyRunning)));

    // The session started first is unaffected.
    let info = slot.status();
    assert!(info.running);
    assert_eq!(info.url.as_deref(), Some("http://192.168.1.15:7878"));
}

#[test]
fn stop_without_session_yields_not_running() {
    let mut slot = SessionSlot::new();
    let r = slot.stop();
    assert!(matches!(r, Err(AppError::NotRunning)));
    assert!(!slot.status().running);
}

#[test]
fn status_tracks_start_and_stop() {
    let mut slot = SessionSlot::new();
    let before = slot.status();
    assert!(!before.running);
    assert!(before.url.is_none());

    let (handle, _rx) = handle_with_url("http://10.0.0.7:7878");
    let url = slot.install(handle);
    let running = slot.status();
    assert!(running.running);
    assert_eq!(running.url.as_deref(), Some(url.as_str()));

    assert!(slot.stop().is_ok());
    let stopped = slot.status();
    assert!(!stopped.running);
    assert!(stopped.url.is_none());
}

#[test]
fn stop_signals_the_shutdown_channel() {
    let mut slot = SessionSlot::new();
    let (handle, mut rx) = handle_with_url("http://10.0.0.7:7878");
    slot.install(handle);
    assert!(slot.stop().is_ok());
    assert!(rx.try_recv().is_ok());
}

#[test]
fn stop_tolerates_a_departed_receiver() {
    let mut slot = SessionSlot::new();
    let (handle, rx) = handle_with_url("http://10.0.0.7:7878");
    drop(rx);
    slot.install(handle);
    assert!(slot.stop().is_ok());
    assert!(!slot.status().running);
}

#[test]
fn public_url_spells_address_and_port() {
    assert_eq!(public_url("192.168.1.15"), "http://192.168.1.15:7878");
    assert_eq!(
        public_url("10.0.0.2"),
        format!("http://10.0.0.2:{}", SERVER_PORT)
    );
}

#[test]
fn error_messages_read_as_documented() {
    assert_eq!(
        AppError::Io("disk full".to_string()).message(),
        "IO error: disk full"
    );
    assert_eq!(
        AppError::NetworkDetection("no route".to_string()).message(),
        "Network error: failed to detect local IP address"
    );
    assert_eq!(
        AppError::Server("bind refused".to_string()).message(),
        "Server error: bind refused"
    );
    assert_eq!(
        AppError::Upload("stream cut".to_string()).message(),
        "Upload error: stream cut"
    );
    assert_eq!(AppError::AlreadyRunning.message(), "Server is already running");
    assert_eq!(AppError::NotRunning.message(), "Server is not running");
}
