use streamdeck_equibop::settings::{default_port, GlobalEventHandler, Settings, DEFAULT_PORT};

#[test]
fn default_settings_use_port_6789() {
    assert_eq!(default_port(), 6789);
    assert_eq!(DEFAULT_PORT, 6789);
    let s = Settings::default();
    assert_eq!(s.port, 6789);
    assert!(s.error.is_none());
}

#[test]
fn port_change_restarts_the_bridge() {
    let mut current = Settings::default();
    let restart = GlobalEventHandler::did_receive_global_settings(
        &mut current,
        Settings { port: 7000, error: None },
    );
    assert!(restart);
    assert_eq!(current.port, 7000);
    let restart = GlobalEventHandler::did_receive_global_settings(
        &mut current,
        Settings { port: 7000, error: Some("Could not bind".into()) },
    );
    assert!(!restart);
    assert_eq!(current.error.as_deref(), Some("Could not bind"));
}
