use intiface_core::{AppCore, IntifaceConfiguration, UpdateStatus};

#[test]
fn defaults_are_as_documented() {
    let config = IntifaceConfiguration::default();
    assert_eq!(config.server_name(), "Intiface Desktop Server");
    assert_eq!(config.server_max_ping_time(), 0);
    assert!(config.use_websocket_server_insecure());
    assert!(!config.websocket_server_all_interfaces());
    assert_eq!(config.websocket_server_insecure_port(), 12345);
    assert_eq!(config.server_log_level(), "info");
    assert!(!config.use_prerelease_engine());
    assert_eq!(config.current_engine_version(), 0);
    assert_eq!(config.current_device_file_version(), 0);
    assert!(config.check_for_updates_on_start());
    assert!(!config.has_run_setup());
    assert!(!config.device_file_update_available());
    assert!(!config.engine_update_available());
    assert!(!config.application_update_available());
    assert!(!config.has_usable_engine_executable());
    assert!(!config.start_server_on_startup());
    assert!(config.with_bluetooth_le());
    assert!(config.with_serial_port());
    assert!(config.with_hid());
    assert!(config.with_lovense_hid_dongle());
    assert!(config.with_lovense_serial_dongle());
    assert!(!config.with_lovense_connect_service());
    assert!(config.with_xinput());
}

#[test]
fn setters_change_one_field() {
    let mut config = IntifaceConfiguration::default();
    let mut expected = config.clone();
    config.set_server_name("bench".to_string()).set_websocket_server_insecure_port(54321);
    expected.server_name = "bench".to_string();
    expected.websocket_server_insecure_port = 54321;
    assert_eq!(config, expected);
    config.set_with_xinput(false).set_current_device_file_version(12);
    expected.with_xinput = false;
    expected.current_device_file_version = 12;
    assert_eq!(config, expected);
}

#[test]
fn mutable_access_changes_one_field() {
    let mut config = IntifaceConfiguration::default();
    let mut expected = config.clone();
    *config.current_engine_version_mut() = 31;
    config.server_log_level_mut().push_str("rmation");
    *config.has_run_setup_mut() = true;
    expected.current_engine_version = 31;
    expected.server_log_level = "information".to_string();
    expected.has_run_setup = true;
    assert_eq!(config, expected);
}

#[test]
fn set_versions_stores_both_versions() {
    let mut config = IntifaceConfiguration::default();
    let mut expected = config.clone();
    config.set_versions(8, 9);
    expected.current_device_file_version = 8;
    expected.current_engine_version = 9;
    assert_eq!(config, expected);
}

#[test]
fn transient_fields_are_cleared() {
    let mut config = IntifaceConfiguration::default();
    config
        .set_device_file_update_available(true)
        .set_engine_update_available(true)
        .set_application_update_available(true)
        .set_has_usable_engine_executable(true)
        .set_has_run_setup(true);
    config.clear_transient();
    let mut expected = IntifaceConfiguration::default();
    expected.has_run_setup = true;
    assert_eq!(config, expected);
}

#[test]
fn the_application_starts_with_defaults() {
    let core = AppCore::default();
    assert_eq!(core.config, IntifaceConfiguration::default());
    assert_eq!(
        core.update_manager.status(),
        UpdateStatus {
            needs_device_file_update: false,
            needs_engine_update: false,
            needs_application_update: false,
            latest_engine_version: 0,
            latest_device_file_version: 0,
            is_updating: false,
        }
    );
}
