use intiface_core::util::{
    app_path, app_path_in, config_file_path, config_file_path_in, device_config_file_path,
    device_config_file_path_in, engine_file_path, engine_file_path_in, executable_name, log_path,
    log_path_in, user_config_path, user_config_path_in, user_device_config_file_path,
    user_device_config_file_path_in, Platform,
};
use std::path::PathBuf;

fn base() -> PathBuf {
    PathBuf::from("data").join("share")
}

#[test]
fn directories_lie_below_the_data_directory() {
    assert_eq!(app_path_in(base()), base().join("IntifaceDesktopRust"));
    assert_eq!(user_config_path_in(base()), base().join("IntifaceDesktopRust").join("config"));
    assert_eq!(log_path_in(base()), base().join("IntifaceDesktopRust").join("logs"));
}

#[test]
fn files_lie_in_the_config_directory() {
    let config = base().join("IntifaceDesktopRust").join("config");
    assert_eq!(config_file_path_in(base()), config.join("intiface.config.json"));
    assert_eq!(device_config_file_path_in(base()), config.join("buttplug-device-config.json"));
    assert_eq!(
        user_device_config_file_path_in(base()),
        config.join("buttplug-user-device-config.json")
    );
}

#[test]
fn the_engine_lies_in_the_engine_directory() {
    let engine = base().join("IntifaceDesktopRust").join("engine");
    assert_eq!(engine_file_path_in(base(), Platform::Windows), engine.join("IntifaceCLI.exe"));
    assert_eq!(engine_file_path_in(base(), Platform::Linux), engine.join("IntifaceCLI"));
    assert_eq!(engine_file_path_in(base(), Platform::MacOs), engine.join("IntifaceCLI"));
    assert_eq!(executable_name(Platform::Windows), "IntifaceCLI.exe");
    assert_eq!(executable_name(Platform::Linux), "IntifaceCLI");
    assert_eq!(executable_name(Platform::MacOs), "IntifaceCLI");
}

#[test]
fn an_empty_data_directory_gives_relative_paths() {
    assert_eq!(app_path_in(PathBuf::new()), PathBuf::from("IntifaceDesktopRust"));
    assert_eq!(
        config_file_path_in(PathBuf::new()),
        PathBuf::from("IntifaceDesktopRust").join("config").join("intiface.config.json")
    );
}

#[test]
fn paths_of_the_current_user_end_as_the_layout_says() {
    match dirs::data_dir() {
        Some(data) => {
            assert_eq!(app_path(), Some(app_path_in(data.clone())));
            assert_eq!(user_config_path(), Some(user_config_path_in(data.clone())));
            assert_eq!(log_path(), Some(log_path_in(data.clone())));
            assert_eq!(config_file_path(), Some(config_file_path_in(data.clone())));
            assert_eq!(device_config_file_path(), Some(device_config_file_path_in(data.clone())));
            assert_eq!(
                user_device_config_file_path(),
                Some(user_device_config_file_path_in(data.clone()))
            );
            assert_eq!(
                engine_file_path(Platform::Linux),
                Some(engine_file_path_in(data, Platform::Linux))
            );
            assert!(config_file_path().unwrap().ends_with(
                PathBuf::from("IntifaceDesktopRust").join("config").join("intiface.config.json")
            ));
        }
        None => {
            assert_eq!(app_path(), None);
            assert_eq!(user_config_path(), None);
            assert_eq!(log_path(), None);
            assert_eq!(config_file_path(), None);
            assert_eq!(device_config_file_path(), None);
            assert_eq!(user_device_config_file_path(), None);
            assert_eq!(engine_file_path(Platform::Linux), None);
        }
    }
}

#[test]
fn platforms_go_by_their_operating_system_names() {
    assert_eq!(Platform::from_os_name("windows"), Some(Platform::Windows));
    assert_eq!(Platform::from_os_name("linux"), Some(Platform::Linux));
    assert_eq!(Platform::from_os_name("macos"), Some(Platform::MacOs));
    for os in ["", "Windows", "darwin", "freebsd", "linux ", "ios", "android"] {
        assert_eq!(Platform::from_os_name(os), None, "{:?}", os);
    }
}
