use intiface_core::release::{Release, ReleaseAsset};
use intiface_core::update_manager::{
    DeviceFileCheck, Download, UpdateError, UpdateManager, UpdateStatus,
};
use intiface_core::util::Platform;
use intiface_core::IntifaceConfiguration;

fn release(tag: &str) -> Release {
    Release { tag_name: tag.to_string(), assets: Vec::new() }
}

fn idle_status() -> UpdateStatus {
    UpdateStatus {
        needs_device_file_update: false,
        needs_engine_update: false,
        needs_application_update: false,
        latest_engine_version: 0,
        latest_device_file_version: 0,
        is_updating: false,
    }
}

#[test]
fn test_engine_update() {
    // Create the runtime
    let rt = tokio::runtime::Runtime::new().unwrap();

    // Execute the future, blocking the current thread until completion
    rt.block_on(async move {
        let config = IntifaceConfiguration::default();
        let manager = UpdateManager::default();
        assert_eq!(config.current_engine_version(), 0);
        assert!(!manager.needs_updates());
        assert!(!manager.is_updating());
    })
}

#[test]
fn new_manager_knows_nothing() {
    let manager = UpdateManager::default();
    assert_eq!(manager.status(), idle_status());
    assert!(!manager.needs_updates());
    assert!(!manager.is_updating());
}

#[test]
fn missing_device_file_calls_for_update_without_fetch() {
    let config = IntifaceConfiguration::default();
    let mut manager = UpdateManager::default();
    manager.check_for_updates(&config);
    let next = manager.check_for_device_file_update(None);
    assert_eq!(next, DeviceFileCheck::Done);
    manager.finish_updating();
    let status = manager.status();
    assert!(status.needs_device_file_update);
    assert_eq!(status.latest_device_file_version, 0);
    assert!(!status.is_updating);
    assert!(manager.needs_updates());
}

#[test]
fn unparseable_device_file_calls_for_update_without_fetch() {
    let mut manager = UpdateManager::default();
    let next = manager.check_for_device_file_update(Some("this is no device database"));
    assert_eq!(next, DeviceFileCheck::Done);
    assert!(manager.status().needs_device_file_update);
    assert_eq!(manager.status().latest_device_file_version, 0);

    let mut manager = UpdateManager::default();
    let next = manager.check_for_device_file_update(Some("{\"version\": 3}"));
    assert_eq!(next, DeviceFileCheck::Done);
    assert!(manager.status().needs_device_file_update);
}

#[test]
fn usable_device_file_asks_for_remote_version() {
    let shipped = buttplug::util::device_configuration::DEVICE_CONFIGURATION_JSON;
    let version = buttplug::util::device_configuration::get_internal_config_version();
    assert!(version > 0);
    let mut manager = UpdateManager::default();
    let next = manager.check_for_device_file_update(Some(shipped));
    assert_eq!(next, DeviceFileCheck::FetchRemoteVersion { local_version: version });
    assert_eq!(manager.status(), idle_status());
}

#[test]
fn local_device_file_examined_follows_the_version() {
    let mut manager = UpdateManager::default();
    assert_eq!(
        manager.local_device_file_examined(Some(17)),
        DeviceFileCheck::FetchRemoteVersion { local_version: 17 }
    );
    assert_eq!(manager.status(), idle_status());
    assert_eq!(manager.local_device_file_examined(None), DeviceFileCheck::Done);
    assert_eq!(
        manager.status(),
        UpdateStatus { needs_device_file_update: true, ..idle_status() }
    );
}

#[test]
fn device_file_update_needed_iff_remote_is_greater() {
    let versions = [0u32, 1, 2, 41, 42, 43, u32::MAX - 1, u32::MAX];
    for &local in versions.iter() {
        for &remote in versions.iter() {
            let mut manager = UpdateManager::default();
            let outcome = manager.compare_device_file_version(local, Ok(remote.to_string()));
            assert_eq!(outcome, Ok(()));
            let status = manager.status();
            assert_eq!(status.needs_device_file_update, remote > local);
            assert_eq!(status.latest_device_file_version, remote);
            assert!(!status.needs_engine_update);
            assert_eq!(status.latest_engine_version, 0);
        }
    }
}

#[test]
fn device_file_comparison_clears_an_earlier_flag() {
    let mut manager = UpdateManager::default();
    manager.local_device_file_examined(None);
    assert!(manager.status().needs_device_file_update);
    assert_eq!(manager.compare_device_file_version(9, Ok("9".to_string())), Ok(()));
    assert!(!manager.status().needs_device_file_update);
    assert_eq!(manager.status().latest_device_file_version, 9);
}

#[test]
fn unreadable_remote_device_version_fails_open() {
    let mut manager = UpdateManager::default();
    let outcome = manager.compare_device_file_version(3, Ok("12\n".to_string()));
    assert_eq!(outcome, Err(UpdateError::InvalidData("12\n".to_string())));
    assert!(manager.status().needs_device_file_update);
    assert_eq!(manager.status().latest_device_file_version, 0);
}

#[test]
fn unreachable_remote_device_version_fails_open() {
    let mut manager = UpdateManager::default();
    let outcome = manager.compare_device_file_version(3, Err("timed out".to_string()));
    assert_eq!(
        outcome,
        Err(UpdateError::ConnectionError(
            "https://buttplug-rs-device-config.buttplug.io/version".to_string(),
            "timed out".to_string()
        ))
    );
    assert!(manager.status().needs_device_file_update);
    assert_eq!(manager.status().latest_device_file_version, 0);
}

#[test]
fn engine_update_needed_when_remote_is_newer() {
    let mut config = IntifaceConfiguration::default();
    config.set_current_engine_version(5);
    let mut manager = UpdateManager::default();
    let engine_version = manager.check_for_updates(&config);
    assert_eq!(engine_version, 5);
    assert!(manager.is_updating());
    assert_eq!(manager.check_for_engine_update(engine_version, Ok(release("v7"))), Ok(()));
    assert!(manager.is_updating());
    manager.finish_updating();
    let status = manager.status();
    assert!(status.needs_engine_update);
    assert_eq!(status.latest_engine_version, 7);
    assert!(!status.is_updating);
}

#[test]
fn engine_update_not_needed_when_versions_agree() {
    let mut config = IntifaceConfiguration::default();
    config.set_current_engine_version(7);
    let mut manager = UpdateManager::default();
    let engine_version = manager.check_for_updates(&config);
    assert_eq!(manager.check_for_engine_update(engine_version, Ok(release("v7"))), Ok(()));
    manager.finish_updating();
    let status = manager.status();
    assert!(!status.needs_engine_update);
    assert_eq!(status.latest_engine_version, 7);
    assert!(!manager.needs_updates());
}

#[test]
fn engine_update_needed_iff_versions_differ() {
    let versions = [0u32, 1, 6, 7, 8, u32::MAX];
    for &local in versions.iter() {
        for &remote in versions.iter() {
            let mut manager = UpdateManager::default();
            let tag = format!("v{}", remote);
            assert_eq!(manager.check_for_engine_update(local, Ok(release(&tag))), Ok(()));
            let status = manager.status();
            assert_eq!(status.needs_engine_update, remote != local);
            assert_eq!(status.latest_engine_version, remote);
            assert!(!status.needs_device_file_update);
            assert_eq!(status.latest_device_file_version, 0);
        }
    }
}

#[test]
fn malformed_engine_tag_is_reported_and_changes_nothing() {
    for tag in ["", "v", "vx", "v1.2", "v-1", "7", "v4294967296", "release-7"] {
        let mut manager = UpdateManager::default();
        manager.check_for_updates(&IntifaceConfiguration::default());
        let before = manager.status();
        assert_eq!(
            manager.check_for_engine_update(5, Ok(release(tag))),
            Err(UpdateError::InvalidData(tag.to_string()))
        );
        assert_eq!(manager.status(), before);
    }
}

#[test]
fn unreachable_release_source_is_reported_and_changes_nothing() {
    let mut manager = UpdateManager::default();
    assert_eq!(manager.check_for_engine_update(5, Ok(release("v7"))), Ok(()));
    let before = manager.status();
    assert_eq!(
        manager.check_for_engine_update(5, Err("rate limited".to_string())),
        Err(UpdateError::GithubError("rate limited".to_string()))
    );
    assert_eq!(manager.status(), before);
}

#[test]
fn a_failed_engine_check_leaves_the_device_check_alone() {
    let mut manager = UpdateManager::default();
    manager.check_for_updates(&IntifaceConfiguration::default());
    assert!(manager.check_for_engine_update(5, Err("offline".to_string())).is_err());
    assert_eq!(manager.compare_device_file_version(3, Ok("4".to_string())), Ok(()));
    manager.finish_updating();
    assert_eq!(
        manager.status(),
        UpdateStatus {
            needs_device_file_update: true,
            latest_device_file_version: 4,
            ..idle_status()
        }
    );
}

#[test]
fn checks_may_be_reported_in_either_order() {
    let mut first = UpdateManager::default();
    first.compare_device_file_version(3, Ok("4".to_string())).unwrap();
    first.check_for_engine_update(5, Ok(release("v7"))).unwrap();
    let mut second = UpdateManager::default();
    second.check_for_engine_update(5, Ok(release("v7"))).unwrap();
    second.compare_device_file_version(3, Ok("4".to_string())).unwrap();
    assert_eq!(first.status(), second.status());
}

#[test]
fn needs_updates_is_the_disjunction_of_the_flags() {
    for device in [false, true] {
        for engine in [false, true] {
            let mut manager = UpdateManager::default();
            if device {
                manager.local_device_file_examined(None);
            }
            if engine {
                manager.check_for_engine_update(1, Ok(release("v2"))).unwrap();
            }
            let status = manager.status();
            assert_eq!(status.needs_device_file_update, device);
            assert_eq!(status.needs_engine_update, engine);
            assert!(!status.needs_application_update);
            assert_eq!(manager.needs_updates(), device || engine);
        }
    }
}

#[test]
fn busy_from_start_to_end_of_a_check() {
    let mut manager = UpdateManager::default();
    assert!(!manager.is_updating());
    manager.check_for_updates(&IntifaceConfiguration::default());
    assert!(manager.is_updating());
    manager.check_for_device_file_update(None);
    assert!(manager.is_updating());
    let _ = manager.check_for_engine_update(0, Err("offline".to_string()));
    assert!(manager.is_updating());
    let _ = manager.compare_device_file_version(1, Ok("x".to_string()));
    assert!(manager.is_updating());
    manager.finish_updating();
    assert!(!manager.is_updating());
}

#[test]
fn get_updates_with_nothing_needed_plans_nothing() {
    let mut manager = UpdateManager::default();
    let before = manager.status();
    let plan = manager.get_updates();
    assert_eq!(plan, Vec::new());
    assert_eq!(manager.status(), UpdateStatus { is_updating: true, ..before });
    manager.finish_updating();
    assert_eq!(manager.status(), before);
}

#[test]
fn get_updates_plans_what_is_flagged() {
    let mut manager = UpdateManager::default();
    manager.local_device_file_examined(None);
    assert_eq!(manager.get_updates(), vec![Download::DeviceFile]);
    manager.finish_updating();
    manager.check_for_engine_update(1, Ok(release("v2"))).unwrap();
    assert_eq!(manager.get_updates(), vec![Download::DeviceFile, Download::Engine]);
    assert!(manager.is_updating());
    manager.finish_updating();
    assert!(manager.needs_updates());

    let mut manager = UpdateManager::default();
    manager.check_for_engine_update(1, Ok(release("v2"))).unwrap();
    assert_eq!(manager.get_updates(), vec![Download::Engine]);
}

#[test]
fn application_update_is_never_called_for() {
    let manager = UpdateManager::default();
    let config = IntifaceConfiguration::default();
    assert_eq!(manager.check_for_application_update(&config), Ok(false));
    manager.download_application_update(&config);
    manager.install_application(&config);
    assert_eq!(manager.status(), idle_status());
}

#[test]
fn update_config_stores_the_observed_versions() {
    let mut manager = UpdateManager::default();
    manager.compare_device_file_version(3, Ok("44".to_string())).unwrap();
    manager.check_for_engine_update(5, Ok(release("v7"))).unwrap();
    let mut config = IntifaceConfiguration::default();
    config.set_server_name("mine".to_string());
    let mut expected = config.clone();
    manager.update_config(&mut config);
    expected.current_device_file_version = 44;
    expected.current_engine_version = 7;
    assert_eq!(config, expected);
}

#[test]
fn update_config_twice_is_update_config_once() {
    let mut manager = UpdateManager::default();
    manager.compare_device_file_version(3, Ok("44".to_string())).unwrap();
    manager.check_for_engine_update(5, Ok(release("v7"))).unwrap();
    let mut config = IntifaceConfiguration::default();
    manager.update_config(&mut config);
    let once = config.clone();
    manager.update_config(&mut config);
    assert_eq!(config, once);
}

#[test]
fn device_file_download_passes_the_text_through() {
    assert_eq!(
        UpdateManager::download_device_file_update(Ok("{\"version\": 1}".to_string())),
        Ok("{\"version\": 1}".to_string())
    );
    assert_eq!(
        UpdateManager::download_device_file_update(Err("refused".to_string())),
        Err(UpdateError::ConnectionError(
            "https://buttplug-rs-device-config.buttplug.io".to_string(),
            "refused".to_string()
        ))
    );
}

fn asset(name: &str, url: &str) -> ReleaseAsset {
    ReleaseAsset { name: name.to_string(), browser_download_url: url.to_string() }
}

#[test]
fn engine_download_takes_the_first_matching_asset() {
    let latest = Release {
        tag_name: "v7".to_string(),
        assets: vec![
            asset("intiface-cli-rs-macos-x64-Release.zip", "https://example.org/mac"),
            asset("intiface-cli-rs-linux-x64-Release.zip", "https://example.org/linux-1"),
            asset("intiface-cli-rs-linux-x64-Release.zip.sha256", "https://example.org/linux-2"),
            asset("intiface-cli-rs-win-x64-Release.zip", "https://example.org/win"),
        ],
    };
    assert_eq!(
        UpdateManager::download_engine_update(Ok(latest.clone()), Platform::Linux),
        Ok("https://example.org/linux-1".to_string())
    );
    assert_eq!(
        UpdateManager::download_engine_update(Ok(latest.clone()), Platform::Windows),
        Ok("https://example.org/win".to_string())
    );
    assert_eq!(
        UpdateManager::download_engine_update(Ok(latest), Platform::MacOs),
        Ok("https://example.org/mac".to_string())
    );
}

#[test]
fn engine_download_without_matching_asset_is_an_error() {
    let latest = Release {
        tag_name: "v7".to_string(),
        assets: vec![
            asset("intiface-cli-rs-macos-x64-Release.zip", "https://example.org/mac"),
            asset("intiface-cli-rs-linux-x64-Debug.zip", "https://example.org/linux"),
            asset("x-intiface-cli-rs-linux-x64-Release.zip", "https://example.org/other"),
        ],
    };
    assert_eq!(
        UpdateManager::download_engine_update(Ok(latest), Platform::Linux),
        Err(UpdateError::InvalidData("intiface-cli-rs-linux-x64-Release.zip".to_string()))
    );
    assert_eq!(
        UpdateManager::download_engine_update(Ok(release("v7")), Platform::Windows),
        Err(UpdateError::InvalidData("intiface-cli-rs-win-x64-Release.zip".to_string()))
    );
    assert_eq!(
        UpdateManager::download_engine_update(Err("offline".to_string()), Platform::Linux),
        Err(UpdateError::GithubError("offline".to_string()))
    );
}

#[test]
fn errors_read_as_sentences() {
    assert_eq!(
        UpdateError::ConnectionError("https://example.org".to_string(), "refused".to_string())
            .message(),
        "Error establishing connection to update URL https://example.org: refused"
    );
    assert_eq!(
        UpdateError::GithubError("rate limited".to_string()).message(),
        "Error retreiving information from Github: rate limited"
    );
    assert_eq!(
        UpdateError::InvalidData("v1.2".to_string()).message(),
        "Invalid data received from version check: v1.2"
    );
}

#[test]
fn an_engine_archive_that_cannot_be_fetched_is_a_connection_error() {
    assert_eq!(
        UpdateManager::unpack_engine_update(
            "https://example.org/linux",
            Err("reset".to_string()),
            Platform::Linux
        ),
        Err(UpdateError::ConnectionError(
            "https://example.org/linux".to_string(),
            "reset".to_string()
        ))
    );
    match UpdateManager::unpack_engine_update(
        "https://example.org/linux",
        Ok(vec![1, 2, 3]),
        Platform::Linux,
    ) {
        Err(UpdateError::InvalidData(_)) => {}
        other => panic!("{:?}", other),
    }
}
