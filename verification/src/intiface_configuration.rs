//! The application's configuration record.
//!
//! A passive record: it defaults, it is read and written field by field, and the update
//! manager stores newly observed versions in it. How it is persisted is the host's
//! business.
use vstd::prelude::*;

verus! {

/// Name the server announces to clients unless told otherwise.
pub const DEFAULT_SERVER_NAME: &'static str = "Intiface Desktop Server";

/// Verbosity of the server log unless told otherwise.
pub const DEFAULT_SERVER_LOG_LEVEL: &'static str = "info";

/// Port of the unencrypted websocket listener unless told otherwise.
pub const DEFAULT_WEBSOCKET_PORT: u16 = 12345;

/// Settings of the application and the last known installed versions.
#[derive(Clone, Debug, PartialEq, Eq)]
pub struct IntifaceConfiguration {
    /// Name the server announces to clients.
    pub server_name: String,
    /// Longest silence, in milliseconds, before a client is dropped; 0 for no limit.
    pub server_max_ping_time: u32,
    /// Whether the unencrypted websocket listener is offered.
    pub use_websocket_server_insecure: bool,
    /// Whether the listener binds to every interface, not only the loopback one.
    pub websocket_server_all_interfaces: bool,
    /// Port of the unencrypted websocket listener.
    pub websocket_server_insecure_port: u16,
    /// Verbosity of the server log.
    pub server_log_level: String,
    /// Whether prerelease engines are accepted.
    pub use_prerelease_engine: bool,
    /// Version of the engine last known to be installed.
    pub current_engine_version: u32,
    /// Version of the device database last known to be installed.
    pub current_device_file_version: u32,
    /// Whether updates are looked for when the application starts.
    pub check_for_updates_on_start: bool,
    /// Whether first-run setup has been completed.
    pub has_run_setup: bool,
    /// Transient: a newer device database was seen. Never stored.
    pub device_file_update_available: bool,
    /// Transient: another engine release was seen. Never stored.
    pub engine_update_available: bool,
    /// Transient: another application release was seen. Never stored.
    pub application_update_available: bool,
    /// Transient: an engine executable is in place. Never stored.
    pub has_usable_engine_executable: bool,
    /// Whether the server starts with the application.
    pub start_server_on_startup: bool,
    /// Whether Bluetooth LE devices are looked for.
    pub with_bluetooth_le: bool,
    /// Whether serial port devices are looked for.
    pub with_serial_port: bool,
    /// Whether HID devices are looked for.
    pub with_hid: bool,
    /// Whether the Lovense HID dongle is used.
    pub with_lovense_hid_dongle: bool,
    /// Whether the Lovense serial dongle is used.
    pub with_lovense_serial_dongle: bool,
    /// Whether the Lovense Connect service is used.
    pub with_lovense_connect_service: bool,
    /// Whether XInput gamepads are looked for.
    pub with_xinput: bool,
}

impl IntifaceConfiguration {
    /// Whether every field holds its default.
    pub open spec fn is_default(&self) -> bool {
        &&& self.server_name@ == DEFAULT_SERVER_NAME@
        &&& self.server_max_ping_time == 0
        &&& self.use_websocket_server_insecure
        &&& !self.websocket_server_all_interfaces
        &&& self.websocket_server_insecure_port == DEFAULT_WEBSOCKET_PORT
        &&& self.server_log_level@ == DEFAULT_SERVER_LOG_LEVEL@
        &&& !self.use_prerelease_engine
        &&& self.current_engine_version == 0
        &&& self.current_device_file_version == 0
        &&& self.check_for_updates_on_start
        &&& !self.has_run_setup
        &&& !self.device_file_update_available
        &&& !self.engine_update_available
        &&& !self.application_update_available
        &&& !self.has_usable_engine_executable
        &&& !self.start_server_on_startup
        &&& self.with_bluetooth_le
        &&& self.with_serial_port
        &&& self.with_hid
        &&& self.with_lovense_hid_dongle
        &&& self.with_lovense_serial_dongle
        &&& !self.with_lovense_connect_service
        &&& self.with_xinput
    }

    /// This record with the two installed versions replaced.
    pub open spec fn with_versions(self, device_file_version: u32, engine_version: u32) -> Self {
        IntifaceConfiguration {
            current_device_file_version: device_file_version,
            current_engine_version: engine_version,
            ..self
        }
    }

    /// This record as it is stored: the transient fields are not kept.
    pub open spec fn stored(self) -> Self {
        IntifaceConfiguration {
            device_file_update_available: false,
            engine_update_available: false,
            application_update_available: false,
            has_usable_engine_executable: false,
            ..self
        }
    }

    /// Stores the two installed versions and leaves every other field as it is.
    pub fn set_versions(&mut self, device_file_version: u32, engine_version: u32)
        ensures
            *final(self) == old(self).with_versions(device_file_version, engine_version),
    {
        self.current_device_file_version = device_file_version;
        self.current_engine_version = engine_version;
    }

    /// Clears the transient fields, as loading a stored record does.
    pub fn clear_transient(&mut self)
        ensures
            *final(self) == old(self).stored(),
    {
        self.device_file_update_available = false;
        self.engine_update_available = false;
        self.application_update_available = false;
        self.has_usable_engine_executable = false;
    }

    /// Name the server announces to clients.
    pub fn server_name(&self) -> (value: &String)
        ensures
            *value == self.server_name,
    {
        &self.server_name
    }

    /// Access for writing to `server_name`; every other field stays as it is.
    pub fn server_name_mut(&mut self) -> (value: &mut String)
        ensures
            *value == old(self).server_name,
            *final(self) == (IntifaceConfiguration {
                server_name: *final(value),
                ..*old(self)
            }),
    {
        &mut self.server_name
    }

    /// Replaces `server_name`; every other field stays as it is.
    pub fn set_server_name(&mut self, value: String) -> (this: &mut Self)
        ensures
            *this == (IntifaceConfiguration {
                server_name: value,
                ..*old(self)
            }),
            *final(self) == *final(this),
    {
        self.server_name = value;
        self
    }

    /// Longest silence, in milliseconds, before a client is dropped; 0 for no limit.
    pub fn server_max_ping_time(&self) -> (value: u32)
        ensures
            value == self.server_max_ping_time,
    {
        self.server_max_ping_time
    }

    /// Access for writing to `server_max_ping_time`; every other field stays as it is.
    pub fn server_max_ping_time_mut(&mut self) -> (value: &mut u32)
        ensures
            *value == old(self).server_max_ping_time,
            *final(self) == (IntifaceConfiguration {
                server_max_ping_time: *final(value),
                ..*old(self)
            }),
    {
        &mut self.server_max_ping_time
    }

    /// Replaces `server_max_ping_time`; every other field stays as it is.
    pub fn set_server_max_ping_time(&mut self, value: u32) -> (this: &mut Self)
        ensures
            *this == (IntifaceConfiguration {
                server_max_ping_time: value,
                ..*old(self)
            }),
            *final(self) == *final(this),
    {
        self.server_max_ping_time = value;
        self
    }

    /// Whether the unencrypted websocket listener is offered.
    pub fn use_websocket_server_insecure(&self) -> (value: bool)
        ensures
            value == self.use_websocket_server_insecure,
    {
        self.use_websocket_server_insecure
    }

    /// Access for writing to `use_websocket_server_insecure`; every other field stays as it is.
    pub fn use_websocket_server_insecure_mut(&mut self) -> (value: &mut bool)
        ensures
            *value == old(self).use_websocket_server_insecure,
            *final(self) == (IntifaceConfiguration {
                use_websocket_server_insecure: *final(value),
                ..*old(self)
            }),
    {
        &mut self.use_websocket_server_insecure
    }

    /// Replaces `use_websocket_server_insecure`; every other field stays as it is.
    pub fn set_use_websocket_server_insecure(&mut self, value: bool) -> (this: &mut Self)
        ensures
            *this == (IntifaceConfiguration {
                use_websocket_server_insecure: value,
                ..*old(self)
            }),
            *final(self) == *final(this),
    {
        self.use_websocket_server_insecure = value;
        self
    }

    /// Whether the listener binds to every interface, not only the loopback one.
    pub fn websocket_server_all_interfaces(&self) -> (value: bool)
        ensures
            value == self.websocket_server_all_interfaces,
    {
        self.websocket_server_all_interfaces
    }

    /// Access for writing to `websocket_server_all_interfaces`; every other field stays as it is.
    pub fn websocket_server_all_interfaces_mut(&mut self) -> (value: &mut bool)
        ensures
            *value == old(self).websocket_server_all_interfaces,
            *final(self) == (IntifaceConfiguration {
                websocket_server_all_interfaces: *final(value),
                ..*old(self)
            }),
    {
        &mut self.websocket_server_all_interfaces
    }

    /// Replaces `websocket_server_all_interfaces`; every other field stays as it is.
    pub fn set_websocket_server_all_interfaces(&mut self, value: bool) -> (this: &mut Self)
        ensures
            *this == (IntifaceConfiguration {
                websocket_server_all_interfaces: value,
                ..*old(self)
            }),
            *final(self) == *final(this),
    {
        self.websocket_server_all_interfaces = value;
        self
    }

    /// Port of the unencrypted websocket listener.
    pub fn websocket_server_insecure_port(&self) -> (value: u16)
        ensures
            value == self.websocket_server_insecure_port,
    {
        self.websocket_server_insecure_port
    }

    /// Access for writing to `websocket_server_insecure_port`; every other field stays as it is.
    pub fn websocket_server_insecure_port_mut(&mut self) -> (value: &mut u16)
        ensures
            *value == old(self).websocket_server_insecure_port,
            *final(self) == (IntifaceConfiguration {
                websocket_server_insecure_port: *final(value),
                ..*old(self)
            }),
    {
        &mut self.websocket_server_insecure_port
    }

    /// Replaces `websocket_server_insecure_port`; every other field stays as it is.
    pub fn set_websocket_server_insecure_port(&mut self, value: u16) -> (this: &mut Self)
        ensures
            *this == (IntifaceConfiguration {
                websocket_server_insecure_port: value,
                ..*old(self)
            }),
            *final(self) == *final(this),
    {
        self.websocket_server_insecure_port = value;
        self
    }

    /// Verbosity of the server log.
    pub fn server_log_level(&self) -> (value: &String)
        ensures
            *value == self.server_log_level,
    {
        &self.server_log_level
    }

    /// Access for writing to `server_log_level`; every other field stays as it is.
    pub fn server_log_level_mut(&mut self) -> (value: &mut String)
        ensures
            *value == old(self).server_log_level,
            *final(self) == (IntifaceConfiguration {
                server_log_level: *final(value),
                ..*old(self)
            }),
    {
        &mut self.server_log_level
    }

    /// Replaces `server_log_level`; every other field stays as it is.
    pub fn set_server_log_level(&mut self, value: String) -> (this: &mut Self)
        ensures
            *this == (IntifaceConfiguration {
                server_log_level: value,
                ..*old(self)
            }),
            *final(self) == *final(this),
    {
        self.server_log_level = value;
        self
    }

    /// Whether prerelease engines are accepted.
    pub fn use_prerelease_engine(&self) -> (value: bool)
        ensures
            value == self.use_prerelease_engine,
    {
        self.use_prerelease_engine
    }

    /// Access for writing to `use_prerelease_engine`; every other field stays as it is.
    pub fn use_prerelease_engine_mut(&mut self) -> (value: &mut bool)
        ensures
            *value == old(self).use_prerelease_engine,
            *final(self) == (IntifaceConfiguration {
                use_prerelease_engine: *final(value),
                ..*old(self)
            }),
    {
        &mut self.use_prerelease_engine
    }

    /// Replaces `use_prerelease_engine`; every other field stays as it is.
    pub fn set_use_prerelease_engine(&mut self, value: bool) -> (this: &mut Self)
        ensures
            *this == (IntifaceConfiguration {
                use_prerelease_engine: value,
                ..*old(self)
            }),
            *final(self) == *final(this),
    {
        self.use_prerelease_engine = value;
        self
    }

    /// Version of the engine last known to be installed.
    pub fn current_engine_version(&self) -> (value: u32)
        ensures
            value == self.current_engine_version,
    {
        self.current_engine_version
    }

    /// Access for writing to `current_engine_version`; every other field stays as it is.
    pub fn current_engine_version_mut(&mut self) -> (value: &mut u32)
        ensures
            *value == old(self).current_engine_version,
            *final(self) == (IntifaceConfiguration {
                current_engine_version: *final(value),
                ..*old(self)
            }),
    {
        &mut self.current_engine_version
    }

    /// Replaces `current_engine_version`; every other field stays as it is.
    pub fn set_current_engine_version(&mut self, value: u32) -> (this: &mut Self)
        ensures
            *this == (IntifaceConfiguration {
                current_engine_version: value,
                ..*old(self)
            }),
            *final(self) == *final(this),
    {
        self.current_engine_version = value;
        self
    }

    /// Version of the device database last known to be installed.
    pub fn current_device_file_version(&self) -> (value: u32)
        ensures
            value == self.current_device_file_version,
    {
        self.current_device_file_version
    }

    /// Access for writing to `current_device_file_version`; every other field stays as it is.
    pub fn current_device_file_version_mut(&mut self) -> (value: &mut u32)
        ensures
            *value == old(self).current_device_file_version,
            *final(self) == (IntifaceConfiguration {
                current_device_file_version: *final(value),
                ..*old(self)
            }),
    {
        &mut self.current_device_file_version
    }

    /// Replaces `current_device_file_version`; every other field stays as it is.
    pub fn set_current_device_file_version(&mut self, value: u32) -> (this: &mut Self)
        ensures
            *this == (IntifaceConfiguration {
                current_device_file_version: value,
                ..*old(self)
            }),
            *final(self) == *final(this),
    {
        self.current_device_file_version = value;
        self
    }

    /// Whether updates are looked for when the application starts.
    pub fn check_for_updates_on_start(&self) -> (value: bool)
        ensures
            value == self.check_for_updates_on_start,
    {
        self.check_for_updates_on_start
    }

    /// Access for writing to `check_for_updates_on_start`; every other field stays as it is.
    pub fn check_for_updates_on_start_mut(&mut self) -> (value: &mut bool)
        ensures
            *value == old(self).check_for_updates_on_start,
            *final(self) == (IntifaceConfiguration {
                check_for_updates_on_start: *final(value),
                ..*old(self)
            }),
    {
        &mut self.check_for_updates_on_start
    }

    /// Replaces `check_for_updates_on_start`; every other field stays as it is.
    pub fn set_check_for_updates_on_start(&mut self, value: bool) -> (this: &mut Self)
        ensures
            *this == (IntifaceConfiguration {
                check_for_updates_on_start: value,
                ..*old(self)
            }),
            *final(self) == *final(this),
    {
        self.check_for_updates_on_start = value;
        self
    }

    /// Whether first-run setup has been completed.
    pub fn has_run_setup(&self) -> (value: bool)
        ensures
            value == self.has_run_setup,
    {
        self.has_run_setup
    }

    /// Access for writing to `has_run_setup`; every other field stays as it is.
    pub fn has_run_setup_mut(&mut self) -> (value: &mut bool)
        ensures
            *value == old(self).has_run_setup,
            *final(self) == (IntifaceConfiguration {
                has_run_setup: *final(value),
                ..*old(self)
            }),
    {
        &mut self.has_run_setup
    }

    /// Replaces `has_run_setup`; every other field stays as it is.
    pub fn set_has_run_setup(&mut self, value: bool) -> (this: &mut Self)
        ensures
            *this == (IntifaceConfiguration {
                has_run_setup: value,
                ..*old(self)
            }),
            *final(self) == *final(this),
    {
        self.has_run_setup = value;
        self
    }

    /// Transient: a newer device database was seen. Never stored.
    pub fn device_file_update_available(&self) -> (value: bool)
        ensures
            value == self.device_file_update_available,
    {
        self.device_file_update_available
    }

    /// Access for writing to `device_file_update_available`; every other field stays as it is.
    pub fn device_file_update_available_mut(&mut self) -> (value: &mut bool)
        ensures
            *value == old(self).device_file_update_available,
            *final(self) == (IntifaceConfiguration {
                device_file_update_available: *final(value),
                ..*old(self)
            }),
    {
        &mut self.device_file_update_available
    }

    /// Replaces `device_file_update_available`; every other field stays as it is.
    pub fn set_device_file_update_available(&mut self, value: bool) -> (this: &mut Self)
        ensures
            *this == (IntifaceConfiguration {
                device_file_update_available: value,
                ..*old(self)
            }),
            *final(self) == *final(this),
    {
        self.device_file_update_available = value;
        self
    }

    /// Transient: another engine release was seen. Never stored.
    pub fn engine_update_available(&self) -> (value: bool)
        ensures
            value == self.engine_update_available,
    {
        self.engine_update_available
    }

    /// Access for writing to `engine_update_available`; every other field stays as it is.
    pub fn engine_update_available_mut(&mut self) -> (value: &mut bool)
        ensures
            *value == old(self).engine_update_available,
            *final(self) == (IntifaceConfiguration {
                engine_update_available: *final(value),
                ..*old(self)
            }),
    {
        &mut self.engine_update_available
    }

    /// Replaces `engine_update_available`; every other field stays as it is.
    pub fn set_engine_update_available(&mut self, value: bool) -> (this: &mut Self)
        ensures
            *this == (IntifaceConfiguration {
                engine_update_available: value,
                ..*old(self)
            }),
            *final(self) == *final(this),
    {
        self.engine_update_available = value;
        self
    }

    /// Transient: another application release was seen. Never stored.
    pub fn application_update_available(&self) -> (value: bool)
        ensures
            value == self.application_update_available,
    {
        self.application_update_available
    }

    /// Access for writing to `application_update_available`; every other field stays as it is.
    pub fn application_update_available_mut(&mut self) -> (value: &mut bool)
        ensures
            *value == old(self).application_update_available,
            *final(self) == (IntifaceConfiguration {
                application_update_available: *final(value),
                ..*old(self)
            }),
    {
        &mut self.application_update_available
    }

    /// Replaces `application_update_available`; every other field stays as it is.
    pub fn set_application_update_available(&mut self, value: bool) -> (this: &mut Self)
        ensures
            *this == (IntifaceConfiguration {
                application_update_available: value,
                ..*old(self)
            }),
            *final(self) == *final(this),
    {
        self.application_update_available = value;
        self
    }

    /// Transient: an engine executable is in place. Never stored.
    pub fn has_usable_engine_executable(&self) -> (value: bool)
        ensures
            value == self.has_usable_engine_executable,
    {
        self.has_usable_engine_executable
    }

    /// Access for writing to `has_usable_engine_executable`; every other field stays as it is.
    pub fn has_usable_engine_executable_mut(&mut self) -> (value: &mut bool)
        ensures
            *value == old(self).has_usable_engine_executable,
            *final(self) == (IntifaceConfiguration {
                has_usable_engine_executable: *final(value),
                ..*old(self)
            }),
    {
        &mut self.has_usable_engine_executable
    }

    /// Replaces `has_usable_engine_executable`; every other field stays as it is.
    pub fn set_has_usable_engine_executable(&mut self, value: bool) -> (this: &mut Self)
        ensures
            *this == (IntifaceConfiguration {
                has_usable_engine_executable: value,
                ..*old(self)
            }),
            *final(self) == *final(this),
    {
        self.has_usable_engine_executable = value;
        self
    }

    /// Whether the server starts with the application.
    pub fn start_server_on_startup(&self) -> (value: bool)
        ensures
            value == self.start_server_on_startup,
    {
        self.start_server_on_startup
    }

    /// Access for writing to `start_server_on_startup`; every other field stays as it is.
    pub fn start_server_on_startup_mut(&mut self) -> (value: &mut bool)
        ensures
            *value == old(self).start_server_on_startup,
            *final(self) == (IntifaceConfiguration {
                start_server_on_startup: *final(value),
                ..*old(self)
            }),
    {
        &mut self.start_server_on_startup
    }

    /// Replaces `start_server_on_startup`; every other field stays as it is.
    pub fn set_start_server_on_startup(&mut self, value: bool) -> (this: &mut Self)
        ensures
            *this == (IntifaceConfiguration {
                start_server_on_startup: value,
                ..*old(self)
            }),
            *final(self) == *final(this),
    {
        self.start_server_on_startup = value;
        self
    }

    /// Whether Bluetooth LE devices are looked for.
    pub fn with_bluetooth_le(&self) -> (value: bool)
        ensures
            value == self.with_bluetooth_le,
    {
        self.with_bluetooth_le
    }

    /// Access for writing to `with_bluetooth_le`; every other field stays as it is.
    pub fn with_bluetooth_le_mut(&mut self) -> (value: &mut bool)
        ensures
            *value == old(self).with_bluetooth_le,
            *final(self) == (IntifaceConfiguration {
                with_bluetooth_le: *final(value),
                ..*old(self)
            }),
    {
        &mut self.with_bluetooth_le
    }

    /// Replaces `with_bluetooth_le`; every other field stays as it is.
    pub fn set_with_bluetooth_le(&mut self, value: bool) -> (this: &mut Self)
        ensures
            *this == (IntifaceConfiguration {
                with_bluetooth_le: value,
                ..*old(self)
            }),
            *final(self) == *final(this),
    {
        self.with_bluetooth_le = value;
        self
    }

    /// Whether serial port devices are looked for.
    pub fn with_serial_port(&self) -> (value: bool)
        ensures
            value == self.with_serial_port,
    {
        self.with_serial_port
    }

    /// Access for writing to `with_serial_port`; every other field stays as it is.
    pub fn with_serial_port_mut(&mut self) -> (value: &mut bool)
        ensures
            *value == old(self).with_serial_port,
            *final(self) == (IntifaceConfiguration {
                with_serial_port: *final(value),
                ..*old(self)
            }),
    {
        &mut self.with_serial_port
    }

    /// Replaces `with_serial_port`; every other field stays as it is.
    pub fn set_with_serial_port(&mut self, value: bool) -> (this: &mut Self)
        ensures
            *this == (IntifaceConfiguration {
                with_serial_port: value,
                ..*old(self)
            }),
            *final(self) == *final(this),
    {
        self.with_serial_port = value;
        self
    }

    /// Whether HID devices are looked for.
    pub fn with_hid(&self) -> (value: bool)
        ensures
            value == self.with_hid,
    {
        self.with_hid
    }

    /// Access for writing to `with_hid`; every other field stays as it is.
    pub fn with_hid_mut(&mut self) -> (value: &mut bool)
        ensures
            *value == old(self).with_hid,
            *final(self) == (IntifaceConfiguration {
                with_hid: *final(value),
                ..*old(self)
            }),
    {
        &mut self.with_hid
    }

    /// Replaces `with_hid`; every other field stays as it is.
    pub fn set_with_hid(&mut self, value: bool) -> (this: &mut Self)
        ensures
            *this == (IntifaceConfiguration {
                with_hid: value,
                ..*old(self)
            }),
            *final(self) == *final(this),
    {
        self.with_hid = value;
        self
    }

    /// Whether the Lovense HID dongle is used.
    pub fn with_lovense_hid_dongle(&self) -> (value: bool)
        ensures
            value == self.with_lovense_hid_dongle,
    {
        self.with_lovense_hid_dongle
    }

    /// Access for writing to `with_lovense_hid_dongle`; every other field stays as it is.
    pub fn with_lovense_hid_dongle_mut(&mut self) -> (value: &mut bool)
        ensures
            *value == old(self).with_lovense_hid_dongle,
            *final(self) == (IntifaceConfiguration {
                with_lovense_hid_dongle: *final(value),
                ..*old(self)
            }),
    {
        &mut self.with_lovense_hid_dongle
    }

    /// Replaces `with_lovense_hid_dongle`; every other field stays as it is.
    pub fn set_with_lovense_hid_dongle(&mut self, value: bool) -> (this: &mut Self)
        ensures
            *this == (IntifaceConfiguration {
                with_lovense_hid_dongle: value,
                ..*old(self)
            }),
            *final(self) == *final(this),
    {
        self.with_lovense_hid_dongle = value;
        self
    }

    /// Whether the Lovense serial dongle is used.
    pub fn with_lovense_serial_dongle(&self) -> (value: bool)
        ensures
            value == self.with_lovense_serial_dongle,
    {
        self.with_lovense_serial_dongle
    }

    /// Access for writing to `with_lovense_serial_dongle`; every other field stays as it is.
    pub fn with_lovense_serial_dongle_mut(&mut self) -> (value: &mut bool)
        ensures
            *value == old(self).with_lovense_serial_dongle,
            *final(self) == (IntifaceConfiguration {
                with_lovense_serial_dongle: *final(value),
                ..*old(self)
            }),
    {
        &mut self.with_lovense_serial_dongle
    }

    /// Replaces `with_lovense_serial_dongle`; every other field stays as it is.
    pub fn set_with_lovense_serial_dongle(&mut self, value: bool) -> (this: &mut Self)
        ensures
            *this == (IntifaceConfiguration {
                with_lovense_serial_dongle: value,
                ..*old(self)
            }),
            *final(self) == *final(this),
    {
        self.with_lovense_serial_dongle = value;
        self
    }

    /// Whether the Lovense Connect service is used.
    pub fn with_lovense_connect_service(&self) -> (value: bool)
        ensures
            value == self.with_lovense_connect_service,
    {
        self.with_lovense_connect_service
    }

    /// Access for writing to `with_lovense_connect_service`; every other field stays as it is.
    pub fn with_lovense_connect_service_mut(&mut self) -> (value: &mut bool)
        ensures
            *value == old(self).with_lovense_connect_service,
            *final(self) == (IntifaceConfiguration {
                with_lovense_connect_service: *final(value),
                ..*old(self)
            }),
    {
        &mut self.with_lovense_connect_service
    }

    /// Replaces `with_lovense_connect_service`; every other field stays as it is.
    pub fn set_with_lovense_connect_service(&mut self, value: bool) -> (this: &mut Self)
        ensures
            *this == (IntifaceConfiguration {
                with_lovense_connect_service: value,
                ..*old(self)
            }),
            *final(self) == *final(this),
    {
        self.with_lovense_connect_service = value;
        self
    }

    /// Whether XInput gamepads are looked for.
    pub fn with_xinput(&self) -> (value: bool)
        ensures
            value == self.with_xinput,
    {
        self.with_xinput
    }

    /// Access for writing to `with_xinput`; every other field stays as it is.
    pub fn with_xinput_mut(&mut self) -> (value: &mut bool)
        ensures
            *value == old(self).with_xinput,
            *final(self) == (IntifaceConfiguration {
                with_xinput: *final(value),
                ..*old(self)
            }),
    {
        &mut self.with_xinput
    }

    /// Replaces `with_xinput`; every other field stays as it is.
    pub fn set_with_xinput(&mut self, value: bool) -> (this: &mut Self)
        ensures
            *this == (IntifaceConfiguration {
                with_xinput: value,
                ..*old(self)
            }),
            *final(self) == *final(this),
    {
        self.with_xinput = value;
        self
    }
}

impl Default for IntifaceConfiguration {
    fn default() -> (config: Self)
        ensures
            config.is_default(),
    {
        Self {
            server_name: DEFAULT_SERVER_NAME.to_owned(),
            server_max_ping_time: 0,
            use_websocket_server_insecure: true,
            websocket_server_all_interfaces: false,
            websocket_server_insecure_port: DEFAULT_WEBSOCKET_PORT,
            server_log_level: DEFAULT_SERVER_LOG_LEVEL.to_owned(),
            use_prerelease_engine: false,
            current_engine_version: 0,
            current_device_file_version: 0,
            check_for_updates_on_start: true,
            has_run_setup: false,
            device_file_update_available: false,
            engine_update_available: false,
            application_update_available: false,
            has_usable_engine_executable: false,
            start_server_on_startup: false,
            with_bluetooth_le: true,
            with_serial_port: true,
            with_hid: true,
            with_lovense_hid_dongle: true,
            with_lovense_serial_dongle: true,
            with_lovense_connect_service: false,
            with_xinput: true,
        }
    }
}

} // verus!
