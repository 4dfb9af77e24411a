//! Where the application keeps its files.
//!
//! Every location lies below the platform's per-user data directory:
//! `<data>/IntifaceDesktopRust/config/<file>` for the configuration and device files,
//! `<data>/IntifaceDesktopRust/logs` for logs and
//! `<data>/IntifaceDesktopRust/engine/<executable>` for the installed engine.
//!
//! Nothing here touches the file system. A path is described by the sequence of the
//! names in it, [`path_segments`]; the functions below say which names they append.
use std::path::PathBuf;
use vstd::prelude::*;

verus! {

/// File name of the user's own device definitions.
pub const USER_DEVICE_CONFIG_FILENAME: &'static str = "buttplug-user-device-config.json";

/// File name of the device database.
pub const DEVICE_CONFIG_FILENAME: &'static str = "buttplug-device-config.json";

/// File name of the application's configuration.
pub const INTIFACE_CONFIG_FILENAME: &'static str = "intiface.config.json";

/// Name of the application's directory in the data directory.
pub const INTIFACE_APP_DIRECTORY_NAME: &'static str = "IntifaceDesktopRust";

/// Name of the directory of configuration files in the application's directory.
pub const INTIFACE_CONFIG_DIRECTORY_NAME: &'static str = "config";

/// Name of the directory of logs in the application's directory.
pub const INTIFACE_LOGGING_DIRECTORY_NAME: &'static str = "logs";

/// Name of the directory of the engine in the application's directory.
pub const INTIFACE_ENGINE_DIRECTORY_NAME: &'static str = "engine";

/// File name of the engine executable on Windows.
pub const WINDOWS_EXECUTABLE_NAME: &'static str = "IntifaceCLI.exe";

/// File name of the engine executable elsewhere.
pub const UNIX_EXECUTABLE_NAME: &'static str = "IntifaceCLI";

/// The platforms an engine is released for.
#[derive(Clone, Copy, Debug, PartialEq, Eq, Structural)]
pub enum Platform {
    Windows,
    Linux,
    MacOs,
}

/// Name of the Windows family of operating systems.
pub const WINDOWS_OS_NAME: &'static str = "windows";

/// Name of Linux as an operating system.
pub const LINUX_OS_NAME: &'static str = "linux";

/// Name of macOS as an operating system.
pub const MACOS_OS_NAME: &'static str = "macos";

impl Platform {
    /// The platform that goes by the operating system name `os`, if an engine is released
    /// for it.
    pub open spec fn of_os_name(os: Seq<char>) -> Option<Platform> {
        if os == WINDOWS_OS_NAME@ {
            Some(Platform::Windows)
        } else if os == LINUX_OS_NAME@ {
            Some(Platform::Linux)
        } else if os == MACOS_OS_NAME@ {
            Some(Platform::MacOs)
        } else {
            None
        }
    }

    /// The platform that goes by the operating system name `os`, if an engine is released
    /// for it.
    pub fn from_os_name(os: &str) -> (platform: Option<Platform>)
        ensures
            platform == Self::of_os_name(os@),
    {
        let name = os.to_owned();
        if name == WINDOWS_OS_NAME.to_owned() {
            Some(Platform::Windows)
        } else if name == LINUX_OS_NAME.to_owned() {
            Some(Platform::Linux)
        } else if name == MACOS_OS_NAME.to_owned() {
            Some(Platform::MacOs)
        } else {
            None
        }
    }
}

/// `std::path::PathBuf`, an owned path.
#[verifier::external_type_specification]
#[verifier::external_body]
pub struct ExPathBuf(std::path::PathBuf);

/// The names in the text of a path, in order: the text cut at each of the platform's
/// separators, and on Windows behind the colon of a drive letter, with empty pieces left
/// out.
pub uninterp spec fn path_segments(path: PathBuf) -> Seq<Seq<char>>;

/// A character that neither separates the names in a path nor marks a drive.
pub open spec fn is_name_char(c: char) -> bool {
    c != '/' && c != '\\' && c != ':' && c != '\0'
}

/// A single ordinary file or directory name: text that is one name in a path, and the
/// same one, on every platform.
pub open spec fn is_plain_segment(name: Seq<char>) -> bool {
    &&& name.len() > 0
    &&& name != seq!['.']
    &&& name != seq!['.', '.']
    &&& forall|i: int| 0 <= i < name.len() ==> is_name_char(#[trigger] name[i])
}

/// The file name of the engine executable on `platform`.
pub open spec fn executable_name_of(platform: Platform) -> Seq<char> {
    match platform {
        Platform::Windows => WINDOWS_EXECUTABLE_NAME@,
        _ => UNIX_EXECUTABLE_NAME@,
    }
}

/// The names that lead from the data directory to the application directory.
pub open spec fn app_segments() -> Seq<Seq<char>> {
    seq![INTIFACE_APP_DIRECTORY_NAME@]
}

/// The names that lead from the data directory to the configuration directory.
pub open spec fn user_config_segments() -> Seq<Seq<char>> {
    seq![INTIFACE_APP_DIRECTORY_NAME@, INTIFACE_CONFIG_DIRECTORY_NAME@]
}

/// The names that lead from the data directory to the log directory.
pub open spec fn log_segments() -> Seq<Seq<char>> {
    seq![INTIFACE_APP_DIRECTORY_NAME@, INTIFACE_LOGGING_DIRECTORY_NAME@]
}

/// The names that lead from the data directory to a file called `file` in the
/// configuration directory.
pub open spec fn config_entry_segments(file: Seq<char>) -> Seq<Seq<char>> {
    seq![INTIFACE_APP_DIRECTORY_NAME@, INTIFACE_CONFIG_DIRECTORY_NAME@, file]
}

/// The names that lead from the data directory to the installed engine executable.
pub open spec fn engine_file_segments(platform: Platform) -> Seq<Seq<char>> {
    seq![
        INTIFACE_APP_DIRECTORY_NAME@,
        INTIFACE_ENGINE_DIRECTORY_NAME@,
        executable_name_of(platform),
    ]
}

/// `dirs::data_dir`: the current user's data directory, where the platform names one.
/// Which directory that is, and whether there is one, depends on the machine and on the
/// user's settings: nothing is claimed of the result.
#[verifier::external_body]
fn data_dir() -> (dir: Option<PathBuf>) {
    dirs::data_dir()
}

/// `PathBuf::push`: extending a path by a single ordinary name appends that name as the
/// last name in it. Nothing is claimed for other arguments (an absolute path, for one,
/// would replace `path`).
#[verifier::external_body]
fn push_segment(path: &mut PathBuf, name: &str)
    ensures
        is_plain_segment(name@) ==> path_segments(*final(path)) == path_segments(*old(path)).push(
            name@,
        ),
{
    path.push(name)
}

/// Whether the first `n` characters of `name` are all name characters.
spec fn name_chars_up_to(name: Seq<char>, n: int) -> bool
    decreases n,
{
    n <= 0 || (is_name_char(name[n - 1]) && name_chars_up_to(name, n - 1))
}

proof fn lemma_name_chars_up_to(name: Seq<char>, n: int)
    requires
        name_chars_up_to(name, n),
    ensures
        forall|i: int| 0 <= i < n ==> is_name_char(#[trigger] name[i]),
    decreases n,
{
    if n > 0 {
        lemma_name_chars_up_to(name, n - 1);
    }
}

proof fn lemma_long_name_is_plain(name: Seq<char>)
    requires
        name.len() > 2,
        name_chars_up_to(name, name.len() as int),
    ensures
        is_plain_segment(name),
{
    lemma_name_chars_up_to(name, name.len() as int);
    assert(seq!['.'].len() == 1);
    assert(seq!['.', '.'].len() == 2);
}

proof fn lemma_directory_names_plain()
    ensures
        is_plain_segment(INTIFACE_APP_DIRECTORY_NAME@),
        is_plain_segment(INTIFACE_CONFIG_DIRECTORY_NAME@),
        is_plain_segment(INTIFACE_LOGGING_DIRECTORY_NAME@),
        is_plain_segment(INTIFACE_ENGINE_DIRECTORY_NAME@),
{
    reveal_with_fuel(name_chars_up_to, 20);
    assert(is_plain_segment(INTIFACE_APP_DIRECTORY_NAME@)) by {
        reveal_strlit("IntifaceDesktopRust");
        lemma_long_name_is_plain(INTIFACE_APP_DIRECTORY_NAME@);
    }
    assert(is_plain_segment(INTIFACE_CONFIG_DIRECTORY_NAME@)) by {
        reveal_strlit("config");
        lemma_long_name_is_plain(INTIFACE_CONFIG_DIRECTORY_NAME@);
    }
    assert(is_plain_segment(INTIFACE_LOGGING_DIRECTORY_NAME@)) by {
        reveal_strlit("logs");
        lemma_long_name_is_plain(INTIFACE_LOGGING_DIRECTORY_NAME@);
    }
    assert(is_plain_segment(INTIFACE_ENGINE_DIRECTORY_NAME@)) by {
        reveal_strlit("engine");
        lemma_long_name_is_plain(INTIFACE_ENGINE_DIRECTORY_NAME@);
    }
}

proof fn lemma_file_names_plain()
    ensures
        is_plain_segment(USER_DEVICE_CONFIG_FILENAME@),
        is_plain_segment(DEVICE_CONFIG_FILENAME@),
        is_plain_segment(INTIFACE_CONFIG_FILENAME@),
        is_plain_segment(WINDOWS_EXECUTABLE_NAME@),
        is_plain_segment(UNIX_EXECUTABLE_NAME@),
{
    reveal_with_fuel(name_chars_up_to, 33);
    assert(is_plain_segment(USER_DEVICE_CONFIG_FILENAME@)) by {
        reveal_strlit("buttplug-user-device-config.json");
        lemma_long_name_is_plain(USER_DEVICE_CONFIG_FILENAME@);
    }
    assert(is_plain_segment(DEVICE_CONFIG_FILENAME@)) by {
        reveal_strlit("buttplug-device-config.json");
        lemma_long_name_is_plain(DEVICE_CONFIG_FILENAME@);
    }
    assert(is_plain_segment(INTIFACE_CONFIG_FILENAME@)) by {
        reveal_strlit("intiface.config.json");
        lemma_long_name_is_plain(INTIFACE_CONFIG_FILENAME@);
    }
    assert(is_plain_segment(WINDOWS_EXECUTABLE_NAME@)) by {
        reveal_strlit("IntifaceCLI.exe");
        lemma_long_name_is_plain(WINDOWS_EXECUTABLE_NAME@);
    }
    assert(is_plain_segment(UNIX_EXECUTABLE_NAME@)) by {
        reveal_strlit("IntifaceCLI");
        lemma_long_name_is_plain(UNIX_EXECUTABLE_NAME@);
    }
}

/// The file name of the engine executable on `platform`.
pub fn executable_name(platform: Platform) -> (name: &'static str)
    ensures
        name@ == executable_name_of(platform),
{
    match platform {
        Platform::Windows => WINDOWS_EXECUTABLE_NAME,
        _ => UNIX_EXECUTABLE_NAME,
    }
}

/// The application directory below `data_dir`.
pub fn app_path_in(data_dir: PathBuf) -> (dir: PathBuf)
    ensures
        path_segments(dir) == path_segments(data_dir) + app_segments(),
{
    let mut dir = data_dir;
    proof {
        lemma_directory_names_plain();
    }
    push_segment(&mut dir, INTIFACE_APP_DIRECTORY_NAME);
    assert(path_segments(dir) =~= path_segments(data_dir) + app_segments());
    dir
}

/// The configuration directory below `data_dir`.
pub fn user_config_path_in(data_dir: PathBuf) -> (dir: PathBuf)
    ensures
        path_segments(dir) == path_segments(data_dir) + user_config_segments(),
{
    let mut dir = app_path_in(data_dir);
    proof {
        lemma_directory_names_plain();
    }
    push_segment(&mut dir, INTIFACE_CONFIG_DIRECTORY_NAME);
    assert(path_segments(dir) =~= path_segments(data_dir) + user_config_segments());
    dir
}

/// The log directory below `data_dir`.
pub fn log_path_in(data_dir: PathBuf) -> (dir: PathBuf)
    ensures
        path_segments(dir) == path_segments(data_dir) + log_segments(),
{
    let mut dir = app_path_in(data_dir);
    proof {
        lemma_directory_names_plain();
    }
    push_segment(&mut dir, INTIFACE_LOGGING_DIRECTORY_NAME);
    assert(path_segments(dir) =~= path_segments(data_dir) + log_segments());
    dir
}

/// The application's configuration file below `data_dir`.
pub fn config_file_path_in(data_dir: PathBuf) -> (file: PathBuf)
    ensures
        path_segments(file) == path_segments(data_dir) + config_entry_segments(
            INTIFACE_CONFIG_FILENAME@,
        ),
{
    let mut file = user_config_path_in(data_dir);
    proof {
        lemma_file_names_plain();
    }
    push_segment(&mut file, INTIFACE_CONFIG_FILENAME);
    assert(path_segments(file) =~= path_segments(data_dir) + config_entry_segments(
        INTIFACE_CONFIG_FILENAME@,
    ));
    file
}

/// The device database below `data_dir`.
pub fn device_config_file_path_in(data_dir: PathBuf) -> (file: PathBuf)
    ensures
        path_segments(file) == path_segments(data_dir) + config_entry_segments(
            DEVICE_CONFIG_FILENAME@,
        ),
{
    let mut file = user_config_path_in(data_dir);
    proof {
        lemma_file_names_plain();
    }
    push_segment(&mut file, DEVICE_CONFIG_FILENAME);
    assert(path_segments(file) =~= path_segments(data_dir) + config_entry_segments(
        DEVICE_CONFIG_FILENAME@,
    ));
    file
}

/// The user's own device definitions below `data_dir`.
pub fn user_device_config_file_path_in(data_dir: PathBuf) -> (file: PathBuf)
    ensures
        path_segments(file) == path_segments(data_dir) + config_entry_segments(
            USER_DEVICE_CONFIG_FILENAME@,
        ),
{
    let mut file = user_config_path_in(data_dir);
    proof {
        lemma_file_names_plain();
    }
    push_segment(&mut file, USER_DEVICE_CONFIG_FILENAME);
    assert(path_segments(file) =~= path_segments(data_dir) + config_entry_segments(
        USER_DEVICE_CONFIG_FILENAME@,
    ));
    file
}

/// The installed engine executable for `platform` below `data_dir`.
pub fn engine_file_path_in(data_dir: PathBuf, platform: Platform) -> (file: PathBuf)
    ensures
        path_segments(file) == path_segments(data_dir) + engine_file_segments(platform),
{
    let mut file = app_path_in(data_dir);
    proof {
        lemma_directory_names_plain();
        lemma_file_names_plain();
    }
    push_segment(&mut file, INTIFACE_ENGINE_DIRECTORY_NAME);
    push_segment(&mut file, executable_name(platform));
    assert(path_segments(file) =~= path_segments(data_dir) + engine_file_segments(platform));
    file
}

/// The application directory of the current user, if the platform names a data directory.
pub fn app_path() -> (dir: Option<PathBuf>)
    ensures
        dir matches Some(p) ==> app_segments().is_suffix_of(path_segments(p)),
{
    match data_dir() {
        Some(base) => {
            let dir = app_path_in(base);
            assert(app_segments().is_suffix_of(path_segments(dir)));
            Some(dir)
        },
        None => None,
    }
}

/// The configuration directory of the current user.
pub fn user_config_path() -> (dir: Option<PathBuf>)
    ensures
        dir matches Some(p) ==> user_config_segments().is_suffix_of(path_segments(p)),
{
    match data_dir() {
        Some(base) => {
            let dir = user_config_path_in(base);
            assert(user_config_segments().is_suffix_of(path_segments(dir)));
            Some(dir)
        },
        None => None,
    }
}

/// The log directory of the current user.
pub fn log_path() -> (dir: Option<PathBuf>)
    ensures
        dir matches Some(p) ==> log_segments().is_suffix_of(path_segments(p)),
{
    match data_dir() {
        Some(base) => {
            let dir = log_path_in(base);
            assert(log_segments().is_suffix_of(path_segments(dir)));
            Some(dir)
        },
        None => None,
    }
}

/// The application's configuration file.
pub fn config_file_path() -> (file: Option<PathBuf>)
    ensures
        file matches Some(p) ==> config_entry_segments(INTIFACE_CONFIG_FILENAME@).is_suffix_of(
            path_segments(p),
        ),
{
    match data_dir() {
        Some(base) => {
            let file = config_file_path_in(base);
            assert(config_entry_segments(INTIFACE_CONFIG_FILENAME@).is_suffix_of(
                path_segments(file),
            ));
            Some(file)
        },
        None => None,
    }
}

/// The device database.
pub fn device_config_file_path() -> (file: Option<PathBuf>)
    ensures
        file matches Some(p) ==> config_entry_segments(DEVICE_CONFIG_FILENAME@).is_suffix_of(
            path_segments(p),
        ),
{
    match data_dir() {
        Some(base) => {
            let file = device_config_file_path_in(base);
            assert(config_entry_segments(DEVICE_CONFIG_FILENAME@).is_suffix_of(
                path_segments(file),
            ));
            Some(file)
        },
        None => None,
    }
}

/// The user's own device definitions.
pub fn user_device_config_file_path() -> (file: Option<PathBuf>)
    ensures
        file matches Some(p) ==> config_entry_segments(USER_DEVICE_CONFIG_FILENAME@).is_suffix_of(
            path_segments(p),
        ),
{
    match data_dir() {
        Some(base) => {
            let file = user_device_config_file_path_in(base);
            assert(config_entry_segments(USER_DEVICE_CONFIG_FILENAME@).is_suffix_of(
                path_segments(file),
            ));
            Some(file)
        },
        None => None,
    }
}

/// The installed engine executable for `platform`.
pub fn engine_file_path(platform: Platform) -> (file: Option<PathBuf>)
    ensures
        file matches Some(p) ==> engine_file_segments(platform).is_suffix_of(path_segments(p)),
{
    match data_dir() {
        Some(base) => {
            let file = engine_file_path_in(base, platform);
            assert(engine_file_segments(platform).is_suffix_of(path_segments(file)));
            Some(file)
        },
        None => None,
    }
}

} // verus!
