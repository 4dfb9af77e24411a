//! The update manager: what is out of date, and whether work is in flight.
//!
//! The manager never reads a file or opens a connection. An operation starts with a call
//! that marks the manager busy and says what the host is to find out; the host reports each
//! finding to the step that judges it; [`UpdateManager::finish_updating`] ends the
//! operation. The two freshness checks are independent of each other: their steps may be
//! reported in any order, and a failure in one leaves the other's flags alone.
use crate::archive::{
    all_readable, is_engine_or_refusal, is_entry_of, is_refusal, is_unpacked_from, unpack_engine,
    zip_files, NOTHING_TO_INSTALL,
};
use crate::intiface_configuration::IntifaceConfiguration;
use crate::release::{
    engine_asset_name, engine_asset_name_of, find_asset, has_match, is_first_match, Release,
};
use crate::util::{executable_name, executable_name_of, Platform};
use crate::version::{parse_release_tag, parse_version, tag_version_of, version_of};
use buttplug::util::device_configuration::load_protocol_config_from_json;
use vstd::prelude::*;
use vstd::string::StringExecFns;

verus! {

/// Owner of the device database's repository.
pub const BUTTPLUG_REPO_OWNER: &'static str = "buttplugio";

/// Owner of the application's and the engine's repositories.
pub const INTIFACE_REPO_OWNER: &'static str = "intiface";

/// Repository of the application.
pub const INTIFACE_DESKTOP_REPO: &'static str = "intiface-desktop-egui";

/// Repository of the engine.
pub const INTIFACE_ENGINE_REPO: &'static str = "intiface-cli-rs";

/// Tag that marks a prerelease.
pub const PRERELEASE_TAG: &'static str = "420.69.666";

/// Where the version of the latest device database is published, as a plain number.
pub const DEVICE_CONFIG_VERSION_URL: &'static str =
    "https://buttplug-rs-device-config.buttplug.io/version";

/// Where the latest device database is published.
pub const DEVICE_CONFIG_URL: &'static str = "https://buttplug-rs-device-config.buttplug.io";

/// How the report of a failed connection begins; the URL follows.
pub const CONNECTION_ERROR_TEXT: &'static str = "Error establishing connection to update URL ";

/// What stands between the URL and the cause in the report of a failed connection.
pub const CONNECTION_ERROR_SEPARATOR: &'static str = ": ";

/// How the report of a release source that could not be asked begins; the cause follows.
pub const GITHUB_ERROR_TEXT: &'static str = "Error retreiving information from Github: ";

/// How the report of an unusable answer begins; what was received follows.
pub const INVALID_DATA_TEXT: &'static str = "Invalid data received from version check: ";

/// Why a check or a download did not go through.
#[derive(Clone, Debug, PartialEq, Eq)]
pub enum UpdateError {
    /// The connection to a URL failed: the URL, then the cause.
    ConnectionError(String, String),
    /// The release source could not be asked: the cause.
    GithubError(String),
    /// A source answered with something unusable: what it was.
    InvalidData(String),
}

impl UpdateError {
    /// The error in words.
    pub open spec fn message_of(self) -> Seq<char> {
        match self {
            UpdateError::ConnectionError(url, cause) => CONNECTION_ERROR_TEXT@ + url@
                + CONNECTION_ERROR_SEPARATOR@ + cause@,
            UpdateError::GithubError(cause) => GITHUB_ERROR_TEXT@ + cause@,
            UpdateError::InvalidData(what) => INVALID_DATA_TEXT@ + what@,
        }
    }

    /// The error in words.
    pub fn message(&self) -> (text: String)
        ensures
            text@ == self.message_of(),
    {
        match self {
            UpdateError::ConnectionError(url, cause) => String::from_str(
                CONNECTION_ERROR_TEXT,
            ).concat(url.as_str()).concat(CONNECTION_ERROR_SEPARATOR).concat(cause.as_str()),
            UpdateError::GithubError(cause) => String::from_str(GITHUB_ERROR_TEXT).concat(
                cause.as_str(),
            ),
            UpdateError::InvalidData(what) => String::from_str(INVALID_DATA_TEXT).concat(
                what.as_str(),
            ),
        }
    }
}

/// One consistent reading of the manager's flags and versions.
#[derive(Clone, Copy, Debug, PartialEq, Eq, Structural)]
pub struct UpdateStatus {
    pub needs_device_file_update: bool,
    pub needs_engine_update: bool,
    pub needs_application_update: bool,
    pub latest_engine_version: u32,
    pub latest_device_file_version: u32,
    pub is_updating: bool,
}

impl UpdateStatus {
    /// Nothing known, nothing in flight.
    pub open spec fn initial() -> Self {
        UpdateStatus {
            needs_device_file_update: false,
            needs_engine_update: false,
            needs_application_update: false,
            latest_engine_version: 0,
            latest_device_file_version: 0,
            is_updating: false,
        }
    }

    /// This status once an operation has started.
    pub open spec fn busy(self) -> Self {
        UpdateStatus { is_updating: true, ..self }
    }

    /// This status once the operation has ended.
    pub open spec fn idle(self) -> Self {
        UpdateStatus { is_updating: false, ..self }
    }

    /// This status once the device database is known to be missing, unusable or beyond
    /// comparison: an update is called for.
    pub open spec fn device_file_in_doubt(self) -> Self {
        UpdateStatus { needs_device_file_update: true, ..self }
    }

    /// This status once the local device database, of version `local`, has been compared
    /// with the published version `remote`.
    pub open spec fn device_file_compared(self, local: u32, remote: u32) -> Self {
        UpdateStatus {
            latest_device_file_version: remote,
            needs_device_file_update: remote > local,
            ..self
        }
    }

    /// This status once the installed engine, of version `local`, has been compared with
    /// the released version `remote`.
    pub open spec fn engine_compared(self, local: u32, remote: u32) -> Self {
        UpdateStatus { latest_engine_version: remote, needs_engine_update: remote != local, ..self }
    }

    /// What a download round is to fetch, in the order in which it is to be fetched:
    /// whatever is flagged as out of date, the device database before the engine.
    pub open spec fn downloads_planned(self) -> Seq<Download> {
        let device_file = if self.needs_device_file_update {
            seq![Download::DeviceFile]
        } else {
            Seq::empty()
        };
        let engine = if self.needs_engine_update {
            seq![Download::Engine]
        } else {
            Seq::empty()
        };
        device_file + engine
    }

    /// Whether `after` is what one step of a check or of a download can make of `self`.
    pub open spec fn steps_to(self, after: Self) -> bool {
        ||| after == self
        ||| after == self.device_file_in_doubt()
        ||| exists|local: u32, remote: u32|
            after == #[trigger] self.device_file_compared(local, remote)
        ||| exists|local: u32, remote: u32|
            after == #[trigger] self.engine_compared(local, remote)
    }
}

/// What remains of the device-file check once the local file has been looked at.
#[derive(Clone, Copy, Debug, PartialEq, Eq, Structural)]
pub enum DeviceFileCheck {
    /// The check is over; nothing is to be fetched.
    Done,
    /// Fetch the published version and hand it, with `local_version`, to
    /// [`UpdateManager::compare_device_file_version`].
    FetchRemoteVersion { local_version: u32 },
}

/// One thing a download round fetches and puts in place.
#[derive(Clone, Copy, Debug, PartialEq, Eq, Structural)]
pub enum Download {
    /// The device database.
    DeviceFile,
    /// The engine for this platform.
    Engine,
}

/// The version that `load_protocol_config_from_json` finds in a device database, or
/// nothing where it turns the text down.
pub uninterp spec fn device_config_version(contents: Seq<char>) -> Option<u32>;

/// `buttplug::util::device_configuration::load_protocol_config_from_json`: the version
/// field of the device database that `contents` holds, where the text passes the
/// database's schema, parses, and is no older than the database the engine library ships.
#[verifier::external_body]
fn read_device_config_version(contents: &str) -> (version: Option<u32>)
    ensures
        version == device_config_version(contents@),
{
    load_protocol_config_from_json(contents).ok().map(|config| config.version)
}

/// Keeper of the update status.
pub struct UpdateManager {
    status: UpdateStatus,
}

impl View for UpdateManager {
    type V = UpdateStatus;

    closed spec fn view(&self) -> UpdateStatus {
        self.status
    }
}

impl Default for UpdateManager {
    fn default() -> (manager: Self)
        ensures
            manager@ == UpdateStatus::initial(),
    {
        UpdateManager {
            status: UpdateStatus {
                needs_device_file_update: false,
                needs_engine_update: false,
                needs_application_update: false,
                latest_engine_version: 0,
                latest_device_file_version: 0,
                is_updating: false,
            },
        }
    }
}

impl UpdateManager {
    /// All flags and versions, read together.
    pub fn status(&self) -> (status: UpdateStatus)
        ensures
            status == self@,
    {
        self.status
    }

    /// Whether anything is out of date.
    pub fn needs_updates(&self) -> (needed: bool)
        ensures
            needed == (self@.needs_device_file_update || self@.needs_engine_update
                || self@.needs_application_update),
    {
        self.status.needs_application_update || self.status.needs_device_file_update
            || self.status.needs_engine_update
    }

    /// Whether a check or a download is in flight.
    pub fn is_updating(&self) -> (busy: bool)
        ensures
            busy == self@.is_updating,
    {
        self.status.is_updating
    }

    /// Starts a round of freshness checks and returns the installed engine version that
    /// the engine check is to compare against. The host then runs the device-file check
    /// and the engine check, in any order or at once, and ends the round with
    /// [`Self::finish_updating`].
    pub fn check_for_updates(&mut self, config: &IntifaceConfiguration) -> (engine_version: u32)
        ensures
            final(self)@ == old(self)@.busy(),
            engine_version == config.current_engine_version,
    {
        self.status.is_updating = true;
        config.current_engine_version
    }

    /// Starts a download round and says what is to be downloaded, in order: whatever is
    /// flagged as out of date, the device database first. Each download is to be over
    /// before the next begins. The host ends the round with [`Self::finish_updating`].
    pub fn get_updates(&mut self) -> (plan: Vec<Download>)
        ensures
            final(self)@ == old(self)@.busy(),
            plan@ == old(self)@.downloads_planned(),
    {
        self.status.is_updating = true;
        let mut plan: Vec<Download> = Vec::new();
        if self.status.needs_device_file_update {
            plan.push(Download::DeviceFile);
        }
        if self.status.needs_engine_update {
            plan.push(Download::Engine);
        }
        assert(plan@ =~= old(self)@.downloads_planned());
        plan
    }

    /// Ends the round in flight, however its steps went.
    pub fn finish_updating(&mut self)
        ensures
            final(self)@ == old(self)@.idle(),
    {
        self.status.is_updating = false;
    }

    /// Judges what is known of the local device database: `None` where the file is
    /// missing or unusable, else its version. Without a usable file an update is called
    /// for at once and nothing is to be fetched.
    pub fn local_device_file_examined(&mut self, local_version: Option<u32>) -> (next:
        DeviceFileCheck)
        ensures
            match local_version {
                Some(version) => final(self)@ == old(self)@ && next
                    == (DeviceFileCheck::FetchRemoteVersion { local_version: version }),
                None => final(self)@ == old(self)@.device_file_in_doubt() && next
                    == DeviceFileCheck::Done,
            },
            old(self)@.steps_to(final(self)@),
    {
        match local_version {
            Some(version) => DeviceFileCheck::FetchRemoteVersion { local_version: version },
            None => {
                self.status.needs_device_file_update = true;
                DeviceFileCheck::Done
            },
        }
    }

    /// First step of the device-file check. `contents` is the text of the local device
    /// database, `None` where there is no such file.
    pub fn check_for_device_file_update(&mut self, contents: Option<&str>) -> (next:
        DeviceFileCheck)
        ensures
            match contents {
                Some(text) => match device_config_version(text@) {
                    Some(version) => final(self)@ == old(self)@ && next
                        == (DeviceFileCheck::FetchRemoteVersion { local_version: version }),
                    None => final(self)@ == old(self)@.device_file_in_doubt() && next
                        == DeviceFileCheck::Done,
                },
                None => final(self)@ == old(self)@.device_file_in_doubt() && next
                    == DeviceFileCheck::Done,
            },
            old(self)@.steps_to(final(self)@),
    {
        let local_version = match contents {
            Some(text) => read_device_config_version(text),
            None => None,
        };
        self.local_device_file_examined(local_version)
    }

    /// Second step of the device-file check. `response` is what the version endpoint
    /// answered, or why it could not be reached. A version that can be read is recorded,
    /// and an update is called for exactly when it is greater than `local_version`. Any
    /// failure calls for an update and is reported.
    pub fn compare_device_file_version(
        &mut self,
        local_version: u32,
        response: Result<String, String>,
    ) -> (outcome: Result<(), UpdateError>)
        ensures
            match response {
                Ok(text) => match version_of(text@) {
                    Some(remote) => outcome is Ok && final(self)@ == old(
                        self,
                    )@.device_file_compared(local_version, remote),
                    None => outcome == Err::<(), UpdateError>(UpdateError::InvalidData(text))
                        && final(self)@ == old(self)@.device_file_in_doubt(),
                },
                Err(cause) => {
                    &&& outcome matches Err(UpdateError::ConnectionError(url, why))
                    &&& url@ == DEVICE_CONFIG_VERSION_URL@
                    &&& why == cause
                    &&& final(self)@ == old(self)@.device_file_in_doubt()
                },
            },
            old(self)@.steps_to(final(self)@),
    {
        match response {
            Ok(text) => match parse_version(text.as_str()) {
                Some(remote) => {
                    self.status.latest_device_file_version = remote;
                    self.status.needs_device_file_update = remote > local_version;
                    Ok(())
                },
                None => {
                    self.status.needs_device_file_update = true;
                    Err(UpdateError::InvalidData(text))
                },
            },
            Err(cause) => {
                self.status.needs_device_file_update = true;
                Err(UpdateError::ConnectionError(DEVICE_CONFIG_VERSION_URL.to_owned(), cause))
            },
        }
    }

    /// The engine check. `release` is the engine's latest release, or why the release
    /// source could not be asked. The version in the release's tag is recorded, and an
    /// update is called for exactly when it differs from `engine_version`, in either
    /// direction. A failure is reported and changes nothing.
    pub fn check_for_engine_update(
        &mut self,
        engine_version: u32,
        release: Result<Release, String>,
    ) -> (outcome: Result<(), UpdateError>)
        ensures
            match release {
                Ok(latest) => match tag_version_of(latest.tag_name@) {
                    Some(remote) => outcome is Ok && final(self)@ == old(self)@.engine_compared(
                        engine_version,
                        remote,
                    ),
                    None => outcome == Err::<(), UpdateError>(
                        UpdateError::InvalidData(latest.tag_name),
                    ) && final(self)@ == old(self)@,
                },
                Err(cause) => outcome == Err::<(), UpdateError>(UpdateError::GithubError(cause))
                    && final(self)@ == old(self)@,
            },
            old(self)@.steps_to(final(self)@),
    {
        match release {
            Ok(latest) => match parse_release_tag(latest.tag_name.as_str()) {
                Some(remote) => {
                    self.status.latest_engine_version = remote;
                    self.status.needs_engine_update = remote != engine_version;
                    Ok(())
                },
                None => Err(UpdateError::InvalidData(latest.tag_name)),
            },
            Err(cause) => Err(UpdateError::GithubError(cause)),
        }
    }

    /// The application check. Application updates are not offered yet: none is ever
    /// called for.
    pub fn check_for_application_update(&self, config: &IntifaceConfiguration) -> (outcome: Result<
        bool,
        UpdateError,
    >)
        ensures
            outcome == Ok::<bool, UpdateError>(false),
    {
        Ok(false)
    }

    /// Judges the download of the device database. `response` is the text that the
    /// database's URL answered, or why it could not be reached. The text is what the
    /// host is to store as the device database, unchanged.
    pub fn download_device_file_update(response: Result<String, String>) -> (contents: Result<
        String,
        UpdateError,
    >)
        ensures
            match response {
                Ok(text) => contents == Ok::<String, UpdateError>(text),
                Err(cause) => {
                    &&& contents matches Err(UpdateError::ConnectionError(url, why))
                    &&& url@ == DEVICE_CONFIG_URL@
                    &&& why == cause
                },
            },
    {
        match response {
            Ok(text) => Ok(text),
            Err(cause) => Err(
                UpdateError::ConnectionError(DEVICE_CONFIG_URL.to_owned(), cause),
            ),
        }
    }

    /// Application updates are not offered yet: there is nothing to download.
    pub fn download_application_update(&self, config: &IntifaceConfiguration) {
    }

    /// Chooses what to download for the engine. `release` is the engine's latest release,
    /// or why the release source could not be asked. The choice is the first asset, in
    /// the order listed, whose name starts with the archive name for `platform`; the
    /// result is its download URL. A release without such an asset is an error.
    pub fn download_engine_update(release: Result<Release, String>, platform: Platform) -> (url:
        Result<String, UpdateError>)
        ensures
            match release {
                Ok(latest) => if has_match(latest.assets@, engine_asset_name_of(platform)) {
                    &&& url matches Ok(address)
                    &&& exists|index: int|
                        is_first_match(latest.assets@, engine_asset_name_of(platform), index)
                            && address == latest.assets@[index].browser_download_url
                } else {
                    &&& url matches Err(UpdateError::InvalidData(what))
                    &&& what@ == engine_asset_name_of(platform)
                },
                Err(cause) => url == Err::<String, UpdateError>(UpdateError::GithubError(cause)),
            },
    {
        match release {
            Ok(latest) => {
                let wanted = engine_asset_name(platform);
                match find_asset(&latest.assets, wanted.as_str()) {
                    Some(index) => Ok(latest.assets[index].browser_download_url.clone()),
                    None => Err(UpdateError::InvalidData(wanted)),
                }
            },
            Err(cause) => Err(UpdateError::GithubError(cause)),
        }
    }

    /// Judges the download of the engine archive from `url` and takes the engine for
    /// `platform` out of it: the one file in the archive that is called as the engine
    /// executable is on that platform. `response` is what the URL answered, or why it
    /// could not be reached. The result is what the host is to store as the engine
    /// executable.
    pub fn unpack_engine_update(
        url: &str,
        response: Result<Vec<u8>, String>,
        platform: Platform,
    ) -> (engine: Result<Vec<u8>, UpdateError>)
        ensures
            match response {
                Ok(bytes) => {
                    &&& is_unpacked_from(engine, bytes@, executable_name_of(platform))
                    &&& zip_files(bytes@) is None ==> engine is Err
                    &&& engine matches Ok(contents) ==> is_entry_of(contents@, bytes@)
                    &&& engine matches Err(error) ==> error is InvalidData
                    &&& zip_files(bytes@) is Some && all_readable(zip_files(bytes@)->Some_0)
                        ==> is_engine_or_refusal(engine)
                    &&& zip_files(bytes@) is Some && zip_files(bytes@)->Some_0.len() == 0
                        ==> is_refusal(engine, NOTHING_TO_INSTALL@)
                },
                Err(cause) => {
                    &&& engine matches Err(UpdateError::ConnectionError(address, why))
                    &&& address@ == url@
                    &&& why == cause
                },
            },
    {
        match response {
            Ok(bytes) => unpack_engine(bytes, executable_name(platform)),
            Err(cause) => Err(UpdateError::ConnectionError(url.to_owned(), cause)),
        }
    }

    /// Stores the versions last seen at the release sources as the installed versions of
    /// `config`. The host persists `config` afterwards.
    pub fn update_config(&self, config: &mut IntifaceConfiguration)
        ensures
            *final(config) == old(config).with_versions(
                self@.latest_device_file_version,
                self@.latest_engine_version,
            ),
    {
        config.set_versions(
            self.status.latest_device_file_version,
            self.status.latest_engine_version,
        );
    }

    /// Application updates are not offered yet: there is nothing to install.
    pub fn install_application(&self, config: &IntifaceConfiguration) {
    }
}

/// A device-file check that reads both versions calls for an update exactly when the
/// published version is greater than the local one, and records the published version
/// whether or not it does. A check that finds no usable local database calls for an
/// update whatever was known before, and records no version.
pub proof fn law_device_file_check(status: UpdateStatus, local: u32, remote: u32)
    ensures
        status.device_file_compared(local, remote).needs_device_file_update <==> remote > local,
        status.device_file_compared(local, remote).latest_device_file_version == remote,
        status.device_file_in_doubt().needs_device_file_update,
        status.device_file_in_doubt().latest_device_file_version
            == status.latest_device_file_version,
{
}

/// An engine check calls for an update exactly when the released version differs from the
/// installed one, in either direction, and records the released version whether or not it
/// does.
pub proof fn law_engine_check(status: UpdateStatus, local: u32, remote: u32)
    ensures
        status.engine_compared(local, remote).needs_engine_update <==> remote != local,
        status.engine_compared(local, remote).latest_engine_version == remote,
{
}

/// The two checks do not touch each other's findings, so their steps may be reported in
/// either order with the same result.
pub proof fn law_checks_are_independent(
    status: UpdateStatus,
    device_local: u32,
    device_remote: u32,
    engine_local: u32,
    engine_remote: u32,
)
    ensures
        status.device_file_compared(device_local, device_remote).needs_engine_update
            == status.needs_engine_update,
        status.device_file_compared(device_local, device_remote).latest_engine_version
            == status.latest_engine_version,
        status.device_file_in_doubt().needs_engine_update == status.needs_engine_update,
        status.device_file_in_doubt().latest_engine_version == status.latest_engine_version,
        status.engine_compared(engine_local, engine_remote).needs_device_file_update
            == status.needs_device_file_update,
        status.engine_compared(engine_local, engine_remote).latest_device_file_version
            == status.latest_device_file_version,
        status.device_file_compared(device_local, device_remote).engine_compared(
            engine_local,
            engine_remote,
        ) == status.engine_compared(engine_local, engine_remote).device_file_compared(
            device_local,
            device_remote,
        ),
        status.device_file_in_doubt().engine_compared(engine_local, engine_remote)
            == status.engine_compared(engine_local, engine_remote).device_file_in_doubt(),
{
}

/// From the start of an operation to its end the manager is busy: whatever steps are
/// reported after the start, in whatever order and however many, the busy flag is set
/// after each of them; and once the operation is ended the flag is clear.
pub proof fn law_busy_from_start_to_end(before: UpdateStatus, run: Seq<UpdateStatus>)
    requires
        run.len() > 0,
        run[0] == before.busy(),
        forall|i: int| 0 <= i < run.len() - 1 ==> (#[trigger] run[i]).steps_to(run[i + 1]),
    ensures
        forall|i: int| 0 <= i < run.len() ==> (#[trigger] run[i]).is_updating,
        !run.last().idle().is_updating,
{
    assert forall|i: int| 0 <= i < run.len() implies (#[trigger] run[i]).is_updating by {
        lemma_busy_up_to(run, i);
    }
}

proof fn lemma_busy_up_to(run: Seq<UpdateStatus>, upto: int)
    requires
        0 <= upto < run.len(),
        run[0].is_updating,
        forall|i: int| 0 <= i < run.len() - 1 ==> (#[trigger] run[i]).steps_to(run[i + 1]),
    ensures
        run[upto].is_updating,
    decreases upto,
{
    if upto > 0 {
        lemma_busy_up_to(run, upto - 1);
        assert(run[upto - 1].steps_to(run[upto]));
    }
}

/// A step of a check or of a download neither starts nor ends an operation, and never
/// calls for an application update.
pub proof fn law_steps_keep_busy_flag(before: UpdateStatus, after: UpdateStatus)
    requires
        before.steps_to(after),
    ensures
        after.is_updating == before.is_updating,
        after.needs_application_update == before.needs_application_update,
{
}

/// A download round fetches exactly what is flagged as out of date, and the device
/// database before the engine. With neither flag set it fetches nothing.
pub proof fn law_downloads_follow_the_flags(status: UpdateStatus)
    ensures
        status.downloads_planned().contains(Download::DeviceFile)
            <==> status.needs_device_file_update,
        status.downloads_planned().contains(Download::Engine) <==> status.needs_engine_update,
        status.downloads_planned().len() == (if status.needs_device_file_update {
            1nat
        } else {
            0nat
        }) + (if status.needs_engine_update {
            1nat
        } else {
            0nat
        }),
        status.needs_device_file_update ==> status.downloads_planned()[0] == Download::DeviceFile,
        !status.needs_device_file_update && !status.needs_engine_update
            ==> status.downloads_planned() == Seq::<Download>::empty(),
{
    let plan = status.downloads_planned();
    if status.needs_device_file_update {
        assert(plan[0] == Download::DeviceFile);
    }
    if status.needs_engine_update {
        assert(plan[plan.len() - 1] == Download::Engine);
    }
}

/// An operation in which nothing is reported changes nothing: started and ended from
/// rest, it leaves the status as it found it.
pub proof fn law_empty_round_changes_nothing(status: UpdateStatus)
    requires
        !status.is_updating,
    ensures
        status.busy().is_updating,
        status.busy().idle() == status,
{
}

/// Storing the observed versions twice is storing them once: with the status unchanged,
/// a second `update_config` leaves the record, and so what is persisted of it, as the
/// first one left it.
pub proof fn law_update_config_is_idempotent(config: IntifaceConfiguration, status: UpdateStatus)
    ensures
        config.with_versions(
            status.latest_device_file_version,
            status.latest_engine_version,
        ).with_versions(status.latest_device_file_version, status.latest_engine_version)
            == config.with_versions(
            status.latest_device_file_version,
            status.latest_engine_version,
        ),
{
}

} // verus!
