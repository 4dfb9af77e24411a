//! Releases as a release source describes them, and the choice of the asset to install.
use crate::util::Platform;
use vstd::prelude::*;
use vstd::string::StringExecFns;

verus! {

/// What every engine archive's name starts with, before the platform tag.
pub const ENGINE_ASSET_STEM: &'static str = "intiface-cli-rs-";

/// What follows the platform tag in an engine archive's name.
pub const ENGINE_ASSET_SUFFIX: &'static str = "-Release.zip";

/// How engine archives name Windows.
pub const WINDOWS_PLATFORM_TAG: &'static str = "win-x64";

/// How engine archives name Linux.
pub const LINUX_PLATFORM_TAG: &'static str = "linux-x64";

/// How engine archives name macOS.
pub const MACOS_PLATFORM_TAG: &'static str = "macos-x64";

/// A file attached to a release.
#[derive(Clone, Debug, PartialEq, Eq)]
pub struct ReleaseAsset {
    /// The file's name.
    pub name: String,
    /// Where the file can be downloaded.
    pub browser_download_url: String,
}

/// The latest release of a repository.
#[derive(Clone, Debug, PartialEq, Eq)]
pub struct Release {
    /// The release's tag: a one-character marker, then the version, as in `v12`.
    pub tag_name: String,
    /// The files attached to the release, in the order in which it lists them.
    pub assets: Vec<ReleaseAsset>,
}

/// The tag by which release assets name `platform`.
pub open spec fn platform_tag_of(platform: Platform) -> Seq<char> {
    match platform {
        Platform::Windows => WINDOWS_PLATFORM_TAG@,
        Platform::Linux => LINUX_PLATFORM_TAG@,
        Platform::MacOs => MACOS_PLATFORM_TAG@,
    }
}

/// What the name of the engine archive for `platform` starts with.
pub open spec fn engine_asset_name_of(platform: Platform) -> Seq<char> {
    ENGINE_ASSET_STEM@ + platform_tag_of(platform) + ENGINE_ASSET_SUFFIX@
}

/// Whether asset `index` is the first whose name starts with `prefix`.
pub open spec fn is_first_match(assets: Seq<ReleaseAsset>, prefix: Seq<char>, index: int) -> bool {
    &&& 0 <= index < assets.len()
    &&& prefix.is_prefix_of(assets[index].name@)
    &&& forall|j: int| 0 <= j < index ==> !prefix.is_prefix_of(#[trigger] assets[j].name@)
}

/// Whether the name of any asset starts with `prefix`.
pub open spec fn has_match(assets: Seq<ReleaseAsset>, prefix: Seq<char>) -> bool {
    exists|j: int| 0 <= j < assets.len() && prefix.is_prefix_of(#[trigger] assets[j].name@)
}

/// The tag by which release assets name `platform`.
pub fn platform_tag(platform: Platform) -> (tag: &'static str)
    ensures
        tag@ == platform_tag_of(platform),
{
    match platform {
        Platform::Windows => WINDOWS_PLATFORM_TAG,
        Platform::Linux => LINUX_PLATFORM_TAG,
        Platform::MacOs => MACOS_PLATFORM_TAG,
    }
}

/// What the name of the engine archive for `platform` starts with.
pub fn engine_asset_name(platform: Platform) -> (name: String)
    ensures
        name@ == engine_asset_name_of(platform),
{
    String::from_str(ENGINE_ASSET_STEM).concat(platform_tag(platform)).concat(ENGINE_ASSET_SUFFIX)
}

/// Whether `text` starts with `prefix`, character by character.
pub fn starts_with(text: &str, prefix: &str) -> (found: bool)
    ensures
        found == prefix@.is_prefix_of(text@),
{
    let text_len = text.unicode_len();
    let prefix_len = prefix.unicode_len();
    if prefix_len > text_len {
        return false;
    }
    let mut i: usize = 0;
    while i < prefix_len
        invariant
            i <= prefix_len <= text_len,
            prefix_len == prefix@.len(),
            text_len == text@.len(),
            forall|j: int| 0 <= j < i ==> prefix@[j] == text@[j],
        decreases prefix_len - i,
    {
        if text.get_char(i) != prefix.get_char(i) {
            assert(text@.subrange(0, prefix@.len() as int)[i as int] != prefix@[i as int]);
            return false;
        }
        i += 1;
    }
    assert(prefix@ =~= text@.subrange(0, prefix@.len() as int));
    true
}

/// The first asset whose name starts with `prefix`, by its position in the list.
pub fn find_asset(assets: &Vec<ReleaseAsset>, prefix: &str) -> (found: Option<usize>)
    ensures
        match found {
            Some(index) => is_first_match(assets@, prefix@, index as int),
            None => !has_match(assets@, prefix@),
        },
{
    let mut i: usize = 0;
    while i < assets.len()
        invariant
            i <= assets.len(),
            forall|j: int| 0 <= j < i ==> !prefix@.is_prefix_of(#[trigger] assets@[j].name@),
        decreases assets.len() - i,
    {
        if starts_with(assets[i].name.as_str(), prefix) {
            return Some(i);
        }
        i += 1;
    }
    None
}

} // verus!
