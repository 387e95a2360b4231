//! Self-update: deciding what to install from the latest GitHub release.

use vstd::prelude::*;

use crate::text::{decimal, push_decimal, push_str, same_text, trim_start_char, trimmed_start};
use crate::types::SerisError;

verus! {

/// Endpoint describing the latest release.
pub const GITHUB_LATEST_RELEASE_URL: &'static str = "https://api.github.com/repos/nathan2slime/seris/releases/latest";

/// Target triple of the published binaries.
pub const TARGET_TRIPLE: &'static str = "x86_64-unknown-linux-gnu";

/// A downloadable file of a release.
pub struct ReleaseAsset {
    /// File name.
    pub name: String,
    /// Download URL.
    pub browser_download_url: String,
}

/// A GitHub release.
pub struct GitHubRelease {
    /// Tag of the release, such as `v1.2.3`.
    pub tag_name: String,
    /// Files of the release.
    pub assets: Vec<ReleaseAsset>,
}

/// What a self-update does.
pub enum UpdatePlan {
    /// The running version is the latest one.
    UpToDate,
    /// Install the asset at this index of the release's assets.
    Install(usize),
}

/// The name of the binary asset of release `tag`.
pub open spec fn asset_name_text(tag: Seq<char>) -> Seq<char> {
    "seris-"@ + tag + "-x86_64-unknown-linux-gnu"@
}

/// The message of a release that lacks its binary asset.
pub open spec fn missing_asset_text(tag: Seq<char>) -> Seq<char> {
    "release "@ + tag + " does not include asset "@ + asset_name_text(tag)
}

/// Whether `index` is the first asset of `assets` named `name`.
pub open spec fn first_named(assets: Seq<ReleaseAsset>, name: Seq<char>, index: int) -> bool {
    &&& 0 <= index < assets.len()
    &&& assets[index].name@ == name
    &&& forall|j: int| 0 <= j < index ==> (#[trigger] assets[j]).name@ != name
}

/// Builds the name of the binary asset of release `tag`.
pub fn asset_name(tag: &str) -> (name: String)
    ensures
        name@ == asset_name_text(tag@),
{
    let mut name = String::new();
    push_str(&mut name, "seris-");
    push_str(&mut name, tag);
    push_str(&mut name, "-x86_64-unknown-linux-gnu");
    assert(name@ =~= asset_name_text(tag@));
    name
}

/// Decides what updating from `current_version` to `release` means: nothing
/// when the release's tag, without its leading `v`s, is the running version;
/// otherwise installing the first asset named for the release, and an error
/// when there is none.
pub fn plan_update(release: &GitHubRelease, current_version: &str) -> (plan: Result<UpdatePlan, SerisError>)
    ensures
        trim_start_char(release.tag_name@, 'v') == current_version@ ==> plan matches Ok(UpdatePlan::UpToDate),
        trim_start_char(release.tag_name@, 'v') != current_version@ ==> {
            &&& (exists|i: int| first_named(release.assets@, asset_name_text(release.tag_name@), i)) ==> (plan matches Ok(
                UpdatePlan::Install(i),
            ) && first_named(release.assets@, asset_name_text(release.tag_name@), i as int))
            &&& (forall|i: int|
                0 <= i < release.assets.len() ==> (#[trigger] release.assets@[i]).name@ != asset_name_text(
                    release.tag_name@,
                )) ==> (plan matches Err(SerisError::Update { message }) && message@ == missing_asset_text(
                release.tag_name@,
            ))
        },
{
    let latest_version = trimmed_start(release.tag_name.as_str(), 'v');
    if same_text(latest_version.as_str(), current_version) {
        return Ok(UpdatePlan::UpToDate);
    }
    let name = asset_name(release.tag_name.as_str());
    let mut i: usize = 0;
    while i < release.assets.len()
        invariant
            i <= release.assets.len(),
            name@ == asset_name_text(release.tag_name@),
            trim_start_char(release.tag_name@, 'v') != current_version@,
            forall|j: int| 0 <= j < i ==> (#[trigger] release.assets@[j]).name@ != name@,
        decreases release.assets.len() - i,
    {
        if same_text(release.assets[i].name.as_str(), name.as_str()) {
            return Ok(UpdatePlan::Install(i));
        }
        i = i + 1;
    }
    let mut message = String::new();
    push_str(&mut message, "release ");
    push_str(&mut message, release.tag_name.as_str());
    push_str(&mut message, " does not include asset ");
    push_str(&mut message, name.as_str());
    assert(message@ =~= missing_asset_text(release.tag_name@));
    Err(update_error(message))
}

/// Builds a self-update error with the given message.
pub fn update_error(message: String) -> (error: SerisError)
    ensures
        error matches SerisError::Update { message: m } && m@ == message@,
{
    SerisError::Update { message }
}

/// The message for a download that came back empty.
pub const EMPTY_PAYLOAD_MESSAGE: &'static str = "downloaded update payload was empty";

/// The message for builds that cannot update themselves.
pub const UNSUPPORTED_PLATFORM_MESSAGE: &'static str = "self-update is only available for Linux x86_64 builds";

/// The name of the temporary file a download of `tag` is written to by process `pid`.
pub open spec fn temp_update_file_name_text(pid: u32, tag: Seq<char>) -> Seq<char> {
    ".seris-update-"@ + decimal(pid as nat) + "-"@ + tag
}

/// Builds the name of the temporary file for a download of `tag` by process `pid`.
pub fn temp_update_file_name(pid: u32, tag: &str) -> (name: String)
    ensures
        name@ == temp_update_file_name_text(pid, tag@),
{
    let mut name = String::new();
    push_str(&mut name, ".seris-update-");
    push_decimal(&mut name, pid as u64);
    push_str(&mut name, "-");
    push_str(&mut name, tag);
    assert(name@ =~= temp_update_file_name_text(pid, tag@));
    name
}

} // verus!
