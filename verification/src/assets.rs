//! Asset path resolution.
//!
//! The demo loads its textures either from the filesystem (development
//! builds, with a configurable base directory) or from blobs embedded in the
//! binary under a fixed namespace prefix (release builds). Exactly one
//! strategy is active per build profile, and both are pure functions of the
//! asset name.

use vstd::prelude::*;

verus! {

use vstd::string::StringExecFns;

/// The build profile an asset path is resolved under.
#[derive(Clone, Copy, PartialEq, Eq, Structural, Debug)]
pub enum BuildProfile {
    /// Development build: assets are read from a base directory on disk.
    Debug,
    /// Distribution build: assets are embedded in the binary.
    Release,
}

/// Namespace prefix put in front of every embedded asset identifier.
pub open spec fn embedded_prefix() -> Seq<char> {
    "embedded://mitchty/assets/"@
}

/// Relative suffix joined to the manifest directory when no override is
/// given for the base asset directory.
pub open spec fn default_asset_suffix() -> Seq<char> {
    "/src/assets"@
}

/// Determine the base asset directory for development builds: an override
/// value (from the environment, read by the caller) wins verbatim; without
/// one, the manifest directory joined with `src/assets`.
pub fn get_asset_base_path(bevy_asset_path_env: Option<String>, manifest_dir: &str) -> (r: String)
    ensures
        bevy_asset_path_env is Some ==> r@ == bevy_asset_path_env->0@,
        bevy_asset_path_env is None ==> r@ == manifest_dir@ + default_asset_suffix(),
{
    match bevy_asset_path_env {
        Some(p) => p,
        None => String::from_str(manifest_dir).concat("/src/assets"),
    }
}

/// Resolution for development builds: the asset name is the path.
pub fn asset_path_debug(path: &str) -> (r: String)
    ensures
        r@ == path@,
{
    String::from_str(path)
}

/// Resolution for distribution builds: the asset name under the embedded
/// namespace prefix.
pub fn asset_path_release(path: &str) -> (r: String)
    ensures
        r@ == embedded_prefix() + path@,
{
    String::from_str("embedded://mitchty/assets/").concat(path)
}

/// What asset path resolution returns for a given profile and asset name.
pub open spec fn spec_asset_path(profile: BuildProfile, path: Seq<char>) -> Seq<char> {
    match profile {
        BuildProfile::Debug => path,
        BuildProfile::Release => embedded_prefix() + path,
    }
}

/// Resolve an asset name to the path to load, by build profile. The result
/// depends only on the profile and the name.
pub fn asset_path(profile: BuildProfile, path: &str) -> (r: String)
    ensures
        r@ == spec_asset_path(profile, path@),
{
    match profile {
        BuildProfile::Debug => asset_path_debug(path),
        BuildProfile::Release => asset_path_release(path),
    }
}

/// Pass-through resolution returns its input unchanged.
pub proof fn lemma_debug_resolution_is_identity(path: Seq<char>)
    ensures
        spec_asset_path(BuildProfile::Debug, path) == path,
{
}

/// Embedded resolution always begins with the namespace prefix, whatever the
/// asset name.
pub proof fn lemma_release_resolution_has_prefix(path: Seq<char>)
    ensures
        spec_asset_path(BuildProfile::Release, path).take(embedded_prefix().len() as int)
            == embedded_prefix(),
        spec_asset_path(BuildProfile::Release, path).skip(embedded_prefix().len() as int)
            == path,
{
    assert(spec_asset_path(BuildProfile::Release, path).take(embedded_prefix().len() as int)
        =~= embedded_prefix());
    assert(spec_asset_path(BuildProfile::Release, path).skip(embedded_prefix().len() as int)
        =~= path);
}

} // verus!
