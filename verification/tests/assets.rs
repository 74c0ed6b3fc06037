use mitchty::assets::{asset_path, asset_path_debug, asset_path_release, get_asset_base_path};
use mitchty::assets::BuildProfile;

#[test]
fn test_get_asset_base_path_with_env() {
    // When an override is given, use it
    let result = get_asset_base_path(Some("/custom/path".to_string()), "/ignored");
    assert_eq!(result, "/custom/path");
}

#[test]
fn test_get_asset_base_path_fallback() {
    // Without an override, use the manifest directory joined with src/assets
    let result = get_asset_base_path(None, "/project/crates/mitchty");
    assert_eq!(result, "/project/crates/mitchty/src/assets");
}

#[test]
fn test_get_asset_base_path_fallback_relative() {
    // Test with relative path
    let result = get_asset_base_path(None, "crates/mitchty");
    assert_eq!(result, "crates/mitchty/src/assets");
}

#[test]
fn test_asset_path_debug() {
    assert_eq!(asset_path_debug("test.png"), "test.png");
    assert_eq!(
        asset_path_debug("environment_maps/pisa.ktx2"),
        "environment_maps/pisa.ktx2"
    );
    assert_eq!(
        asset_path_debug("foo/bar/baz/asset.ktx2"),
        "foo/bar/baz/asset.ktx2"
    );
}

#[test]
fn test_asset_path_release() {
    assert_eq!(
        asset_path_release("test.png"),
        "embedded://mitchty/assets/test.png"
    );
    assert_eq!(
        asset_path_release("environment_maps/pisa.ktx2"),
        "embedded://mitchty/assets/environment_maps/pisa.ktx2"
    );
    assert_eq!(
        asset_path_release("foo/bar/baz/asset.ktx2"),
        "embedded://mitchty/assets/foo/bar/baz/asset.ktx2"
    );
}

#[test]
fn test_asset_path_wrapper() {
    let path = "environment_maps/pisa_diffuse_rgb9e5_zstd.ktx2";

    // The development profile resolves as the debug strategy does
    assert_eq!(
        asset_path(BuildProfile::Debug, path),
        asset_path_debug(path)
    );

    // The distribution profile resolves as the release strategy does
    assert_eq!(
        asset_path(BuildProfile::Release, path),
        asset_path_release(path)
    );
}

#[test]
fn test_embedded_path_example() {
    assert_eq!(
        asset_path_release("foo/bar.ktx2"),
        "embedded://mitchty/assets/foo/bar.ktx2"
    );
}

#[test]
fn test_release_path_always_has_prefix() {
    for path in ["", "a", "deep/nested/dir/file.ktx2", "spaces in name.png"] {
        let resolved = asset_path(BuildProfile::Release, path);
        assert!(resolved.starts_with("embedded://mitchty/assets/"));
        assert_eq!(&resolved["embedded://mitchty/assets/".len()..], path);
    }
}

#[test]
fn test_debug_path_is_identity() {
    for path in ["", "a", "deep/nested/dir/file.ktx2"] {
        assert_eq!(asset_path(BuildProfile::Debug, path), path);
    }
}

#[test]
fn test_base_path_empty_override_wins() {
    // An override is taken verbatim, even when empty
    let result = get_asset_base_path(Some(String::new()), "/project");
    assert_eq!(result, "");
}
