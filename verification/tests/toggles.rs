use mitchty::toggles::{
    feature_of_input, fps_text_action, reconcile, EnableAction, Feature, FpsTextAction,
    ToggleFlags, ToggleInput,
};

const ALL_FEATURES: [Feature; 6] = [
    Feature::TvEffect,
    Feature::CameraRotation,
    Feature::CubeRotation,
    Feature::HueAnimation,
    Feature::FpsDisplay,
    Feature::DebugPanel,
];

#[test]
fn test_initial_state() {
    let flags = ToggleFlags::init();
    assert!(flags.tv_effect);
    assert!(flags.camera_rotation);
    assert!(flags.cube_rotation);
    assert!(flags.hue_animation);
    assert!(!flags.fps_display);
    assert!(!flags.debug_panel);
}

#[test]
fn test_toggle_twice_restores_state() {
    for f in ALL_FEATURES {
        let mut flags = ToggleFlags::init();
        let before = flags;
        flags.toggle(f);
        assert_ne!(flags.is_enabled(f), before.is_enabled(f));
        flags.toggle(f);
        assert_eq!(flags, before);
    }
}

#[test]
fn test_toggle_moves_only_its_feature() {
    for f in ALL_FEATURES {
        let mut flags = ToggleFlags::init();
        let before = flags;
        flags.toggle(f);
        for g in ALL_FEATURES {
            if g == f {
                assert_eq!(flags.is_enabled(g), !before.is_enabled(g));
            } else {
                assert_eq!(flags.is_enabled(g), before.is_enabled(g));
            }
        }
    }
}

#[test]
fn test_set_feature() {
    let mut flags = ToggleFlags::init();
    flags.set_feature(Feature::TvEffect, false);
    assert!(!flags.is_enabled(Feature::TvEffect));
    // Setting an already-clear flag to false changes nothing
    let before = flags;
    flags.set_feature(Feature::TvEffect, false);
    assert_eq!(flags, before);
    flags.set_feature(Feature::TvEffect, true);
    assert!(flags.is_enabled(Feature::TvEffect));
    assert!(flags.is_enabled(Feature::CameraRotation));
}

#[test]
fn test_key_mapping() {
    assert_eq!(feature_of_input(ToggleInput::KeyT), Feature::TvEffect);
    assert_eq!(feature_of_input(ToggleInput::KeyR), Feature::CameraRotation);
    assert_eq!(feature_of_input(ToggleInput::KeyC), Feature::CubeRotation);
    assert_eq!(feature_of_input(ToggleInput::KeyH), Feature::HueAnimation);
    assert_eq!(feature_of_input(ToggleInput::KeyF), Feature::FpsDisplay);
    assert_eq!(feature_of_input(ToggleInput::KeyD), Feature::DebugPanel);
    assert_eq!(feature_of_input(ToggleInput::Touch), Feature::DebugPanel);
}

#[test]
fn test_handle_input_edge_triggered() {
    let mut flags = ToggleFlags::init();

    // A key-down edge flips the feature
    flags.handle_input(ToggleInput::KeyF, true);
    assert!(flags.is_enabled(Feature::FpsDisplay));

    // A held key (no edge) must not re-toggle
    flags.handle_input(ToggleInput::KeyF, false);
    assert!(flags.is_enabled(Feature::FpsDisplay));
    flags.handle_input(ToggleInput::KeyF, false);
    assert!(flags.is_enabled(Feature::FpsDisplay));

    // The next edge flips it back
    flags.handle_input(ToggleInput::KeyF, true);
    assert!(!flags.is_enabled(Feature::FpsDisplay));
}

#[test]
fn test_touch_toggles_debug_panel() {
    let mut flags = ToggleFlags::init();
    flags.handle_input(ToggleInput::Touch, true);
    assert!(flags.is_enabled(Feature::DebugPanel));
    flags.handle_input(ToggleInput::KeyD, true);
    assert!(!flags.is_enabled(Feature::DebugPanel));
}

#[test]
fn test_reconcile_actions() {
    assert_eq!(reconcile(true, false), EnableAction::Attach);
    assert_eq!(reconcile(false, true), EnableAction::Detach);
    assert_eq!(reconcile(true, true), EnableAction::Leave);
    assert_eq!(reconcile(false, false), EnableAction::Leave);
}

#[test]
fn test_fps_text_action() {
    // Readout on: the text is written whatever it held
    assert_eq!(fps_text_action(true, true), FpsTextAction::SetReading);
    assert_eq!(fps_text_action(true, false), FpsTextAction::SetReading);
    // Readout off: a stale reading is cleared once, an empty text left alone
    assert_eq!(fps_text_action(false, false), FpsTextAction::Clear);
    assert_eq!(fps_text_action(false, true), FpsTextAction::Keep);
}

#[test]
fn test_reconcile_converges() {
    for target in [false, true] {
        for current in [false, true] {
            let after = match reconcile(target, current) {
                EnableAction::Attach => true,
                EnableAction::Detach => false,
                EnableAction::Leave => current,
            };
            assert_eq!(after, target);
        }
    }
}
