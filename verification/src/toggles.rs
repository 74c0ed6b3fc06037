//! Feature toggles.
//!
//! Each togglable feature of the demo is an independent boolean: it starts in
//! a fixed default state, flips exactly once per key-down edge of its key
//! (holding a key does not re-toggle), and is read by exactly one per-frame
//! effect step. The debug panel can also set a feature outright through its
//! checkboxes. Per-entity enable markers are reconciled against the toggles
//! each frame; [`reconcile`] computes the action that brings a marker in line
//! with its toggle.

use vstd::prelude::*;

verus! {

/// One independently togglable feature of the demo.
#[derive(Clone, Copy, PartialEq, Eq, Structural, Debug)]
pub enum Feature {
    /// The retro TV post-processing effect on the main camera.
    TvEffect,
    /// The orbit of the camera around the scene's center.
    CameraRotation,
    /// The random-walk rotation of the cubes.
    CubeRotation,
    /// The hue cycling of the cube materials.
    HueAnimation,
    /// The frames-per-second readout.
    FpsDisplay,
    /// The debug settings panel.
    DebugPanel,
}

/// A discrete input that toggles a feature.
#[derive(Clone, Copy, PartialEq, Eq, Structural, Debug)]
pub enum ToggleInput {
    /// The T key: TV effect.
    KeyT,
    /// The R key: camera rotation.
    KeyR,
    /// The C key: cube rotation.
    KeyC,
    /// The H key: hue animation.
    KeyH,
    /// The F key: FPS readout.
    KeyF,
    /// The D key: debug panel.
    KeyD,
    /// Any touch: debug panel, for builds without a keyboard.
    Touch,
}

/// The feature an input toggles.
pub open spec fn spec_feature_of_input(input: ToggleInput) -> Feature {
    match input {
        ToggleInput::KeyT => Feature::TvEffect,
        ToggleInput::KeyR => Feature::CameraRotation,
        ToggleInput::KeyC => Feature::CubeRotation,
        ToggleInput::KeyH => Feature::HueAnimation,
        ToggleInput::KeyF => Feature::FpsDisplay,
        ToggleInput::KeyD => Feature::DebugPanel,
        ToggleInput::Touch => Feature::DebugPanel,
    }
}

/// Map an input to the feature it toggles.
pub fn feature_of_input(input: ToggleInput) -> (f: Feature)
    ensures
        f == spec_feature_of_input(input),
{
    match input {
        ToggleInput::KeyT => Feature::TvEffect,
        ToggleInput::KeyR => Feature::CameraRotation,
        ToggleInput::KeyC => Feature::CubeRotation,
        ToggleInput::KeyH => Feature::HueAnimation,
        ToggleInput::KeyF => Feature::FpsDisplay,
        ToggleInput::KeyD => Feature::DebugPanel,
        ToggleInput::Touch => Feature::DebugPanel,
    }
}

/// The enabled state of every togglable feature.
#[derive(Clone, Copy, PartialEq, Eq, Structural, Debug)]
pub struct ToggleFlags {
    /// TV effect on the main camera.
    pub tv_effect: bool,
    /// Camera orbit.
    pub camera_rotation: bool,
    /// Cube rotation.
    pub cube_rotation: bool,
    /// Hue cycling of the cube materials.
    pub hue_animation: bool,
    /// FPS readout.
    pub fps_display: bool,
    /// Debug settings panel.
    pub debug_panel: bool,
}

impl ToggleFlags {
    /// Whether a feature is enabled in this state.
    pub open spec fn enabled(self, f: Feature) -> bool {
        match f {
            Feature::TvEffect => self.tv_effect,
            Feature::CameraRotation => self.camera_rotation,
            Feature::CubeRotation => self.cube_rotation,
            Feature::HueAnimation => self.hue_animation,
            Feature::FpsDisplay => self.fps_display,
            Feature::DebugPanel => self.debug_panel,
        }
    }

    /// This state with one feature set to `value` and every other feature
    /// unchanged.
    pub open spec fn spec_with(self, f: Feature, value: bool) -> ToggleFlags {
        match f {
            Feature::TvEffect => (ToggleFlags { tv_effect: value, ..self }),
            Feature::CameraRotation => (ToggleFlags { camera_rotation: value, ..self }),
            Feature::CubeRotation => (ToggleFlags { cube_rotation: value, ..self }),
            Feature::HueAnimation => (ToggleFlags { hue_animation: value, ..self }),
            Feature::FpsDisplay => (ToggleFlags { fps_display: value, ..self }),
            Feature::DebugPanel => (ToggleFlags { debug_panel: value, ..self }),
        }
    }

    /// This state with one feature flipped and every other feature unchanged.
    pub open spec fn spec_toggle(self, f: Feature) -> ToggleFlags {
        self.spec_with(f, !self.enabled(f))
    }

    /// The state the demo starts in: every visual effect on, the FPS readout
    /// and the debug panel hidden.
    pub fn init() -> (r: ToggleFlags)
        ensures
            r.tv_effect,
            r.camera_rotation,
            r.cube_rotation,
            r.hue_animation,
            !r.fps_display,
            !r.debug_panel,
    {
        ToggleFlags {
            tv_effect: true,
            camera_rotation: true,
            cube_rotation: true,
            hue_animation: true,
            fps_display: false,
            debug_panel: false,
        }
    }

    /// Whether a feature is enabled.
    pub fn is_enabled(&self, f: Feature) -> (r: bool)
        ensures
            r == self.enabled(f),
    {
        match f {
            Feature::TvEffect => self.tv_effect,
            Feature::CameraRotation => self.camera_rotation,
            Feature::CubeRotation => self.cube_rotation,
            Feature::HueAnimation => self.hue_animation,
            Feature::FpsDisplay => self.fps_display,
            Feature::DebugPanel => self.debug_panel,
        }
    }

    /// Flip one feature; every other feature keeps its state.
    pub fn toggle(&mut self, f: Feature)
        ensures
            *final(self) == old(self).spec_toggle(f),
    {
        let value = !self.is_enabled(f);
        self.set_feature(f, value);
    }

    /// Set one feature to `value` outright, as the debug panel's checkboxes
    /// do; every other feature keeps its state.
    pub fn set_feature(&mut self, f: Feature, value: bool)
        ensures
            *final(self) == old(self).spec_with(f, value),
    {
        match f {
            Feature::TvEffect => self.tv_effect = value,
            Feature::CameraRotation => self.camera_rotation = value,
            Feature::CubeRotation => self.cube_rotation = value,
            Feature::HueAnimation => self.hue_animation = value,
            Feature::FpsDisplay => self.fps_display = value,
            Feature::DebugPanel => self.debug_panel = value,
        }
    }

    /// Handle one sample of an input: on a key-down edge the corresponding
    /// feature flips; otherwise nothing changes, so a held key toggles only
    /// once.
    pub fn handle_input(&mut self, input: ToggleInput, just_pressed: bool)
        ensures
            just_pressed ==> *final(self) == old(self).spec_toggle(
                spec_feature_of_input(input),
            ),
            !just_pressed ==> *final(self) == *old(self),
    {
        if just_pressed {
            let f = feature_of_input(input);
            self.toggle(f);
        }
    }
}

/// A feature set to a value reads back as that value, and no other feature
/// moves: each toggle handler owns exactly its own flag.
pub proof fn lemma_with_touches_only_its_feature(
    s: ToggleFlags,
    f: Feature,
    value: bool,
    g: Feature,
)
    ensures
        s.spec_with(f, value).enabled(g) == if g == f {
            value
        } else {
            s.enabled(g)
        },
{
}

/// Toggling a feature twice returns the flags to exactly their original
/// state.
pub proof fn lemma_toggle_twice_is_identity(s: ToggleFlags, f: Feature)
    ensures
        s.spec_toggle(f).spec_toggle(f) == s,
{
}

/// The action that brings a per-entity enable marker in line with a toggle.
#[derive(Clone, Copy, PartialEq, Eq, Structural, Debug)]
pub enum EnableAction {
    /// Attach the marker: the feature is on and the entity lacks it.
    Attach,
    /// Detach the marker: the feature is off and the entity carries it.
    Detach,
    /// Leave the entity as it is.
    Leave,
}

/// The action [`reconcile`] picks for a toggle state `target` and a current
/// marker state `current`.
pub open spec fn spec_reconcile(target: bool, current: bool) -> EnableAction {
    if target && !current {
        EnableAction::Attach
    } else if !target && current {
        EnableAction::Detach
    } else {
        EnableAction::Leave
    }
}

/// The marker state after an action is carried out on `current`.
pub open spec fn spec_apply_action(a: EnableAction, current: bool) -> bool {
    match a {
        EnableAction::Attach => true,
        EnableAction::Detach => false,
        EnableAction::Leave => current,
    }
}

/// Pick the action that brings an entity's enable marker in line with its
/// feature's toggle: attach or detach only when the two disagree.
pub fn reconcile(target: bool, current: bool) -> (a: EnableAction)
    ensures
        a == spec_reconcile(target, current),
        a == EnableAction::Attach <==> target && !current,
        a == EnableAction::Detach <==> !target && current,
        a == EnableAction::Leave <==> target == current,
{
    if target && !current {
        EnableAction::Attach
    } else if !target && current {
        EnableAction::Detach
    } else {
        EnableAction::Leave
    }
}

/// Carrying out the action [`reconcile`] picks leaves the marker equal to the
/// toggle: reconciliation converges in one frame.
pub proof fn lemma_reconcile_converges(target: bool, current: bool)
    ensures
        spec_apply_action(spec_reconcile(target, current), current) == target,
{
}

/// What the per-frame FPS readout step does to the readout text.
#[derive(Clone, Copy, PartialEq, Eq, Structural, Debug)]
pub enum FpsTextAction {
    /// Write the current reading into the text.
    SetReading,
    /// Clear a stale reading left from when the readout was on.
    Clear,
    /// Leave the already-empty text alone.
    Keep,
}

/// The action [`fps_text_action`] picks for a readout toggle `enabled` and a
/// text that is or is not currently empty.
pub open spec fn spec_fps_text_action(enabled: bool, text_empty: bool) -> FpsTextAction {
    if enabled {
        FpsTextAction::SetReading
    } else if !text_empty {
        FpsTextAction::Clear
    } else {
        FpsTextAction::Keep
    }
}

/// Decide what the FPS readout step does this frame: with the readout
/// enabled, the text is set to the current reading; disabled, a leftover
/// reading is cleared once and an already-empty text is not rewritten.
pub fn fps_text_action(enabled: bool, text_empty: bool) -> (a: FpsTextAction)
    ensures
        a == spec_fps_text_action(enabled, text_empty),
        a == FpsTextAction::SetReading <==> enabled,
        a == FpsTextAction::Clear <==> !enabled && !text_empty,
        a == FpsTextAction::Keep <==> !enabled && text_empty,
{
    if enabled {
        FpsTextAction::SetReading
    } else if !text_empty {
        FpsTextAction::Clear
    } else {
        FpsTextAction::Keep
    }
}

} // verus!
