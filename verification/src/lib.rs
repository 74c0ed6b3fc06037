//! Core logic of a rotating-cube demo, written against a game engine that
//! supplies rendering, input and scheduling.
//!
//! The engine-independent parts live here with verified contracts:
//!
//! - [`assets`]: resolution of asset paths by build profile, and of the base
//!   asset directory from an optional override value;
//! - [`toggles`]: the boolean feature toggles behind the demo's keybindings,
//!   and the reconciliation of per-entity markers with those toggles;
//! - [`rotation`]: the bounded random-walk integrator that varies each cube's
//!   angular velocity from frame to frame.

pub mod assets;
pub mod rotation;
pub mod toggles;
