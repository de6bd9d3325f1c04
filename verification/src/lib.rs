//! Decision rules for a keyboard-driven animation demo scene.
//!
//! The scene itself is run by a game engine: prefab loading, rendering,
//! input polling and animation sampling all happen there. What this crate
//! holds is the demo's own logic, stated as plain functions with
//! contracts: which engine commands a key press asks for, how a request
//! to play an animation resolves to a start, a toggle or a deferred
//! start, and when the FPS readout is due for a refresh. The engine-facing
//! shell translates engine events into the plain types defined here and
//! carries out the actions that come back.

pub mod animation;
pub mod camera;
pub mod scene;
