//! A time-driven choreography engine for a scripted 3D scene: waypoint
//! movement with per-segment speed and animation cues, an audio-synchronized
//! event timeline driving a narrative state machine, and declarative camera
//! targeting with easing.
//!
//! All geometry is carried in fixed-point integer coordinates (milliunit
//! steps, [`geom::SCALE`] steps per world unit), and all time in integer
//! milliseconds, so that every update rule is exact and provable.

pub mod camera;
pub mod camera_target;
pub mod geom;
pub mod girls;
pub mod intro;
pub mod leader;
pub mod men;
pub mod movement;
pub mod music;
pub mod narrative;
pub mod shared;
