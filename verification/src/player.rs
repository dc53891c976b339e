//! Playback control: requests, navigation actions and the controller's rules.

pub mod launch;
pub mod mpv;
pub mod progress;
pub mod traits;
pub mod wire;
