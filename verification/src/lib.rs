//! The decision logic of a RichTap vibrator service: effect routing, the
//! sysfs writes each request turns into, and the playback schedules of
//! envelopes and haptic-effect patterns.

pub mod effects;
pub mod envelope;
pub mod he;
pub mod he_playback;
pub mod logger;
pub mod output;
pub mod richtap;
pub mod sysfs;
pub mod vibrator;
