//! Core logic of a motorized sentry turret: a cooperative event scheduler,
//! a ranging/calibration sweep state machine, a target-lock tracker, a
//! streaming audio player, and the flat filesystem that stores audio clips.
pub mod audio;
pub mod calibration;
pub mod event;
pub mod firmware;
pub mod fsbuild;
pub mod ranging;
pub mod sensor;
pub mod servo;
pub mod simplefs;
pub mod targeting;
pub mod time;
pub mod upload;
