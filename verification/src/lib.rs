//! Verified core of a menu-bar noise player: fixed-point signal generators
//! (white, pink and brown noise), a playback session state machine, and the
//! tray icon bitmap. Sample amplitudes are i64 fixed-point values scaled by
//! `AMP_ONE`, so that the mathematical range [-1, 1] becomes
//! [-AMP_ONE, AMP_ONE].

pub mod brown;
pub mod generator;
pub mod icon;
pub mod pink;
pub mod rng;
pub mod sample;
pub mod session;
pub mod white;
