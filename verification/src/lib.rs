//! Qoyri pupil-osc: scene brightness to avatar pupil, over OSC.
//!
//! The verified core of the bridge: how a captured frame is addressed and
//! sampled, when a value is due to go out to VRChat, what the OSC address of
//! the driven parameter is, which capture rates are accepted, and how the
//! capture thread reacts to the VRChat window coming and going.

pub mod config;
pub mod luminance;
pub mod osc;
pub mod watch;
