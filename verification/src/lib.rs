//! Device-state model and command codec for the `dualsensectl` controller tool.
//!
//! The library models the controller snapshot (lightbar, player LEDs,
//! microphone, speaker routing, volume, attenuation and the haptic trigger),
//! renders snapshot changes into the exact command-line strings the external
//! tool expects, and parses successfully executed trigger commands back into
//! the model so the snapshot stays consistent with the device.

pub mod text;
pub mod structs;
pub mod decode;
pub mod commands;
pub mod constraints;
pub mod presets;
