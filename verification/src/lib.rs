//! Verified decision logic of a window decorator for the Windows desktop
//! window manager: configuration decoding, color packing, hotkey handling,
//! window-style arithmetic and the per-window attribute plan.

pub mod color;
pub mod hotkey;
pub mod configuration;
pub mod window;
pub mod keys;
