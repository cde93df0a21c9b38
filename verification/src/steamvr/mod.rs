pub mod bridge;
pub mod manifest;

pub use bridge::{OverlayAction, OverlayHandle, OverlaySnapshot, start};
