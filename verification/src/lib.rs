//! Cross-platform screen capture: frame layouts and their conversions,
//! capture targets, and the decisions of the Linux capture back end.

/// Capturer configuration types and the capture engines.
pub mod capturer;

/// Frame layouts and pixel conversions.
pub mod frame;

/// Capture targets: displays and windows.
pub mod targets;

/// Platform support and permission checks.
mod utils;

pub use targets::{Display, Target, Window};
pub use utils::{has_permission, is_supported, request_permission};
