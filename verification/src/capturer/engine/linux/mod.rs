use vstd::prelude::*;

use crate::capturer::engine::linux::error::LinCapError;

/// Errors of the Linux capture back end.
pub mod error;

/// The Wayland (PipeWire) capturer's decisions.
pub mod wayland;

verus! {

/// The display servers a Linux capturer can work with.
#[derive(Debug, Clone, Copy, PartialEq, Eq, Structural)]
pub enum DisplayServer {
    Wayland,
    X11,
}

/// The message given when neither display server is present.
pub open spec fn spec_no_display_message() -> Seq<char> {
    "不支持的平台：无法检测到 Wayland 或 X11 显示器"@
}

/// Chooses the display server from which session variables are set:
/// Wayland (`WAYLAND_DISPLAY`) takes precedence over X11 (`DISPLAY`); with
/// neither, the platform is unsupported.
pub fn detect_display_server(wayland_display_set: bool, x_display_set: bool) -> (res: Result<
    DisplayServer,
    LinCapError,
>)
    ensures
        wayland_display_set ==> res == Ok::<DisplayServer, LinCapError>(DisplayServer::Wayland),
        !wayland_display_set && x_display_set ==> res == Ok::<DisplayServer, LinCapError>(
            DisplayServer::X11,
        ),
        !wayland_display_set && !x_display_set ==> (res matches Err(e) && e@
            == spec_no_display_message()),
{
    if wayland_display_set {
        return Ok(DisplayServer::Wayland);
    }
    if x_display_set {
        return Ok(DisplayServer::X11);
    }
    Err(LinCapError::new(String::from_str("不支持的平台：无法检测到 Wayland 或 X11 显示器")))
}

} // verus!
