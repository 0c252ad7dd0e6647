use vstd::prelude::*;

/// Platform checks for Linux and FreeBSD.
mod linux;

verus! {

/// Reports whether this process may capture the screen. Linux grants
/// capture to every process, so the answer is always yes.
pub fn has_permission() -> (granted: bool)
    ensures
        granted,
{
    true
}

/// Asks the user for permission to capture the screen. Linux has no such
/// permission, so the request always succeeds.
pub fn request_permission() -> (granted: bool)
    ensures
        granted,
{
    true
}

/// Reports whether screen capture is supported on this system.
pub fn is_supported() -> (supported: bool)
    ensures
        supported,
{
    linux::is_supported()
}

} // verus!
