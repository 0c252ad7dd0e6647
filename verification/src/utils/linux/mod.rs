use vstd::prelude::*;

verus! {

/// Reports whether screen capture is supported: every Linux or FreeBSD
/// system with a display server is.
pub fn is_supported() -> (supported: bool)
    ensures
        supported,
{
    true
}

/// Reports whether this process may capture the screen: always, on Linux.
pub fn has_permission() -> (granted: bool)
    ensures
        granted,
{
    true
}

} // verus!
