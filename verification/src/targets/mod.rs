use vstd::prelude::*;

/// Targets on Linux and FreeBSD.
pub mod linux;

verus! {

/// A window that can be captured.
#[derive(Debug, Clone)]
pub struct Window {
    pub id: u32,
    pub title: String,
    /// The X11 window's resource id.
    pub raw_handle: u32,
}

/// A display that can be captured.
#[derive(Debug, Clone)]
pub struct Display {
    pub id: u32,
    pub title: String,
    /// The resource id of the X11 root window the display belongs to.
    pub raw_handle: u32,
    /// Width in pixels.
    pub width: u16,
    /// Height in pixels.
    pub height: u16,
    pub x_offset: i16,
    pub y_offset: i16,
}

/// Something that can be captured: a window or a display.
#[derive(Debug, Clone)]
pub enum Target {
    Window(Window),
    Display(Display),
}

/// The size in pixels of a target, as far as it is known: a display's
/// width and height; windows report no size on this platform.
pub open spec fn spec_target_dimensions(target: Target) -> (u64, u64) {
    match target {
        Target::Window(_) => (0, 0),
        Target::Display(d) => (d.width as u64, d.height as u64),
    }
}

/// The size in pixels of a target, as `(width, height)`.
pub fn get_target_dimensions(target: &Target) -> (dims: (u64, u64))
    ensures
        dims == spec_target_dimensions(*target),
        target matches Target::Display(d) ==> dims.0 == d.width && dims.1 == d.height,
        target is Window ==> dims.0 == 0 && dims.1 == 0,
{
    linux::get_target_dimensions(target)
}

/// A display's size is its width and its height, in that order, whatever
/// their sizes; a window's reads as zero.
pub proof fn lemma_target_dimensions_in_order(target: Target)
    ensures
        target matches Target::Display(d) ==> spec_target_dimensions(target).0 == d.width
            && spec_target_dimensions(target).1 == d.height,
        target is Window ==> spec_target_dimensions(target).0 == 0 && spec_target_dimensions(
            target,
        ).1 == 0,
{
}

} // verus!
