use vstd::prelude::*;

use crate::frame::{BGRAFrame, Frame, FrameType, RGBxFrame};

verus! {

/// The colour formats Windows Graphics Capture delivers frames in.
#[derive(Debug, Clone, Copy, PartialEq, Eq, Structural)]
pub enum CaptureColor {
    Rgba16F,
    Rgba8,
    Bgra8,
}

/// The colour format asked of Windows Graphics Capture for a requested
/// output layout: BGRA output is captured as BGRA, all else as RGBA.
pub fn capture_color_for(output_type: FrameType) -> (color: CaptureColor)
    ensures
        color == if output_type == FrameType::BGRAFrame {
            CaptureColor::Bgra8
        } else {
            CaptureColor::Rgba8
        },
{
    match output_type {
        FrameType::BGRAFrame => CaptureColor::Bgra8,
        _ => CaptureColor::Rgba8,
    }
}

/// Labels the bytes of a captured frame with its colour format: 8-bit RGBA
/// gives an RGBx frame, 8-bit BGRA a BGRA frame; half-float RGBA is not
/// supported and gives no frame.
pub fn frame_from_capture(
    color: CaptureColor,
    display_time: u64,
    width: i32,
    height: i32,
    data: Vec<u8>,
) -> (frame: Option<Frame>)
    ensures
        color == CaptureColor::Rgba16F ==> frame is None,
        color == CaptureColor::Rgba8 ==> (frame matches Some(Frame::RGBx(f)) && f.display_time
            == display_time && f.width == width && f.height == height && f.data@ == data@),
        color == CaptureColor::Bgra8 ==> (frame matches Some(Frame::BGRA(f)) && f.display_time
            == display_time && f.width == width && f.height == height && f.data@ == data@),
{
    match color {
        CaptureColor::Rgba16F => None,
        CaptureColor::Rgba8 => Some(Frame::RGBx(RGBxFrame { display_time, width, height, data })),
        CaptureColor::Bgra8 => Some(Frame::BGRA(BGRAFrame { display_time, width, height, data })),
    }
}

} // verus!
