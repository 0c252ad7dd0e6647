use vstd::prelude::*;

use crate::capturer::engine::linux::error::LinCapError;
use crate::frame::{BGRxFrame, Frame, RGBFrame, RGBxFrame, XBGRFrame};

verus! {

/// The raw video formats a PipeWire stream may deliver, as far as the
/// capturer tells them apart.
#[derive(Debug, Clone, Copy, PartialEq, Eq, Structural)]
pub enum VideoLayout {
    RGBx,
    RGB,
    XBGR,
    BGRx,
    /// Any format the capturer does not handle.
    Other,
}

/// Capture state shared between the controlling side and the PipeWire
/// thread: waiting for `start`.
pub const CAPTURER_STOPPED: u8 = 0;

/// Capture state: running.
pub const CAPTURER_RUNNING: u8 = 1;

/// Capture state: asked to stop.
pub const CAPTURER_STOPPING: u8 = 2;

/// What the PipeWire thread does next.
#[derive(Debug, Clone, Copy, PartialEq, Eq, Structural)]
pub enum PipewireLoopStep {
    /// Capture has not started yet: sleep and look again.
    Wait,
    /// Run one iteration of the PipeWire main loop.
    Iterate,
    /// Leave the loop: capture was stopped, or the stream failed.
    Finish,
}

/// The PipeWire thread's decision, from the shared capture state, whether
/// the stream has reported an error, and whether the thread has already
/// left its waiting phase (it has seen the state leave "stopped"). Before
/// that, a stopped state means waiting; after it, the thread iterates only
/// while capture runs without a stream error, and leaves as soon as either
/// changes, whatever the state then is.
pub fn pipewire_loop_step(state: u8, stream_failed: bool, started: bool) -> (step: PipewireLoopStep)
    ensures
        step == spec_loop_step(state, stream_failed, started),
        stream_failed ==> step != PipewireLoopStep::Iterate,
        step == PipewireLoopStep::Iterate <==> (state == CAPTURER_RUNNING && !stream_failed),
        step == PipewireLoopStep::Wait <==> (!started && state == CAPTURER_STOPPED),
{
    if !started && state == CAPTURER_STOPPED {
        PipewireLoopStep::Wait
    } else if state == CAPTURER_RUNNING && !stream_failed {
        PipewireLoopStep::Iterate
    } else {
        PipewireLoopStep::Finish
    }
}

/// Whether the PipeWire thread has left its waiting phase after taking a
/// step: once it has started, it stays started; a step other than `Wait`
/// starts it.
pub fn pipewire_loop_started(started: bool, step: PipewireLoopStep) -> (now_started: bool)
    ensures
        now_started == (started || step != PipewireLoopStep::Wait),
{
    started || step != PipewireLoopStep::Wait
}

/// What the controlling side does to the shared capture state.
#[derive(Debug, Clone, Copy, PartialEq, Eq, Structural)]
pub enum CaptureControl {
    /// `start_capture`.
    Start,
    /// `stop_capture`, before waiting for the PipeWire thread.
    RequestStop,
    /// `stop_capture`, once the PipeWire thread has ended.
    Stopped,
}

/// The effect of a control action on the shared state: the new capture
/// state, and whether the stream-error flag is cleared.
#[derive(Debug, Clone, Copy, PartialEq, Eq, Structural)]
pub struct ControlEffect {
    pub state: u8,
    pub clear_stream_error: bool,
}

/// The shared-state change of a control action: starting sets "running";
/// asking to stop sets "stopping"; once the thread has ended, the state is
/// reset to "stopped" and the stream-error flag cleared, ready for another
/// capture.
pub fn control_effect(action: CaptureControl) -> (effect: ControlEffect)
    ensures
        effect == spec_control_effect(action),
{
    match action {
        CaptureControl::Start => ControlEffect { state: CAPTURER_RUNNING, clear_stream_error: false },
        CaptureControl::RequestStop => ControlEffect {
            state: CAPTURER_STOPPING,
            clear_stream_error: false,
        },
        CaptureControl::Stopped => ControlEffect { state: CAPTURER_STOPPED, clear_stream_error: true },
    }
}

/// The shared-state change of a control action.
pub open spec fn spec_control_effect(action: CaptureControl) -> ControlEffect {
    match action {
        CaptureControl::Start => ControlEffect { state: CAPTURER_RUNNING, clear_stream_error: false },
        CaptureControl::RequestStop => ControlEffect {
            state: CAPTURER_STOPPING,
            clear_stream_error: false,
        },
        CaptureControl::Stopped => ControlEffect { state: CAPTURER_STOPPED, clear_stream_error: true },
    }
}

/// The PipeWire thread's step: wait while stopped before it has started;
/// iterate while running without a stream error; otherwise leave.
pub open spec fn spec_loop_step(state: u8, stream_failed: bool, started: bool) -> PipewireLoopStep {
    if !started && state == CAPTURER_STOPPED {
        PipewireLoopStep::Wait
    } else if state == CAPTURER_RUNNING && !stream_failed {
        PipewireLoopStep::Iterate
    } else {
        PipewireLoopStep::Finish
    }
}

/// Control and thread agree: after `start` the thread iterates (unless the
/// stream failed); after a stop request it leaves the loop; and once it has
/// left its waiting phase, a state that is no longer "running" (such as the
/// reset to "stopped") makes it leave rather than wait again.
pub proof fn lemma_control_drives_loop(stream_failed: bool, started: bool)
    ensures
        !stream_failed ==> spec_loop_step(
            spec_control_effect(CaptureControl::Start).state,
            stream_failed,
            started,
        ) == PipewireLoopStep::Iterate,
        spec_loop_step(spec_control_effect(CaptureControl::RequestStop).state, stream_failed, started)
            == PipewireLoopStep::Finish,
        spec_loop_step(spec_control_effect(CaptureControl::Stopped).state, stream_failed, true)
            == PipewireLoopStep::Finish,
        spec_loop_step(spec_control_effect(CaptureControl::Stopped).state, stream_failed, false)
            == PipewireLoopStep::Wait,
{
}

/// The message given for a video format the capturer does not handle.
pub open spec fn spec_unsupported_format_message() -> Seq<char> {
    "收到不支持的帧格式"@
}

/// Builds the frame for one PipeWire buffer: the buffer's bytes, labelled
/// with the stream's video format, size and the buffer's time stamp.
pub fn frame_from_video_buffer(
    layout: VideoLayout,
    timestamp: i64,
    width: u32,
    height: u32,
    data: Vec<u8>,
) -> (res: Result<Frame, LinCapError>)
    ensures
        layout == VideoLayout::RGBx ==> (res matches Ok(Frame::RGBx(f)) && f.display_time
            == timestamp as u64 && f.width == width as i32 && f.height == height as i32 && f.data@
            == data@),
        layout == VideoLayout::RGB ==> (res matches Ok(Frame::RGB(f)) && f.display_time
            == timestamp as u64 && f.width == width as i32 && f.height == height as i32 && f.data@
            == data@),
        layout == VideoLayout::XBGR ==> (res matches Ok(Frame::XBGR(f)) && f.display_time
            == timestamp as u64 && f.width == width as i32 && f.height == height as i32 && f.data@
            == data@),
        layout == VideoLayout::BGRx ==> (res matches Ok(Frame::BGRx(f)) && f.display_time
            == timestamp as u64 && f.width == width as i32 && f.height == height as i32 && f.data@
            == data@),
        layout == VideoLayout::Other ==> (res matches Err(e) && e@
            == spec_unsupported_format_message()),
{
    let display_time: u64 = timestamp as u64;
    let w: i32 = width as i32;
    let h: i32 = height as i32;
    match layout {
        VideoLayout::RGBx => Ok(Frame::RGBx(RGBxFrame { display_time, width: w, height: h, data })),
        VideoLayout::RGB => Ok(Frame::RGB(RGBFrame { display_time, width: w, height: h, data })),
        VideoLayout::XBGR => Ok(Frame::XBGR(XBGRFrame { display_time, width: w, height: h, data })),
        VideoLayout::BGRx => Ok(Frame::BGRx(BGRxFrame { display_time, width: w, height: h, data })),
        VideoLayout::Other => Err(LinCapError::new(String::from_str("收到不支持的帧格式"))),
    }
}

/// The position of the first buffer metadata entry of the header type, of
/// which the buffer's time stamp is read.
pub fn header_meta_index(meta_types: &[u32], header_type: u32) -> (found: Option<usize>)
    ensures
        found matches Some(i) ==> i < meta_types@.len() && meta_types@[i as int] == header_type
            && forall|j: int| 0 <= j < i ==> meta_types@[j] != header_type,
        found is None ==> forall|j: int| 0 <= j < meta_types@.len() ==> meta_types@[j] != header_type,
{
    let mut i: usize = 0;
    while i < meta_types.len()
        invariant
            i <= meta_types@.len(),
            forall|j: int| 0 <= j < i ==> meta_types@[j] != header_type,
        decreases meta_types@.len() - i,
    {
        if meta_types[i] == header_type {
            return Some(i);
        }
        i = i + 1;
    }
    None
}

/// The PipeWire thread iterates exactly while capture runs and the stream
/// has not failed: a stream error always makes it stop iterating, whatever
/// the state and phase; it waits only before it has started and while the
/// state is "stopped"; in every other case it leaves the loop.
pub proof fn lemma_loop_iterates_only_while_healthy(state: u8, stream_failed: bool, started: bool)
    ensures
        stream_failed ==> spec_loop_step(state, stream_failed, started) != PipewireLoopStep::Iterate,
        spec_loop_step(state, stream_failed, started) == PipewireLoopStep::Iterate <==> (state
            == CAPTURER_RUNNING && !stream_failed),
        spec_loop_step(state, stream_failed, started) == PipewireLoopStep::Wait <==> (!started
            && state == CAPTURER_STOPPED),
{
}

} // verus!
