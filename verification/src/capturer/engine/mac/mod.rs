use vstd::prelude::*;

use crate::frame::{BGRAFrame, Frame, FrameType};
use crate::targets::Target;

verus! {

/// The status ScreenCaptureKit reports for a delivered frame.
#[derive(Debug, Clone, Copy, PartialEq, Eq, Structural)]
pub enum SampleStatus {
    Complete,
    Started,
    Idle,
    /// Blank, suspended or stopped.
    Other,
}

/// What becomes of a sample buffer delivered by the stream.
#[derive(Debug, Clone, Copy, PartialEq, Eq, Structural)]
pub enum SampleAction {
    /// Convert its pixels into a frame of the given layout.
    Convert(FrameType),
    /// Emit an empty BGRA frame carrying only the buffer's time stamp.
    EmptyBgra,
    /// Emit no frame.
    Skip,
}

/// Decides what becomes of a sample buffer: screen output whose frame is
/// complete or started is converted to the requested layout; an idle
/// screen frame gives an empty frame when BGRA output is requested; all
/// else is skipped.
pub fn sample_action(is_screen_output: bool, status: SampleStatus, output_type: FrameType) -> (action: SampleAction)
    ensures
        action == if !is_screen_output {
            SampleAction::Skip
        } else if status == SampleStatus::Complete || status == SampleStatus::Started {
            SampleAction::Convert(output_type)
        } else if status == SampleStatus::Idle && output_type == FrameType::BGRAFrame {
            SampleAction::EmptyBgra
        } else {
            SampleAction::Skip
        },
{
    if !is_screen_output {
        return SampleAction::Skip;
    }
    match status {
        SampleStatus::Complete | SampleStatus::Started => SampleAction::Convert(output_type),
        SampleStatus::Idle => match output_type {
            FrameType::BGRAFrame => SampleAction::EmptyBgra,
            _ => SampleAction::Skip,
        },
        SampleStatus::Other => SampleAction::Skip,
    }
}

/// The frame emitted for an idle sample when BGRA output is requested: a
/// BGRA frame with the sample's time stamp, no size and no pixels.
pub fn idle_bgra_frame(display_time: u64) -> (frame: Frame)
    ensures
        frame matches Frame::BGRA(f) && f.display_time == display_time && f.width == 0 && f.height
            == 0 && f.data@.len() == 0,
{
    Frame::BGRA(BGRAFrame { display_time, width: 0, height: 0, data: Vec::new() })
}

/// The pixel formats a ScreenCaptureKit stream is configured with.
#[derive(Debug, Clone, Copy, PartialEq, Eq, Structural)]
pub enum MacPixelFormat {
    /// Bi-planar 4:2:0 YCbCr, video range.
    YCbCr420v,
    /// 8-bit BGRA.
    ARGB8888,
}

/// The stream pixel format for a requested output layout: YUV output is
/// captured as YCbCr, every other layout as 8-bit BGRA.
pub fn pixel_format_for(output_type: FrameType) -> (format: MacPixelFormat)
    ensures
        format == if output_type == FrameType::YUVFrame {
            MacPixelFormat::YCbCr420v
        } else {
            MacPixelFormat::ARGB8888
        },
{
    match output_type {
        FrameType::YUVFrame => MacPixelFormat::YCbCr420v,
        _ => MacPixelFormat::ARGB8888,
    }
}

/// Whether one of the excluded targets is the window with this id.
pub open spec fn is_excluded_window(excluded: Seq<Target>, id: u32) -> bool {
    exists|k: int| 0 <= k < excluded.len() && (#[trigger] excluded[k] matches Target::Window(w) && w.id == id)
}

/// The ids among `ids` of excluded windows, in their order in `ids`.
pub open spec fn spec_excluded_window_ids(ids: Seq<u32>, excluded: Seq<Target>) -> Seq<u32>
    decreases ids.len(),
{
    if ids.len() == 0 {
        Seq::empty()
    } else {
        let rest = spec_excluded_window_ids(ids.drop_last(), excluded);
        if is_excluded_window(excluded, ids.last()) {
            rest.push(ids.last())
        } else {
            rest
        }
    }
}

/// Whether the window with this id is among the excluded targets.
fn window_is_excluded(excluded: &Vec<Target>, id: u32) -> (found: bool)
    ensures
        found == is_excluded_window(excluded@, id),
{
    let mut j: usize = 0;
    while j < excluded.len()
        invariant
            j <= excluded@.len(),
            forall|k: int|
                0 <= k < j ==> !(#[trigger] excluded@[k] matches Target::Window(w) && w.id == id),
        decreases excluded@.len() - j,
    {
        match &excluded[j] {
            Target::Window(w) => {
                if w.id == id {
                    assert(excluded@[j as int] matches Target::Window(w) && w.id == id);
                    return true;
                }
            },
            Target::Display(_) => {},
        }
        j = j + 1;
    }
    false
}

/// The ids of the shareable windows that the excluded targets name, kept in
/// the order the windows are listed; excluded displays name no window.
pub fn excluded_window_ids(window_ids: &Vec<u32>, excluded: &Vec<Target>) -> (ids: Vec<u32>)
    ensures
        ids@ == spec_excluded_window_ids(window_ids@, excluded@),
{
    let mut ids: Vec<u32> = Vec::new();
    let mut i: usize = 0;
    while i < window_ids.len()
        invariant
            i <= window_ids@.len(),
            ids@ == spec_excluded_window_ids(window_ids@.take(i as int), excluded@),
        decreases window_ids@.len() - i,
    {
        let id = window_ids[i];
        assert(window_ids@.take(i + 1).drop_last() =~= window_ids@.take(i as int));
        assert(window_ids@.take(i + 1).last() == id);
        if window_is_excluded(excluded, id) {
            ids.push(id);
        }
        i = i + 1;
    }
    assert(window_ids@.take(window_ids@.len() as int) =~= window_ids@);
    ids
}

/// A window id is kept exactly when it names an excluded window: every kept
/// id is listed and excluded, and every listed excluded id is kept.
pub proof fn lemma_excluded_ids_are_the_excluded_windows(ids: Seq<u32>, excluded: Seq<Target>)
    ensures
        forall|id: u32|
            #[trigger] spec_excluded_window_ids(ids, excluded).contains(id) <==> (ids.contains(id)
                && is_excluded_window(excluded, id)),
    decreases ids.len(),
{
    if ids.len() > 0 {
        lemma_excluded_ids_are_the_excluded_windows(ids.drop_last(), excluded);
        let rest = spec_excluded_window_ids(ids.drop_last(), excluded);
        assert forall|id: u32|
            #[trigger] spec_excluded_window_ids(ids, excluded).contains(id) <==> (ids.contains(id)
                && is_excluded_window(excluded, id)) by {
            if ids.contains(id) && !ids.drop_last().contains(id) {
                let k = choose|k: int| 0 <= k < ids.len() && ids[k] == id;
                if k < ids.len() - 1 {
                    assert(ids.drop_last()[k] == id);
                }
                assert(id == ids.last());
            }
            if ids.drop_last().contains(id) {
                let k = choose|k: int| 0 <= k < ids.drop_last().len() && ids.drop_last()[k] == id;
                assert(ids[k] == id);
            }
            if is_excluded_window(excluded, ids.last()) {
                assert(rest.push(ids.last())[rest.len() as int] == ids.last());
                if rest.contains(id) {
                    let k = choose|k: int| 0 <= k < rest.len() && rest[k] == id;
                    assert(rest.push(ids.last())[k] == id);
                }
                if rest.push(ids.last()).contains(id) {
                    let k = choose|k: int| 0 <= k < rest.len() + 1 && rest.push(ids.last())[k] == id;
                    if k < rest.len() {
                        assert(rest[k] == id);
                    }
                }
            }
        }
    }
}

} // verus!
