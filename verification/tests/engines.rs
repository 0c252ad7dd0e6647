use scap_rs::capturer::engine::fit_output_size;
use scap_rs::capturer::engine::mac::{sample_action, SampleAction, SampleStatus};
use scap_rs::capturer::engine::win::{capture_color_for, frame_from_capture, CaptureColor};
use scap_rs::frame::{Frame, FrameType};

#[test]
fn output_size_is_clamped_and_even() {
    assert_eq!(fit_output_size(1921, 1081, None), [1920, 1080]);
    assert_eq!(fit_output_size(3840, 2160, Some([1280, 720])), [1280, 720]);
    assert_eq!(fit_output_size(1000, 501, Some([1280, 720])), [1000, 500]);
    assert_eq!(fit_output_size(1, 1, None), [0, 0]);
    assert_eq!(fit_output_size(4000, 100, Some([641, 3999])), [640, 100]);
}

#[test]
fn fitted_output_size_fits_to_itself() {
    let size = fit_output_size(2561, 1441, Some([1921, 1081]));
    assert_eq!(fit_output_size(size[0], size[1], None), size);
    assert_eq!(fit_output_size(size[0], size[1], Some([1921, 1081])), size);
}

#[test]
fn sample_buffers_are_converted_or_skipped() {
    assert_eq!(
        sample_action(true, SampleStatus::Complete, FrameType::RGB),
        SampleAction::Convert(FrameType::RGB)
    );
    assert_eq!(
        sample_action(true, SampleStatus::Started, FrameType::YUVFrame),
        SampleAction::Convert(FrameType::YUVFrame)
    );
    assert_eq!(
        sample_action(true, SampleStatus::Idle, FrameType::BGRAFrame),
        SampleAction::EmptyBgra
    );
    assert_eq!(sample_action(true, SampleStatus::Idle, FrameType::BGR0), SampleAction::Skip);
    assert_eq!(sample_action(true, SampleStatus::Other, FrameType::BGRAFrame), SampleAction::Skip);
    assert_eq!(sample_action(false, SampleStatus::Complete, FrameType::RGB), SampleAction::Skip);
}

#[test]
fn windows_capture_color_follows_output_type() {
    assert_eq!(capture_color_for(FrameType::BGRAFrame), CaptureColor::Bgra8);
    assert_eq!(capture_color_for(FrameType::YUVFrame), CaptureColor::Rgba8);
    assert_eq!(capture_color_for(FrameType::RGB), CaptureColor::Rgba8);
    assert_eq!(capture_color_for(FrameType::BGR0), CaptureColor::Rgba8);
}

#[test]
fn windows_frames_are_labelled_by_color_format() {
    match frame_from_capture(CaptureColor::Bgra8, 5, 1, 1, vec![1, 2, 3, 4]) {
        Some(Frame::BGRA(f)) => {
            assert_eq!((f.display_time, f.width, f.height), (5, 1, 1));
            assert_eq!(f.data, vec![1, 2, 3, 4]);
        }
        other => panic!("unexpected {:?}", other),
    }
    assert!(matches!(
        frame_from_capture(CaptureColor::Rgba8, 5, 1, 1, vec![1, 2, 3, 4]),
        Some(Frame::RGBx(_))
    ));
    assert!(frame_from_capture(CaptureColor::Rgba16F, 5, 1, 1, vec![0; 8]).is_none());
}

use scap_rs::capturer::engine::mac::{excluded_window_ids, idle_bgra_frame, pixel_format_for, MacPixelFormat};
use scap_rs::{Display, Target, Window};

#[test]
fn idle_sample_gives_empty_bgra_frame() {
    match idle_bgra_frame(77) {
        Frame::BGRA(f) => {
            assert_eq!((f.display_time, f.width, f.height), (77, 0, 0));
            assert!(f.data.is_empty());
        }
        other => panic!("unexpected {:?}", other),
    }
}

#[test]
fn mac_pixel_format_follows_output_type() {
    assert_eq!(pixel_format_for(FrameType::YUVFrame), MacPixelFormat::YCbCr420v);
    assert_eq!(pixel_format_for(FrameType::BGR0), MacPixelFormat::ARGB8888);
    assert_eq!(pixel_format_for(FrameType::RGB), MacPixelFormat::ARGB8888);
    assert_eq!(pixel_format_for(FrameType::BGRAFrame), MacPixelFormat::ARGB8888);
}

fn window(id: u32) -> Target {
    Target::Window(Window { id, title: String::from("w"), raw_handle: id })
}

#[test]
fn excluded_windows_are_filtered_in_listing_order() {
    let display = Target::Display(Display {
        id: 5,
        title: String::from("d"),
        raw_handle: 0,
        width: 1,
        height: 1,
        x_offset: 0,
        y_offset: 0,
    });
    let excluded = vec![window(30), display, window(10)];
    assert_eq!(excluded_window_ids(&vec![10, 20, 30, 5, 10], &excluded), vec![10, 30, 10]);
    assert_eq!(excluded_window_ids(&vec![5, 20], &excluded), Vec::<u32>::new());
    assert_eq!(excluded_window_ids(&vec![1, 2], &vec![]), Vec::<u32>::new());
}
