use scap_rs::capturer::engine::linux::error::LinCapError;
use scap_rs::capturer::engine::linux::wayland::{
    control_effect, frame_from_video_buffer, header_meta_index, pipewire_loop_started,
    pipewire_loop_step, CaptureControl, ControlEffect, PipewireLoopStep, VideoLayout,
    CAPTURER_RUNNING, CAPTURER_STOPPED, CAPTURER_STOPPING,
};
use scap_rs::capturer::engine::linux::{detect_display_server, DisplayServer};
use scap_rs::capturer::{capture_precheck, CapturerBuildError, Resolution};
use scap_rs::frame::Frame;
use scap_rs::targets::get_target_dimensions;
use scap_rs::targets::linux::{window_title, NameEncoding, TitleChoice};
use scap_rs::{has_permission, is_supported, request_permission, Display, Target, Window};

#[test]
fn linux_platform_is_supported_and_permitted() {
    assert!(is_supported());
    assert!(has_permission());
    assert!(request_permission());
}

#[test]
fn lin_cap_error_keeps_message() {
    let e = LinCapError::new(String::from("boom"));
    assert_eq!(e.message(), "boom");
}

#[test]
fn wayland_is_preferred_over_x11() {
    assert_eq!(detect_display_server(true, true).unwrap(), DisplayServer::Wayland);
    assert_eq!(detect_display_server(true, false).unwrap(), DisplayServer::Wayland);
    assert_eq!(detect_display_server(false, true).unwrap(), DisplayServer::X11);
}

#[test]
fn no_display_server_is_an_error() {
    let err = detect_display_server(false, false).unwrap_err();
    assert_eq!(err.message(), "不支持的平台：无法检测到 Wayland 或 X11 显示器");
}

#[test]
fn precheck_reports_support_before_permission() {
    assert_eq!(capture_precheck(true, true), Ok(()));
    assert_eq!(capture_precheck(false, true), Err(CapturerBuildError::NotSupported));
    assert_eq!(capture_precheck(false, false), Err(CapturerBuildError::NotSupported));
    assert_eq!(
        capture_precheck(true, false),
        Err(CapturerBuildError::PermissionNotGranted)
    );
}

#[test]
fn standard_resolution_widths() {
    assert_eq!(Resolution::_480p.base_width(), 640);
    assert_eq!(Resolution::_720p.base_width(), 1280);
    assert_eq!(Resolution::_1080p.base_width(), 1920);
    assert_eq!(Resolution::_1440p.base_width(), 2560);
    assert_eq!(Resolution::_2160p.base_width(), 3840);
    assert_eq!(Resolution::_4320p.base_width(), 7680);
    assert_eq!(Resolution::default(), Resolution::Captured);
}

#[test]
fn video_buffers_become_frames_of_their_format() {
    match frame_from_video_buffer(VideoLayout::BGRx, 1234, 2, 1, vec![1, 2, 3, 4, 5, 6, 7, 8]) {
        Ok(Frame::BGRx(f)) => {
            assert_eq!(f.display_time, 1234);
            assert_eq!(f.width, 2);
            assert_eq!(f.height, 1);
            assert_eq!(f.data, vec![1, 2, 3, 4, 5, 6, 7, 8]);
        }
        other => panic!("unexpected {:?}", other),
    }
    assert!(matches!(
        frame_from_video_buffer(VideoLayout::RGBx, 0, 1, 1, vec![0; 4]),
        Ok(Frame::RGBx(_))
    ));
    assert!(matches!(
        frame_from_video_buffer(VideoLayout::RGB, 0, 1, 1, vec![0; 3]),
        Ok(Frame::RGB(_))
    ));
    assert!(matches!(
        frame_from_video_buffer(VideoLayout::XBGR, 0, 1, 1, vec![0; 4]),
        Ok(Frame::XBGR(_))
    ));
}

#[test]
fn negative_time_stamps_and_huge_sizes_wrap() {
    match frame_from_video_buffer(VideoLayout::RGB, -1, u32::MAX, 3_000_000_000, vec![]) {
        Ok(Frame::RGB(f)) => {
            assert_eq!(f.display_time, u64::MAX);
            assert_eq!(f.width, -1);
            assert_eq!(f.height, 3_000_000_000u32 as i32);
        }
        other => panic!("unexpected {:?}", other),
    }
}

#[test]
fn unsupported_video_format_is_an_error() {
    let err = frame_from_video_buffer(VideoLayout::Other, 0, 1, 1, vec![0; 4]).unwrap_err();
    assert_eq!(err.message(), "收到不支持的帧格式");
}

#[test]
fn header_meta_is_the_first_of_its_type() {
    assert_eq!(header_meta_index(&[3, 1, 5, 1], 1), Some(1));
    assert_eq!(header_meta_index(&[1], 1), Some(0));
    assert_eq!(header_meta_index(&[2, 3], 1), None);
    assert_eq!(header_meta_index(&[], 1), None);
}

#[test]
fn pipewire_loop_follows_capture_state() {
    assert_eq!(pipewire_loop_step(CAPTURER_STOPPED, false, false), PipewireLoopStep::Wait);
    assert_eq!(pipewire_loop_step(CAPTURER_STOPPED, true, false), PipewireLoopStep::Wait);
    assert_eq!(pipewire_loop_step(CAPTURER_RUNNING, false, false), PipewireLoopStep::Iterate);
    assert_eq!(pipewire_loop_step(CAPTURER_RUNNING, false, true), PipewireLoopStep::Iterate);
    assert_eq!(pipewire_loop_step(CAPTURER_RUNNING, true, false), PipewireLoopStep::Finish);
    assert_eq!(pipewire_loop_step(CAPTURER_STOPPING, false, false), PipewireLoopStep::Finish);
    // once running, a reset to "stopped" ends the thread instead of making it wait again
    assert_eq!(pipewire_loop_step(CAPTURER_STOPPED, false, true), PipewireLoopStep::Finish);
}

#[test]
fn pipewire_loop_leaves_waiting_phase_once() {
    assert!(!pipewire_loop_started(false, PipewireLoopStep::Wait));
    assert!(pipewire_loop_started(false, PipewireLoopStep::Iterate));
    assert!(pipewire_loop_started(false, PipewireLoopStep::Finish));
    assert!(pipewire_loop_started(true, PipewireLoopStep::Wait));
}

#[test]
fn capture_control_sets_shared_state() {
    assert_eq!(
        control_effect(CaptureControl::Start),
        ControlEffect { state: CAPTURER_RUNNING, clear_stream_error: false }
    );
    assert_eq!(
        control_effect(CaptureControl::RequestStop),
        ControlEffect { state: CAPTURER_STOPPING, clear_stream_error: false }
    );
    assert_eq!(
        control_effect(CaptureControl::Stopped),
        ControlEffect { state: CAPTURER_STOPPED, clear_stream_error: true }
    );
    let mut started = false;
    let mut steps = Vec::new();
    for (state, failed) in [
        (CAPTURER_STOPPED, false),
        (control_effect(CaptureControl::Start).state, false),
        (control_effect(CaptureControl::Stopped).state, false),
    ] {
        let step = pipewire_loop_step(state, failed, started);
        started = pipewire_loop_started(started, step);
        steps.push(step);
    }
    assert_eq!(
        steps,
        vec![PipewireLoopStep::Wait, PipewireLoopStep::Iterate, PipewireLoopStep::Finish]
    );
}

#[test]
fn target_dimensions() {
    let display = Target::Display(Display {
        id: 7,
        title: String::from("HDMI-1"),
        raw_handle: 1,
        width: 1920,
        height: 1080,
        x_offset: 0,
        y_offset: 0,
    });
    assert_eq!(get_target_dimensions(&display), (1920, 1080));
    let window = Target::Window(Window { id: 0, title: String::from("term"), raw_handle: 5 });
    assert_eq!(get_target_dimensions(&window), (0, 0));
}

fn title_of(choice: TitleChoice) -> Option<String> {
    match choice {
        TitleChoice::Title(t) => Some(t),
        _ => None,
    }
}

#[test]
fn window_title_prefers_net_wm_name() {
    let c = window_title(true, "终端".as_bytes().to_vec(), b"xterm".to_vec(), NameEncoding::Text);
    assert_eq!(title_of(c), Some(String::from("终端")));
    let c = window_title(true, vec![0xff, 0xfe], b"xterm".to_vec(), NameEncoding::Text);
    assert!(matches!(c, TitleChoice::Malformed));
}

#[test]
fn window_title_falls_back_to_wm_name() {
    let c = window_title(false, vec![], b"xterm".to_vec(), NameEncoding::Text);
    assert_eq!(title_of(c), Some(String::from("xterm")));
    let c = window_title(false, vec![], b"xterm".to_vec(), NameEncoding::Other);
    assert_eq!(title_of(c), Some(String::from("xterm")));
    let c = window_title(false, vec![], vec![0xc0, 0x80], NameEncoding::Text);
    assert_eq!(title_of(c), Some(String::from("n/a")));
    let c = window_title(false, vec![], b"abc".to_vec(), NameEncoding::Compound);
    assert!(matches!(c, TitleChoice::DecodeCompound));
    let c = window_title(false, vec![], vec![], NameEncoding::Compound);
    assert_eq!(title_of(c), Some(String::from("n/a")));
}

#[test]
fn build_errors_have_messages() {
    assert_eq!(CapturerBuildError::NotSupported.message(), "屏幕捕获不支持");
    assert_eq!(CapturerBuildError::PermissionNotGranted.message(), "未获得屏幕捕获权限");
}

use scap_rs::targets::linux::{output_display, push_connected_displays, CrtcGeometry, OutputRecord};

fn geometry(width: u16, height: u16, x_offset: i16, y_offset: i16) -> CrtcGeometry {
    CrtcGeometry { width, height, x_offset, y_offset }
}

#[test]
fn output_display_takes_crtc_and_name() {
    let d = output_display(9, 63, b"eDP-1".to_vec(), geometry(2560, 1600, 0, 0), "default");
    assert_eq!((d.id, d.raw_handle, d.width, d.height), (63, 9, 2560, 1600));
    assert_eq!(d.title, "eDP-1");
    let d = output_display(9, 64, vec![0xff], geometry(800, 600, 10, -5), "default");
    assert_eq!(d.title, "default");
    assert_eq!((d.x_offset, d.y_offset), (10, -5));
}

#[test]
fn only_connected_outputs_become_displays_after_windows() {
    let mut targets = vec![Target::Window(Window { id: 0, title: String::from("term"), raw_handle: 3 })];
    let outputs = vec![
        OutputRecord { crtc: 1, name: b"HDMI-1".to_vec(), geometry: Some(geometry(1920, 1080, 0, 0)) },
        OutputRecord { crtc: 0, name: b"DP-1".to_vec(), geometry: None },
        OutputRecord { crtc: 2, name: vec![0xc3], geometry: Some(geometry(1280, 1024, 1920, 0)) },
    ];
    push_connected_displays(&mut targets, 7, &outputs);
    assert_eq!(targets.len(), 3);
    assert!(matches!(&targets[0], Target::Window(w) if w.title == "term"));
    match (&targets[1], &targets[2]) {
        (Target::Display(a), Target::Display(b)) => {
            assert_eq!((a.id, a.title.as_str(), a.width, a.raw_handle), (1, "HDMI-1", 1920, 7));
            assert_eq!((b.id, b.title.as_str(), b.x_offset), (2, "n/a", 1920));
        }
        other => panic!("unexpected {:?}", other),
    }
}
