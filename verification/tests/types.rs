use nokhwa_core::types::{
    ApiBackend, CameraFormat, CameraIndex, CameraInfo, FormatRequest, FrameFormat, FrameRate,
    Resolution,
};
use std::collections::HashMap;

#[test]
fn resolution_keeps_its_sides() {
    let res = Resolution::new(1920, 1080);
    assert_eq!(res.width(), 1920);
    assert_eq!(res.height(), 1080);
    assert_eq!(res, Resolution { width: 1920, height: 1080 });
    assert_ne!(res, Resolution::new(1080, 1920));
}

#[test]
fn resolution_keys_a_map_by_value() {
    let mut rates: HashMap<Resolution, Vec<FrameRate>> = HashMap::new();
    rates.insert(Resolution::new(640, 480), vec![15, 30]);
    rates.insert(Resolution::new(640, 480), vec![60]);
    rates.insert(Resolution::new(480, 640), vec![5]);
    assert_eq!(rates.len(), 2);
    assert_eq!(rates.get(&Resolution::new(640, 480)), Some(&vec![60]));
    assert_eq!(rates.get(&Resolution::new(480, 640)), Some(&vec![5]));
    assert_eq!(rates.get(&Resolution::new(0, 0)), None);
}

#[test]
fn camera_format_keeps_its_parts() {
    let format = CameraFormat::new(Resolution::new(1280, 720), FrameFormat::YUYV, 30);
    assert_eq!(format.resolution(), Resolution::new(1280, 720));
    assert_eq!(format.format(), FrameFormat::YUYV);
    assert_eq!(format.frame_rate(), 30);
}

#[test]
fn the_default_format_is_640_by_480_mjpeg_at_15() {
    let format = CameraFormat::default();
    assert_eq!(format, CameraFormat::new(Resolution::new(640, 480), FrameFormat::MJPEG, 15));
}

#[test]
fn changing_one_part_of_a_format_gives_a_new_format() {
    let format = CameraFormat::new(Resolution::new(640, 480), FrameFormat::MJPEG, 15);
    let wider = format.with_resolution(Resolution::new(1920, 1080));
    let raw = format.with_format(FrameFormat::RAWRGB);
    let faster = format.with_frame_rate(60);
    assert_eq!(wider, CameraFormat::new(Resolution::new(1920, 1080), FrameFormat::MJPEG, 15));
    assert_eq!(raw, CameraFormat::new(Resolution::new(640, 480), FrameFormat::RAWRGB, 15));
    assert_eq!(faster, CameraFormat::new(Resolution::new(640, 480), FrameFormat::MJPEG, 60));
    assert_eq!(format, CameraFormat::new(Resolution::new(640, 480), FrameFormat::MJPEG, 15));
}

#[test]
fn frame_formats_differ_by_variant_and_code() {
    assert_ne!(FrameFormat::MJPEG, FrameFormat::YUYV);
    assert_ne!(FrameFormat::RAWRGB, FrameFormat::RAWBGR);
    assert_eq!(FrameFormat::Custom(0x3231_5659), FrameFormat::Custom(0x3231_5659));
    assert_ne!(FrameFormat::Custom(1), FrameFormat::Custom(2));
    assert_ne!(FrameFormat::Custom(0), FrameFormat::GRAY);
}

#[test]
fn camera_info_keeps_its_parts() {
    let info = CameraInfo::new(
        CameraIndex::String("/dev/video0".to_string()),
        "Front camera".to_string(),
        ApiBackend::Video4Linux,
    );
    assert_eq!(info.index(), &CameraIndex::String("/dev/video0".to_string()));
    assert_eq!(info.human_name(), "Front camera");
    assert_eq!(info.backend(), ApiBackend::Video4Linux);
    assert_ne!(info.index(), &CameraIndex::Index(0));
}

#[test]
fn a_request_without_a_wish_resolves_to_the_fallback() {
    let fallback = CameraFormat::default();
    assert_eq!(FormatRequest::Unspecified.resolve(fallback), fallback);
    let other = CameraFormat::new(Resolution::new(320, 240), FrameFormat::GRAY, 5);
    assert_eq!(FormatRequest::Unspecified.resolve(other), other);
}

#[test]
fn an_exact_request_resolves_to_its_format() {
    let wanted = CameraFormat::new(Resolution::new(1920, 1080), FrameFormat::NV12, 60);
    assert_eq!(FormatRequest::Exact(wanted).resolve(CameraFormat::default()), wanted);
}
