use splatcom::message::ImageRequest;
use splatcom::render::{finish_render, plan_render, sanitize_fov, sanitize_pinhole};
use splatcom::timing::UtcTime;
use splatcom::util::frame_path;

fn bits<const N: usize>(values: [f32; N]) -> [u32; N] {
    values.map(f32::to_bits)
}

#[test]
fn negative_fov_becomes_ninety() {
    assert_eq!(sanitize_fov((-1.0f32).to_bits()), 90.0f32.to_bits());
    assert_eq!(sanitize_fov(f32::NEG_INFINITY.to_bits()), 90.0f32.to_bits());
    assert_eq!(sanitize_fov(45.0f32.to_bits()), 45.0f32.to_bits());
    assert_eq!(sanitize_fov((-0.0f32).to_bits()), (-0.0f32).to_bits());
    assert_eq!(sanitize_fov(f32::NAN.to_bits()), f32::NAN.to_bits());
}

#[test]
fn pinhole_outside_unit_range_becomes_half() {
    assert_eq!(sanitize_pinhole((-0.1f32).to_bits()), 0.5f32.to_bits());
    assert_eq!(sanitize_pinhole(1.5f32.to_bits()), 0.5f32.to_bits());
    assert_eq!(sanitize_pinhole(f32::INFINITY.to_bits()), 0.5f32.to_bits());
    assert_eq!(sanitize_pinhole(1.0f32.to_bits()), 1.0f32.to_bits());
    assert_eq!(sanitize_pinhole(0.0f32.to_bits()), 0.0f32.to_bits());
    assert_eq!(sanitize_pinhole(0.3f32.to_bits()), 0.3f32.to_bits());
}

#[test]
fn corrections_are_idempotent_on_samples() {
    for v in [-3.0f32, -0.0, 0.0, 0.4, 1.0, 2.0, f32::NAN, f32::INFINITY] {
        let f = sanitize_fov(v.to_bits());
        assert_eq!(sanitize_fov(f), f);
        let p = sanitize_pinhole(v.to_bits());
        assert_eq!(sanitize_pinhole(p), p);
        assert!(!(f32::from_bits(f) < 0.0));
        assert!(!(f32::from_bits(p) < 0.0) && !(f32::from_bits(p) > 1.0));
    }
}

#[test]
fn frame_path_formats_the_id() {
    for id in [0u64, 7, 10, 15, 99, 100, 123456789, u64::MAX] {
        assert_eq!(frame_path(id), format!("output/frame_{}.png", id));
    }
}

#[test]
fn frame_paths_differ_for_different_ids() {
    assert_ne!(frame_path(1), frame_path(11));
    assert_ne!(frame_path(10), frame_path(100));
}

#[test]
fn default_request_needs_no_correction() {
    let request = ImageRequest::default();
    let now = UtcTime { secs: 10, nanos: 0 };
    let plan = plan_render(&request, now);
    assert_eq!(plan.camera.position, bits([0.0, 0.0, 0.0]));
    assert_eq!(plan.camera.rotation, bits([0.0, 0.0, 0.0, 1.0]));
    assert_eq!((plan.camera.fov_x, plan.camera.fov_y), (90.0f32.to_bits(), 60.0f32.to_bits()));
    assert_eq!((plan.camera.pinhole_x, plan.camera.pinhole_y), (0.5f32.to_bits(), 0.5f32.to_bits()));
    assert_eq!((plan.camera.width, plan.camera.height), (800, 600));
    assert_eq!(plan.frame_path, "output/frame_0.png");
    assert_eq!(plan.request_time, now);
    assert!(!plan.timestamp_valid);
}

#[test]
fn invalid_request_values_are_corrected() {
    let request = ImageRequest {
        request_id: 42,
        timestamp: "2024-05-15T10:00:00Z".to_string(),
        camera_id: false,
        T_world_camera: bits([1.0, 2.0, 3.0, 0.0, 0.0, 0.0, 0.0]),
        intrinsics: bits([-10.0, 50.0, 2.0, -1.0]),
        image_size: [320, 240],
    };
    let plan = plan_render(&request, UtcTime { secs: 0, nanos: 0 });
    assert_eq!(plan.camera.rotation, bits([0.0, 0.0, 0.0, 1.0]));
    assert_eq!((plan.camera.fov_x, plan.camera.fov_y), (90.0f32.to_bits(), 50.0f32.to_bits()));
    assert_eq!((plan.camera.pinhole_x, plan.camera.pinhole_y), (0.5f32.to_bits(), 0.5f32.to_bits()));
    assert_eq!(plan.frame_path, "output/frame_42.png");
    assert_eq!(plan.request_time, UtcTime { secs: 1_715_767_200, nanos: 0 });
    assert!(plan.timestamp_valid);
}

#[test]
fn finished_render_answers_with_latency() {
    let request = ImageRequest {
        request_id: 3,
        timestamp: "2024-05-15T10:00:00Z".to_string(),
        ..ImageRequest::default()
    };
    let plan = plan_render(&request, UtcTime { secs: 0, nanos: 0 });
    let done = UtcTime { secs: 1_715_767_201, nanos: 250_000 };
    let response = finish_render(&request, &plan, "2024-05-15 10:00:01.000250 UTC", done);
    assert_eq!(response.request_id, 3);
    assert_eq!(response.timestamp, "2024-05-15 10:00:01.000250 UTC");
    assert_eq!(response.image_path, "output/frame_3.png");
    assert_eq!((response.width, response.height), (800, 600));
    assert_eq!(response.dtype, "png");
    assert_eq!(response.stride, 0);
    assert_eq!(response.render_latency_us, 1_000_250);
}
