use splatcom::message::{ImageRequest, ImageResponse, RenderJob};
use splatcom::util::glam_quat;

fn bits<const N: usize>(values: [f32; N]) -> [u32; N] {
    values.map(f32::to_bits)
}

fn request_with_transform(t: [f32; 7]) -> ImageRequest {
    ImageRequest {
        request_id: 15,
        timestamp: "asdasas".to_string(),
        camera_id: false,
        T_world_camera: bits(t),
        intrinsics: bits([90.0, 60.0, 0.5, 0.5]),
        image_size: [800, 600],
    }
}

#[test]
fn default_request_matches_documented_values() {
    let r = ImageRequest::default();
    assert_eq!(r.get_id(), 0);
    assert_eq!(r.get_timestamp(), "");
    assert!(!r.camera_id);
    assert_eq!(r.T_world_camera, bits([0.0, 0.0, 0.0, 1.0, 0.0, 0.0, 0.0]));
    assert_eq!(r.get_camera_fov(), (90.0f32.to_bits(), 60.0f32.to_bits()));
    assert_eq!(r.get_pinhole_property(), (0.5f32.to_bits(), 0.5f32.to_bits()));
    assert_eq!(r.get_image_size(), (800, 600));
}

#[test]
fn getters_return_the_fields() {
    let r = ImageRequest {
        request_id: 77,
        timestamp: "2024-01-01T00:00:00Z".to_string(),
        camera_id: true,
        T_world_camera: bits([1.0, 2.0, 3.0, 0.5, 0.5, 0.5, 0.5]),
        intrinsics: bits([45.0, 30.0, 0.25, 0.75]),
        image_size: [1920, 1080],
    };
    assert_eq!(r.get_id(), 77);
    assert_eq!(r.get_timestamp(), "2024-01-01T00:00:00Z");
    assert_eq!(r.get_camera_position(), bits([1.0, 2.0, 3.0]));
    assert_eq!(r.get_camera_fov(), (45.0f32.to_bits(), 30.0f32.to_bits()));
    assert_eq!(r.get_pinhole_property(), (0.25f32.to_bits(), 0.75f32.to_bits()));
    assert_eq!(r.get_image_size(), (1920, 1080));
}

#[test]
fn glam_quat_moves_w_last() {
    let q = glam_quat(bits([1.0, 2.0, 3.0, 4.0]));
    assert_eq!(q, bits([2.0, 3.0, 4.0, 1.0]));
    let g = glam::Quat::from_array(q.map(f32::from_bits));
    assert_eq!((g.x, g.y, g.z, g.w), (2.0, 3.0, 4.0, 1.0));
}

#[test]
fn quaternion_is_reordered() {
    let r = request_with_transform([0.0, 0.0, 0.0, 0.7, 0.1, 0.2, 0.3]);
    assert_eq!(r.get_camera_quaternion(), bits([0.1, 0.2, 0.3, 0.7]));
}

#[test]
fn zero_quaternion_becomes_identity() {
    let r = request_with_transform([5.0, 6.0, 7.0, 0.0, 0.0, 0.0, 0.0]);
    assert_eq!(r.get_camera_quaternion(), bits([0.0, 0.0, 0.0, 1.0]));
    let r = request_with_transform([5.0, 6.0, 7.0, -0.0, 0.0, -0.0, 0.0]);
    assert_eq!(r.get_camera_quaternion(), bits([0.0, 0.0, 0.0, 1.0]));
}

#[test]
fn nan_quaternion_is_not_replaced() {
    let r = request_with_transform([0.0, 0.0, 0.0, f32::NAN, 0.0, 0.0, 0.0]);
    let q = r.get_camera_quaternion();
    assert_eq!(q[3], f32::NAN.to_bits());
    assert_eq!(q[0], 0.0f32.to_bits());
}

#[test]
fn default_quaternion_is_identity_and_normalizes() {
    let q = ImageRequest::default().get_camera_quaternion();
    let g = glam::Quat::from_array(q.map(f32::from_bits)).normalize();
    assert_eq!(g, glam::Quat::IDENTITY);
}

#[test]
fn response_new_copies_arguments() {
    let r = ImageResponse::new(9, "now", "output/frame_9.png", 640, 480, "png", -12);
    assert_eq!(r.request_id, 9);
    assert_eq!(r.timestamp, "now");
    assert_eq!(r.image_path, "output/frame_9.png");
    assert_eq!(r.width, 640);
    assert_eq!(r.height, 480);
    assert_eq!(r.dtype, "png");
    assert_eq!(r.stride, 0);
    assert_eq!(r.render_latency_us, -12);
}

#[test]
fn default_response_is_empty_png() {
    let r = ImageResponse::default();
    assert_eq!(r.request_id, 0);
    assert_eq!(r.timestamp, "");
    assert_eq!(r.image_path, "");
    assert_eq!((r.width, r.height, r.stride, r.render_latency_us), (0, 0, 0, 0));
    assert_eq!(r.dtype, "png");
}

#[test]
fn into_parts_returns_what_new_was_given() {
    let (tx, mut rx) = tokio::sync::oneshot::channel::<ImageResponse>();
    let job = RenderJob::new(request_with_transform([0.0; 7]), tx);
    let (request, reply) = job.into_parts();
    assert_eq!(request.get_id(), 15);
    assert_eq!(request.get_timestamp(), "asdasas");
    assert!(reply.send(ImageResponse::new(15, "t", "p", 1, 1, "png", 3)).is_ok());
    let answer = rx.try_recv().unwrap();
    assert_eq!(answer.request_id, 15);
    assert_eq!(answer.render_latency_us, 3);
}
