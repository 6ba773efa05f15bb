//! The decisions a render takes before and after the renderer runs: which camera the
//! request describes once invalid values are replaced, where the frame goes, and what the
//! client is answered.
use vstd::prelude::*;

use crate::float_bits::{f32_bits_lt, f32_lt, f32_sign, F32_HALF, F32_NINETY, F32_ONE, F32_ZERO};
use crate::message::{camera_rotation, ImageRequest, ImageResponse};
use crate::timing::{
    elapsed_micros, latency_micros, parse_rfc3339, request_instant, rfc3339_instant, time_or_now,
    within_four_digit_years, UtcTime,
};
use crate::util::{frame_path, frame_path_text};

verus! {

/// A field of view that the renderer accepts: a negative one becomes 90 degrees.
pub open spec fn valid_fov(fov: u32) -> u32 {
    if f32_lt(fov, F32_ZERO) {
        F32_NINETY
    } else {
        fov
    }
}

/// A pinhole coordinate that the renderer accepts: one below 0 or above 1 becomes 0.5.
pub open spec fn valid_pinhole(pinhole: u32) -> u32 {
    if f32_lt(pinhole, F32_ZERO) || f32_lt(F32_ONE, pinhole) {
        F32_HALF
    } else {
        pinhole
    }
}

/// Replaces a negative field of view by 90 degrees.
pub fn sanitize_fov(fov: u32) -> (valid: u32)
    ensures
        valid == valid_fov(fov),
{
    if f32_bits_lt(fov, F32_ZERO) {
        F32_NINETY
    } else {
        fov
    }
}

/// Replaces a pinhole coordinate outside `[0, 1]` by 0.5.
pub fn sanitize_pinhole(pinhole: u32) -> (valid: u32)
    ensures
        valid == valid_pinhole(pinhole),
{
    if f32_bits_lt(pinhole, F32_ZERO) {
        F32_HALF
    } else if f32_bits_lt(F32_ONE, pinhole) {
        F32_HALF
    } else {
        pinhole
    }
}

/// The camera handed to the renderer, every `f32` as its bit pattern.
pub struct CameraSetup {
    /// Position `[x, y, z]`.
    pub position: [u32; 3],
    /// Rotation `[x, y, z, w]`, to be normalized by the renderer's side.
    pub rotation: [u32; 4],
    /// Horizontal field of view in degrees.
    pub fov_x: u32,
    /// Vertical field of view in degrees.
    pub fov_y: u32,
    /// Horizontal pinhole position, in `[0, 1]` unless NaN.
    pub pinhole_x: u32,
    /// Vertical pinhole position, in `[0, 1]` unless NaN.
    pub pinhole_y: u32,
    /// Image width in pixels.
    pub width: u32,
    /// Image height in pixels.
    pub height: u32,
}

/// Everything a render needs besides the splats.
pub struct RenderPlan {
    /// The camera to render from.
    pub camera: CameraSetup,
    /// Where the frame is saved.
    pub frame_path: String,
    /// When the request was made, for the latency of the answer.
    pub request_time: UtcTime,
    /// The request's timestamp was RFC 3339; where it was not, `request_time` is the
    /// clock reading and the latency of the answer says nothing.
    pub timestamp_valid: bool,
}

/// The camera a request describes, with invalid values replaced.
pub open spec fn camera_of(request: ImageRequest, camera: CameraSetup) -> bool {
    &&& camera.position@ == seq![request.T_world_camera[0], request.T_world_camera[1], request.T_world_camera[2]]
    &&& camera.rotation@ == camera_rotation(request.T_world_camera)
    &&& camera.fov_x == valid_fov(request.intrinsics[0])
    &&& camera.fov_y == valid_fov(request.intrinsics[1])
    &&& camera.pinhole_x == valid_pinhole(request.intrinsics[2])
    &&& camera.pinhole_y == valid_pinhole(request.intrinsics[3])
    &&& camera.width == request.image_size[0]
    &&& camera.height == request.image_size[1]
}

/// Prepares the render of a request received when the clock read `now`.
pub fn plan_render(request: &ImageRequest, now: UtcTime) -> (plan: RenderPlan)
    ensures
        camera_of(*request, plan.camera),
        plan.camera.position@ == seq![request.T_world_camera[0], request.T_world_camera[1], request.T_world_camera[2]],
        plan.camera.rotation@ == camera_rotation(request.T_world_camera),
        f32_lt(request.intrinsics[0], F32_ZERO) ==> plan.camera.fov_x == F32_NINETY,
        !f32_lt(request.intrinsics[0], F32_ZERO) ==> plan.camera.fov_x == request.intrinsics[0],
        f32_lt(request.intrinsics[1], F32_ZERO) ==> plan.camera.fov_y == F32_NINETY,
        !f32_lt(request.intrinsics[1], F32_ZERO) ==> plan.camera.fov_y == request.intrinsics[1],
        (f32_lt(request.intrinsics[2], F32_ZERO) || f32_lt(F32_ONE, request.intrinsics[2])) ==> plan.camera.pinhole_x == F32_HALF,
        (!f32_lt(request.intrinsics[2], F32_ZERO) && !f32_lt(F32_ONE, request.intrinsics[2])) ==> plan.camera.pinhole_x == request.intrinsics[2],
        (f32_lt(request.intrinsics[3], F32_ZERO) || f32_lt(F32_ONE, request.intrinsics[3])) ==> plan.camera.pinhole_y == F32_HALF,
        (!f32_lt(request.intrinsics[3], F32_ZERO) && !f32_lt(F32_ONE, request.intrinsics[3])) ==> plan.camera.pinhole_y == request.intrinsics[3],
        plan.camera.width == request.image_size[0],
        plan.camera.height == request.image_size[1],
        rfc3339_instant(request.timestamp@) matches Some(p) ==> plan.request_time == p,
        rfc3339_instant(request.timestamp@) is None ==> plan.request_time == now,
        plan.frame_path@ == frame_path_text(request.request_id),
        plan.request_time == request_instant(request.timestamp@, now),
        rfc3339_instant(request.timestamp@) is Some ==> within_four_digit_years(plan.request_time),
        plan.timestamp_valid == rfc3339_instant(request.timestamp@) is Some,
{
    let parsed = parse_rfc3339(request.get_timestamp());
    let timestamp_valid = parsed.is_some();
    let request_time = time_or_now(parsed, now);
    let (fov_x, fov_y) = request.get_camera_fov();
    let (pinhole_x, pinhole_y) = request.get_pinhole_property();
    let (width, height) = request.get_image_size();
    let camera = CameraSetup {
        position: request.get_camera_position(),
        rotation: request.get_camera_quaternion(),
        fov_x: sanitize_fov(fov_x),
        fov_y: sanitize_fov(fov_y),
        pinhole_x: sanitize_pinhole(pinhole_x),
        pinhole_y: sanitize_pinhole(pinhole_y),
        width,
        height,
    };
    RenderPlan { camera, frame_path: frame_path(request.get_id()), request_time, timestamp_valid }
}

/// Answers a request whose frame was saved as planned, completed at `completed_at`,
/// which the server's clock renders as `completion_text`.
pub fn finish_render(
    request: &ImageRequest,
    plan: &RenderPlan,
    completion_text: &str,
    completed_at: UtcTime,
) -> (response: ImageResponse)
    requires
        elapsed_micros(plan.request_time, completed_at) is Some,
    ensures
        response.request_id == request.request_id,
        response.timestamp@ == completion_text@,
        response.image_path@ == plan.frame_path@,
        response.width == plan.camera.width,
        response.height == plan.camera.height,
        response.dtype@ == seq!['p', 'n', 'g'],
        response.stride == 0,
        Some(response.render_latency_us) == elapsed_micros(plan.request_time, completed_at),
{
    let latency = latency_micros(plan.request_time, completed_at).unwrap();
    proof {
        reveal_strlit("png");
    }
    ImageResponse::new(
        request.get_id(),
        completion_text,
        plan.frame_path.as_str(),
        plan.camera.width as u64,
        plan.camera.height as u64,
        "png",
        latency,
    )
}

} // verus!

verus! {

/// A field of view handed to the renderer is never negative.
pub proof fn valid_fov_is_not_negative(fov: u32)
    ensures
        !f32_lt(valid_fov(fov), F32_ZERO),
{
}

/// A pinhole coordinate handed to the renderer is neither below 0 nor above 1.
pub proof fn valid_pinhole_is_in_unit_range(pinhole: u32)
    ensures
        !f32_lt(valid_pinhole(pinhole), F32_ZERO),
        !f32_lt(F32_ONE, valid_pinhole(pinhole)),
{
}

/// Correcting a corrected value changes nothing.
pub proof fn corrections_are_idempotent(fov: u32, pinhole: u32)
    ensures
        valid_fov(valid_fov(fov)) == valid_fov(fov),
        valid_pinhole(valid_pinhole(pinhole)) == valid_pinhole(pinhole),
{
}

} // verus!

verus! {

/// Only a negative field of view is replaced, by 90 degrees; any other one, however wide,
/// is handed on unchanged.
pub proof fn only_negative_fov_is_replaced(fov: u32)
    ensures
        f32_lt(fov, F32_ZERO) ==> valid_fov(fov) == F32_NINETY,
        !f32_lt(fov, F32_ZERO) ==> valid_fov(fov) == fov,
        !f32_sign(fov) ==> valid_fov(fov) == fov,
{
}

/// Only a pinhole coordinate below 0 or above 1 is replaced, by 0.5; one in `[0, 1]`
/// (or NaN) is handed on unchanged.
pub proof fn only_out_of_range_pinhole_is_replaced(pinhole: u32)
    ensures
        (f32_lt(pinhole, F32_ZERO) || f32_lt(F32_ONE, pinhole)) ==> valid_pinhole(pinhole) == F32_HALF,
        (!f32_lt(pinhole, F32_ZERO) && !f32_lt(F32_ONE, pinhole)) ==> valid_pinhole(pinhole) == pinhole,
{
}

} // verus!
