//! The messages exchanged with the client.
use vstd::prelude::*;

use crate::float_bits::{f32_bits_eq, f32_eq, f32_magnitude, F32_HALF, F32_NINETY, F32_ONE, F32_SIXTY, F32_ZERO};
use crate::util::glam_quat;

verus! {

/// `tokio::sync::oneshot::Sender`, the one-shot channel on which the network side waits
/// for the answer to a request. The library only carries it from the job to the renderer.
#[verifier::external_type_specification]
#[verifier::external_body]
#[verifier::reject_recursive_types(T)]
pub struct ExOneshotSender<T>(tokio::sync::oneshot::Sender<T>);

/// A request waiting to be rendered, with the channel that takes its answer.
pub struct RenderJob {
    request: ImageRequest,
    reply_channel: tokio::sync::oneshot::Sender<ImageResponse>,
}

impl RenderJob {
    /// The request of the job.
    pub closed spec fn request(self) -> ImageRequest {
        self.request
    }

    /// The channel that takes the job's answer.
    pub closed spec fn reply_channel(self) -> tokio::sync::oneshot::Sender<ImageResponse> {
        self.reply_channel
    }

    /// Pairs a request with the channel for its answer.
    pub fn new(request: ImageRequest, reply_channel: tokio::sync::oneshot::Sender<ImageResponse>) -> (job: Self)
        ensures
            job.request() == request,
            job.reply_channel() == reply_channel,
    {
        RenderJob { request, reply_channel }
    }

    /// Takes the job apart into its request and its answer channel.
    pub fn into_parts(self) -> (parts: (ImageRequest, tokio::sync::oneshot::Sender<ImageResponse>))
        ensures
            parts.0 == self.request(),
            parts.1 == self.reply_channel(),
    {
        (self.request, self.reply_channel)
    }
}

/// A request for one rendered frame, as it arrives over the wire.
///
/// Every floating-point field holds the bit pattern of the `f32` the client sent.
#[derive(Clone)]
#[allow(non_snake_case)]
pub struct ImageRequest {
    /// Unique id of the request.
    pub request_id: u64,
    /// Client time of the request, RFC 3339.
    pub timestamp: String,
    /// Camera id, for the client's own use.
    pub camera_id: bool,
    /// Camera transform `[x, y, z, qw, qx, qy, qz]`; +X forward, +Z up.
    pub T_world_camera: [u32; 7],
    /// Camera intrinsics `[fov x, fov y, pinhole x, pinhole y]`.
    pub intrinsics: [u32; 4],
    /// Image size `[width, height]` in pixels.
    pub image_size: [u32; 2],
}

/// The quaternion part of a camera transform is `0.0` in every component.
pub open spec fn is_zero_quaternion(t: [u32; 7]) -> bool {
    &&& f32_eq(t[3], F32_ZERO)
    &&& f32_eq(t[4], F32_ZERO)
    &&& f32_eq(t[5], F32_ZERO)
    &&& f32_eq(t[6], F32_ZERO)
}

/// The camera rotation of a transform in `[x, y, z, w]` order; the unit quaternion
/// stands in for an all-zero one.
pub open spec fn camera_rotation(t: [u32; 7]) -> Seq<u32> {
    if is_zero_quaternion(t) {
        seq![F32_ZERO, F32_ZERO, F32_ZERO, F32_ONE]
    } else {
        seq![t[4], t[5], t[6], t[3]]
    }
}

impl ImageRequest {
    /// Returns the camera position `[x, y, z]`.
    pub fn get_camera_position(&self) -> (position: [u32; 3])
        ensures
            position@ == seq![self.T_world_camera[0], self.T_world_camera[1], self.T_world_camera[2]],
    {
        [self.T_world_camera[0], self.T_world_camera[1], self.T_world_camera[2]]
    }

    /// Returns the camera rotation in `[x, y, z, w]` order, before normalization; an
    /// all-zero quaternion is replaced by the unit quaternion.
    pub fn get_camera_quaternion(&self) -> (quat: [u32; 4])
        ensures
            quat@ == camera_rotation(self.T_world_camera),
    {
        let quat = glam_quat(
            [
                self.T_world_camera[3],
                self.T_world_camera[4],
                self.T_world_camera[5],
                self.T_world_camera[6],
            ],
        );
        if f32_bits_eq(quat[0], F32_ZERO) && f32_bits_eq(quat[1], F32_ZERO) && f32_bits_eq(
            quat[2],
            F32_ZERO,
        ) && f32_bits_eq(quat[3], F32_ZERO) {
            glam_quat([F32_ONE, F32_ZERO, F32_ZERO, F32_ZERO])
        } else {
            quat
        }
    }

    /// Returns the id of the request.
    pub fn get_id(&self) -> (id: u64)
        ensures
            id == self.request_id,
    {
        self.request_id
    }

    /// Returns the timestamp of the request.
    pub fn get_timestamp(&self) -> (timestamp: &str)
        ensures
            timestamp@ == self.timestamp@,
    {
        self.timestamp.as_str()
    }

    /// Returns the field of view `(x, y)`.
    pub fn get_camera_fov(&self) -> (fov: (u32, u32))
        ensures
            fov == (self.intrinsics[0], self.intrinsics[1]),
    {
        (self.intrinsics[0], self.intrinsics[1])
    }

    /// Returns the pinhole position `(x, y)`.
    pub fn get_pinhole_property(&self) -> (pinhole: (u32, u32))
        ensures
            pinhole == (self.intrinsics[2], self.intrinsics[3]),
    {
        (self.intrinsics[2], self.intrinsics[3])
    }

    /// Returns the image size `(width, height)`.
    pub fn get_image_size(&self) -> (size: (u32, u32))
        ensures
            size == (self.image_size[0], self.image_size[1]),
    {
        (self.image_size[0], self.image_size[1])
    }
}

impl Default for ImageRequest {
    /// Request 0 with an empty timestamp: camera at the origin with the identity
    /// rotation, 90 by 60 degrees field of view, centred pinhole, 800 by 600 pixels.
    fn default() -> (request: Self)
        ensures
            request.request_id == 0,
            request.timestamp@ == Seq::<char>::empty(),
            !request.camera_id,
            request.T_world_camera@ == seq![F32_ZERO, F32_ZERO, F32_ZERO, F32_ONE, F32_ZERO, F32_ZERO, F32_ZERO],
            request.intrinsics@ == seq![F32_NINETY, F32_SIXTY, F32_HALF, F32_HALF],
            request.image_size@ == seq![800u32, 600u32],
    {
        ImageRequest {
            request_id: 0,
            timestamp: String::new(),
            camera_id: false,
            T_world_camera: [F32_ZERO, F32_ZERO, F32_ZERO, F32_ONE, F32_ZERO, F32_ZERO, F32_ZERO],
            intrinsics: [F32_NINETY, F32_SIXTY, F32_HALF, F32_HALF],
            image_size: [800, 600],
        }
    }
}

/// The answer to a rendered request.
pub struct ImageResponse {
    /// Id of the request answered.
    pub request_id: u64,
    /// Server completion time.
    pub timestamp: String,
    /// Path of the rendered image.
    pub image_path: String,
    /// Image width in pixels.
    pub width: u64,
    /// Image height in pixels.
    pub height: u64,
    /// Image type.
    pub dtype: String,
    /// Image offset.
    pub stride: u64,
    /// Render latency on the server, in microseconds.
    pub render_latency_us: i64,
}

impl ImageResponse {
    /// Builds a response with stride 0.
    pub fn new(
        request_id: u64,
        time: &str,
        image_path: &str,
        width: u64,
        height: u64,
        dtype: &str,
        latency_time_us: i64,
    ) -> (response: Self)
        ensures
            response.request_id == request_id,
            response.timestamp@ == time@,
            response.image_path@ == image_path@,
            response.width == width,
            response.height == height,
            response.dtype@ == dtype@,
            response.stride == 0,
            response.render_latency_us == latency_time_us,
    {
        ImageResponse {
            request_id,
            timestamp: String::from_str(time),
            image_path: String::from_str(image_path),
            width,
            height,
            dtype: String::from_str(dtype),
            stride: 0,
            render_latency_us: latency_time_us,
        }
    }
}

impl Default for ImageResponse {
    /// An empty `png` response for request 0.
    fn default() -> (response: Self)
        ensures
            response.request_id == 0,
            response.timestamp@ == Seq::<char>::empty(),
            response.image_path@ == Seq::<char>::empty(),
            response.width == 0,
            response.height == 0,
            response.dtype@ == seq!['p', 'n', 'g'],
            response.stride == 0,
            response.render_latency_us == 0,
    {
        proof {
            reveal_strlit("png");
        }
        ImageResponse {
            request_id: 0,
            timestamp: String::new(),
            image_path: String::new(),
            width: 0,
            height: 0,
            dtype: String::from_str("png"),
            stride: 0,
            render_latency_us: 0,
        }
    }
}

} // verus!

verus! {

/// The rotation a request hands on is never the zero quaternion, so it can always be
/// normalized.
pub proof fn camera_rotation_is_never_zero(t: [u32; 7])
    ensures
        !{
            let q = camera_rotation(t);
            &&& f32_eq(q[0], F32_ZERO)
            &&& f32_eq(q[1], F32_ZERO)
            &&& f32_eq(q[2], F32_ZERO)
            &&& f32_eq(q[3], F32_ZERO)
        },
{
}

} // verus!

verus! {

/// A quaternion with some component other than `+0.0` or `-0.0` is only reordered, from
/// `[w, x, y, z]` to `[x, y, z, w]`; the unit quaternion stands in only for the all-zero one.
pub proof fn camera_rotation_replaces_only_the_zero_quaternion(t: [u32; 7])
    ensures
        (f32_magnitude(t[3]) != 0 || f32_magnitude(t[4]) != 0 || f32_magnitude(t[5]) != 0
            || f32_magnitude(t[6]) != 0) ==> camera_rotation(t) == seq![t[4], t[5], t[6], t[3]],
        (f32_magnitude(t[3]) == 0 && f32_magnitude(t[4]) == 0 && f32_magnitude(t[5]) == 0
            && f32_magnitude(t[6]) == 0) ==> camera_rotation(t) == seq![F32_ZERO, F32_ZERO, F32_ZERO, F32_ONE],
{
}

} // verus!
