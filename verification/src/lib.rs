//! Verified core of a single-client gaussian-splat render server: the request and
//! response messages, the corrections a render request goes through before it reaches the
//! renderer, the latency bookkeeping of a finished render, and the job queue that sits
//! between the network side and the render loop.
pub mod float_bits;
pub mod message;
pub mod render;
pub mod server;
pub mod timing;
pub mod util;
