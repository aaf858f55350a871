//! Integer core of a recursive box ray tracer: packed colours, the frame
//! buffer and its rain overlay, and the decisions that steer each traced ray.
pub mod color;
pub mod framebuffer;
pub mod rain;
pub mod face;
pub mod trace;
