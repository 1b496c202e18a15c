//! Verified core of a GPU Mandelbrot viewer: the compute dispatch geometry,
//! the surface size that the window keeps, the event-loop decisions and the
//! keyboard panning rule.

pub mod compute;
pub mod viewport;
pub mod events;
pub mod input;
pub mod surface;
