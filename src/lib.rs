//! A verified delay engine: a circular sample store per channel and a
//! gated multi-tap mixing stage, computed in fixed point.
pub mod circular_buffer;
pub mod mixing;
