//! Frame bookkeeping, input handling and draw scheduling for a small real-time renderer.
//!
//! The GPU objects, the window and the floating-point camera math live with the
//! program that drives this library; what is decided here is stated and proved.

pub mod frame_data;
pub mod input;
pub mod mesh;
pub mod timing;
pub mod billboard;
pub mod color;
pub mod window;
