//! Decision core of a small Vulkan renderer.
//!
//! The crate picks the GPU to render with, plans the swapchain that is tied
//! to a window surface, and schedules each frame: acquisition, recording,
//! submission and presentation, with recovery when the swapchain goes stale.
//! Everything here works on plain values; the caller performs the GPU and
//! window calls that the library asks for and reports what came of them.

pub mod frame_scheduler;
pub mod render_device;
pub mod render_output;
pub mod render_system;
