//! The frame-lifecycle core of a small real-time Vulkan renderer: which GPU and queue
//! families to use, how the swapchain is configured, and the per-frame decisions of the
//! render loop (record, acquire, present, rebuild), all on plain values.

pub mod device;
pub mod frame;
pub mod matrix;
pub mod queue;
pub mod swapchain;
pub mod window;
