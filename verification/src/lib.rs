//! The decisions of a windowed Vulkan renderer that draws two spinning
//! triangles: which GPU queue family and swapchain settings to pick, how the
//! window's events steer the render loop, and the order of the work done in
//! each frame. The GPU, the window and the clock are driven by the program in
//! `app/`, which hands this library plain values and performs the actions it
//! returns.

pub mod events;
pub mod frame;
pub mod laws;
pub mod setup;
