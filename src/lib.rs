//! The decisions of a small real-time 2D renderer, proved: when the
//! swapchain is rebuilt, when a frame is dropped, which completion future a
//! frame waits on, which draws a frame records, how the device, queue family
//! and swapchain parameters are chosen, and how an indexed mesh becomes a
//! triangle list. The GPU and window calls themselves are made by the caller,
//! which hands each result back to these functions.
pub mod device;
pub mod draw;
pub mod geometry;
pub mod scheduler;
pub mod timeline;
