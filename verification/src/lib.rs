//! The rendering backend of a small game engine, as a verified core.
//!
//! The library decides: which graphics device is used, what the driver is
//! asked to create and in which order, how frames are paced, when the
//! swapchain is rebuilt, and in which order everything is destroyed again.
//! It makes no driver call itself. Every operation records the calls that
//! have to be made as a list of [`Command`] values, and enters the objects
//! that they create or destroy into a ledger. The embedding program carries
//! the commands out in order and keeps the table from the library's handles
//! to the driver's.
//!
//! - [`video`]: the window as the renderer sees it.
//! - [`rendersystem`]: the render system with its registries of shaders,
//!   materials and models.
//! - [`rendersystem::vulkan`]: the backend: device selection, the objects of
//!   the device, the frame cycle, the swapchain, the shutdown.
//!
//! [`Command`]: rendersystem::vulkan::command::Command

pub mod rendersystem;
pub mod video;
