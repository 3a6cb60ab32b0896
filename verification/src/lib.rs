//! Touch-coordinate correction for applications running on an iOS device.
//!
//! On a real iOS device the window size that the engine reports can differ
//! from the point size of the physical screen, and touch positions then come
//! out scaled. [`ScreenSizeFixPlugin`] publishes the screen's point size as the
//! [`ScreenFixedSize`] resource, once, at startup; input-handling code reads it
//! and rescales every touch position with [`ScreenFixedSize::fix`].

pub mod platform;
pub mod plugin;
pub mod registry;
pub mod size;

pub use platform::Platform;
pub use plugin::ScreenSizeFixPlugin;
pub use size::ScreenFixedSize;
