//! Driver for the monochrome OLED panel of SteelSeries Apex keyboards.
//!
//! Pixels are packed into a fixed bitmap and pushed to the panel with one
//! USB control transfer.

pub mod framebuffer;
pub mod geometry;
pub mod pixel_lemmas;
pub mod session;
pub mod usb;
