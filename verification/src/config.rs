//! The validated settings that the driver works from.

use vstd::prelude::*;

verus! {

/// Vendor and product identifiers of a USB device.
#[derive(Clone, Copy, Debug, PartialEq, Eq, Structural)]
pub struct Device {
    pub vid: u16,
    pub pid: u16,
}

/// Size of the display panel in pixels.
#[derive(Clone, Copy, Debug, PartialEq, Eq, Structural)]
pub struct Resolution {
    pub width: u16,
    pub height: u16,
}

/// What the display shows.
#[derive(Clone, Debug)]
pub enum Picture {
    /// One 16-bit colour over the whole panel.
    SolidColor { color: u16 },
    /// A still image read from a file.
    Image { file: String },
    /// A video read from a file and played at `fps` frames per second.
    Video { file: String, fps: u32 },
}

/// Everything the driver needs to know: which device, how large, what to show.
#[derive(Clone, Debug)]
pub struct Config {
    pub device: Device,
    pub resolution: Resolution,
    pub picture: Picture,
}

} // verus!
