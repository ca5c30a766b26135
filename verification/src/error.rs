//! The failures that the driver reports.

use vstd::prelude::*;

verus! {

/// Every way in which discovery, framing or streaming can fail.
#[derive(Clone, Copy, Debug, PartialEq, Eq, Structural)]
pub enum Error {
    /// No attached device carries the wanted vendor and product identifiers.
    DeviceNotFound { vid: u16, pid: u16 },
    /// A matching device is attached but the system refused to open it.
    OpenFailed { vid: u16, pid: u16 },
    /// No alternate setting of the device has both a bulk IN and a bulk OUT endpoint.
    NoBulkEndpoints,
    /// A frame payload whose length disagrees with `width * height * bytes_per_pixel`.
    PayloadMismatch { expected: usize, actual: usize },
    /// A decoded still image whose byte length is not that of one frame.
    DecodeSizeMismatch { expected: usize, actual: usize },
    /// A bulk write that moved fewer bytes than the packet holds.
    ShortWrite { written: usize, expected: usize },
    /// A bulk transfer that the transport reported as failed or timed out.
    Transport,
    /// A read from the video decoder that failed before the stream's end.
    SourceRead,
}

} // verus!
