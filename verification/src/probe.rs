//! The probe request as a value of its own.

use vstd::prelude::*;
use crate::protocol::{probe_header, PacketHeader, HEADER_SIZE, MAGIC, PROBE};

verus! {

/// The two fields of a probe request that are not zero.
#[derive(Clone, Copy, Debug, PartialEq, Eq, Structural)]
pub struct ProbeRequest {
    pub magic: u32,
    pub probe_flag: u32,
}

impl ProbeRequest {
    /// The header that carries this request: every other field is zero.
    pub open spec fn header(self) -> PacketHeader {
        PacketHeader {
            magic: self.magic,
            command: 0,
            width: 0,
            height: 0,
            bytes_per_pixel: self.probe_flag,
            payload_length: 0,
        }
    }

    /// The request that the display answers.
    pub fn new() -> (r: Self)
        ensures
            r == (ProbeRequest { magic: MAGIC, probe_flag: PROBE }),
            r.header() == probe_header(),
    {
        ProbeRequest { magic: MAGIC, probe_flag: PROBE }
    }

    /// The 64 bytes of the request.
    pub fn to_bytes(self) -> (b: Vec<u8>)
        ensures
            b@ == self.header().wire(),
            b@.len() == HEADER_SIZE,
    {
        let header = PacketHeader {
            magic: self.magic,
            command: 0,
            width: 0,
            height: 0,
            bytes_per_pixel: self.probe_flag,
            payload_length: 0,
        };
        header.as_bytes()
    }
}

} // verus!
