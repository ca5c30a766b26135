//! Driver logic for a USB display peripheral: the wire protocol codec, the
//! frame payload builders, bulk endpoint selection and the streaming pump.

pub mod error;
pub mod protocol;
pub mod probe;
pub mod framebuffer;
pub mod decoder;
pub mod config;
pub mod usb;
pub mod info;
pub mod pump;
