//! Incremental frame reassembly for smart-meter byte streams.
//!
//! A meter pushes link-layer frames over a serial line or a socket. One
//! encrypted application message may span several frames, and how many is
//! only known once decryption has been tried. An [`Engine`] owns the byte
//! buffer and decides, step by step, what has to happen next: read more
//! bytes, try to decrypt the frames found so far, or stop. The caller
//! performs the blocking read and the decryption and reports back. A
//! [`SmartMeter`] keeps the engine together with the byte source and the
//! key.

pub mod buffer;
pub mod engine;
pub mod error;
pub mod hdlc;
pub mod laws;
pub mod link;
pub mod mbus;
pub mod meter;
pub mod model;
pub mod obis;
pub mod parse_error;
pub mod scan;

pub use engine::Engine;
pub use error::Error;
pub use hdlc::HdlcDataLinkLayer;
pub use link::ParseFrame;
pub use mbus::MBusDataLinkLayer;
pub use meter::SmartMeter;
pub use model::{DecryptOutcome, Step};
pub use obis::{ObisIterator, Reading};
pub use scan::{parse_frames, total_len, FrameScan};
pub use parse_error::{HdlcFault, MBusFault, ParseError};
