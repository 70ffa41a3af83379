//! The outcomes of a failed frame parse, per link layer and unified.

use vstd::prelude::*;
use vstd::std_specs::convert::FromSpecImpl;

verus! {

/// Why no frame could be taken from the front of a byte slice, whatever the
/// link layer.
#[derive(Debug, Clone, Copy, PartialEq, Eq)]
pub enum ParseError {
    /// The bytes end before the frame does. The value is the least number of
    /// further bytes needed, where the parser can tell.
    Incomplete(Option<usize>),
    /// The first bytes are no frame start.
    InvalidStart,
    /// The bytes start like a frame and are none.
    Other,
}

/// A failed parse of an M-Bus telegram, as the telegram parser reports it.
#[derive(Debug, Clone, Copy, PartialEq, Eq)]
pub enum MBusFault {
    /// The telegram does not start with a start character.
    InvalidStartCharacter,
    /// The telegram's format is wrong.
    InvalidFormat,
    /// The telegram is incomplete. The value is the number of bytes that
    /// are missing at least, where known, and never zero.
    Incomplete(Option<usize>),
    /// The checksum does not match.
    ChecksumMismatch,
}

/// A failed parse of an HDLC frame, as the frame parser reports it.
#[derive(Debug, Clone, Copy, PartialEq, Eq)]
pub enum HdlcFault {
    /// The first byte is not the flag.
    InvalidStartCharacter,
    /// The header is not that of a type 3 frame.
    InvalidFormat,
    /// An address field is invalid.
    InvalidAddress,
    /// A check sequence does not match.
    InvalidChecksum,
    /// The frame is incomplete. The value is the number of bytes that are
    /// missing at least, where known, and never zero.
    Incomplete(Option<usize>),
}

impl ParseError {
    /// Whether more bytes may still complete the frame.
    pub open spec fn is_incomplete(self) -> bool {
        self is Incomplete
    }

    /// The number of bytes to read after an incomplete parse: the parser's
    /// hint, or one where it gave none.
    pub open spec fn hint(self) -> usize {
        match self {
            ParseError::Incomplete(Some(n)) => n,
            _ => 1,
        }
    }
}

impl MBusFault {
    /// The unified classification of a telegram fault: a wrong start
    /// character is an invalid start, a wrong format or checksum is a frame
    /// that is none, and an incomplete telegram stays incomplete with its
    /// hint.
    pub open spec fn classify(self) -> ParseError {
        match self {
            MBusFault::InvalidStartCharacter => ParseError::InvalidStart,
            MBusFault::InvalidFormat => ParseError::Other,
            MBusFault::ChecksumMismatch => ParseError::Other,
            MBusFault::Incomplete(n) => ParseError::Incomplete(n),
        }
    }
}

impl HdlcFault {
    /// The unified classification of an HDLC fault: a wrong start character
    /// is an invalid start, a wrong format, address or checksum is a frame
    /// that is none, and an incomplete frame stays incomplete with its hint.
    pub open spec fn classify(self) -> ParseError {
        match self {
            HdlcFault::InvalidStartCharacter => ParseError::InvalidStart,
            HdlcFault::InvalidFormat => ParseError::Other,
            HdlcFault::InvalidAddress => ParseError::Other,
            HdlcFault::InvalidChecksum => ParseError::Other,
            HdlcFault::Incomplete(n) => ParseError::Incomplete(n),
        }
    }
}

impl From<MBusFault> for ParseError {
    fn from(err: MBusFault) -> (res: ParseError) {
        match err {
            MBusFault::InvalidStartCharacter => ParseError::InvalidStart,
            MBusFault::InvalidFormat | MBusFault::ChecksumMismatch => ParseError::Other,
            MBusFault::Incomplete(n) => ParseError::Incomplete(n),
        }
    }
}

impl FromSpecImpl<MBusFault> for ParseError {
    open spec fn obeys_from_spec() -> bool {
        true
    }

    open spec fn from_spec(err: MBusFault) -> ParseError {
        err.classify()
    }
}

impl From<HdlcFault> for ParseError {
    fn from(err: HdlcFault) -> (res: ParseError) {
        match err {
            HdlcFault::InvalidStartCharacter => ParseError::InvalidStart,
            HdlcFault::InvalidFormat | HdlcFault::InvalidAddress | HdlcFault::InvalidChecksum => {
                ParseError::Other
            },
            HdlcFault::Incomplete(n) => ParseError::Incomplete(n),
        }
    }
}

impl FromSpecImpl<HdlcFault> for ParseError {
    open spec fn obeys_from_spec() -> bool {
        true
    }

    open spec fn from_spec(err: HdlcFault) -> ParseError {
        err.classify()
    }
}

} // verus!
