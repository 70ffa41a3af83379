//! HDLC frame format type 3 framing.

use vstd::prelude::*;
use crate::link::ParseFrame;
use crate::parse_error::{HdlcFault, ParseError};

verus! {

/// The flag that opens and closes a frame.
pub const FLAG: u8 = 0x7e;

/// The HDLC link layer: frames are type 3 frames.
#[derive(Debug, Clone, Copy)]
pub struct HdlcDataLinkLayer;

/// The number of bytes of the address field that starts at `at`: one, two or
/// four, the last byte of an address being the first with its lowest bit
/// set. `None` where the bytes end before that is decided.
pub open spec fn address_len(input: Seq<u8>, at: int) -> Option<int> {
    if at >= input.len() {
        None
    } else if input[at] & 1 != 0 {
        Some(1)
    } else if at + 1 >= input.len() {
        None
    } else if input[at + 1] & 1 != 0 {
        Some(2)
    } else if at + 3 >= input.len() {
        None
    } else {
        Some(4)
    }
}

/// The number of bytes from the format field to the control field, both
/// included, of a frame that `input` starts with: two for the format, the
/// two addresses, one for the control field.
pub open spec fn header_len(input: Seq<u8>) -> Option<int> {
    match address_len(input, 3) {
        Some(dest) => match address_len(input, 3 + dest) {
            Some(src) => Some(2 + dest + src + 1),
            None => None,
        },
        None => None,
    }
}

/// The frame length that the format field announces: its low eleven bits.
pub open spec fn announced_len(input: Seq<u8>) -> int {
    (input[1] & 0x07) as int * 256 + input[2] as int
}

/// Whether `input` starts with a frame header that announces a length too
/// small for the frame, and holds that header and its check sequence.
///
/// The length counts the header and what follows it up to the closing
/// flag. Behind the header comes either one byte, or at least the two
/// check sequences of two bytes each.
pub open spec fn length_too_short(input: Seq<u8>) -> bool {
    &&& input.len() >= 3
    &&& input[0] == FLAG
    &&& (input[1] & 0xf0) == 0xa0
    &&& header_len(input) matches Some(header)
    &&& input.len() >= 1 + header + 2
    &&& announced_len(input) < header + 4
    &&& announced_len(input) != header + 1
}

/// What `hdlcparse::type3::HdlcFrame::parse` returns on `input`: the bytes
/// left after the frame, or the fault.
pub uninterp spec fn frame_parse(input: Seq<u8>) -> Result<Seq<u8>, HdlcFault>;

/// Calls `hdlcparse::type3::HdlcFrame::parse` and keeps the remainder.
///
/// Not proved, taken from the parser's source: the result depends on the
/// bytes alone; the remainder is the input without the frame's bytes at its
/// front, and a frame has at least one byte; the hint of an incomplete
/// parse is a non-zero number; an empty input is incomplete. The parser
/// subtracts the header's size and the check sequences from the announced
/// length without a check, so those inputs are left out.
#[verifier::external_body]
fn parse_hdlc_frame<'a>(input: &'a [u8]) -> (res: Result<&'a [u8], HdlcFault>)
    requires
        !length_too_short(input@),
    ensures
        res matches Ok(rest) ==> (frame_parse(input@) matches Ok(left) && left == rest@),
        res matches Err(fault) ==> (frame_parse(input@) matches Err(named) && named == fault),
        res matches Ok(rest) ==> rest@.len() < input@.len(),
        res matches Ok(rest) ==> rest@ == input@.skip(input@.len() - rest@.len()),
        res matches Err(HdlcFault::Incomplete(Some(n))) ==> n >= 1,
        input@.len() == 0 ==> res matches Err(HdlcFault::Incomplete(_)),
{
    match hdlcparse::type3::HdlcFrame::parse(input) {
        Ok((rest, _)) => Ok(rest),
        Err(hdlcparse::Error::InvalidStartCharacter) => Err(HdlcFault::InvalidStartCharacter),
        Err(hdlcparse::Error::InvalidFormat) => Err(HdlcFault::InvalidFormat),
        Err(hdlcparse::Error::InvalidAddress) => Err(HdlcFault::InvalidAddress),
        Err(hdlcparse::Error::InvalidChecksum) => Err(HdlcFault::InvalidChecksum),
        Err(hdlcparse::Error::Incomplete(n)) => Err(HdlcFault::Incomplete(n.map(usize::from))),
    }
}

/// Computes [`address_len`].
fn address_len_at(input: &[u8], at: usize) -> (res: Option<usize>)
    requires
        at <= input@.len(),
    ensures
        res matches Some(n) ==> address_len(input@, at as int) == Some(n as int),
        res is None ==> address_len(input@, at as int) is None,
        res matches Some(n) ==> at + n <= input@.len(),
{
    let left: usize = input.len() - at;
    if left < 1 {
        None
    } else if input[at] & 1 != 0 {
        Some(1)
    } else if left < 2 {
        None
    } else if input[at + 1] & 1 != 0 {
        Some(2)
    } else if left < 4 {
        None
    } else {
        Some(4)
    }
}

/// Decides [`length_too_short`].
pub fn has_length_too_short(input: &[u8]) -> (res: bool)
    ensures
        res == length_too_short(input@),
{
    if input.len() < 3 || input[0] != FLAG || (input[1] & 0xf0) != 0xa0 {
        return false;
    }
    let dest: usize = match address_len_at(input, 3) {
        Some(n) => n,
        None => { return false; },
    };
    let src: usize = match address_len_at(input, 3 + dest) {
        Some(n) => n,
        None => { return false; },
    };
    let header: usize = 2 + dest + src + 1;
    let announced: usize = (input[1] & 0x07) as usize * 256 + input[2] as usize;
    input.len() - 3 >= header && announced < header + 4 && announced != header + 1
}

impl ParseFrame for HdlcDataLinkLayer {
    /// A frame whose announced length is too small is malformed; every
    /// other input is what the frame parser makes of it.
    open spec fn frame(input: Seq<u8>) -> Result<usize, ParseError> {
        if length_too_short(input) {
            Err(ParseError::Other)
        } else {
            match frame_parse(input) {
                Ok(rest) => Ok((input.len() - rest.len()) as usize),
                Err(fault) => Err(fault.classify()),
            }
        }
    }

    fn parse_frame(input: &[u8]) -> (res: Result<usize, ParseError>) {
        if has_length_too_short(input) {
            return Err(ParseError::Other);
        }
        match parse_hdlc_frame(input) {
            Ok(rest) => Ok(input.len() - rest.len()),
            Err(fault) => Err(ParseError::from(fault)),
        }
    }
}

} // verus!
