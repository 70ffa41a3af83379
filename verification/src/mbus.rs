//! M-Bus telegram framing.

use vstd::prelude::*;
use crate::link::ParseFrame;
use crate::parse_error::{MBusFault, ParseError};

verus! {

/// The start character of a long or control frame.
pub const LONG_START: u8 = 0x68;

/// The M-Bus link layer: frames are telegrams.
#[derive(Debug, Clone, Copy)]
pub struct MBusDataLinkLayer;

/// Whether `control` is one of the control fields the telegram parser knows.
pub open spec fn control_known(control: u8) -> bool {
    ||| control == 0x40
    ||| control == 0x53
    ||| control == 0x73
    ||| control == 0x5b
    ||| control == 0x7b
    ||| control == 0x5a
    ||| control == 0x7a
    ||| control == 0x08
    ||| control == 0x18
    ||| control == 0x28
    ||| control == 0x38
}

/// Whether `input` starts with a long-frame header whose length field is
/// too small for the control and address fields that follow it, and holds
/// enough bytes for a parser to get that far.
///
/// The length counts the control field, the address field and what follows
/// them, so a length of zero is too small once the control field is read,
/// and a length of one once the address field is read.
pub open spec fn length_too_short(input: Seq<u8>) -> bool {
    &&& input.len() >= 5
    &&& input[0] == LONG_START
    &&& input[3] == LONG_START
    &&& input[1] == input[2]
    &&& control_known(input[4])
    &&& (input[1] == 0 || (input[1] == 1 && input.len() >= 6))
}

/// What `mbusparse::Telegram::parse` returns on `input`: the bytes left
/// after the telegram, or the fault.
pub uninterp spec fn telegram_parse(input: Seq<u8>) -> Result<Seq<u8>, MBusFault>;

/// Calls `mbusparse::Telegram::parse` and keeps the remainder.
///
/// Not proved, taken from the parser's source: the result depends on the
/// bytes alone; the remainder is the input without the telegram's bytes at
/// its front, and a telegram has at least one byte; the hint of an
/// incomplete parse is a non-zero number; an empty input is incomplete.
/// The parser subtracts the control and address fields from a long frame's
/// length without a check, so those inputs are left out.
#[verifier::external_body]
fn parse_telegram<'a>(input: &'a [u8]) -> (res: Result<&'a [u8], MBusFault>)
    requires
        !length_too_short(input@),
    ensures
        res matches Ok(rest) ==> (telegram_parse(input@) matches Ok(left) && left == rest@),
        res matches Err(fault) ==> (telegram_parse(input@) matches Err(named) && named == fault),
        res matches Ok(rest) ==> rest@.len() < input@.len(),
        res matches Ok(rest) ==> rest@ == input@.skip(input@.len() - rest@.len()),
        res matches Err(MBusFault::Incomplete(Some(n))) ==> n >= 1,
        input@.len() == 0 ==> res matches Err(MBusFault::Incomplete(_)),
{
    match mbusparse::Telegram::parse(input) {
        Ok((rest, _)) => Ok(rest),
        Err(mbusparse::Error::InvalidStartCharacter) => Err(MBusFault::InvalidStartCharacter),
        Err(mbusparse::Error::InvalidFormat) => Err(MBusFault::InvalidFormat),
        Err(mbusparse::Error::ChecksumMismatch) => Err(MBusFault::ChecksumMismatch),
        Err(mbusparse::Error::Incomplete(n)) => Err(MBusFault::Incomplete(n.map(usize::from))),
    }
}

/// Whether `control` is one of the control fields the telegram parser knows.
fn is_control_known(control: u8) -> (res: bool)
    ensures
        res == control_known(control),
{
    control == 0x40 || control == 0x53 || control == 0x73 || control == 0x5b || control == 0x7b
        || control == 0x5a || control == 0x7a || control == 0x08 || control == 0x18 || control
        == 0x28 || control == 0x38
}

/// Decides [`length_too_short`].
pub fn has_length_too_short(input: &[u8]) -> (res: bool)
    ensures
        res == length_too_short(input@),
{
    input.len() >= 5 && input[0] == LONG_START && input[3] == LONG_START && input[1] == input[2]
        && is_control_known(input[4]) && (input[1] == 0 || (input[1] == 1 && input.len() >= 6))
}

impl ParseFrame for MBusDataLinkLayer {
    /// A long frame whose length field is too small is malformed; every
    /// other input is what the telegram parser makes of it.
    open spec fn frame(input: Seq<u8>) -> Result<usize, ParseError> {
        if length_too_short(input) {
            Err(ParseError::Other)
        } else {
            match telegram_parse(input) {
                Ok(rest) => Ok((input.len() - rest.len()) as usize),
                Err(fault) => Err(fault.classify()),
            }
        }
    }

    fn parse_frame(input: &[u8]) -> (res: Result<usize, ParseError>) {
        if has_length_too_short(input) {
            return Err(ParseError::Other);
        }
        match parse_telegram(input) {
            Ok(rest) => Ok(input.len() - rest.len()),
            Err(fault) => Err(ParseError::from(fault)),
        }
    }
}

} // verus!
