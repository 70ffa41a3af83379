//! The link-layer interface the reassembly is written against.

use vstd::prelude::*;
use crate::parse_error::ParseError;

verus! {

/// A link layer: a way to take one frame from the front of a byte slice.
///
/// Parsing is a function of the bytes alone, so parsing the same bytes again
/// finds the same frame. [`ParseFrame::frame`] is that function.
pub trait ParseFrame {
    /// What parsing at the front of `input` gives: the number of bytes the
    /// first frame takes up, or why there is no frame.
    spec fn frame(input: Seq<u8>) -> Result<usize, ParseError>;

    /// Parses one frame at the front of `input`.
    ///
    /// A frame takes at least one byte and no more than there are, a hint is
    /// never zero, and nothing is neither a frame nor malformed: an empty
    /// input is incomplete.
    fn parse_frame(input: &[u8]) -> (res: Result<usize, ParseError>)
        ensures
            res == Self::frame(input@),
            res matches Ok(n) ==> 1 <= n <= input@.len(),
            res matches Err(ParseError::Incomplete(Some(n))) ==> n >= 1,
            input@.len() == 0 ==> res matches Err(ParseError::Incomplete(_)),
    ;
}

} // verus!
