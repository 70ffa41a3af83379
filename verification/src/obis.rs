//! The reading iterator: from decrypted messages to register mappings.

use vstd::prelude::*;
use vstd::std_specs::convert::FromSpecImpl;
use crate::error::Error;

verus! {

/// Turns a sequence of decrypted messages into a sequence of register
/// mappings, leaving out the messages that cannot be decoded.
///
/// The caller pulls from the sequence underneath, hands each message to
/// the payload decoder, and asks [`Reading::of`] what to do with the
/// result.
#[derive(Debug)]
pub struct ObisIterator<I> {
    iter: I,
}

/// What the reading iterator does with one item pulled from the messages.
#[derive(Debug)]
pub enum Reading<T> {
    /// Hand this on as the next item.
    Yield(Result<T, Error>),
    /// The message could not be decoded: pull the next one.
    Skip,
    /// The messages have come to an end, and so have the readings.
    End,
}

/// What becomes of one pulled item. `None` is the end of the messages; an
/// error is what the engine emitted; a message stands for what the payload
/// decoder made of it, `None` where it could not decode it.
///
/// An error is handed on unchanged, a decoded message is handed on, a
/// message that could not be decoded is passed over in silence, and the end
/// is the end.
pub open spec fn reading<T>(pulled: Option<Result<Option<T>, Error>>) -> Reading<T> {
    match pulled {
        None => Reading::End,
        Some(Err(err)) => Reading::Yield(Err(err)),
        Some(Ok(Some(registers))) => Reading::Yield(Ok(registers)),
        Some(Ok(None)) => Reading::Skip,
    }
}

impl<T> Reading<T> {
    /// Decides what becomes of one pulled item.
    pub fn of(pulled: Option<Result<Option<T>, Error>>) -> (res: Self)
        ensures
            res == reading(pulled),
    {
        match pulled {
            None => Reading::End,
            Some(Err(err)) => Reading::Yield(Err(err)),
            Some(Ok(Some(registers))) => Reading::Yield(Ok(registers)),
            Some(Ok(None)) => Reading::Skip,
        }
    }
}

impl<I> ObisIterator<I> {
    /// The sequence of messages underneath.
    pub closed spec fn inner(self) -> I {
        self.iter
    }

    /// The sequence of messages underneath, to pull from.
    pub fn get_mut(&mut self) -> (iter: &mut I)
        ensures
            *iter == old(self).inner(),
            final(self).inner() == *final(iter),
    {
        &mut self.iter
    }

    /// Gives the sequence of messages back.
    pub fn into_inner(self) -> (iter: I)
        ensures
            iter == self.inner(),
    {
        self.iter
    }
}

impl<I> From<I> for ObisIterator<I> {
    fn from(iter: I) -> (res: Self)
        ensures
            res.inner() == iter,
    {
        Self { iter }
    }
}

impl<I> FromSpecImpl<I> for ObisIterator<I> {
    open spec fn obeys_from_spec() -> bool {
        true
    }

    closed spec fn from_spec(iter: I) -> Self {
        ObisIterator { iter }
    }
}

} // verus!
