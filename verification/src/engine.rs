//! The reassembly engine: the buffer, the cursor, and what to do next.

use core::marker::PhantomData;
use vstd::prelude::*;
use vstd::slice::slice_subrange;
use crate::buffer::{append, drain_front};
use crate::error::Error;
use crate::link::ParseFrame;
use crate::model::{emitted, settle, total, DecryptOutcome, Settled, State, Step};
use crate::scan::{lemma_total_counts, lemma_total_prefix, parse_frames, total_len, FrameScan};

verus! {

/// The reassembly engine for the link layer `F`.
///
/// It owns the buffer and the cursor and does neither read nor decrypt.
/// The caller asks it what to do next with [`Engine::advance`], does it,
/// and reports back with [`Engine::feed`] or [`Engine::resolve`].
#[derive(Debug)]
pub struct Engine<F: ParseFrame> {
    buffer: Vec<u8>,
    bytes_needed: usize,
    frames_needed: usize,
    frames: Vec<usize>,
    stopped: bool,
    _marker: PhantomData<F>,
}

impl<F: ParseFrame> View for Engine<F> {
    type V = State;

    closed spec fn view(&self) -> State {
        State {
            buffer: self.buffer@,
            bytes_needed: self.bytes_needed,
            frames_needed: self.frames_needed,
            frames: self.frames@,
            stopped: self.stopped,
        }
    }
}

impl<F: ParseFrame> Engine<F> {
    /// Every engine is in a valid state.
    #[verifier::type_invariant]
    spec fn valid(self) -> bool {
        self@.wf::<F>()
    }

    /// An engine with nothing buffered.
    pub fn new() -> (engine: Self)
        ensures
            engine@ == State::fresh(),
    {
        Self {
            buffer: Vec::new(),
            bytes_needed: 0,
            frames_needed: 1,
            frames: Vec::new(),
            stopped: false,
            _marker: PhantomData,
        }
    }

    /// The bytes read and not yet consumed.
    pub fn buffer(&self) -> (bytes: &[u8])
        ensures
            bytes@ == self@.buffer,
    {
        self.buffer.as_slice()
    }

    /// The number of bytes to read before the next parse attempt.
    pub fn bytes_needed(&self) -> (n: usize)
        ensures
            n == self@.bytes_needed,
    {
        self.bytes_needed
    }

    /// The number of frames to find before the next decryption attempt.
    pub fn frames_needed(&self) -> (n: usize)
        ensures
            n == self@.frames_needed,
            n >= 1,
    {
        proof {
            use_type_invariant(self);
        }
        self.frames_needed
    }

    /// Whether a hard failure has ended the stream.
    pub fn is_stopped(&self) -> (stopped: bool)
        ensures
            stopped == self@.stopped,
    {
        self.stopped
    }

    /// The byte lengths of the frames that await decryption, in order.
    pub fn frame_lengths(&self) -> (lens: &[usize])
        ensures
            lens@ == self@.frames,
            self@.wf::<F>(),
    {
        proof {
            use_type_invariant(self);
        }
        self.frames.as_slice()
    }

    /// The bytes of the frames that await decryption: the front of the
    /// buffer, as long as the frames are together.
    pub fn frame_set(&self) -> (bytes: &[u8])
        ensures
            bytes@ == self@.buffer.take(total(self@.frames) as int),
            total(self@.frames) <= self@.buffer.len(),
    {
        proof {
            use_type_invariant(self);
        }
        assert(self.buffer.len() <= usize::MAX);
        let len: usize = total_len(self.frames.as_slice());
        slice_subrange(self.buffer.as_slice(), 0, len)
    }

    /// Goes as far as the engine can by itself and says what the caller
    /// has to do next.
    ///
    /// While bytes are still to be read, or once the engine has stopped,
    /// nothing changes. Otherwise the frames needed are parsed from the
    /// front of the buffer. An incomplete frame leaves the buffer as it is
    /// and asks for the bytes of the parser's hint. A malformed frame costs
    /// the buffer its first byte and the parse starts over, for one frame.
    ///
    /// The engine never asks to decrypt nothing, never gains bytes here,
    /// and asks an empty buffer to be filled.
    pub fn advance(&mut self) -> (step: Step)
        ensures
            final(self)@ == old(self)@.advance::<F>(),
            step == final(self)@.step(),
            final(self)@.wf::<F>(),
            step is Decrypt <==> final(self)@.frames.len() > 0,
            final(self)@.buffer.len() <= old(self)@.buffer.len(),
            !old(self)@.stopped && old(self)@.buffer.len() == 0 ==> step is Read,
    {
        proof {
            use_type_invariant(&*self);
        }
        if self.stopped {
            return Step::Stopped;
        }
        if self.bytes_needed > 0 {
            return Step::Read(self.bytes_needed);
        }
        let mut buffer: Vec<u8> = self.take_buffer();
        let mut frames_needed: usize = self.frames_needed;
        let ghost target = settle::<F>(buffer@, frames_needed);
        let ghost mut resyncs: nat = 0;
        loop
            invariant
                !self.stopped,
                self.bytes_needed == 0,
                self.frames_needed >= 1,
                self.frames@ == Seq::<usize>::empty(),
                self.buffer@ == Seq::<u8>::empty(),
                frames_needed >= 1,
                old(self)@.wf::<F>(),
                !old(self)@.stopped,
                old(self)@.bytes_needed == 0,
                target == settle::<F>(old(self)@.buffer, old(self)@.frames_needed),
                target == (Settled {
                    resyncs: settle::<F>(buffer@, frames_needed).resyncs + resyncs,
                    ..settle::<F>(buffer@, frames_needed)
                }),
                buffer@.len() <= old(self)@.buffer.len(),
            decreases buffer@.len(),
        {
            match parse_frames::<F>(buffer.as_slice(), frames_needed) {
                FrameScan::Complete(lens) => {
                    proof {
                        lemma_total_counts(lens@);
                    }
                    self.buffer = buffer;
                    self.frames_needed = frames_needed;
                    self.frames = lens;
                    return Step::Decrypt;
                },
                FrameScan::Incomplete(hint) => {
                    self.buffer = buffer;
                    self.frames_needed = frames_needed;
                    self.bytes_needed = hint;
                    return Step::Read(hint);
                },
                FrameScan::Malformed => {
                    buffer.remove(0);
                    frames_needed = 1;
                    proof {
                        resyncs = resyncs + 1;
                    }
                },
            }
        }
    }

    /// Drops the waiting frame set and takes the buffer out of the engine,
    /// to be put back when it has been worked on.
    fn take_buffer(&mut self) -> (buffer: Vec<u8>)
        ensures
            buffer@ == old(self)@.buffer,
            final(self)@ == (State { buffer: Seq::empty(), frames: Seq::empty(), ..old(self)@ }),
    {
        proof {
            use_type_invariant(&*self);
        }
        self.frames = Vec::new();
        let mut buffer: Vec<u8> = Vec::new();
        core::mem::swap(&mut self.buffer, &mut buffer);
        buffer
    }

    /// Takes in bytes that were read from the byte source.
    ///
    /// They go to the end of the buffer and count against the bytes still
    /// needed. A frame set that waited is dropped: the next call of
    /// [`Engine::advance`] finds it again.
    pub fn feed(&mut self, bytes: &[u8])
        ensures
            final(self)@ == old(self)@.feed(bytes@),
            final(self)@.wf::<F>(),
    {
        proof {
            use_type_invariant(&*self);
        }
        let mut buffer: Vec<u8> = self.take_buffer();
        append(&mut buffer, bytes);
        self.buffer = buffer;
        self.bytes_needed = if bytes.len() >= self.bytes_needed {
            0
        } else {
            self.bytes_needed - bytes.len()
        };
    }

    /// Takes in what the decryption layer made of the frame set, and hands
    /// out what is to be emitted, if anything.
    ///
    /// On success all frames of the set leave the buffer, the cursor starts
    /// over and the message is emitted. A soft failure costs the buffer the
    /// first frame of the set. A request for more frames leaves the buffer
    /// alone and raises the number of frames to find. A hard failure is
    /// emitted once: from then on the engine is stopped and emits nothing.
    pub fn resolve<M>(&mut self, outcome: DecryptOutcome<M>) -> (emit: Option<Result<M, Error>>)
        ensures
            final(self)@ == old(self)@.resolve(outcome),
            emit == emitted(old(self)@, outcome),
            final(self)@.wf::<F>(),
    {
        proof {
            use_type_invariant(&*self);
        }
        if self.stopped {
            return None;
        }
        assert(self.buffer.len() <= usize::MAX);
        match outcome {
            DecryptOutcome::Success(message) => {
                let consumed: usize = total_len(self.frames.as_slice());
                let mut buffer: Vec<u8> = self.take_buffer();
                drain_front(&mut buffer, consumed);
                self.buffer = buffer;
                self.bytes_needed = 0;
                self.frames_needed = 1;
                Some(Ok(message))
            },
            DecryptOutcome::NeedsMore(hint) => {
                let more: usize = match hint {
                    Some(n) => n,
                    None => 1,
                };
                self.frames = Vec::new();
                self.bytes_needed = 0;
                self.frames_needed = if more > usize::MAX - self.frames_needed {
                    usize::MAX
                } else {
                    self.frames_needed + more
                };
                None
            },
            DecryptOutcome::SoftFailure => {
                let consumed: usize = if self.frames.len() == 0 {
                    0
                } else {
                    self.frames[0]
                };
                proof {
                    if self.frames@.len() > 0 {
                        lemma_total_prefix(self.frames@, 1);
                        assert(self.frames@.take(1).drop_last() =~= Seq::<usize>::empty());
                    }
                }
                let mut buffer: Vec<u8> = self.take_buffer();
                drain_front(&mut buffer, consumed);
                self.buffer = buffer;
                self.bytes_needed = 0;
                self.frames_needed = 1;
                None
            },
            DecryptOutcome::HardFailure => {
                self.frames = Vec::new();
                self.stopped = true;
                Some(Err(Error::DecryptionFailed))
            },
        }
    }
}

} // verus!
