//! The reassembly as a state machine over plain values.
//!
//! Everything the engine decides is a function of its state, of what the
//! link layer finds in the buffer, and of what the caller reports. This
//! module says what those functions are; `SmartMeter` implements them.

use vstd::prelude::*;
use crate::error::Error;
use crate::link::ParseFrame;
use crate::parse_error::ParseError;

verus! {

/// What the caller has to do before the engine can go on.
#[derive(Debug, Clone, Copy, PartialEq, Eq)]
pub enum Step {
    /// Read exactly this many further bytes from the byte source and feed
    /// them to the engine. Never zero.
    Read(usize),
    /// A frame set is complete: try to decrypt it and report the outcome.
    Decrypt,
    /// A hard failure was reported earlier: there is nothing left to do.
    Stopped,
}

/// What the decryption layer made of a frame set.
#[derive(Debug)]
pub enum DecryptOutcome<M> {
    /// The frames held one whole message.
    Success(M),
    /// The message goes on in further frames: that many, or one where the
    /// number is unknown.
    NeedsMore(Option<usize>),
    /// The frames do not fit together or fail an integrity check.
    SoftFailure,
    /// The message was whole and could not be authenticated or decrypted.
    HardFailure,
}

/// What looking for a number of frames at the front of a buffer finds.
pub enum Scan {
    /// All frames are there. The value holds the byte length of each.
    Complete(Seq<usize>),
    /// The bytes end inside a frame. The value is the number of bytes to
    /// read before looking again.
    Incomplete(usize),
    /// One of the frames is malformed.
    Malformed,
}

/// The state of the engine.
pub struct State {
    /// The bytes read and not yet consumed, oldest first.
    pub buffer: Seq<u8>,
    /// The number of bytes to read before the next parse attempt.
    pub bytes_needed: usize,
    /// The number of frames to find before the next decryption attempt.
    pub frames_needed: usize,
    /// The byte lengths of the frames of the set that awaits decryption,
    /// empty where none does.
    pub frames: Seq<usize>,
    /// Whether a hard failure has ended the stream.
    pub stopped: bool,
}

/// Where a resync comes to rest.
pub struct Settled {
    /// The buffer that is left.
    pub buffer: Seq<u8>,
    /// The number of frames looked for at the end.
    pub frames_needed: usize,
    /// What was found at the front of that buffer.
    pub found: Scan,
    /// The number of resync steps taken.
    pub resyncs: nat,
}

/// The sum of the byte lengths in `lens`.
pub open spec fn total(lens: Seq<usize>) -> nat
    decreases lens.len(),
{
    if lens.len() == 0 {
        0
    } else {
        total(lens.drop_last()) + lens.last() as nat
    }
}

/// The byte length of the first frame of `lens`, zero where there is none.
pub open spec fn first(lens: Seq<usize>) -> nat {
    if lens.len() == 0 {
        0
    } else {
        lens[0] as nat
    }
}

/// `scan` with the lengths in `head` put before the frames it found.
pub open spec fn preceded(head: Seq<usize>, scan: Scan) -> Scan {
    match scan {
        Scan::Complete(tail) => Scan::Complete(head + tail),
        other => other,
    }
}

/// Looks for `count` frames in a row at the front of `input`.
///
/// The first frame that is incomplete or malformed decides; the frames
/// before it do not count.
pub open spec fn scan<F: ParseFrame>(input: Seq<u8>, count: nat) -> Scan
    decreases count,
{
    if count == 0 {
        Scan::Complete(Seq::empty())
    } else {
        match F::frame(input) {
            Ok(n) => preceded(seq![n], scan::<F>(input.skip(n as int), (count - 1) as nat)),
            Err(err) => if err.is_incomplete() {
                Scan::Incomplete(err.hint())
            } else {
                Scan::Malformed
            },
        }
    }
}

/// Whether `input` starts with something that is no frame and that no
/// further bytes can make one.
pub open spec fn malformed_at<F: ParseFrame>(input: Seq<u8>) -> bool {
    F::frame(input) matches Err(err) && !err.is_incomplete()
}

/// Resyncs until the buffer no longer starts with something malformed.
///
/// Each resync step drops exactly the first byte of the buffer and looks
/// for a single frame from then on.
pub open spec fn settle<F: ParseFrame>(buffer: Seq<u8>, frames_needed: usize) -> Settled
    decreases buffer.len(),
{
    let found = scan::<F>(buffer, frames_needed as nat);
    if found is Malformed && buffer.len() > 0 {
        let rest = settle::<F>(buffer.drop_first(), 1);
        Settled { resyncs: rest.resyncs + 1, ..rest }
    } else {
        Settled { buffer, frames_needed, found, resyncs: 0 }
    }
}

impl State {
    /// The state of a new engine: nothing buffered, nothing to read before
    /// the first parse attempt, one frame to find.
    pub open spec fn fresh() -> State {
        State {
            buffer: Seq::empty(),
            bytes_needed: 0,
            frames_needed: 1,
            frames: Seq::empty(),
            stopped: false,
        }
    }

    /// What a valid state satisfies: at least one frame is looked for; the
    /// frames of a waiting set are not empty and lie inside the buffer; and
    /// a set waits only when nothing is left to read, and is what the link
    /// layer `F` finds at the front of the buffer.
    pub open spec fn wf<F: ParseFrame>(self) -> bool {
        &&& self.frames_needed >= 1
        &&& total(self.frames) <= self.buffer.len()
        &&& forall|i: int| 0 <= i < self.frames.len() ==> #[trigger] self.frames[i] >= 1
        &&& self.frames.len() > 0 ==> {
            &&& self.bytes_needed == 0
            &&& !self.stopped
            &&& self.frames.len() == self.frames_needed
            &&& scan::<F>(self.buffer, self.frames_needed as nat) == Scan::Complete(self.frames)
        }
    }

    /// What the caller has to do in this state.
    pub open spec fn step(self) -> Step {
        if self.stopped {
            Step::Stopped
        } else if self.bytes_needed > 0 {
            Step::Read(self.bytes_needed)
        } else {
            Step::Decrypt
        }
    }

    /// The state after the engine has gone as far as it can by itself.
    ///
    /// A stopped engine stays as it is, and so does one that waits for
    /// bytes. Otherwise the engine resyncs until the buffer starts with
    /// frames or with the beginning of one, and then either holds a
    /// complete frame set or knows how many bytes to read.
    pub open spec fn advance<F: ParseFrame>(self) -> State {
        if self.stopped || self.bytes_needed > 0 {
            self
        } else {
            let settled = settle::<F>(self.buffer, self.frames_needed);
            State {
                buffer: settled.buffer,
                bytes_needed: match settled.found {
                    Scan::Incomplete(hint) => hint,
                    _ => 0,
                },
                frames_needed: settled.frames_needed,
                frames: match settled.found {
                    Scan::Complete(lens) => lens,
                    _ => Seq::empty(),
                },
                stopped: false,
            }
        }
    }

    /// The state after `bytes` were read: they stand at the end of the
    /// buffer, that many fewer are needed, and no frame set waits.
    pub open spec fn feed(self, bytes: Seq<u8>) -> State {
        State {
            buffer: self.buffer + bytes,
            bytes_needed: if bytes.len() >= self.bytes_needed {
                0
            } else {
                (self.bytes_needed - bytes.len()) as usize
            },
            frames: Seq::empty(),
            ..self
        }
    }

    /// The state after the decryption layer reported `outcome` for the
    /// frame set that waits.
    ///
    /// Success consumes all frames of the set. A soft failure consumes the
    /// first frame alone. A request for more frames consumes nothing and
    /// raises the number of frames to find, up to the largest number there
    /// is. A hard failure stops the engine. A stopped engine stays as it
    /// is.
    pub open spec fn resolve<M>(self, outcome: DecryptOutcome<M>) -> State {
        if self.stopped {
            self
        } else {
            match outcome {
                DecryptOutcome::Success(_) => State {
                    buffer: self.buffer.skip(total(self.frames) as int),
                    bytes_needed: 0,
                    frames_needed: 1,
                    frames: Seq::empty(),
                    stopped: false,
                },
                DecryptOutcome::NeedsMore(hint) => State {
                    buffer: self.buffer,
                    bytes_needed: 0,
                    frames_needed: raised(self.frames_needed, hint),
                    frames: Seq::empty(),
                    stopped: false,
                },
                DecryptOutcome::SoftFailure => State {
                    buffer: self.buffer.skip(first(self.frames) as int),
                    bytes_needed: 0,
                    frames_needed: 1,
                    frames: Seq::empty(),
                    stopped: false,
                },
                DecryptOutcome::HardFailure => State {
                    frames: Seq::empty(),
                    stopped: true,
                    ..self
                },
            }
        }
    }
}

/// The state after `bytes` were read one at a time, the engine being asked
/// what to do next after each byte but the last.
pub open spec fn drip<F: ParseFrame>(state: State, bytes: Seq<u8>) -> State
    decreases bytes.len(),
{
    if bytes.len() == 0 {
        state
    } else if bytes.len() == 1 {
        state.feed(bytes)
    } else {
        drip::<F>(state.feed(bytes.take(1)).advance::<F>(), bytes.drop_first())
    }
}

/// `frames_needed` raised by `hint`, or by one where there is no hint,
/// and no further than the largest number there is.
pub open spec fn raised(frames_needed: usize, hint: Option<usize>) -> usize {
    let more: usize = match hint {
        Some(n) => n,
        None => 1,
    };
    if frames_needed + more > usize::MAX {
        usize::MAX
    } else {
        (frames_needed + more) as usize
    }
}

/// What the engine hands to its caller when the decryption layer reported
/// `outcome`: the message on success, the error on a hard failure, and
/// nothing otherwise, nor once it has stopped.
pub open spec fn emitted<M>(state: State, outcome: DecryptOutcome<M>) -> Option<Result<M, Error>> {
    if state.stopped {
        None
    } else {
        match outcome {
            DecryptOutcome::Success(message) => Some(Ok(message)),
            DecryptOutcome::HardFailure => Some(Err(Error::DecryptionFailed)),
            _ => None,
        }
    }
}

} // verus!
