//! Looking for frames at the front of a buffer.

use vstd::prelude::*;
use vstd::slice::slice_subrange;
use crate::link::ParseFrame;
use crate::model::{preceded, scan, total, Scan};
use crate::parse_error::ParseError;

verus! {

/// What [`parse_frames`] found.
#[derive(Debug, PartialEq, Eq)]
pub enum FrameScan {
    /// All frames are there. The value holds the byte length of each.
    Complete(Vec<usize>),
    /// The bytes end inside a frame. The value is the number of bytes to
    /// read before looking again.
    Incomplete(usize),
    /// One of the frames is malformed.
    Malformed,
}

impl View for FrameScan {
    type V = Scan;

    open spec fn view(&self) -> Scan {
        match self {
            FrameScan::Complete(lens) => Scan::Complete(lens@),
            FrameScan::Incomplete(hint) => Scan::Incomplete(*hint),
            FrameScan::Malformed => Scan::Malformed,
        }
    }
}

/// The sum of a prefix of `lens` is at most the sum of all of it.
pub proof fn lemma_total_prefix(lens: Seq<usize>, n: int)
    requires
        0 <= n <= lens.len(),
    ensures
        total(lens.take(n)) <= total(lens),
    decreases lens.len(),
{
    if n == lens.len() {
        assert(lens.take(n) =~= lens);
    } else {
        assert(lens.take(n) =~= lens.drop_last().take(n));
        lemma_total_prefix(lens.drop_last(), n);
    }
}

/// The sum of `lens` with `len` put behind it.
pub proof fn lemma_total_push(lens: Seq<usize>, len: usize)
    ensures
        total(lens.push(len)) == total(lens) + len,
{
    assert(lens.push(len).drop_last() =~= lens);
}

/// Frames that are not empty have together at least one byte each.
pub proof fn lemma_total_counts(lens: Seq<usize>)
    requires
        forall|i: int| 0 <= i < lens.len() ==> #[trigger] lens[i] >= 1,
    ensures
        total(lens) >= lens.len(),
    decreases lens.len(),
{
    if lens.len() > 0 {
        lemma_total_counts(lens.drop_last());
    }
}

/// Adds up the byte lengths of a frame set.
pub fn total_len(frames: &[usize]) -> (sum: usize)
    requires
        total(frames@) <= usize::MAX,
    ensures
        sum == total(frames@),
{
    let mut sum: usize = 0;
    let mut i: usize = 0;
    while i < frames.len()
        invariant
            i <= frames@.len(),
            sum == total(frames@.take(i as int)),
            total(frames@) <= usize::MAX,
        decreases frames@.len() - i,
    {
        proof {
            lemma_total_prefix(frames@, i + 1);
            lemma_total_push(frames@.take(i as int), frames@[i as int]);
            assert(frames@.take(i + 1) =~= frames@.take(i as int).push(frames@[i as int]));
        }
        sum = sum + frames[i];
        i = i + 1;
    }
    proof {
        assert(frames@.take(i as int) =~= frames@);
    }
    sum
}

/// Looks for `count` frames in a row at the front of `input`, each parsed
/// where the one before it ends.
///
/// Stops at the first frame that is incomplete or malformed. Frames found
/// lie inside `input` and none is empty; a hint is never zero; and only a
/// non-empty input can be malformed.
pub fn parse_frames<F: ParseFrame>(input: &[u8], count: usize) -> (found: FrameScan)
    ensures
        found@ == scan::<F>(input@, count as nat),
        found matches FrameScan::Complete(lens) ==> {
            &&& lens@.len() == count
            &&& total(lens@) <= input@.len()
            &&& forall|i: int| 0 <= i < lens@.len() ==> #[trigger] lens@[i] >= 1
        },
        found matches FrameScan::Incomplete(hint) ==> hint >= 1,
        found is Malformed ==> input@.len() > 0,
{
    let mut frames: Vec<usize> = Vec::new();
    let mut offset: usize = 0;
    let mut i: usize = 0;
    proof {
        assert(input@.skip(0) =~= input@);
        let all = scan::<F>(input@, count as nat);
        if let Scan::Complete(lens) = all {
            assert(Seq::<usize>::empty() + lens =~= lens);
        }
    }
    while i < count
        invariant
            i <= count,
            offset <= input@.len(),
            offset == total(frames@),
            frames@.len() == i,
            forall|k: int| 0 <= k < frames@.len() ==> #[trigger] frames@[k] >= 1,
            scan::<F>(input@, count as nat) == preceded(
                frames@,
                scan::<F>(input@.skip(offset as int), (count - i) as nat),
            ),
        decreases count - i,
    {
        let rest = slice_subrange(input, offset, input.len());
        assert(rest@ =~= input@.skip(offset as int));
        match F::parse_frame(rest) {
            Ok(n) => {
                proof {
                    lemma_total_push(frames@, n);
                    assert(rest@.skip(n as int) =~= input@.skip(offset + n));
                    assert(frames@ + (seq![n] + Seq::<usize>::empty()) =~= frames@.push(n));
                    let tail = scan::<F>(rest@.skip(n as int), (count - i - 1) as nat);
                    assert(preceded(frames@, preceded(seq![n], tail)) == preceded(
                        frames@.push(n),
                        tail,
                    )) by {
                        if let Scan::Complete(lens) = tail {
                            assert(frames@ + (seq![n] + lens) =~= frames@.push(n) + lens);
                        }
                    }
                }
                frames.push(n);
                offset = offset + n;
                i = i + 1;
            },
            Err(ParseError::Incomplete(Some(hint))) => {
                return FrameScan::Incomplete(hint);
            },
            Err(ParseError::Incomplete(None)) => {
                return FrameScan::Incomplete(1);
            },
            Err(_) => {
                return FrameScan::Malformed;
            },
        }
    }
    proof {
        assert(frames@ + Seq::<usize>::empty() =~= frames@);
    }
    FrameScan::Complete(frames)
}

} // verus!
