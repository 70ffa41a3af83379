//! What holds of the reassembly whatever the stream brings.

use vstd::prelude::*;
use crate::error::Error;
use crate::link::ParseFrame;
use crate::scan::{lemma_total_prefix, lemma_total_push};
use crate::model::{
    drip, emitted, first, malformed_at, scan, settle, total, DecryptOutcome, Scan, Settled, State,
    Step,
};

verus! {

/// Looking for at least one frame where the input starts with something
/// malformed finds something malformed.
pub proof fn lemma_scan_malformed<F: ParseFrame>(input: Seq<u8>, count: nat)
    requires
        count >= 1,
        malformed_at::<F>(input),
    ensures
        scan::<F>(input, count) is Malformed,
{
}

/// A resync step never stalls: when the buffer starts with something
/// malformed, the engine goes on with the buffer less exactly its first
/// byte, looking for one frame, and that was one resync step.
pub proof fn lemma_resync_drops_one_byte<F: ParseFrame>(buffer: Seq<u8>, frames_needed: usize)
    requires
        buffer.len() > 0,
        scan::<F>(buffer, frames_needed as nat) is Malformed,
    ensures
        buffer.skip(1).len() == buffer.len() - 1,
        settle::<F>(buffer, frames_needed) == (Settled {
            resyncs: settle::<F>(buffer.skip(1), 1).resyncs + 1,
            ..settle::<F>(buffer.skip(1), 1)
        }),
{
    assert(buffer.drop_first() =~= buffer.skip(1));
}

/// Resyncing removes one byte from the front of the buffer for each
/// resync step, and nothing else.
pub proof fn lemma_resync_keeps_suffix<F: ParseFrame>(buffer: Seq<u8>, frames_needed: usize)
    ensures
        settle::<F>(buffer, frames_needed).resyncs <= buffer.len(),
        settle::<F>(buffer, frames_needed).buffer == buffer.skip(
            settle::<F>(buffer, frames_needed).resyncs as int,
        ),
    decreases buffer.len(),
{
    let found = scan::<F>(buffer, frames_needed as nat);
    if found is Malformed && buffer.len() > 0 {
        lemma_resync_keeps_suffix::<F>(buffer.drop_first(), 1);
        let rest = settle::<F>(buffer.drop_first(), 1);
        assert(buffer.drop_first().skip(rest.resyncs as int) =~= buffer.skip(rest.resyncs as int + 1));
    } else {
        assert(buffer.skip(0) =~= buffer);
    }
}

/// Resyncing leaves the number of frames to find as it was where no step
/// was taken, and at one after any step.
pub proof fn lemma_resync_looks_for_one<F: ParseFrame>(buffer: Seq<u8>, frames_needed: usize)
    ensures
        settle::<F>(buffer, frames_needed).frames_needed == if settle::<F>(
            buffer,
            frames_needed,
        ).resyncs == 0 {
            frames_needed
        } else {
            1
        },
    decreases buffer.len(),
{
    let found = scan::<F>(buffer, frames_needed as nat);
    if found is Malformed && buffer.len() > 0 {
        lemma_resync_looks_for_one::<F>(buffer.drop_first(), 1);
    }
}

/// Where resyncing comes to rest on a non-empty buffer, the buffer no
/// longer starts with something malformed.
pub proof fn lemma_resync_ends_well<F: ParseFrame>(buffer: Seq<u8>, frames_needed: usize)
    ensures
        settle::<F>(buffer, frames_needed).found is Malformed ==> settle::<F>(
            buffer,
            frames_needed,
        ).buffer.len() == 0,
    decreases buffer.len(),
{
    let found = scan::<F>(buffer, frames_needed as nat);
    if found is Malformed && buffer.len() > 0 {
        lemma_resync_ends_well::<F>(buffer.drop_first(), 1);
    }
}

/// Where resyncing has come to rest, it rests: the same buffer and the same
/// number of frames give the same find, with no further step.
pub proof fn lemma_resync_rests<F: ParseFrame>(buffer: Seq<u8>, frames_needed: usize)
    ensures
        settle::<F>(
            settle::<F>(buffer, frames_needed).buffer,
            settle::<F>(buffer, frames_needed).frames_needed,
        ) == (Settled { resyncs: 0, ..settle::<F>(buffer, frames_needed) }),
    decreases buffer.len(),
{
    let found = scan::<F>(buffer, frames_needed as nat);
    if found is Malformed && buffer.len() > 0 {
        lemma_resync_rests::<F>(buffer.drop_first(), 1);
    }
}

/// Framing is a function of the bytes, so parsing again from the front is
/// safe: asking the engine twice what to do finds the same frame set, or
/// the same bytes to read, and changes nothing the second time.
pub proof fn lemma_advance_is_idempotent<F: ParseFrame>(state: State)
    ensures
        state.advance::<F>().advance::<F>() == state.advance::<F>(),
{
    if !state.stopped && state.bytes_needed == 0 {
        lemma_resync_rests::<F>(state.buffer, state.frames_needed);
    }
}

/// Leading garbage is skipped byte by byte: when every position of
/// `garbage` starts something malformed, an engine that looks for one
/// frame comes to rest on `garbage` followed by `message` exactly where it
/// does on `message` alone, after one resync step more for each byte of
/// garbage.
pub proof fn lemma_garbage_is_skipped<F: ParseFrame>(garbage: Seq<u8>, message: Seq<u8>)
    requires
        forall|i: int| 0 <= i < garbage.len() ==> malformed_at::<F>(#[trigger] (garbage + message).skip(i)),
    ensures
        settle::<F>(garbage + message, 1) == (Settled {
            resyncs: settle::<F>(message, 1).resyncs + garbage.len(),
            ..settle::<F>(message, 1)
        }),
        !(scan::<F>(message, 1) is Malformed) ==> {
            &&& settle::<F>(garbage + message, 1).resyncs == garbage.len()
            &&& settle::<F>(garbage + message, 1).buffer == message
        },
    decreases garbage.len(),
{
    let all = garbage + message;
    if garbage.len() == 0 {
        assert(all =~= message);
    } else {
        let less = garbage.drop_first();
        assert(all.skip(0) =~= all);
        lemma_scan_malformed::<F>(all, 1);
        assert(all.drop_first() =~= less + message);
        assert forall|i: int| 0 <= i < less.len() implies malformed_at::<F>(
            #[trigger] (less + message).skip(i),
        ) by {
            assert((less + message).skip(i) =~= all.skip(i + 1));
        }
        lemma_garbage_is_skipped::<F>(less, message);
    }
}

/// A new engine that is fed `garbage` followed by `message` ends in the
/// state of one that is fed `message` alone, with the same frame set to
/// decrypt or the same bytes to read.
pub proof fn lemma_resync_is_idempotent<F: ParseFrame>(garbage: Seq<u8>, message: Seq<u8>)
    requires
        forall|i: int| 0 <= i < garbage.len() ==> malformed_at::<F>(#[trigger] (garbage + message).skip(i)),
    ensures
        State::fresh().feed(garbage + message).advance::<F>() == State::fresh().feed(
            message,
        ).advance::<F>(),
{
    lemma_garbage_is_skipped::<F>(garbage, message);
    assert(Seq::<u8>::empty() + (garbage + message) =~= garbage + message);
    assert(Seq::<u8>::empty() + message =~= message);
}

/// Bytes may arrive in pieces: feeding two chunks one after the other
/// leaves the engine in the state of feeding them as one.
pub proof fn lemma_feed_in_pieces(state: State, head: Seq<u8>, tail: Seq<u8>)
    ensures
        state.feed(head).feed(tail) == state.feed(head + tail),
{
    assert((state.buffer + head) + tail =~= state.buffer + (head + tail));
}

/// While bytes are still to be read, asking the engine what to do changes
/// nothing: it asks for the bytes that are left.
pub proof fn lemma_waiting_is_idle<F: ParseFrame>(state: State)
    requires
        !state.stopped,
        state.bytes_needed > 0,
    ensures
        state.advance::<F>() == state,
        state.step() == Step::Read(state.bytes_needed),
{
}

/// Drip feed: the bytes the engine asked for may arrive one at a time,
/// with the engine asked what to do after each. The state at the end is
/// that of one delivery.
pub proof fn lemma_drip_feed<F: ParseFrame>(state: State, bytes: Seq<u8>)
    requires
        0 < bytes.len() <= state.bytes_needed,
    ensures
        drip::<F>(state, bytes) == state.feed(bytes),
    decreases bytes.len(),
{
    if bytes.len() == 1 {
    } else {
        let fed = state.feed(bytes.take(1));
        assert(fed.advance::<F>() == fed);
        lemma_drip_feed::<F>(fed, bytes.drop_first());
        lemma_feed_in_pieces(state, bytes.take(1), bytes.drop_first());
        assert(bytes.take(1) + bytes.drop_first() =~= bytes);
    }
}

/// Drain on success: the buffer loses at its front exactly as many bytes
/// as the frames of the set have together, the cursor starts over, and
/// the message is emitted.
pub proof fn lemma_success_drains_frame_set<F: ParseFrame, M>(state: State, message: M)
    requires
        state.wf::<F>(),
        !state.stopped,
    ensures
        state.resolve(DecryptOutcome::Success(message)).buffer == state.buffer.skip(
            total(state.frames) as int,
        ),
        state.resolve(DecryptOutcome::Success(message)).buffer.len() == state.buffer.len() - total(
            state.frames,
        ),
        state.resolve(DecryptOutcome::Success(message)).bytes_needed == 0,
        state.resolve(DecryptOutcome::Success(message)).frames_needed == 1,
        emitted(state, DecryptOutcome::Success(message)) == Some(Ok::<M, Error>(message)),
{
}

/// Drain on a soft failure: the buffer loses at its front exactly the
/// bytes of the first frame of the set, one frame is looked for from then
/// on, and nothing is emitted.
pub proof fn lemma_soft_failure_drains_first_frame<F: ParseFrame, M>(state: State)
    requires
        state.wf::<F>(),
        !state.stopped,
        state.frames.len() > 0,
    ensures
        state.resolve(DecryptOutcome::<M>::SoftFailure).buffer == state.buffer.skip(
            state.frames[0] as int,
        ),
        state.resolve(DecryptOutcome::<M>::SoftFailure).buffer.len() == state.buffer.len()
            - state.frames[0],
        state.resolve(DecryptOutcome::<M>::SoftFailure).buffer.len() < state.buffer.len(),
        state.resolve(DecryptOutcome::<M>::SoftFailure).frames_needed == 1,
        emitted(state, DecryptOutcome::<M>::SoftFailure) is None,
{
    lemma_total_prefix(state.frames, 1);
    assert(state.frames.take(1).drop_last() =~= Seq::<usize>::empty());
}

/// A hard failure is emitted once and ends the stream: the engine is
/// stopped, and a stopped engine neither changes nor emits, whatever it is
/// told.
pub proof fn lemma_hard_failure_is_final<F: ParseFrame, M>(
    state: State,
    later: DecryptOutcome<M>,
    bytes: Seq<u8>,
)
    requires
        !state.stopped,
    ensures
        emitted(state, DecryptOutcome::<M>::HardFailure) == Some(
            Err::<M, Error>(Error::DecryptionFailed),
        ),
        state.resolve(DecryptOutcome::<M>::HardFailure).stopped,
        state.resolve(DecryptOutcome::<M>::HardFailure).buffer == state.buffer,
        ({
            let end = state.resolve(DecryptOutcome::<M>::HardFailure);
            &&& end.advance::<F>() == end
            &&& end.step() == Step::Stopped
            &&& end.resolve(later) == end
            &&& emitted(end, later) is None
            &&& end.feed(bytes).stopped
        }),
{
}

/// A message in two frames: where the buffer starts with two frames and
/// the decryption layer asks for one more frame after the first and
/// succeeds on both, nothing is emitted for the first frame alone, the
/// message is emitted once, and the buffer loses the bytes of both frames.
pub proof fn lemma_message_in_two_frames<F: ParseFrame, M>(
    state: State,
    hint: Option<usize>,
    message: M,
)
    requires
        state.wf::<F>(),
        !state.stopped,
        state.bytes_needed == 0,
        state.frames_needed == 1,
        scan::<F>(state.buffer, 2) is Complete,
        hint == Some(1usize) || hint is None,
    ensures
        ({
            let lens = scan::<F>(state.buffer, 2)->Complete_0;
            let one = state.advance::<F>();
            let more = one.resolve(DecryptOutcome::<M>::NeedsMore(hint));
            let two = more.advance::<F>();
            let end = two.resolve(DecryptOutcome::Success(message));
            &&& lens.len() == 2
            &&& one.step() == Step::Decrypt
            &&& one.frames == seq![lens[0]]
            &&& emitted(one, DecryptOutcome::<M>::NeedsMore(hint)) is None
            &&& more.buffer == state.buffer
            &&& more.frames_needed == 2
            &&& two.step() == Step::Decrypt
            &&& two.frames == lens
            &&& emitted(two, DecryptOutcome::Success(message)) == Some(Ok::<M, Error>(message))
            &&& end.buffer == state.buffer.skip(lens[0] + lens[1])
            &&& end.bytes_needed == 0
            &&& end.frames_needed == 1
        }),
{
    let buffer = state.buffer;
    let n = F::frame(buffer)->Ok_0;
    let rest = buffer.skip(n as int);
    assert(scan::<F>(rest, 0) == Scan::Complete(Seq::<usize>::empty()));
    let behind = scan::<F>(rest, 1);
    assert(behind is Complete);
    let m = F::frame(rest)->Ok_0;
    assert(scan::<F>(rest.skip(m as int), 0) == Scan::Complete(Seq::<usize>::empty()));
    assert(behind == Scan::Complete(seq![m] + Seq::<usize>::empty()));
    let lens = scan::<F>(buffer, 2)->Complete_0;
    assert(lens =~= seq![n, m]);
    assert(scan::<F>(buffer, 1) == Scan::Complete(seq![n] + Seq::<usize>::empty()));
    assert(seq![n] + Seq::<usize>::empty() =~= seq![n]);
    assert(total(seq![n, m]) == n + m) by {
        lemma_total_push(Seq::<usize>::empty(), n);
        lemma_total_push(seq![n], m);
        assert(Seq::<usize>::empty().push(n) =~= seq![n]);
        assert(seq![n].push(m) =~= seq![n, m]);
    }
}

} // verus!
