//! The parts of recording that do not depend on the sound device: when a
//! recording counts as silent, and how the captured samples are cut into
//! chunks for the speech-to-text stream.

use vstd::prelude::*;

verus! {

broadcast use vstd::seq_lib::group_seq_properties;

/// How long, in nanoseconds, a new recording is never treated as silent.
pub const RECORDING_GRACE_NANOS: u128 = 3_000_000_000u128;

/// Whether a recording counts as silent: not within the first three seconds
/// of the recording, and otherwise once the time since the last sound reaches
/// the configured silence duration. Without a recording start time only the
/// second test applies.
pub open spec fn silence_reached(
    recording_elapsed: Option<u128>,
    since_last_sound: u128,
    silence_duration: u128,
) -> bool {
    match recording_elapsed {
        Some(e) => e >= RECORDING_GRACE_NANOS && since_last_sound >= silence_duration,
        None => since_last_sound >= silence_duration,
    }
}

/// Decides whether recording should stop for silence; all times are in
/// nanoseconds.
pub fn is_silent_after(
    recording_elapsed: Option<u128>,
    since_last_sound: u128,
    silence_duration: u128,
) -> (r: bool)
    ensures
        r == silence_reached(recording_elapsed, since_last_sound, silence_duration),
{
    if let Some(elapsed) = recording_elapsed {
        if elapsed < RECORDING_GRACE_NANOS {
            return false;
        }
    }
    since_last_sound >= silence_duration
}

/// Once a recording is at least three seconds old, it counts as silent
/// exactly when the time since the last sound has reached the configured
/// silence duration, whatever that duration is: a shorter silence never stops
/// it, a long enough one always does.
pub proof fn law_silence_threshold_after_grace(
    recording_elapsed: u128,
    since_last_sound: u128,
    silence_duration: u128,
)
    requires
        recording_elapsed >= 3_000_000_000,
    ensures
        silence_reached(Some(recording_elapsed), since_last_sound, silence_duration) <==> (
        since_last_sound >= silence_duration),
{
}

/// During its first three seconds a recording never counts as silent, however
/// long the silence.
pub proof fn law_no_silence_during_grace(
    recording_elapsed: u128,
    since_last_sound: u128,
    silence_duration: u128,
)
    requires
        recording_elapsed < 3_000_000_000,
    ensures
        !silence_reached(Some(recording_elapsed), since_last_sound, silence_duration),
{
}

/// Without a recording start time, the silence duration alone decides.
pub proof fn law_silence_threshold_without_start(since_last_sound: u128, silence_duration: u128)
    ensures
        silence_reached(None, since_last_sound, silence_duration) <==> (since_last_sound
            >= silence_duration),
{
}

/// Collects samples and hands them out in chunks: as soon as the collected
/// samples reach `chunk_size`, all of them leave as one chunk.
pub struct ChunkBuffer<T> {
    pending: Vec<T>,
    chunk_size: usize,
}

/// The length of every chunk that a buffer with this `chunk_size` hands out
/// (a zero size hands out every sample on its own).
pub open spec fn effective_chunk_len(chunk_size: usize) -> nat {
    if chunk_size == 0 {
        1
    } else {
        chunk_size as nat
    }
}

impl<T: Copy> ChunkBuffer<T> {
    /// The samples collected and not yet handed out.
    pub closed spec fn pending(&self) -> Seq<T> {
        self.pending@
    }

    /// The size at which a chunk is handed out.
    pub closed spec fn size(&self) -> usize {
        self.chunk_size
    }

    /// Fewer samples are pending than make a chunk.
    pub open spec fn wf(&self) -> bool {
        self.pending().len() < effective_chunk_len(self.size())
    }

    /// An empty buffer handing out chunks of `chunk_size` samples.
    pub fn new(chunk_size: usize) -> (r: Self)
        ensures
            r.wf(),
            r.pending().len() < effective_chunk_len(r.size()),
            r.pending() == Seq::<T>::empty(),
            r.size() == chunk_size,
    {
        ChunkBuffer { pending: Vec::new(), chunk_size }
    }

    /// Adds one sample; returns the chunk that it completes, if any.
    pub fn push(&mut self, sample: T) -> (r: Option<Vec<T>>)
        requires
            old(self).wf(),
        ensures
            final(self).wf(),
            final(self).pending().len() < effective_chunk_len(final(self).size()),
            final(self).size() == old(self).size(),
            match r {
                Some(chunk) => chunk@ == old(self).pending().push(sample)
                    && chunk@.len() == effective_chunk_len(old(self).size())
                    && final(self).pending() == Seq::<T>::empty(),
                None => final(self).pending() == old(self).pending().push(sample),
            },
    {
        self.pending.push(sample);
        if self.pending.len() >= self.chunk_size {
            let mut chunk: Vec<T> = Vec::new();
            std::mem::swap(&mut chunk, &mut self.pending);
            Some(chunk)
        } else {
            None
        }
    }

    /// Adds `samples` in order; returns the chunks that they complete, in
    /// order. Nothing is lost or reordered: the chunks followed by what is
    /// pending afterwards are what was pending before followed by `samples`,
    /// and every chunk has the full chunk length.
    pub fn push_all(&mut self, samples: &[T]) -> (r: Vec<Vec<T>>)
        requires
            old(self).wf(),
        ensures
            final(self).wf(),
            final(self).pending().len() < effective_chunk_len(final(self).size()),
            final(self).size() == old(self).size(),
            chunks_view(r@).flatten() + final(self).pending() == old(self).pending() + samples@,
            forall|i: int|
                0 <= i < r.len() ==> (#[trigger] r[i])@.len() == effective_chunk_len(
                    old(self).size(),
                ),
    {
        let mut chunks: Vec<Vec<T>> = Vec::new();
        let mut i: usize = 0;
        while i < samples.len()
            invariant
                self.wf(),
                self.size() == old(self).size(),
                i <= samples.len(),
                chunks_view(chunks@).flatten() + self.pending() == old(self).pending()
                    + samples@.subrange(0, i as int),
                forall|k: int|
                    0 <= k < chunks.len() ==> (#[trigger] chunks[k])@.len() == effective_chunk_len(
                        old(self).size(),
                    ),
            decreases samples.len() - i,
        {
            let ghost before = chunks_view(chunks@);
            let ghost pending_before = self.pending();
            assert(samples@.subrange(0, i + 1) =~= samples@.subrange(0, i as int).push(samples@[i as int]));
            match self.push(samples[i]) {
                Some(chunk) => {
                    let ghost c = chunk@;
                    chunks.push(chunk);
                    assert(chunks_view(chunks@) =~= before.push(c));
                    proof {
                        before.lemma_flatten_push(c);
                    }
                    assert(c + Seq::<T>::empty() =~= c);
                    assert(before.flatten() + pending_before.push(samples@[i as int])
                        =~= (before.flatten() + pending_before).push(samples@[i as int]));
                },
                None => {
                    assert(before.flatten() + pending_before.push(samples@[i as int])
                        =~= (before.flatten() + pending_before).push(samples@[i as int]));
                },
            }
            i = i + 1;
        }
        assert(samples@.subrange(0, samples.len() as int) =~= samples@);
        chunks
    }
}

/// The contents of a sequence of chunks.
pub open spec fn chunks_view<T>(chunks: Seq<Vec<T>>) -> Seq<Seq<T>> {
    chunks.map_values(|c: Vec<T>| c@)
}

} // verus!
