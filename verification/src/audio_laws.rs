//! What holds of audio that is put together from pieces.

use vstd::prelude::*;

use crate::playback;
use crate::playback::{AudioChunk, AudioError, AudioFormat};

verus! {

/// The samples of all pieces follow one another, whole and in order.
pub proof fn law_no_sample_is_lost<S>(chunks: Seq<AudioChunk<S>>)
    ensures
        playback::joined_samples(chunks, chunks.len() as int) == chunks.map_values(
            |chunk: AudioChunk<S>| chunk.samples@,
        ).flatten(),
    decreases chunks.len(),
{
    let parts = chunks.map_values(|chunk: AudioChunk<S>| chunk.samples@);
    if chunks.len() > 0 {
        let fewer = chunks.drop_last();
        let front = fewer.map_values(|chunk: AudioChunk<S>| chunk.samples@);
        law_no_sample_is_lost(fewer);
        lemma_same_start(chunks, fewer, fewer.len() as int);
        assert(parts =~= front.push(chunks.last().samples@));
        front.lemma_flatten_push(chunks.last().samples@);
    }
}

proof fn lemma_same_start<S>(chunks: Seq<AudioChunk<S>>, others: Seq<AudioChunk<S>>, n: int)
    requires
        n <= chunks.len(),
        n <= others.len(),
        forall|i: int| 0 <= i < n ==> #[trigger] chunks[i] == others[i],
    ensures
        playback::joined_samples(chunks, n) == playback::joined_samples(others, n),
    decreases n,
{
    if n > 0 {
        lemma_same_start(chunks, others, n - 1);
        assert(chunks[n - 1] == others[n - 1]);
    }
}

/// The audio has as many samples as all pieces together.
pub proof fn law_audio_is_as_long_as_its_pieces<S>(chunks: Seq<AudioChunk<S>>)
    ensures
        playback::joined_samples(chunks, chunks.len() as int).len() == chunks.fold_left(
            0int,
            |sum: int, chunk: AudioChunk<S>| sum + chunk.samples@.len(),
        ),
    decreases chunks.len(),
{
    if chunks.len() > 0 {
        law_audio_is_as_long_as_its_pieces(chunks.drop_last());
        lemma_same_start(chunks, chunks.drop_last(), chunks.len() - 1);
    }
}

/// Sample `j` of piece `k` stands behind the samples of the pieces before `k` and the
/// first `j` of its own.
pub proof fn law_every_sample_has_its_place<S>(chunks: Seq<AudioChunk<S>>, k: int, j: int)
    requires
        0 <= k < chunks.len(),
        0 <= j < chunks[k].samples@.len(),
    ensures
        ({
            let all = playback::joined_samples(chunks, chunks.len() as int);
            let start = chunks.subrange(0, k).fold_left(
                0int,
                |sum: int, chunk: AudioChunk<S>| sum + chunk.samples@.len(),
            );
            &&& 0 <= start + j < all.len()
            &&& all[start + j] == chunks[k].samples@[j]
        }),
{
    let before = chunks.subrange(0, k);
    law_audio_is_as_long_as_its_pieces(before);
    lemma_same_start(chunks, before, k);
    lemma_longer(chunks, k, chunks.len() as int, j);
}

proof fn lemma_longer<S>(chunks: Seq<AudioChunk<S>>, k: int, n: int, j: int)
    requires
        0 <= k < n <= chunks.len(),
        0 <= j < chunks[k].samples@.len(),
    ensures
        ({
            let all = playback::joined_samples(chunks, n);
            let start = playback::joined_samples(chunks, k).len();
            start + j < all.len() && all[start + j] == chunks[k].samples@[j]
        }),
    decreases n,
{
    if n > k + 1 {
        lemma_longer(chunks, k, n - 1, j);
    }
}

/// Pieces can be joined exactly if they all have the same rate and the same channels.
pub proof fn law_which_pieces_fit<S>(chunks: Seq<AudioChunk<S>>)
    ensures
        playback::same_formats(chunks) <==> forall|i: int, j: int|
            #![trigger chunks[i], chunks[j]]
            0 <= i < chunks.len() && 0 <= j < chunks.len() ==> chunks[i].format.sample_rate
                == chunks[j].format.sample_rate && chunks[i].format.channels
                == chunks[j].format.channels,
{
    if forall|i: int, j: int|
        #![trigger chunks[i], chunks[j]]
        0 <= i < chunks.len() && 0 <= j < chunks.len() ==> chunks[i].format.sample_rate
            == chunks[j].format.sample_rate && chunks[i].format.channels
            == chunks[j].format.channels {
        assert forall|i: int| 0 <= i < chunks.len() implies (#[trigger] chunks[i]).format
            == chunks[0].format by {
            assert(chunks[i].format.sample_rate == chunks[0].format.sample_rate);
        }
    }
}

/// Audio can be played exactly if it has channels and a rate; of what is wrong with it the
/// channels are named first.
pub proof fn law_which_audio_can_be_played(format: AudioFormat)
    ensures
        format.channels == 0 ==> playback::format_error(format) == Some(AudioError::ZeroChannels),
        format.channels > 0 && format.sample_rate == 0 ==> playback::format_error(format) == Some(
            AudioError::ZeroSampleRate,
        ),
        format.channels > 0 && format.sample_rate > 0 ==> playback::format_error(format) is None,
{
}

} // verus!
