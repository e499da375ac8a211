//! Which audio is played, and how the audio of a request is put together.

use vstd::prelude::*;
use vstd::string::*;

use crate::audio_laws;
use crate::config::VoiceModel;
use crate::instructions;
use crate::queue;
use crate::text;

verus! {

/// The form of a piece of audio.
#[derive(Debug, Clone, Copy, PartialEq, Eq, Structural)]
pub struct AudioFormat {
    pub sample_rate: u32,
    pub channels: u16,
}

/// Why a piece of audio cannot be played.
#[derive(Debug, Clone, Copy, PartialEq, Eq, Structural)]
pub enum AudioError {
    ZeroChannels,
    ZeroSampleRate,
}

/// The message of an audio error.
pub open spec fn audio_message(error: AudioError) -> Seq<char> {
    match error {
        AudioError::ZeroChannels => "audio had zero channels"@,
        AudioError::ZeroSampleRate => "audio had zero sample rate"@,
    }
}

impl AudioError {
    /// The message of the error.
    pub fn message(self) -> (res: &'static str)
        ensures
            res@ == audio_message(self),
    {
        match self {
            AudioError::ZeroChannels => "audio had zero channels",
            AudioError::ZeroSampleRate => "audio had zero sample rate",
        }
    }
}

/// Why audio of a form cannot be played, if it cannot.
pub open spec fn format_error(format: AudioFormat) -> Option<AudioError> {
    if format.channels == 0 {
        Some(AudioError::ZeroChannels)
    } else if format.sample_rate == 0 {
        Some(AudioError::ZeroSampleRate)
    } else {
        None
    }
}

/// Which request the player works for. The generation counts, modulo 2^64, how
/// often playback was started afresh or stopped; a job is the generation in which
/// it began.
#[derive(Debug)]
pub struct PlaybackController {
    pub generation: u64,
}

impl PlaybackController {
    /// A player that has played nothing.
    pub fn new() -> (res: PlaybackController)
        ensures
            res.generation == 0,
    {
        PlaybackController { generation: 0 }
    }

    /// Starts a new job, for which the player is to be emptied and set going.
    pub fn begin_job(&mut self) -> (res: u64)
        ensures
            final(self).generation == queue::next_count(old(self).generation),
            res == final(self).generation,
    {
        self.generation = queue::count_up(self.generation);
        self.generation
    }

    /// Whether a job is the one that the player works for.
    pub fn is_current_job(&self, job: u64) -> (res: bool)
        ensures
            res == (self.generation == job),
    {
        self.generation == job
    }

    /// Whether audio of a job is to be put behind what is played: not if another
    /// job has taken its place.
    pub fn append_audio(&self, job: u64, format: AudioFormat) -> (res: Result<bool, AudioError>)
        ensures
            if self.generation != job {
                res == Ok::<bool, AudioError>(false)
            } else {
                match format_error(format) {
                    Some(error) => res == Err::<bool, AudioError>(error),
                    None => res == Ok::<bool, AudioError>(true),
                }
            },
    {
        if self.generation != job {
            return Ok(false);
        }
        match Self::append_audio_unchecked(format) {
            Ok(_) => Ok(true),
            Err(error) => Err(error),
        }
    }

    /// Whether audio can be put behind what is played, whatever the job.
    pub fn append_audio_unchecked(format: AudioFormat) -> (res: Result<(), AudioError>)
        ensures
            match format_error(format) {
                Some(error) => res == Err::<(), AudioError>(error),
                None => res is Ok,
            },
    {
        if format.channels == 0 {
            return Err(AudioError::ZeroChannels);
        }
        if format.sample_rate == 0 {
            return Err(AudioError::ZeroSampleRate);
        }
        Ok(())
    }

    /// Ends the current job, for which the player is to be emptied.
    pub fn stop(&mut self)
        ensures
            final(self).generation == queue::next_count(old(self).generation),
    {
        self.generation = queue::count_up(self.generation);
    }

    /// Whether the player is to be paused now, given whether it is paused.
    pub fn toggle_pause(&self, is_paused: bool) -> (res: bool)
        ensures
            res == !is_paused,
    {
        !is_paused
    }
}

/// A piece of audio, over any type of sample.
#[derive(Debug)]
pub struct AudioChunk<S> {
    pub samples: Vec<S>,
    pub format: AudioFormat,
}

/// Why pieces of audio cannot be joined.
#[derive(Debug, Clone, Copy, PartialEq, Eq, Structural)]
pub enum CombineError {
    NoAudio,
    MismatchedFormats,
}

/// The message of a joining error.
pub open spec fn combine_message(error: CombineError) -> Seq<char> {
    match error {
        CombineError::NoAudio => "no synthesized audio was available to save"@,
        CombineError::MismatchedFormats => {
            "cannot combine synthesized chunks with mismatched audio formats"@
        },
    }
}

impl CombineError {
    /// The message of the error.
    pub fn message(self) -> (res: &'static str)
        ensures
            res@ == combine_message(self),
    {
        match self {
            CombineError::NoAudio => "no synthesized audio was available to save",
            CombineError::MismatchedFormats => {
                "cannot combine synthesized chunks with mismatched audio formats"
            },
        }
    }
}

/// The samples of the first `n` pieces, one after another.
pub open spec fn joined_samples<S>(chunks: Seq<AudioChunk<S>>, n: int) -> Seq<S>
    decreases n,
{
    if n <= 0 {
        Seq::empty()
    } else {
        joined_samples(chunks, n - 1) + chunks[n - 1].samples@
    }
}

/// Whether all pieces have the form of the first.
pub open spec fn same_formats<S>(chunks: Seq<AudioChunk<S>>) -> bool {
    forall|i: int| 0 <= i < chunks.len() ==> (#[trigger] chunks[i]).format == chunks[0].format
}

/// The samples of all pieces, one after another, as one piece of one channel.
pub fn combine_audio_chunks<S: Copy>(chunks: &Vec<AudioChunk<S>>) -> (res: Result<
    AudioChunk<S>,
    CombineError,
>)
    ensures
        match res {
            Ok(combined) => {
                &&& chunks@.len() > 0
                &&& same_formats(chunks@)
                &&& combined.samples@ == joined_samples(chunks@, chunks@.len() as int)
                &&& combined.samples@ == chunks@.map_values(
                    |chunk: AudioChunk<S>| chunk.samples@,
                ).flatten()
                &&& combined.format.sample_rate == chunks@[0].format.sample_rate
                &&& combined.format.channels == 1
            },
            Err(CombineError::NoAudio) => chunks@.len() == 0,
            Err(CombineError::MismatchedFormats) => chunks@.len() > 0 && !same_formats(chunks@),
        },
{
    if chunks.len() == 0 {
        return Err(CombineError::NoAudio);
    }
    let first = chunks[0].format;
    let mut samples: Vec<S> = Vec::new();
    let mut i: usize = 0;
    while i < chunks.len()
        invariant
            i <= chunks@.len(),
            chunks@.len() > 0,
            first == chunks@[0].format,
            forall|j: int| 0 <= j < i ==> (#[trigger] chunks@[j]).format == first,
            samples@ == joined_samples(chunks@, i as int),
        decreases chunks@.len() - i,
    {
        let chunk = &chunks[i];
        if chunk.format.sample_rate != first.sample_rate || chunk.format.channels
            != first.channels {
            assert(chunks@[i as int].format != chunks@[0].format);
            return Err(CombineError::MismatchedFormats);
        }
        let mut j: usize = 0;
        while j < chunk.samples.len()
            invariant
                j <= chunk.samples@.len(),
                samples@ == joined_samples(chunks@, i as int) + chunk.samples@.take(j as int),
            decreases chunk.samples@.len() - j,
        {
            samples.push(chunk.samples[j]);
            assert(chunk.samples@.take(j + 1) =~= chunk.samples@.take(j as int).push(
                chunk.samples@[j as int],
            ));
            j = j + 1;
        }
        assert(chunk.samples@.take(j as int) =~= chunk.samples@);
        i = i + 1;
    }
    proof {
        audio_laws::law_no_sample_is_lost(chunks@);
    }
    let format = AudioFormat { sample_rate: first.sample_rate, channels: 1 };
    Ok(AudioChunk { samples, format })
}

/// The directory that audio is saved in where a request names none.
pub open spec fn default_output_dir(home: Option<Seq<char>>) -> Seq<char> {
    text::joined_path(
        match home {
            Some(dir) => dir,
            None => "."@,
        },
        "Downloads"@,
    )
}

/// The directory that audio is saved in where a request names none.
pub fn default_audio_output_dir(home: Option<&str>) -> (res: String)
    ensures
        res@ == default_output_dir(
            match home {
                Some(dir) => Some(dir@),
                None => None,
            },
        ),
{
    match home {
        Some(dir) => text::join_path(dir, "Downloads"),
        None => text::join_path(".", "Downloads"),
    }
}

/// The name of the file that the audio of a request is saved in.
pub open spec fn output_name(model: VoiceModel, timestamp: u128) -> Seq<char> {
    "devvoice-"@ + instructions::slug(model) + "-"@ + text::decimal(timestamp as nat) + ".wav"@
}

/// The directory and the file that the audio of a request is saved in.
pub fn output_location(
    model: VoiceModel,
    output_dir: Option<&str>,
    home: Option<&str>,
    timestamp: u128,
) -> (res: (String, String))
    ensures
        res.0@ == match output_dir {
            Some(dir) => dir@,
            None => default_output_dir(
                match home {
                    Some(dir) => Some(dir@),
                    None => None,
                },
            ),
        },
        res.1@ == text::joined_path(res.0@, output_name(model, timestamp)),
{
    let dir = match output_dir {
        Some(dir) => dir.to_owned(),
        None => default_audio_output_dir(home),
    };
    let stamp = text::decimal_text(timestamp);
    let prefix = text::concat3("devvoice-", instructions::model_slug(model), "-");
    let name = text::concat3(prefix.as_str(), stamp.as_str(), ".wav");
    let path = text::join_path(dir.as_str(), name.as_str());
    (dir, path)
}

} // verus!
