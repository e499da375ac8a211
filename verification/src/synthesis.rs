//! What a synthesiser is asked for: which voice, which words, which settings.

use vstd::prelude::*;
use vstd::string::*;

use crate::config;
use crate::config::{TtsPrecision, VoiceModel};
use crate::speech_text;
use crate::state;
use crate::state::{OverridesView, Real64, SpeechOverrides};
use crate::text;

verus! {

/// How VibeVoice Realtime is asked to read where a request says nothing.
pub const STYLE_PROMPT: &'static str =
    "Read like an experienced senior software engineer presenting technical prose to another engineer. Keep terminology crisp, punctuation deliberate, and code-adjacent words precise.";

/// The sampling temperature of VibeVoice Realtime: 0.15.
pub const REALTIME_TEMPERATURE: u64 = 0x3FC3333333333333;

/// The guidance scale of VibeVoice 1.5B where a request says nothing: 1.3.
pub const DEFAULT_CFG_SCALE: u64 = 0x3FF4CCCCCCCCCCCD;

/// The sampling temperature of VibeVoice 1.5B where a request says nothing: 0.0.
pub const DEFAULT_TEMPERATURE: u64 = 0;

// ---------------------------------------------------------------------------
// Voices
// ---------------------------------------------------------------------------

/// The first voice from `from` on whose name is a text, whatever the case.
pub open spec fn first_equal(voices: Seq<Seq<char>>, lower: Seq<char>, from: int) -> Option<int>
    decreases voices.len() - from,
{
    if from < 0 || from >= voices.len() {
        None
    } else if text::ascii_lower(voices[from]) == lower {
        Some(from)
    } else {
        first_equal(voices, lower, from + 1)
    }
}

/// The first voice from `from` on whose name holds a text, whatever the case.
pub open spec fn first_holding(voices: Seq<Seq<char>>, lower: Seq<char>, from: int) -> Option<int>
    decreases voices.len() - from,
{
    if from < 0 || from >= voices.len() {
        None
    } else if text::occurs_in(text::ascii_lower(voices[from]), lower) {
        Some(from)
    } else {
        first_holding(voices, lower, from + 1)
    }
}

/// The voice that a preset stands for: the one of that name, else the first whose name
/// holds it, else the first one.
pub open spec fn chosen_voice(voices: Seq<Seq<char>>, preset: Seq<char>) -> Option<Seq<char>> {
    let lower = text::ascii_lower(preset);
    let first = if voices.len() > 0 {
        Some(voices[0])
    } else {
        None
    };
    if preset.len() == 0 {
        first
    } else {
        match first_equal(voices, lower, 0) {
            Some(i) => Some(voices[i]),
            None => match first_holding(voices, lower, 0) {
                Some(i) => Some(voices[i]),
                None => first,
            },
        }
    }
}

/// The voice that the preset stands for.
pub fn resolve_voice(voices: &Vec<String>, preset: &str) -> (res: Option<String>)
    ensures
        res.deep_view() == chosen_voice(voices.deep_view(), preset@),
{
    let ghost views = voices.deep_view();
    if !preset.is_empty() {
        let lower = text::lower_ascii(preset);
        let mut i: usize = 0;
        while i < voices.len()
            invariant
                views == voices.deep_view(),
                lower@ == text::ascii_lower(preset@),
                first_equal(views, lower@, 0) == first_equal(views, lower@, i as int),
                preset@.len() > 0,
            decreases voices@.len() - i,
        {
            assert(views[i as int] == voices@[i as int]@);
            if text::same_text(text::lower_ascii(voices[i].as_str()).as_str(), lower.as_str()) {
                return Some(voices[i].clone());
            }
            i = i + 1;
        }
        let mut i: usize = 0;
        while i < voices.len()
            invariant
                views == voices.deep_view(),
                lower@ == text::ascii_lower(preset@),
                first_equal(views, lower@, 0) is None,
                first_holding(views, lower@, 0) == first_holding(views, lower@, i as int),
                preset@.len() > 0,
            decreases voices@.len() - i,
        {
            assert(views[i as int] == voices@[i as int]@);
            if text::contains_text(
                text::lower_ascii(voices[i].as_str()).as_str(),
                lower.as_str(),
            ) {
                return Some(voices[i].clone());
            }
            i = i + 1;
        }
    }
    if voices.len() > 0 {
        assert(views[0] == voices@[0]@);
        Some(voices[0].clone())
    } else {
        None
    }
}

pub const SENIOR_DEVELOPER: &'static str =
    "A calm speaker delivers technical prose with precise enunciation, measured pacing, and a close-mic studio sound. The voice is clear, direct, and confident, like an experienced software engineer explaining architecture to another engineer.";

pub const CLEAR_FEMALE: &'static str =
    "A female speaker delivers clear, natural speech at a moderate pace with a clean studio recording. The voice sounds articulate, balanced, and easy to understand.";

pub const CLEAR_MALE: &'static str =
    "A male speaker delivers clear, natural speech at a moderate pace with a clean studio recording. The voice sounds articulate, balanced, and easy to understand.";

pub const WARM_NARRATOR: &'static str =
    "A warm narrator delivers polished speech with steady pacing and a high-quality close recording. The voice is natural, smooth, and expressive without sounding theatrical.";

/// The voices of Parler-TTS.
pub open spec fn parler_voices() -> Seq<Seq<char>> {
    seq!["senior_developer"@, "clear_female"@, "clear_male"@, "warm_narrator"@]
}

/// The voices of Parler-TTS.
pub fn parler_voice_names() -> (res: Vec<String>)
    ensures
        res.deep_view() == parler_voices(),
{
    let mut names: Vec<String> = Vec::new();
    names.push("senior_developer".to_owned());
    names.push("clear_female".to_owned());
    names.push("clear_male".to_owned());
    names.push("warm_narrator".to_owned());
    assert(names.deep_view() =~= parler_voices());
    names
}

/// How a voice of Parler-TTS is described; one that it has not, or none, is described
/// as the first.
pub open spec fn voice_description(preset: Option<Seq<char>>) -> Seq<char> {
    match preset {
        Some(name) => if name == "senior_developer"@ {
            SENIOR_DEVELOPER@
        } else if name == "clear_female"@ {
            CLEAR_FEMALE@
        } else if name == "clear_male"@ {
            CLEAR_MALE@
        } else if name == "warm_narrator"@ {
            WARM_NARRATOR@
        } else {
            SENIOR_DEVELOPER@
        },
        None => SENIOR_DEVELOPER@,
    }
}

/// How the voice of Parler-TTS is described.
pub fn parler_voice_description(preset: Option<&str>) -> (res: &'static str)
    ensures
        res@ == voice_description(
            match preset {
                Some(name) => Some(name@),
                None => None,
            },
        ),
{
    match preset {
        Some(name) => {
            if text::same_text(name, "clear_female") {
                proof {
                    reveal_strlit("senior_developer");
                    reveal_strlit("clear_female");
                    assert("clear_female"@.len() != "senior_developer"@.len());
                }
                CLEAR_FEMALE
            } else if text::same_text(name, "clear_male") {
                proof {
                    reveal_strlit("senior_developer");
                    reveal_strlit("clear_male");
                    assert("clear_male"@.len() != "senior_developer"@.len());
                }
                CLEAR_MALE
            } else if text::same_text(name, "warm_narrator") {
                proof {
                    reveal_strlit("senior_developer");
                    reveal_strlit("warm_narrator");
                    assert("warm_narrator"@.len() != "senior_developer"@.len());
                }
                WARM_NARRATOR
            } else {
                SENIOR_DEVELOPER
            }
        },
        None => SENIOR_DEVELOPER,
    }
}

/// The description that Parler-TTS speaks by: that of the request or else that of the
/// voice, with the style of the request behind it.
pub open spec fn request_description(
    preset: Option<Seq<char>>,
    overrides: OverridesView,
) -> Seq<char> {
    let base = match overrides.description {
        Some(description) => description,
        None => voice_description(preset),
    };
    match overrides.style {
        Some(style) => base + " "@ + style,
        None => base,
    }
}

/// The description that Parler-TTS speaks by.
pub fn parler_request_description(preset: Option<&str>, overrides: &SpeechOverrides) -> (res:
    String)
    ensures
        res@ == request_description(
            match preset {
                Some(name) => Some(name@),
                None => None,
            },
            overrides@,
        ),
{
    let base = match &overrides.description {
        Some(description) => description.clone(),
        None => parler_voice_description(preset).to_owned(),
    };
    match &overrides.style {
        Some(style) => text::concat3(base.as_str(), " ", style.as_str()),
        None => base,
    }
}

// ---------------------------------------------------------------------------
// Requests
// ---------------------------------------------------------------------------

/// Where the voice that a request imitates comes from.
#[derive(Debug)]
pub enum VoiceSeed {
    /// From the voice of a preset.
    Embedding,
    /// From an audio file.
    AudioFile(String),
    /// It imitates none.
    Unset,
}

/// What a synthesiser is asked for.
#[derive(Debug)]
pub struct RequestPlan {
    pub text: String,
    pub language: String,
    pub instruct: Option<String>,
    pub temperature: Option<Real64>,
    pub cfg_scale: Option<Real64>,
    pub max_tokens: Option<usize>,
    pub seed: VoiceSeed,
    pub voice: Option<String>,
}

/// Where the voice that a request imitates comes from, as a mathematical value.
pub enum SeedView {
    Embedding,
    AudioFile(Seq<char>),
    Unset,
}

/// What a synthesiser is asked for, as a mathematical value.
pub struct RequestPlanView {
    pub text: Seq<char>,
    pub language: Seq<char>,
    pub instruct: Option<Seq<char>>,
    pub temperature: Option<Real64>,
    pub cfg_scale: Option<Real64>,
    pub max_tokens: Option<usize>,
    pub seed: SeedView,
    pub voice: Option<Seq<char>>,
}

impl View for RequestPlan {
    type V = RequestPlanView;

    open spec fn view(&self) -> RequestPlanView {
        RequestPlanView {
            text: self.text@,
            language: self.language@,
            instruct: self.instruct.deep_view(),
            temperature: self.temperature,
            cfg_scale: self.cfg_scale,
            max_tokens: self.max_tokens,
            seed: match self.seed {
                VoiceSeed::Embedding => SeedView::Embedding,
                VoiceSeed::AudioFile(path) => SeedView::AudioFile(path@),
                VoiceSeed::Unset => SeedView::Unset,
            },
            voice: self.voice.deep_view(),
        }
    }
}

/// The value that a request sets, or a default.
pub open spec fn or_bits(value: Option<Real64>, bits: u64) -> Real64 {
    match value {
        Some(found) => found,
        None => Real64 { bits },
    }
}

/// A request that asks for nothing but a text in English, in a voice.
pub open spec fn plain_request(spoken: Seq<char>, voice: Option<Seq<char>>) -> RequestPlanView {
    RequestPlanView {
        text: spoken,
        language: "en"@,
        instruct: None,
        temperature: None,
        cfg_scale: None,
        max_tokens: None,
        seed: SeedView::Unset,
        voice,
    }
}

/// What a synthesiser is asked for. `has_embedding` says whether the voice of a preset
/// is at hand.
pub open spec fn request_for(
    spoken: Seq<char>,
    model: VoiceModel,
    voice: Option<Seq<char>>,
    overrides: OverridesView,
    has_embedding: bool,
) -> RequestPlanView {
    let plain = plain_request(spoken, voice);
    match model {
        VoiceModel::VibeVoiceRealtime => RequestPlanView {
            instruct: Some(
                match overrides.style {
                    Some(style) => style,
                    None => STYLE_PROMPT@,
                },
            ),
            temperature: Some(Real64 { bits: REALTIME_TEMPERATURE }),
            ..plain
        },
        VoiceModel::VibeVoice => RequestPlanView {
            seed: if has_embedding {
                SeedView::Embedding
            } else {
                match overrides.reference_audio_path {
                    Some(path) => SeedView::AudioFile(path),
                    None => SeedView::Unset,
                }
            },
            cfg_scale: Some(or_bits(overrides.cfg_scale, DEFAULT_CFG_SCALE)),
            temperature: Some(or_bits(overrides.temperature, DEFAULT_TEMPERATURE)),
            max_tokens: Some(
                speech_text::effective_tokens(spoken, overrides.max_tokens) as usize,
            ),
            ..plain
        },
        VoiceModel::ParlerTts | VoiceModel::Kokoro => plain,
    }
}

fn real_or(value: Option<Real64>, bits: u64) -> (res: Real64)
    ensures
        res == or_bits(value, bits),
{
    match value {
        Some(found) => found,
        None => Real64 { bits },
    }
}

/// What the synthesiser is asked for.
pub fn build_request(
    spoken: &str,
    model: VoiceModel,
    voice: Option<String>,
    overrides: &SpeechOverrides,
    has_embedding: bool,
) -> (res: RequestPlan)
    ensures
        res@ == request_for(spoken@, model, voice.deep_view(), overrides@, has_embedding),
{
    let mut request = RequestPlan {
        text: spoken.to_owned(),
        language: "en".to_owned(),
        instruct: None,
        temperature: None,
        cfg_scale: None,
        max_tokens: None,
        seed: VoiceSeed::Unset,
        voice,
    };
    match model {
        VoiceModel::VibeVoiceRealtime => {
            request.instruct = Some(
                match &overrides.style {
                    Some(style) => style.clone(),
                    None => STYLE_PROMPT.to_owned(),
                },
            );
            request.temperature = Some(Real64 { bits: REALTIME_TEMPERATURE });
        },
        VoiceModel::VibeVoice => {
            let tokens: usize = speech_text::vibevoice_effective_max_tokens(
                spoken,
                overrides.max_tokens,
            );
            if has_embedding {
                request.seed = VoiceSeed::Embedding;
            } else if let Some(path) = &overrides.reference_audio_path {
                request.seed = VoiceSeed::AudioFile(path.clone());
            }
            request.cfg_scale = Some(real_or(overrides.cfg_scale, DEFAULT_CFG_SCALE));
            request.temperature = Some(real_or(overrides.temperature, DEFAULT_TEMPERATURE));
            request.max_tokens = Some(tokens);
        },
        VoiceModel::ParlerTts => {},
        VoiceModel::Kokoro => {},
    }
    request
}

/// Which preset's voice has to be at hand for a request.
#[derive(Debug)]
pub enum EmbeddingSource {
    ById(String),
    ByName(String),
    Unset,
}

/// Which preset's voice has to be at hand, as a mathematical value.
pub enum EmbeddingView {
    ById(Seq<char>),
    ByName(Seq<char>),
    Unset,
}

impl View for EmbeddingSource {
    type V = EmbeddingView;

    open spec fn view(&self) -> EmbeddingView {
        match *self {
            EmbeddingSource::ById(id) => EmbeddingView::ById(id@),
            EmbeddingSource::ByName(name) => EmbeddingView::ByName(name@),
            EmbeddingSource::Unset => EmbeddingView::Unset,
        }
    }
}

/// Which preset's voice has to be at hand for a request.
pub open spec fn embedding_for(overrides: OverridesView) -> EmbeddingView {
    match overrides.reference_preset_id {
        Some(id) => EmbeddingView::ById(id),
        None => match overrides.reference_preset_name {
            Some(name) => EmbeddingView::ByName(name),
            None => EmbeddingView::Unset,
        },
    }
}

/// What a loaded model is asked for.
#[derive(Debug)]
pub enum SynthesisCall {
    Request(RequestPlan),
    Parler { text: String, description: String },
}

/// What a loaded model is asked for, as a mathematical value.
pub enum CallView {
    Request(RequestPlanView),
    Parler { text: Seq<char>, description: Seq<char> },
}

impl View for SynthesisCall {
    type V = CallView;

    open spec fn view(&self) -> CallView {
        match *self {
            SynthesisCall::Request(request) => CallView::Request(request@),
            SynthesisCall::Parler { text: spoken, description } => CallView::Parler {
                text: spoken@,
                description: description@,
            },
        }
    }
}

/// How a text is synthesised with a loaded model.
#[derive(Debug)]
pub struct SynthesisPlan {
    pub voice: Option<String>,
    pub embedding: EmbeddingSource,
    pub call: SynthesisCall,
}

/// The voice that a request is spoken in: its own choice, or else that of the settings.
pub open spec fn voice_for(
    voices: Seq<Seq<char>>,
    voice_preset: Seq<char>,
    overrides: OverridesView,
) -> Option<Seq<char>> {
    chosen_voice(
        voices,
        match overrides.voice_preset {
            Some(preset) => preset,
            None => voice_preset,
        },
    )
}

/// How the text is synthesised with a loaded model that has these voices.
pub fn synthesize_with_loaded(
    spoken_text: &str,
    voice_model: VoiceModel,
    voice_preset: &str,
    overrides: &SpeechOverrides,
    voices: &Vec<String>,
) -> (res: SynthesisPlan)
    ensures
        ({
            let voice = voice_for(voices.deep_view(), voice_preset@, overrides@);
            &&& res.voice.deep_view() == voice
            &&& res.embedding@ == embedding_for(overrides@)
            &&& res.call@ == if voice_model == VoiceModel::ParlerTts {
                CallView::Parler {
                    text: spoken_text@,
                    description: request_description(voice, overrides@),
                }
            } else {
                CallView::Request(
                    request_for(
                        spoken_text@,
                        voice_model,
                        voice,
                        overrides@,
                        embedding_for(overrides@) !is Unset,
                    ),
                )
            }
        }),
{
    let voice = match &overrides.voice_preset {
        Some(preset) => resolve_voice(voices, preset.as_str()),
        None => resolve_voice(voices, voice_preset),
    };
    let embedding = match &overrides.reference_preset_id {
        Some(id) => EmbeddingSource::ById(id.clone()),
        None => match &overrides.reference_preset_name {
            Some(name) => EmbeddingSource::ByName(name.clone()),
            None => EmbeddingSource::Unset,
        },
    };
    let has_embedding = match &embedding {
        EmbeddingSource::Unset => false,
        _ => true,
    };
    let call = if voice_model == VoiceModel::ParlerTts {
        let description = match &voice {
            Some(name) => parler_request_description(Some(name.as_str()), overrides),
            None => parler_request_description(None, overrides),
        };
        SynthesisCall::Parler { text: spoken_text.to_owned(), description }
    } else {
        SynthesisCall::Request(
            build_request(
                spoken_text,
                voice_model,
                state::clone_text(&voice),
                overrides,
                has_embedding,
            ),
        )
    };
    SynthesisPlan { voice, embedding, call }
}

/// How a failure to synthesise is told.
pub fn synthesis_context(voice_model: VoiceModel) -> (res: String)
    ensures
        res@ == "synthesize speech with "@ + config::model_name(voice_model),
{
    text::concat2("synthesize speech with ", voice_model.display_name())
}

// ---------------------------------------------------------------------------
// The way to the audio
// ---------------------------------------------------------------------------

/// Why a text was not synthesised.
#[derive(Debug)]
pub enum SynthesisFailure {
    /// The request could not be made.
    Prepare(String),
    /// The model failed.
    Runtime(String),
}

impl SynthesisFailure {
    /// Whether it was the model that failed.
    pub fn is_runtime(&self) -> (res: bool)
        ensures
            res == (*self is Runtime),
    {
        match self {
            SynthesisFailure::Runtime(_) => true,
            SynthesisFailure::Prepare(_) => false,
        }
    }

    /// What went wrong.
    pub fn into_error(self) -> (res: String)
        ensures
            match self {
                SynthesisFailure::Prepare(error) => res == error,
                SynthesisFailure::Runtime(error) => res == error,
            },
    {
        match self {
            SynthesisFailure::Prepare(error) => error,
            SynthesisFailure::Runtime(error) => error,
        }
    }
}

/// Which way a text takes to its audio.
#[derive(Debug)]
pub struct SynthesisRoute {
    pub spoken_text: String,
    pub overrides: SpeechOverrides,
    /// Whether the worker of VibeVoice 1.5B is asked, and not a loaded model.
    pub through_worker: bool,
}

/// Which way the text takes to its audio.
pub fn synthesize(spoken: &str, voice_model: VoiceModel, overrides: &SpeechOverrides) -> (res:
    SynthesisRoute)
    ensures
        res.spoken_text@ == speech_text::spoken(spoken@),
        res.overrides@ == state::normalized_overrides(overrides@),
        res.through_worker == (voice_model == VoiceModel::VibeVoice),
{
    SynthesisRoute {
        spoken_text: speech_text::normalize_technical_text(spoken),
        overrides: overrides.clone().normalized(),
        through_worker: voice_model == VoiceModel::VibeVoice,
    }
}

/// Whether a failed text is tried once more on the processor: where VibeVoice 1.5B
/// failed on the graphics device at automatic precision.
pub open spec fn retries_on_cpu(
    model: VoiceModel,
    precision: TtsPrecision,
    initial_runtime: Seq<char>,
    failure: SynthesisFailure,
) -> bool {
    model == VoiceModel::VibeVoice && precision == TtsPrecision::Auto && text::occurs_at(
        initial_runtime,
        "metal"@,
        0,
    ) && failure is Runtime
}

/// Whether the failed text is tried once more on the processor.
pub fn falls_back_to_cpu(
    voice_model: VoiceModel,
    precision: TtsPrecision,
    initial_runtime: &str,
    failure: &SynthesisFailure,
) -> (res: bool)
    ensures
        res == retries_on_cpu(voice_model, precision, initial_runtime@, *failure),
{
    voice_model == VoiceModel::VibeVoice && precision == TtsPrecision::Auto && text::begins_with(
        initial_runtime,
        "metal",
    ) && failure.is_runtime()
}

// ---------------------------------------------------------------------------
// Laws
// ---------------------------------------------------------------------------

proof fn lemma_first_equal(voices: Seq<Seq<char>>, lower: Seq<char>, from: int, at: int)
    requires
        0 <= from <= at < voices.len(),
        text::ascii_lower(voices[at]) == lower,
    ensures
        first_equal(voices, lower, from) matches Some(i) && from <= i <= at && text::ascii_lower(
            voices[i],
        ) == lower,
    decreases at - from,
{
    if text::ascii_lower(voices[from]) != lower {
        lemma_first_equal(voices, lower, from + 1, at);
    }
}

proof fn lemma_first_in_range(voices: Seq<Seq<char>>, lower: Seq<char>, from: int)
    requires
        0 <= from <= voices.len(),
    ensures
        first_equal(voices, lower, from) matches Some(i) ==> 0 <= i < voices.len(),
        first_holding(voices, lower, from) matches Some(i) ==> 0 <= i < voices.len(),
    decreases voices.len() - from,
{
    if from < voices.len() {
        lemma_first_in_range(voices, lower, from + 1);
    }
}

/// Where a model has any voice, one of its own voices is chosen.
pub proof fn law_chosen_voice_is_one_of_the_voices(voices: Seq<Seq<char>>, preset: Seq<char>)
    ensures
        match chosen_voice(voices, preset) {
            Some(voice) => voices.contains(voice),
            None => voices.len() == 0,
        },
{
    lemma_first_in_range(voices, text::ascii_lower(preset), 0);
    if voices.len() > 0 {
        assert(voices.contains(voices[0]));
    }
}

/// The name of a voice, in whatever case, chooses a voice of that name.
pub proof fn law_a_voice_is_chosen_by_its_name(voices: Seq<Seq<char>>, at: int, preset: Seq<char>)
    requires
        0 <= at < voices.len(),
        preset.len() > 0,
        text::ascii_lower(preset) == text::ascii_lower(voices[at]),
    ensures
        chosen_voice(voices, preset) matches Some(voice) && text::ascii_lower(voice)
            == text::ascii_lower(preset),
{
    lemma_first_equal(voices, text::ascii_lower(preset), 0, at);
}

/// Only a text for VibeVoice 1.5B is ever tried again on the processor.
pub proof fn law_only_vibevoice_is_retried(
    model: VoiceModel,
    precision: TtsPrecision,
    initial_runtime: Seq<char>,
    failure: SynthesisFailure,
)
    requires
        model != VoiceModel::VibeVoice,
    ensures
        !retries_on_cpu(model, precision, initial_runtime, failure),
{
}

} // verus!
