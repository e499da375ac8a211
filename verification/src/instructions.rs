//! What a request may set for each model, and how that is described to users.

use vstd::prelude::*;
use vstd::string::*;

use crate::config::VoiceModel;
use crate::state::{
    AttributeView, InstructionsView, ModelInstructionAttribute, ModelInstructions, OverridesView,
    SpeechOverrides,
};
use crate::text;

verus! {

// ---------------------------------------------------------------------------
// Validation
// ---------------------------------------------------------------------------

/// The parameters that a request can set.
#[derive(Debug, Clone, Copy, PartialEq, Eq, Structural)]
pub enum Parameter {
    VoicePreset,
    Style,
    Description,
    ReferenceAudioPath,
    ReferencePresetId,
    ReferencePresetName,
    CfgScale,
    Temperature,
    MaxTokens,
    ChunkSize,
    SaveAudio,
    OutputDir,
}

/// The name of a parameter in a query.
pub open spec fn parameter_name(parameter: Parameter) -> Seq<char> {
    match parameter {
        Parameter::VoicePreset => "voice_preset"@,
        Parameter::Style => "style"@,
        Parameter::Description => "description"@,
        Parameter::ReferenceAudioPath => "reference_audio_path"@,
        Parameter::ReferencePresetId => "reference_preset_id"@,
        Parameter::ReferencePresetName => "reference_preset_name"@,
        Parameter::CfgScale => "cfg_scale"@,
        Parameter::Temperature => "temperature"@,
        Parameter::MaxTokens => "max_tokens"@,
        Parameter::ChunkSize => "chunk_size"@,
        Parameter::SaveAudio => "save_audio"@,
        Parameter::OutputDir => "output_dir"@,
    }
}

/// Whether a request sets a parameter.
pub open spec fn is_set(overrides: OverridesView, parameter: Parameter) -> bool {
    match parameter {
        Parameter::VoicePreset => overrides.voice_preset is Some,
        Parameter::Style => overrides.style is Some,
        Parameter::Description => overrides.description is Some,
        Parameter::ReferenceAudioPath => overrides.reference_audio_path is Some,
        Parameter::ReferencePresetId => overrides.reference_preset_id is Some,
        Parameter::ReferencePresetName => overrides.reference_preset_name is Some,
        Parameter::CfgScale => overrides.cfg_scale is Some,
        Parameter::Temperature => overrides.temperature is Some,
        Parameter::MaxTokens => overrides.max_tokens is Some,
        Parameter::ChunkSize => overrides.chunk_size is Some,
        Parameter::SaveAudio => overrides.save_audio is Some,
        Parameter::OutputDir => overrides.output_dir is Some,
    }
}

/// Whether a model takes a parameter: chunking and saving concern every model,
/// the others only the models named here.
pub open spec fn supports(model: VoiceModel, parameter: Parameter) -> bool {
    match parameter {
        Parameter::VoicePreset => model != VoiceModel::VibeVoice,
        Parameter::Style => model == VoiceModel::VibeVoiceRealtime || model
            == VoiceModel::ParlerTts,
        Parameter::Description => model == VoiceModel::ParlerTts,
        Parameter::ReferenceAudioPath
        | Parameter::ReferencePresetId
        | Parameter::ReferencePresetName
        | Parameter::CfgScale
        | Parameter::Temperature
        | Parameter::MaxTokens => model == VoiceModel::VibeVoice,
        Parameter::ChunkSize | Parameter::SaveAudio | Parameter::OutputDir => true,
    }
}

/// Whether a model takes everything that a request sets.
pub open spec fn all_supported(model: VoiceModel, overrides: OverridesView) -> bool {
    forall|parameter: Parameter| #[trigger]
        is_set(overrides, parameter) ==> supports(model, parameter)
}

/// How many of the ways to name a reference voice a request uses.
pub open spec fn reference_count(overrides: OverridesView) -> nat {
    let path: nat = if overrides.reference_audio_path is Some { 1 } else { 0 };
    let id: nat = if overrides.reference_preset_id is Some { 1 } else { 0 };
    let name: nat = if overrides.reference_preset_name is Some { 1 } else { 0 };
    path + id + name
}

/// Why a request was refused for a model.
#[derive(Debug, Clone, Copy, PartialEq, Eq, Structural)]
pub enum OverrideError {
    /// It sets something that the model does not take.
    Unsupported(VoiceModel),
    /// It names more than one reference voice.
    SeveralReferences,
    /// The reference audio that it names is not there.
    MissingReference,
}

/// Why a request is refused for a model, if it is. `reference_exists` says whether
/// there is a file at the reference audio path that the request names.
pub open spec fn override_error(
    model: VoiceModel,
    overrides: OverridesView,
    reference_exists: bool,
) -> Option<OverrideError> {
    if !all_supported(model, overrides) {
        Some(OverrideError::Unsupported(model))
    } else if reference_count(overrides) > 1 {
        Some(OverrideError::SeveralReferences)
    } else if overrides.reference_audio_path is Some && !reference_exists {
        Some(OverrideError::MissingReference)
    } else {
        None
    }
}

pub proof fn lemma_all_supported(model: VoiceModel, o: OverridesView)
    ensures
        all_supported(model, o) <==> {
            &&& is_set(o, Parameter::VoicePreset) ==> supports(model, Parameter::VoicePreset)
            &&& is_set(o, Parameter::Style) ==> supports(model, Parameter::Style)
            &&& is_set(o, Parameter::Description) ==> supports(model, Parameter::Description)
            &&& is_set(o, Parameter::ReferenceAudioPath) ==> supports(model, Parameter::ReferenceAudioPath)
            &&& is_set(o, Parameter::ReferencePresetId) ==> supports(model, Parameter::ReferencePresetId)
            &&& is_set(o, Parameter::ReferencePresetName) ==> supports(model, Parameter::ReferencePresetName)
            &&& is_set(o, Parameter::CfgScale) ==> supports(model, Parameter::CfgScale)
            &&& is_set(o, Parameter::Temperature) ==> supports(model, Parameter::Temperature)
            &&& is_set(o, Parameter::MaxTokens) ==> supports(model, Parameter::MaxTokens)
            &&& is_set(o, Parameter::ChunkSize) ==> supports(model, Parameter::ChunkSize)
            &&& is_set(o, Parameter::SaveAudio) ==> supports(model, Parameter::SaveAudio)
            &&& is_set(o, Parameter::OutputDir) ==> supports(model, Parameter::OutputDir)
        },
{
    if all_supported(model, o) {
        assert(is_set(o, Parameter::VoicePreset) ==> supports(model, Parameter::VoicePreset));
        assert(is_set(o, Parameter::Style) ==> supports(model, Parameter::Style));
        assert(is_set(o, Parameter::Description) ==> supports(model, Parameter::Description));
        assert(is_set(o, Parameter::ReferenceAudioPath) ==> supports(model, Parameter::ReferenceAudioPath));
        assert(is_set(o, Parameter::ReferencePresetId) ==> supports(model, Parameter::ReferencePresetId));
        assert(is_set(o, Parameter::ReferencePresetName) ==> supports(model, Parameter::ReferencePresetName));
        assert(is_set(o, Parameter::CfgScale) ==> supports(model, Parameter::CfgScale));
        assert(is_set(o, Parameter::Temperature) ==> supports(model, Parameter::Temperature));
        assert(is_set(o, Parameter::MaxTokens) ==> supports(model, Parameter::MaxTokens));
        assert(is_set(o, Parameter::ChunkSize) ==> supports(model, Parameter::ChunkSize));
        assert(is_set(o, Parameter::SaveAudio) ==> supports(model, Parameter::SaveAudio));
        assert(is_set(o, Parameter::OutputDir) ==> supports(model, Parameter::OutputDir));
    }
}

/// Checks that a model takes what a request sets. `reference_exists` says whether
/// there is a file at the reference audio path that the request names.
pub fn validate_overrides_for_model(
    model: VoiceModel,
    overrides: &SpeechOverrides,
    reference_exists: bool,
) -> (res: Result<(), OverrideError>)
    ensures
        match override_error(model, overrides@, reference_exists) {
            Some(error) => res == Err::<(), OverrideError>(error),
            None => res is Ok,
        },
{
    proof {
        lemma_all_supported(model, overrides@);
    }
    match model {
        VoiceModel::VibeVoiceRealtime => {
            if overrides.description.is_some()
                || overrides.reference_audio_path.is_some()
                || overrides.reference_preset_id.is_some()
                || overrides.reference_preset_name.is_some()
                || overrides.cfg_scale.is_some()
                || overrides.temperature.is_some()
                || overrides.max_tokens.is_some() {
                return Err(OverrideError::Unsupported(model));
            }
        },
        VoiceModel::VibeVoice => {
            if overrides.voice_preset.is_some()
                || overrides.style.is_some()
                || overrides.description.is_some() {
                return Err(OverrideError::Unsupported(model));
            }
            let mut references: usize = 0;
            if overrides.reference_audio_path.is_some() {
                references = references + 1;
            }
            if overrides.reference_preset_id.is_some() {
                references = references + 1;
            }
            if overrides.reference_preset_name.is_some() {
                references = references + 1;
            }
            if references > 1 {
                return Err(OverrideError::SeveralReferences);
            }
            if overrides.reference_audio_path.is_some() && !reference_exists {
                return Err(OverrideError::MissingReference);
            }
        },
        VoiceModel::ParlerTts => {
            if overrides.reference_audio_path.is_some()
                || overrides.reference_preset_id.is_some()
                || overrides.reference_preset_name.is_some()
                || overrides.cfg_scale.is_some()
                || overrides.temperature.is_some()
                || overrides.max_tokens.is_some() {
                return Err(OverrideError::Unsupported(model));
            }
        },
        VoiceModel::Kokoro => {
            if overrides.style.is_some()
                || overrides.description.is_some()
                || overrides.reference_audio_path.is_some()
                || overrides.reference_preset_id.is_some()
                || overrides.reference_preset_name.is_some()
                || overrides.cfg_scale.is_some()
                || overrides.temperature.is_some()
                || overrides.max_tokens.is_some() {
                return Err(OverrideError::Unsupported(model));
            }
        },
    }
    Ok(())
}

/// The message of an override error; `path` is the reference audio path that the
/// request names.
pub open spec fn override_message(error: OverrideError, path: Seq<char>) -> Seq<char> {
    match error {
        OverrideError::Unsupported(VoiceModel::VibeVoiceRealtime) => {
            "VibeVoice Realtime supports voice_preset, style, chunk_size, save_audio, and output_dir query params."@
        },
        OverrideError::Unsupported(VoiceModel::VibeVoice) => {
            "VibeVoice 1.5B does not use voice_preset, style, or description query params. Use reference_audio_path plus speaker-formatted text instead."@
        },
        OverrideError::Unsupported(VoiceModel::ParlerTts) => {
            "Parler-TTS supports voice_preset, description, style, chunk_size, save_audio, and output_dir query params."@
        },
        OverrideError::Unsupported(VoiceModel::Kokoro) => {
            "Kokoro currently supports voice_preset, chunk_size, save_audio, and output_dir query params."@
        },
        OverrideError::SeveralReferences => {
            "Provide only one of reference_audio_path, reference_preset_id, or reference_preset_name for VibeVoice 1.5B."@
        },
        OverrideError::MissingReference => {
            "Reference audio file does not exist: "@ + path
                + ". reference_audio_path is optional. If you use it, replace the example path with a real local WAV or MP3 file such as /Users/you/Desktop/reference-voice.wav."@
        },
    }
}

impl OverrideError {
    /// The message of the error; `path` is the reference audio path that the request
    /// names.
    pub fn message(self, path: &str) -> (res: String)
        ensures
            res@ == override_message(self, path@),
    {
        match self {
            OverrideError::Unsupported(VoiceModel::VibeVoiceRealtime) => {
                "VibeVoice Realtime supports voice_preset, style, chunk_size, save_audio, and output_dir query params.".to_owned()
            },
            OverrideError::Unsupported(VoiceModel::VibeVoice) => {
                "VibeVoice 1.5B does not use voice_preset, style, or description query params. Use reference_audio_path plus speaker-formatted text instead.".to_owned()
            },
            OverrideError::Unsupported(VoiceModel::ParlerTts) => {
                "Parler-TTS supports voice_preset, description, style, chunk_size, save_audio, and output_dir query params.".to_owned()
            },
            OverrideError::Unsupported(VoiceModel::Kokoro) => {
                "Kokoro currently supports voice_preset, chunk_size, save_audio, and output_dir query params.".to_owned()
            },
            OverrideError::SeveralReferences => {
                "Provide only one of reference_audio_path, reference_preset_id, or reference_preset_name for VibeVoice 1.5B.".to_owned()
            },
            OverrideError::MissingReference => text::concat3(
                "Reference audio file does not exist: ",
                path,
                ". reference_audio_path is optional. If you use it, replace the example path with a real local WAV or MP3 file such as /Users/you/Desktop/reference-voice.wav.",
            ),
        }
    }
}

/// The short name of a model in file names.
pub open spec fn slug(model: VoiceModel) -> Seq<char> {
    match model {
        VoiceModel::VibeVoiceRealtime => "vibevoice-realtime"@,
        VoiceModel::VibeVoice => "vibevoice-1-5b"@,
        VoiceModel::ParlerTts => "parler-tts"@,
        VoiceModel::Kokoro => "kokoro"@,
    }
}

/// The short name of the model in file names.
pub fn model_slug(model: VoiceModel) -> (res: &'static str)
    ensures
        res@ == slug(model),
{
    match model {
        VoiceModel::VibeVoiceRealtime => "vibevoice-realtime",
        VoiceModel::VibeVoice => "vibevoice-1-5b",
        VoiceModel::ParlerTts => "parler-tts",
        VoiceModel::Kokoro => "kokoro",
    }
}

// ---------------------------------------------------------------------------
// Description
// ---------------------------------------------------------------------------

pub const REALTIME_VOICE_PRESET: &'static str =
    "Overrides the saved voice preset for this single /speak request.";

pub const REALTIME_STYLE: &'static str =
    "Overrides the realtime model instruction prompt used to shape delivery for this request.";

pub const VIBEVOICE_REFERENCE_AUDIO_PATH: &'static str =
    "Optional. Path to a local WAV or MP3 file used to seed speaker identity for this request. A clean 3 to 10 second clip of one person speaking works best. You can record your own voice, clip existing speech you have rights to use, or reuse another generated sample.";

pub const VIBEVOICE_REFERENCE_PRESET_ID: &'static str =
    "Optional. Reuses a VibeVoice preset created earlier from a reference clip, so /speak can skip rebuilding that voice seed from raw audio on every request.";

pub const VIBEVOICE_REFERENCE_PRESET_NAME: &'static str =
    "Optional. Looks up a VibeVoice preset by its unique creation name instead of by preset ID.";

pub const VIBEVOICE_CFG_SCALE: &'static str =
    "Overrides the VibeVoice classifier-free guidance scale for this request. Default is 1.3.";

pub const VIBEVOICE_TEMPERATURE: &'static str =
    "Overrides the VibeVoice sampling temperature for this request. Default is 0.0.";

pub const VIBEVOICE_MAX_TOKENS: &'static str =
    "Caps how many generation tokens VibeVoice can spend on this request. Cost scales steeply, so 32 is a better starting point for short utterances and you should only increase it when outputs are being cut off.";

pub const PARLER_VOICE_PRESET: &'static str =
    "Selects one of the curated Parler preset descriptions for this request.";

pub const PARLER_DESCRIPTION: &'static str =
    "Replaces the preset description with your own full descriptive prompt for Parler-TTS.";

pub const PARLER_STYLE: &'static str =
    "Appends extra style guidance to the preset or custom description for this request.";

pub const ANY_CHUNK_SIZE: &'static str =
    "Optional. Sets the target chunk size in characters for this request. If omitted, DevVoice uses your saved default chunk size. Use 0 to disable chunking entirely.";

pub const ANY_SAVE_AUDIO: &'static str =
    "Optional. Set to true to save the synthesized WAV for this request.";

pub const ANY_OUTPUT_DIR: &'static str =
    "Optional. Directory where saved WAV files should be written. If omitted, DevVoice uses $HOME/Downloads. Supplying output_dir also implies saving audio.";

pub const REALTIME_SUMMARY: &'static str =
    "Fastest local model. Use voice_preset and style for delivery changes. You can also control chunking and optionally save the synthesized WAV per request.";

pub const VIBEVOICE_SUMMARY: &'static str =
    "Long-form expressive model. DevVoice now runs VibeVoice 1.5B through the MLX backend on macOS, using auto precision only. The app warms the model automatically on startup, and you can also call /vibevoice/warmup to preload a saved preset before a real request. Use Speaker 0:, Speaker 1:, and similar labels directly in the request body for dialogue. You can seed voice identity with a raw reference_audio_path, a reusable reference_preset_id, or a unique reference_preset_name created ahead of time. You can also control chunking and optionally save the synthesized WAV per request.";

pub const PARLER_SUMMARY: &'static str =
    "Most flexible model for descriptive voice control. You can override the preset, send a full description, or append a style suffix per request.";

pub const KOKORO_SUMMARY: &'static str =
    "Lightweight model with limited control surface. Use voice preset overrides per request.";

pub const REALTIME_CURL: &'static str =
    "curl -X POST \"http://127.0.0.1:9876/speak?voice_preset=en-Emma_woman&style=Read%20this%20like%20an%20excited%20demo%20for%20engineers.&chunk_size=0&save_audio=true\" --data \"Ship the build after the tests pass.\"";

pub const VIBEVOICE_CURL: &'static str =
    "Create a reusable preset once, using a unique name:\ncurl -X POST \"http://127.0.0.1:9876/vibevoice/presets\" -H \"Content-Type: application/json\" -d '{\"name\":\"my-demo-voice\",\"referenceAudioPath\":\"/Users/you/Desktop/reference-voice.wav\"}'\n\nWarm the 1.5B model and that preset before your first real request:\ncurl -X POST \"http://127.0.0.1:9876/vibevoice/warmup\" -H \"Content-Type: application/json\" -d '{\"referencePresetName\":\"my-demo-voice\"}'\n\nReuse a saved preset by unique name for synthesis:\ncurl -X POST \"http://127.0.0.1:9876/speak?reference_preset_name=my-demo-voice&cfg_scale=1.3&temperature=0.0&max_tokens=32\" --data-binary $'Speaker 0: Explain the rollout calmly.\\nSpeaker 1: Reply with more excitement.'\n\nOr reuse a saved preset by internal id:\ncurl -X POST \"http://127.0.0.1:9876/speak?reference_preset_id=my-demo-voice-1716420000&cfg_scale=1.3&temperature=0.0&max_tokens=32\" --data-binary $'Speaker 0: Explain the rollout calmly.\\nSpeaker 1: Reply with more excitement.'\n\nNo seed voice, use the model default:\ncurl -X POST \"http://127.0.0.1:9876/speak?cfg_scale=1.3&temperature=0.0&max_tokens=32&chunk_size=220\" --data-binary $'Speaker 0: Explain the rollout calmly.\\nSpeaker 1: Reply with more excitement.'\n\nOptional seed voice, replace the path with a real local file:\ncurl -X POST \"http://127.0.0.1:9876/speak?reference_audio_path=/Users/you/Desktop/reference-voice.wav&cfg_scale=1.3&temperature=0.0&max_tokens=32&save_audio=true\" --data-binary $'Speaker 0: Explain the rollout calmly.\\nSpeaker 1: Reply with more excitement.'";

pub const PARLER_CURL: &'static str =
    "curl -X POST \"http://127.0.0.1:9876/speak?voice_preset=senior_developer&style=Sound%20more%20enthusiastic%20without%20rushing.\" --data \"Explain the rollout plan.\"";

pub const KOKORO_CURL: &'static str =
    "curl -X POST \"http://127.0.0.1:9876/speak?voice_preset=af_heart\" --data \"Use the lightweight local model for this one.\"";

/// One described parameter.
pub open spec fn attribute_view(
    query_param: Seq<char>,
    label: Seq<char>,
    description: Seq<char>,
) -> AttributeView {
    AttributeView { query_param, label, description }
}

fn attribute(query_param: &str, label: &str, description: &str) -> (res: ModelInstructionAttribute)
    ensures
        res@ == attribute_view(query_param@, label@, description@),
{
    ModelInstructionAttribute {
        query_param: query_param.to_owned(),
        label: label.to_owned(),
        description: description.to_owned(),
    }
}

/// The parameters that only this model lists.
pub open spec fn own_attributes(model: VoiceModel) -> Seq<AttributeView> {
    match model {
        VoiceModel::VibeVoiceRealtime => seq![
            attribute_view("voice_preset"@, "Voice preset override"@, REALTIME_VOICE_PRESET@),
            attribute_view("style"@, "Instruction prompt"@, REALTIME_STYLE@),
        ],
        VoiceModel::VibeVoice => seq![
            attribute_view("reference_audio_path"@, "Reference voice file"@, VIBEVOICE_REFERENCE_AUDIO_PATH@),
            attribute_view("reference_preset_id"@, "Saved reference preset"@, VIBEVOICE_REFERENCE_PRESET_ID@),
            attribute_view("reference_preset_name"@, "Saved reference preset by name"@, VIBEVOICE_REFERENCE_PRESET_NAME@),
            attribute_view("cfg_scale"@, "Guidance scale"@, VIBEVOICE_CFG_SCALE@),
            attribute_view("temperature"@, "Sampling temperature"@, VIBEVOICE_TEMPERATURE@),
            attribute_view("max_tokens"@, "Generation budget"@, VIBEVOICE_MAX_TOKENS@),
        ],
        VoiceModel::ParlerTts => seq![
            attribute_view("voice_preset"@, "Voice preset override"@, PARLER_VOICE_PRESET@),
            attribute_view("description"@, "Full voice description"@, PARLER_DESCRIPTION@),
            attribute_view("style"@, "Style suffix"@, PARLER_STYLE@),
        ],
        VoiceModel::Kokoro => seq![
            attribute_view("voice_preset"@, "Voice preset override"@, REALTIME_VOICE_PRESET@),
        ],
    }
}

/// The parameters that every model lists.
pub open spec fn common_attributes() -> Seq<AttributeView> {
    seq![
        attribute_view("chunk_size"@, "Chunk size in characters"@, ANY_CHUNK_SIZE@),
        attribute_view("save_audio"@, "Save synthesized audio"@, ANY_SAVE_AUDIO@),
        attribute_view("output_dir"@, "Saved audio directory"@, ANY_OUTPUT_DIR@),
    ]
}

/// What the model is good for.
pub open spec fn summary_text(model: VoiceModel) -> Seq<char> {
    match model {
        VoiceModel::VibeVoiceRealtime => REALTIME_SUMMARY@,
        VoiceModel::VibeVoice => VIBEVOICE_SUMMARY@,
        VoiceModel::ParlerTts => PARLER_SUMMARY@,
        VoiceModel::Kokoro => KOKORO_SUMMARY@,
    }
}

fn summary(model: VoiceModel) -> (res: &'static str)
    ensures
        res@ == summary_text(model),
{
    match model {
        VoiceModel::VibeVoiceRealtime => REALTIME_SUMMARY,
        VoiceModel::VibeVoice => VIBEVOICE_SUMMARY,
        VoiceModel::ParlerTts => PARLER_SUMMARY,
        VoiceModel::Kokoro => KOKORO_SUMMARY,
    }
}

/// Example requests for the model.
pub open spec fn curl_example_text(model: VoiceModel) -> Seq<char> {
    match model {
        VoiceModel::VibeVoiceRealtime => REALTIME_CURL@,
        VoiceModel::VibeVoice => VIBEVOICE_CURL@,
        VoiceModel::ParlerTts => PARLER_CURL@,
        VoiceModel::Kokoro => KOKORO_CURL@,
    }
}

fn curl_example(model: VoiceModel) -> (res: &'static str)
    ensures
        res@ == curl_example_text(model),
{
    match model {
        VoiceModel::VibeVoiceRealtime => REALTIME_CURL,
        VoiceModel::VibeVoice => VIBEVOICE_CURL,
        VoiceModel::ParlerTts => PARLER_CURL,
        VoiceModel::Kokoro => KOKORO_CURL,
    }
}

/// How a model is to be used.
pub open spec fn instructions(model: VoiceModel) -> InstructionsView {
    InstructionsView {
        model_label: crate::config::model_name(model),
        summary: summary_text(model),
        curl_example: curl_example_text(model),
        attributes: own_attributes(model) + common_attributes(),
    }
}

/// How the model is to be used: what its requests may set, and an example.
pub fn describe_model_instructions(model: VoiceModel) -> (res: ModelInstructions)
    ensures
        res@ == instructions(model),
{
    let mut list: Vec<ModelInstructionAttribute> = Vec::new();
    match model {
        VoiceModel::VibeVoiceRealtime => {
            list.push(attribute("voice_preset", "Voice preset override", REALTIME_VOICE_PRESET));
            list.push(attribute("style", "Instruction prompt", REALTIME_STYLE));
        },
        VoiceModel::VibeVoice => {
            list.push(attribute("reference_audio_path", "Reference voice file", VIBEVOICE_REFERENCE_AUDIO_PATH));
            list.push(attribute("reference_preset_id", "Saved reference preset", VIBEVOICE_REFERENCE_PRESET_ID));
            list.push(attribute("reference_preset_name", "Saved reference preset by name", VIBEVOICE_REFERENCE_PRESET_NAME));
            list.push(attribute("cfg_scale", "Guidance scale", VIBEVOICE_CFG_SCALE));
            list.push(attribute("temperature", "Sampling temperature", VIBEVOICE_TEMPERATURE));
            list.push(attribute("max_tokens", "Generation budget", VIBEVOICE_MAX_TOKENS));
        },
        VoiceModel::ParlerTts => {
            list.push(attribute("voice_preset", "Voice preset override", PARLER_VOICE_PRESET));
            list.push(attribute("description", "Full voice description", PARLER_DESCRIPTION));
            list.push(attribute("style", "Style suffix", PARLER_STYLE));
        },
        VoiceModel::Kokoro => {
            list.push(attribute("voice_preset", "Voice preset override", REALTIME_VOICE_PRESET));
        },
    }
    assert(list.deep_view() =~= own_attributes(model));
    list.push(attribute("chunk_size", "Chunk size in characters", ANY_CHUNK_SIZE));
    list.push(attribute("save_audio", "Save synthesized audio", ANY_SAVE_AUDIO));
    list.push(attribute("output_dir", "Saved audio directory", ANY_OUTPUT_DIR));
    assert(list.deep_view() =~= own_attributes(model) + common_attributes());
    ModelInstructions {
        model_label: model.display_name().to_owned(),
        summary: summary(model).to_owned(),
        curl_example: curl_example(model).to_owned(),
        attributes: list,
    }
}

} // verus!
