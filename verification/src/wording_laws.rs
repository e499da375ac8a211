//! What is said to users: each word and message stands for one thing.

use vstd::prelude::*;
use vstd::string::*;

use crate::config;
use crate::config::VoiceModel;
use crate::instructions;
use crate::instructions::OverrideError;
use crate::models;
use crate::playback;
use crate::playback::{AudioError, CombineError};
use crate::presets;
use crate::presets::PresetView;
use crate::runtime;
use crate::runtime::KeyStatus;
use crate::state;
use crate::state::{AppStatus, AttributeView, ParameterError};
use crate::synthesis;
use crate::text;
use crate::tray;
use crate::tray::MenuCommand;
use crate::tts;

verus! {

/// The name of a status is the status in letters.
pub proof fn law_how_a_status_is_called(status: AppStatus)
    ensures
        state::status_name(status) == match status {
            AppStatus::Idle => "Idle"@,
            AppStatus::LoadingModel => "LoadingModel"@,
            AppStatus::CapturingSelection => "CapturingSelection"@,
            AppStatus::RewritingText => "RewritingText"@,
            AppStatus::Synthesizing => "Synthesizing"@,
            AppStatus::Speaking => "Speaking"@,
            AppStatus::Ready => "Ready"@,
            AppStatus::Error => "Error"@,
        },
{
}

/// Two statuses have two names.
pub proof fn law_statuses_have_their_own_names(one: AppStatus, other: AppStatus)
    requires
        one != other,
    ensures
        state::status_name(one) != state::status_name(other),
{
    reveal_strlit("Idle");
    reveal_strlit("LoadingModel");
    reveal_strlit("CapturingSelection");
    reveal_strlit("RewritingText");
    reveal_strlit("Synthesizing");
    reveal_strlit("Speaking");
    reveal_strlit("Ready");
    reveal_strlit("Error");
    let a = state::status_name(one);
    let b = state::status_name(other);
    if a == b {
        assert(a.len() == b.len());
        assert(a[0] == b[0]);
    }
}

/// How the models are called, and where their files are kept: no two in the same place.
pub proof fn law_how_a_model_is_called(model: VoiceModel, other: VoiceModel)
    ensures
        config::model_name(model) == match model {
            VoiceModel::VibeVoiceRealtime => "VibeVoice Realtime 0.5B"@,
            VoiceModel::VibeVoice => "VibeVoice 1.5B"@,
            VoiceModel::ParlerTts => "Parler-TTS"@,
            VoiceModel::Kokoro => "Kokoro-82M"@,
        },
        models::model_folder(model) == match model {
            VoiceModel::VibeVoiceRealtime => "vibevoice-realtime-0.5b"@,
            VoiceModel::VibeVoice => "vibevoice-1.5b"@,
            VoiceModel::ParlerTts => "parler-tts-mini-v1"@,
            VoiceModel::Kokoro => "kokoro-82m"@,
        },
        models::published_id(model) == match model {
            VoiceModel::VibeVoiceRealtime => "microsoft/VibeVoice-Realtime-0.5B"@,
            VoiceModel::VibeVoice => "microsoft/VibeVoice-1.5B"@,
            VoiceModel::ParlerTts => "parler-tts/parler-tts-mini-v1"@,
            VoiceModel::Kokoro => "hexgrad/Kokoro-82M"@,
        },
        model != other ==> models::model_folder(model) != models::model_folder(other),
{
    reveal_strlit("vibevoice-realtime-0.5b");
    reveal_strlit("vibevoice-1.5b");
    reveal_strlit("parler-tts-mini-v1");
    reveal_strlit("kokoro-82m");
    let a = models::model_folder(model);
    let b = models::model_folder(other);
    if model != other && a == b {
        assert(a.len() == b.len());
        assert(a[0] == b[0]);
    }
}

/// What a refused parameter is told.
pub proof fn law_how_a_parameter_is_refused(error: ParameterError)
    ensures
        state::parameter_message(error) == match error {
            ParameterError::NotABoolean => "expected a boolean value"@,
            ParameterError::Empty => "cannot parse integer from empty string"@,
            ParameterError::InvalidDigit => "invalid digit found in string"@,
            ParameterError::TooLarge => "number too large to fit in target type"@,
            ParameterError::ValueTooLarge => "value is too large"@,
        },
{
}

/// What a refused request is told: what its model takes, that it names one reference voice
/// too many, or which file is missing.
pub proof fn law_how_a_request_is_refused(path: Seq<char>)
    ensures
        instructions::override_message(
            OverrideError::Unsupported(VoiceModel::VibeVoiceRealtime),
            path,
        )
            == "VibeVoice Realtime supports voice_preset, style, chunk_size, save_audio, and output_dir query params."@,
        instructions::override_message(OverrideError::Unsupported(VoiceModel::VibeVoice), path)
            == "VibeVoice 1.5B does not use voice_preset, style, or description query params. Use reference_audio_path plus speaker-formatted text instead."@,
        instructions::override_message(OverrideError::Unsupported(VoiceModel::ParlerTts), path)
            == "Parler-TTS supports voice_preset, description, style, chunk_size, save_audio, and output_dir query params."@,
        instructions::override_message(OverrideError::Unsupported(VoiceModel::Kokoro), path)
            == "Kokoro currently supports voice_preset, chunk_size, save_audio, and output_dir query params."@,
        instructions::override_message(OverrideError::SeveralReferences, path)
            == "Provide only one of reference_audio_path, reference_preset_id, or reference_preset_name for VibeVoice 1.5B."@,
        instructions::override_message(OverrideError::MissingReference, path)
            == "Reference audio file does not exist: "@ + path
            + ". reference_audio_path is optional. If you use it, replace the example path with a real local WAV or MP3 file such as /Users/you/Desktop/reference-voice.wav."@,
{
}

/// What is said of audio that cannot be played or joined, and of a stored key.
pub proof fn law_how_audio_and_keys_are_told(
    audio: AudioError,
    joining: CombineError,
    key: KeyStatus,
)
    ensures
        playback::audio_message(audio) == match audio {
            AudioError::ZeroChannels => "audio had zero channels"@,
            AudioError::ZeroSampleRate => "audio had zero sample rate"@,
        },
        playback::combine_message(joining) == match joining {
            CombineError::NoAudio => "no synthesized audio was available to save"@,
            CombineError::MismatchedFormats => {
                "cannot combine synthesized chunks with mismatched audio formats"@
            },
        },
        runtime::key_status_text(key) == match key {
            KeyStatus::Updated => "Gemini API key updated."@,
            KeyStatus::Kept => "Existing Gemini API key kept."@,
            KeyStatus::Missing => "No Gemini API key is currently stored."@,
        },
{
}

/// What the choices of the menu are called, and by which names they are reported.
pub proof fn law_how_a_choice_is_called(command: MenuCommand)
    ensures
        (tray::command_id(command), tray::command_label(command)) == match command {
            MenuCommand::Show => ("show"@, "Show DevVoice"@),
            MenuCommand::QueueSelection => ("queue-selection"@, "Queue Selection"@),
            MenuCommand::SkipNext => ("skip-next"@, "Skip to Next Item"@),
            MenuCommand::Pause => ("pause"@, "Pause/Resume"@),
            MenuCommand::Stop => ("stop"@, "Stop"@),
            MenuCommand::OpenLog => ("open-log"@, "Open Log File"@),
            MenuCommand::Quit => ("quit"@, "Quit"@),
        },
{
}

/// The instructions for a model hold its name, its summary, its example, and what a
/// request may set: what the model takes alone, and behind that what every model takes.
pub proof fn law_what_the_instructions_hold(model: VoiceModel)
    ensures
        ({
            let told = instructions::instructions(model);
            let params = told.attributes.map_values(|a: AttributeView| a.query_param);
            let common = seq!["chunk_size"@, "save_audio"@, "output_dir"@];
            &&& told.model_label == config::model_name(model)
            &&& match model {
                VoiceModel::VibeVoiceRealtime => {
                    &&& told.summary == instructions::REALTIME_SUMMARY@
                    &&& told.curl_example == instructions::REALTIME_CURL@
                    &&& params == seq!["voice_preset"@, "style"@] + common
                },
                VoiceModel::VibeVoice => {
                    &&& told.summary == instructions::VIBEVOICE_SUMMARY@
                    &&& told.curl_example == instructions::VIBEVOICE_CURL@
                    &&& params == seq![
                        "reference_audio_path"@,
                        "reference_preset_id"@,
                        "reference_preset_name"@,
                        "cfg_scale"@,
                        "temperature"@,
                        "max_tokens"@,
                    ] + common
                },
                VoiceModel::ParlerTts => {
                    &&& told.summary == instructions::PARLER_SUMMARY@
                    &&& told.curl_example == instructions::PARLER_CURL@
                    &&& params == seq!["voice_preset"@, "description"@, "style"@] + common
                },
                VoiceModel::Kokoro => {
                    &&& told.summary == instructions::KOKORO_SUMMARY@
                    &&& told.curl_example == instructions::KOKORO_CURL@
                    &&& params == seq!["voice_preset"@] + common
                },
            }
        }),
{
}

/// The log is kept below the home of the user, or below the current directory where no
/// home is known.
pub proof fn law_where_the_log_is_kept(home: Option<Seq<char>>)
    ensures
        home matches Some(dir) ==> tts::log_path(home) == text::joined_path(
            dir,
            "Library/Logs/DevVoice/devvoice.log"@,
        ),
        home is None ==> tts::log_path(home) == text::joined_path(
            "."@,
            "Library/Logs/DevVoice/devvoice.log"@,
        ),
{
}

/// The voices of Parler-TTS, each by its name, no two by the same.
pub proof fn law_which_voices_parler_has(i: int, j: int)
    requires
        0 <= i < j < synthesis::parler_voices().len(),
    ensures
        synthesis::parler_voices() == seq![
            "senior_developer"@,
            "clear_female"@,
            "clear_male"@,
            "warm_narrator"@,
        ],
        synthesis::parler_voices()[i] != synthesis::parler_voices()[j],
{
    reveal_strlit("senior_developer");
    reveal_strlit("clear_female");
    reveal_strlit("clear_male");
    reveal_strlit("warm_narrator");
    assert("senior_developer"@.len() == 16);
    assert("clear_female"@.len() == 12);
    assert("clear_male"@.len() == 10);
    assert("warm_narrator"@.len() == 13);
}

/// In a list with the newest first, no preset is older than one behind it.
pub proof fn law_what_newest_first_means(list: Seq<PresetView>)
    ensures
        presets::is_newest_first(list) <==> forall|i: int, j: int|
            #![trigger list[i], list[j]]
            0 <= i < j < list.len() ==> list[j].created_at_unix_secs
                <= list[i].created_at_unix_secs,
        forall|time: u64, preset: PresetView| #[trigger]
            presets::created_at(list, time).contains(preset) ==> list.contains(preset)
                && preset.created_at_unix_secs == time,
        forall|preset: PresetView| #[trigger]
            list.contains(preset) ==> presets::created_at(
                list,
                preset.created_at_unix_secs,
            ).contains(preset),
{
    if forall|i: int, j: int|
        #![trigger list[i], list[j]]
        0 <= i < j < list.len() ==> list[j].created_at_unix_secs <= list[i].created_at_unix_secs {
        assert forall|i: int, j: int| 0 <= i <= j < list.len() implies (
        #[trigger] list[i]).created_at_unix_secs >= (#[trigger] list[j]).created_at_unix_secs by {}
    }
    assert forall|time: u64, preset: PresetView| #[trigger]
        presets::created_at(list, time).contains(preset) implies list.contains(preset)
        && preset.created_at_unix_secs == time by {
        let pred = |p: PresetView| p.created_at_unix_secs == time;
        list.lemma_filter_contains_rev(pred, preset);
        let some = list.filter(pred);
        let k = choose|k: int| 0 <= k < some.len() && some[k] == preset;
        list.lemma_filter_pred(pred, k);
    }
    assert forall|preset: PresetView| #[trigger] list.contains(preset) implies presets::created_at(
        list,
        preset.created_at_unix_secs,
    ).contains(preset) by {
        let time = preset.created_at_unix_secs;
        let pred = |p: PresetView| p.created_at_unix_secs == time;
        let k = choose|k: int| 0 <= k < list.len() && list[k] == preset;
        list.lemma_filter_contains(pred, k);
    }
}

} // verus!
