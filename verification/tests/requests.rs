use devvoice::config::VoiceModel;
use devvoice::instructions::{
    describe_model_instructions, model_slug, validate_overrides_for_model, OverrideError,
};
use devvoice::state::{
    optional_bool, optional_usize, parse_count, trim_option, AppStatus, BoolLike, ParameterError,
    Real64, SpeechOverrides, StringOrNumber,
};

const MODELS: [VoiceModel; 4] = [
    VoiceModel::VibeVoiceRealtime,
    VoiceModel::VibeVoice,
    VoiceModel::ParlerTts,
    VoiceModel::Kokoro,
];

fn set(parameter: &str) -> SpeechOverrides {
    let mut overrides = SpeechOverrides::default();
    let value = Some("value".to_owned());
    match parameter {
        "voice_preset" => overrides.voice_preset = value,
        "style" => overrides.style = value,
        "description" => overrides.description = value,
        "reference_audio_path" => overrides.reference_audio_path = value,
        "reference_preset_id" => overrides.reference_preset_id = value,
        "reference_preset_name" => overrides.reference_preset_name = value,
        "cfg_scale" => overrides.cfg_scale = Some(Real64 { bits: 0x3FF4CCCCCCCCCCCD }),
        "temperature" => overrides.temperature = Some(Real64 { bits: 0 }),
        "max_tokens" => overrides.max_tokens = Some(32),
        "chunk_size" => overrides.chunk_size = Some(0),
        "save_audio" => overrides.save_audio = Some(true),
        "output_dir" => overrides.output_dir = value,
        _ => unreachable!(),
    }
    overrides
}

const PARAMETERS: [&str; 12] = [
    "voice_preset",
    "style",
    "description",
    "reference_audio_path",
    "reference_preset_id",
    "reference_preset_name",
    "cfg_scale",
    "temperature",
    "max_tokens",
    "chunk_size",
    "save_audio",
    "output_dir",
];

#[test]
fn listed_parameters_are_the_accepted_ones() {
    for model in MODELS {
        let instructions = describe_model_instructions(model);
        for parameter in PARAMETERS {
            let listed = instructions.attributes.iter().any(|a| a.query_param == parameter);
            let outcome = validate_overrides_for_model(model, &set(parameter), true);
            if listed {
                assert_eq!(outcome, Ok(()));
            } else {
                assert_eq!(outcome, Err(OverrideError::Unsupported(model)));
            }
        }
    }
}

#[test]
fn a_plain_request_is_accepted_by_every_model() {
    for model in MODELS {
        assert_eq!(
            validate_overrides_for_model(model, &SpeechOverrides::default(), false),
            Ok(())
        );
    }
}

#[test]
fn one_reference_voice_is_enough() {
    let mut overrides = set("reference_preset_id");
    overrides.reference_preset_name = Some("name".to_owned());
    assert_eq!(
        validate_overrides_for_model(VoiceModel::VibeVoice, &overrides, true),
        Err(OverrideError::SeveralReferences)
    );
    assert_eq!(
        validate_overrides_for_model(VoiceModel::VibeVoice, &set("reference_audio_path"), false),
        Err(OverrideError::MissingReference)
    );
}

#[test]
fn refusals_are_explained() {
    assert_eq!(
        OverrideError::Unsupported(VoiceModel::VibeVoiceRealtime).message(""),
        "VibeVoice Realtime supports voice_preset, style, chunk_size, save_audio, and output_dir query params."
    );
    assert_eq!(
        OverrideError::Unsupported(VoiceModel::VibeVoice).message(""),
        "VibeVoice 1.5B does not use voice_preset, style, or description query params. Use reference_audio_path plus speaker-formatted text instead."
    );
    assert_eq!(
        OverrideError::Unsupported(VoiceModel::ParlerTts).message(""),
        "Parler-TTS supports voice_preset, description, style, chunk_size, save_audio, and output_dir query params."
    );
    assert_eq!(
        OverrideError::Unsupported(VoiceModel::Kokoro).message(""),
        "Kokoro currently supports voice_preset, chunk_size, save_audio, and output_dir query params."
    );
    assert_eq!(
        OverrideError::SeveralReferences.message(""),
        "Provide only one of reference_audio_path, reference_preset_id, or reference_preset_name for VibeVoice 1.5B."
    );
    assert_eq!(
        OverrideError::MissingReference.message("/tmp/x.wav"),
        "Reference audio file does not exist: /tmp/x.wav. reference_audio_path is optional. If you use it, replace the example path with a real local WAV or MP3 file such as /Users/you/Desktop/reference-voice.wav."
    );
}

#[test]
fn instructions_describe_the_model() {
    let realtime = describe_model_instructions(VoiceModel::VibeVoiceRealtime);
    assert_eq!(realtime.model_label, "VibeVoice Realtime 0.5B");
    assert_eq!(realtime.attributes.len(), 5);
    assert_eq!(realtime.attributes[1].label, "Instruction prompt");
    assert!(realtime.curl_example.ends_with("--data \"Ship the build after the tests pass.\""));
    let vibevoice = describe_model_instructions(VoiceModel::VibeVoice);
    assert_eq!(vibevoice.attributes.len(), 9);
    assert!(vibevoice.curl_example.starts_with("Create a reusable preset once, using a unique name:\ncurl"));
    assert_eq!(vibevoice.curl_example.lines().count(), 17);
    let kokoro = describe_model_instructions(VoiceModel::Kokoro);
    let names: Vec<&str> = kokoro.attributes.iter().map(|a| a.query_param.as_str()).collect();
    assert_eq!(names, vec!["voice_preset", "chunk_size", "save_audio", "output_dir"]);
    assert_eq!(
        kokoro.summary,
        "Lightweight model with limited control surface. Use voice preset overrides per request."
    );
    assert_eq!(describe_model_instructions(VoiceModel::ParlerTts).attributes.len(), 6);
}

#[test]
fn models_have_slugs() {
    let slugs: Vec<&str> = MODELS.iter().map(|m| model_slug(*m)).collect();
    assert_eq!(slugs, vec!["vibevoice-realtime", "vibevoice-1-5b", "parler-tts", "kokoro"]);
}

#[test]
fn overrides_are_normalized() {
    let mut overrides = SpeechOverrides::default();
    overrides.voice_preset = Some("  emma ".to_owned());
    overrides.style = Some(" \n ".to_owned());
    overrides.max_tokens = Some(7);
    let once = overrides.normalized();
    assert_eq!(once.voice_preset.as_deref(), Some("emma"));
    assert_eq!(once.style, None);
    assert_eq!(once.max_tokens, Some(7));
    let shown = format!("{:?}", once);
    assert_eq!(format!("{:?}", once.clone()), shown);
    assert_eq!(format!("{:?}", once.normalized()), shown);
}

#[test]
fn optional_texts_are_trimmed() {
    assert_eq!(trim_option(Some(" a ".to_owned())), Some("a".to_owned()));
    assert_eq!(trim_option(Some("  ".to_owned())), None);
    assert_eq!(trim_option(None), None);
}

#[test]
fn flags_are_read() {
    for word in ["1", "true", "YES", " on "] {
        assert_eq!(optional_bool(Some(BoolLike::Text(word.to_owned()))), Ok(Some(true)));
    }
    for word in ["0", "False", "no", "off"] {
        assert_eq!(optional_bool(Some(BoolLike::Text(word.to_owned()))), Ok(Some(false)));
    }
    assert_eq!(optional_bool(Some(BoolLike::Flag(true))), Ok(Some(true)));
    assert_eq!(optional_bool(None), Ok(None));
    let error = optional_bool(Some(BoolLike::Text("maybe".to_owned()))).unwrap_err();
    assert_eq!(error, ParameterError::NotABoolean);
    assert_eq!(error.message(), "expected a boolean value");
}

#[test]
fn counts_are_read_like_the_standard_library() {
    for word in ["", "0", "+7", "-", "+", "12", "007", "-3", "1x", "99999999999999999999999", "９", "18446744073709551615", "18446744073709551616"] {
        match word.parse::<usize>() {
            Ok(n) => assert_eq!(parse_count(word), Ok(n)),
            Err(e) => assert_eq!(parse_count(word).unwrap_err().message(), e.to_string()),
        }
    }
    assert_eq!(parse_count("x"), Err(ParameterError::InvalidDigit));
    assert_eq!(parse_count(""), Err(ParameterError::Empty));
    assert_eq!(parse_count("99999999999999999999999"), Err(ParameterError::TooLarge));
}

#[test]
fn optional_counts_are_read() {
    assert_eq!(optional_usize(Some(StringOrNumber::Text("42".to_owned()))), Ok(Some(42)));
    assert_eq!(optional_usize(Some(StringOrNumber::Number(9))), Ok(Some(9)));
    assert_eq!(optional_usize(None), Ok(None));
    assert_eq!(
        optional_usize(Some(StringOrNumber::Text("4.5".to_owned()))),
        Err(ParameterError::InvalidDigit)
    );
    assert_eq!(ParameterError::ValueTooLarge.message(), "value is too large");
}

#[test]
fn statuses_have_names() {
    for status in [
        AppStatus::Idle,
        AppStatus::LoadingModel,
        AppStatus::CapturingSelection,
        AppStatus::RewritingText,
        AppStatus::Synthesizing,
        AppStatus::Speaking,
        AppStatus::Ready,
        AppStatus::Error,
    ] {
        assert_eq!(status.name(), format!("{:?}", status));
    }
}
