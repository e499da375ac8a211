use devvoice::cache::{ReferenceAudioCache, TextCache};
use devvoice::config::{TtsPrecision, VoiceModel};
use devvoice::gemini::{
    self, ApiError, Candidate, CandidateContent, CandidatePart, ErrorEnvelope,
    GenerateContentResponse, GeminiProvider,
};
use devvoice::mlx::{
    self, ExchangeStage, ExchangeStep, MlxExchange, SetupJob, SetupStep, VibeVoiceMlxRequest,
    VibeVoiceMlxResponse,
};
use devvoice::models::{
    hf_model_id, load_selected_model, model_dir, parler_runtime_label, requested_dtype,
    runtime_label, Device, Dtype,
};
use devvoice::paths::{path_extension, path_parent, path_stem};
use devvoice::presets::{
    self, PresetLookup, PresetSource, ReferenceVoice, VibeVoicePresetInfo,
};
use devvoice::snapshots::{self, SnapshotAction, SnapshotEvent, SnapshotJob, Target};
use devvoice::state::{AppStatus, Real32, Real64, SpeechOverrides};
use devvoice::synthesis::{
    self, EmbeddingSource, SynthesisCall, SynthesisFailure, VoiceSeed,
};
use devvoice::tray::{build_tray, menu_event, rgba, tray_icon, MenuCommand};
use devvoice::tts::{
    captured_selection, ensure_accessibility, loaded_warmup, log_file_path, Host, LoadedInfo,
    MlxReadiness, TtsService, WarmupRoute,
};

const MAC: Host = Host { macos: true, python_is_file: false };
const READY: Host = Host { macos: true, python_is_file: true };
const OTHER: Host = Host { macos: false, python_is_file: true };

fn service() -> TtsService {
    TtsService::new("/data/tts-assets".to_owned())
}

fn loaded(label: &str) -> LoadedInfo {
    LoadedInfo { voices: vec!["v".to_owned()], runtime_label: label.to_owned() }
}

#[test]
fn paths_are_taken_apart_like_the_standard_library() {
    for s in [
        "", "/", ".", "..", "a", "/a", "a/", "a/b", "a//b//", "/a/b.wav", "/a/.hidden", "x.tar.gz",
        "a/.", "./a", "././a", "/./a", "a/..", "name.", "//a", "a/./b", ".x.y", "/a/b/./",
    ] {
        let path = std::path::Path::new(s);
        assert_eq!(path_stem(s), path.file_stem().map(|p| p.to_string_lossy().to_string()), "stem of {s:?}");
        assert_eq!(path_extension(s), path.extension().map(|p| p.to_string_lossy().to_string()), "extension of {s:?}");
        assert_eq!(
            path_parent(s),
            path.parent().map(|p| p.to_string_lossy().to_string()),
            "parent of {s:?}"
        );
    }
}

#[test]
fn caches_keep_the_last_value() {
    let mut cache: TextCache<u32> = TextCache::new();
    assert_eq!(cache.get("a"), None);
    cache.insert("a".to_owned(), 1);
    cache.insert("b".to_owned(), 2);
    cache.insert("a".to_owned(), 3);
    assert_eq!(cache.get("a"), Some(&3));
    assert_eq!(cache.get("b"), Some(&2));
    assert_eq!(cache.entries.len(), 2);
}

#[test]
fn reference_audio_is_reused_until_its_file_changes() {
    let mut cache: ReferenceAudioCache<Vec<f32>> = ReferenceAudioCache::new();
    cache.keep("/a.wav".to_owned(), Some(5), vec![0.5]);
    assert_eq!(cache.reusable("/a.wav", Some(5)), Some(&vec![0.5]));
    assert_eq!(cache.reusable("/a.wav", Some(6)), None);
    assert_eq!(cache.reusable("/a.wav", None), None);
    assert_eq!(cache.reusable("/b.wav", Some(5)), None);
}

#[test]
fn models_are_loaded_once() {
    let mut tts = service();
    let cell = tts.ensure_loaded(VoiceModel::Kokoro, TtsPrecision::Auto).unwrap();
    assert_eq!(cell.id, 0);
    assert!(cell.loaded.is_none());
    assert_eq!(tts.ensure_loaded(VoiceModel::Kokoro, TtsPrecision::Auto).unwrap().id, 0);
    assert_eq!(tts.ensure_loaded(VoiceModel::Kokoro, TtsPrecision::F32).unwrap().id, 1);
    tts.model_loaded(0, loaded("metal:0 (f16)"));
    let cell = tts.ensure_loaded(VoiceModel::Kokoro, TtsPrecision::Auto).unwrap();
    assert_eq!(cell.loaded.unwrap().runtime_label, "metal:0 (f16)");
    assert_eq!(
        tts.loaded_runtime_label(VoiceModel::Kokoro, TtsPrecision::Auto, MAC).as_deref(),
        Some("metal:0 (f16)")
    );
    assert_eq!(tts.loaded_runtime_label(VoiceModel::Kokoro, TtsPrecision::F32, MAC), None);
    assert_eq!(
        tts.backend_status(VoiceModel::Kokoro, TtsPrecision::Auto, MAC),
        "Built-in backend ready on metal:0 (f16)"
    );
    assert_eq!(
        tts.ensure_loaded(VoiceModel::VibeVoice, TtsPrecision::Auto).unwrap_err(),
        "VibeVoice 1.5B now runs only through the MLX backend. Use auto precision on macOS."
    );
}

#[test]
fn pruning_keeps_one_model() {
    let mut tts = service();
    tts.ensure_loaded(VoiceModel::Kokoro, TtsPrecision::Auto).unwrap();
    tts.ensure_loaded(VoiceModel::ParlerTts, TtsPrecision::F32).unwrap();
    tts.model_loaded(1, loaded("metal:0 (f32)"));
    tts.prune_cache(VoiceModel::ParlerTts, TtsPrecision::F32);
    assert!(!tts.holds_cell(0));
    assert!(tts.holds_cell(1));
    assert_eq!(
        tts.loaded_runtime_label(VoiceModel::ParlerTts, TtsPrecision::F32, MAC).as_deref(),
        Some("metal:0 (f32)")
    );
    tts.model_loaded(0, loaded("late"));
    assert_eq!(tts.loaded_runtime_label(VoiceModel::Kokoro, TtsPrecision::Auto, MAC), None);
    assert_eq!(tts.ensure_loaded(VoiceModel::Kokoro, TtsPrecision::Auto).unwrap().id, 2);
    tts.force_vibevoice_auto_cpu_fallback();
    assert_eq!(tts.auto_precision_overrides.len(), 1);
    tts.reset_auto_precision_override(VoiceModel::VibeVoice);
    assert_eq!(tts.auto_precision_overrides.len(), 0);
}

#[test]
fn vibevoice_needs_its_backend() {
    let mut tts = service();
    assert_eq!(
        tts.backend_status(VoiceModel::VibeVoice, TtsPrecision::Auto, OTHER),
        "VibeVoice 1.5B requires macOS because DevVoice only supports the MLX backend for this model."
    );
    assert_eq!(
        tts.backend_status(VoiceModel::VibeVoice, TtsPrecision::F16, MAC),
        "VibeVoice 1.5B requires auto precision because it now runs only through the MLX backend."
    );
    assert_eq!(
        tts.backend_status(VoiceModel::VibeVoice, TtsPrecision::Auto, MAC),
        "MLX runtime missing. DevVoice will provision it automatically on first 1.5B use."
    );
    assert_eq!(
        tts.backend_status(VoiceModel::VibeVoice, TtsPrecision::Auto, READY),
        "MLX installed, waiting for warmup."
    );
    tts.vibevoice_runtime_label = Some("python:mlx".to_owned());
    assert_eq!(
        tts.backend_status(VoiceModel::VibeVoice, TtsPrecision::Auto, READY),
        "MLX ready on python:mlx"
    );
    assert_eq!(
        tts.loaded_runtime_label(VoiceModel::VibeVoice, TtsPrecision::Auto, MAC).as_deref(),
        Some("python:mlx")
    );
}

#[test]
fn the_mlx_runtime_is_provisioned() {
    let tts = service();
    assert!(matches!(
        tts.ensure_vibevoice_mlx_runtime(TtsPrecision::Auto, OTHER),
        MlxReadiness::Refused(reason) if reason.starts_with("VibeVoice 1.5B now requires macOS")
    ));
    assert!(matches!(
        tts.ensure_vibevoice_mlx_runtime(TtsPrecision::F32, READY),
        MlxReadiness::Refused(reason) if reason.starts_with("VibeVoice 1.5B now requires auto")
    ));
    assert!(matches!(
        tts.ensure_vibevoice_mlx_runtime(TtsPrecision::Auto, READY),
        MlxReadiness::Ready
    ));
    assert!(matches!(
        tts.ensure_vibevoice_mlx_runtime(TtsPrecision::Auto, MAC),
        MlxReadiness::Provision(dir) if dir == "/data"
    ));
    assert!(matches!(
        TtsService::new("/".to_owned()).ensure_vibevoice_mlx_runtime(TtsPrecision::Auto, MAC),
        MlxReadiness::Refused(reason) if reason == "determine DevVoice data directory"
    ));
    assert_eq!(tts.mlx_runtime_provisioned(READY), Ok(()));
    assert!(tts.mlx_runtime_provisioned(MAC).unwrap_err().contains("still not found"));
    assert_eq!(
        tts.vibevoice_mlx_python_path(READY).as_deref(),
        Some("/data/vibevoice-mlx-venv/bin/python")
    );
    assert_eq!(tts.vibevoice_mlx_python_path(OTHER), None);
    assert_eq!(tts.data_dir(), Ok("/data".to_owned()));
}

#[test]
fn warming_up_takes_the_right_way() {
    let mut tts = service();
    assert!(matches!(
        tts.warmup(VoiceModel::VibeVoice, TtsPrecision::Auto, READY),
        WarmupRoute::Worker(MlxReadiness::Ready)
    ));
    assert!(matches!(
        tts.warmup(VoiceModel::Kokoro, TtsPrecision::Auto, READY),
        WarmupRoute::Model(cell) if cell.id == 0
    ));
    let info = loaded_warmup(&loaded("cpu (f32)"), 7);
    assert_eq!(info.voices, vec!["v"]);
    assert_eq!((info.warmed_inference, info.warmup_duration_ms), (false, 7));
    assert_eq!(info.runtime_label, "cpu (f32)");
}

#[test]
fn selections_are_captured() {
    assert_eq!(captured_selection(Ok(" chosen \n".to_owned())).unwrap().raw, "chosen");
    assert_eq!(
        captured_selection(Ok("  ".to_owned())).unwrap_err(),
        "No highlighted text was detected in the active application."
    );
    assert_eq!(
        captured_selection(Err("denied".to_owned())).unwrap_err(),
        "capture selected text from the active app: denied"
    );
    assert_eq!(ensure_accessibility(true, false), Ok(()));
    assert_eq!(ensure_accessibility(false, true), Ok(()));
    assert!(ensure_accessibility(false, false).unwrap_err().starts_with("DevVoice needs Accessibility"));
}

#[test]
fn the_log_has_a_place() {
    assert_eq!(log_file_path(Some("/home/u")), "/home/u/Library/Logs/DevVoice/devvoice.log");
    assert_eq!(log_file_path(None), "./Library/Logs/DevVoice/devvoice.log");
}

#[test]
fn precision_decides_the_number_format() {
    assert_eq!(requested_dtype(VoiceModel::Kokoro, TtsPrecision::Auto), Dtype::F16);
    assert_eq!(requested_dtype(VoiceModel::ParlerTts, TtsPrecision::Auto), Dtype::F32);
    assert_eq!(requested_dtype(VoiceModel::ParlerTts, TtsPrecision::BF16), Dtype::BF16);
    assert_eq!(requested_dtype(VoiceModel::Kokoro, TtsPrecision::F32), Dtype::F32);
}

#[test]
fn runtimes_are_labelled() {
    assert_eq!(runtime_label(Device::Metal(0), Dtype::F16), "metal:0 (f16)");
    assert_eq!(runtime_label(Device::Metal(12), Dtype::BF16), "metal:12 (bf16)");
    assert_eq!(runtime_label(Device::Cpu, Dtype::F32), "cpu (f32)");
    assert_eq!(parler_runtime_label(Dtype::F32), "metal:0 (f32)");
}

#[test]
fn load_plans_fall_back() {
    let plan = load_selected_model(VoiceModel::Kokoro, TtsPrecision::Auto);
    assert_eq!((plan.device, plan.dtype), (Device::Metal(0), Dtype::F16));
    assert_eq!(plan.failure_context(), "load Kokoro-82M on metal:0 (f16)");
    let next = plan.after_failure().unwrap();
    assert_eq!(next.dtype, Dtype::F32);
    assert_eq!(next.after_failure(), None);
    assert_eq!(load_selected_model(VoiceModel::Kokoro, TtsPrecision::F16).after_failure(), None);
    let plan = load_selected_model(VoiceModel::VibeVoice, TtsPrecision::Auto);
    assert_eq!((plan.device, plan.dtype), (Device::Cpu, Dtype::F32));
    let plan = load_selected_model(VoiceModel::VibeVoice, TtsPrecision::F16);
    assert_eq!((plan.device, plan.after_failure()), (Device::Metal(0), None));
    assert_eq!(hf_model_id(VoiceModel::ParlerTts), "parler-tts/parler-tts-mini-v1");
    assert_eq!(model_dir("/assets", VoiceModel::Kokoro), "/assets/kokoro-82m");
}

fn run_snapshot(
    model: VoiceModel,
    there: &[&str],
    fails: &[&str],
) -> (Vec<String>, Result<String, String>) {
    let mut log = Vec::new();
    let (mut job, action) = SnapshotJob::prepare_snapshot(model, "/assets");
    let mut action = action;
    loop {
        action = match action {
            SnapshotAction::Check(path) => {
                let found = there.iter().any(|name| path.ends_with(name))
                    || log.iter().any(|done: &String| path.ends_with(done.as_str()));
                job.advance(SnapshotEvent::Exists(found))
            }
            SnapshotAction::Fetch { owner, repo, target, local_dir } => {
                assert!(local_dir.starts_with("/assets/"));
                let what = match target {
                    Target::File(name) => name,
                    Target::Matching(pattern) => pattern,
                };
                let id = format!("{owner}/{repo}/{what}");
                if fails.contains(&id.as_str()) {
                    job.advance(SnapshotEvent::Fetched(Err("404".to_owned())))
                } else {
                    log.push(what.to_owned());
                    job.advance(SnapshotEvent::Fetched(Ok(())))
                }
            }
            SnapshotAction::FetchVoice { url, destination } => {
                assert!(url.starts_with(snapshots::VOICE_PRESET_BASE_URL));
                assert!(destination.starts_with("/assets/vibevoice-realtime-0.5b/voices/"));
                log.push(destination.rsplit('/').next().unwrap().to_owned());
                job.advance(SnapshotEvent::Fetched(Ok(())))
            }
            SnapshotAction::Finished(dir) => return (log, Ok(dir)),
            SnapshotAction::Failed(error) => return (log, Err(error)),
        };
    }
}

#[test]
fn realtime_files_are_fetched() {
    let (log, outcome) = run_snapshot(VoiceModel::VibeVoiceRealtime, &["en-Mike_man.pt"], &[]);
    assert_eq!(outcome, Ok("/assets/vibevoice-realtime-0.5b".to_owned()));
    assert_eq!(
        log,
        vec![
            "config.json",
            "model.safetensors",
            "preprocessor_config.json",
            "voices/*.pt",
            "tokenizer.json",
            "en-Emma_woman.pt",
            "en-Grace_woman.pt",
            "en-Davis_man.pt",
            "en-Frank_man.pt",
            "en-Carter_man.pt",
            "in-Samuel_man.pt",
        ]
    );
    let (_, outcome) = run_snapshot(
        VoiceModel::VibeVoiceRealtime,
        &[],
        &["microsoft/VibeVoice-Realtime-0.5B/model.safetensors"],
    );
    assert_eq!(outcome, Err("download VibeVoice Realtime model.safetensors".to_owned()));
}

#[test]
fn vibevoice_files_have_substitutes() {
    let (log, outcome) = run_snapshot(
        VoiceModel::VibeVoice,
        &[],
        &[
            "microsoft/VibeVoice-1.5B/model.safetensors",
            "microsoft/VibeVoice-1.5B/preprocessor_config.json",
            "microsoft/VibeVoice-1.5B/tokenizer.json",
        ],
    );
    assert_eq!(outcome, Ok("/assets/vibevoice-1.5b".to_owned()));
    assert_eq!(log, vec!["config.json", "model-*.safetensors", "tokenizer.json"]);
    let (log, _) = run_snapshot(VoiceModel::VibeVoice, &["tokenizer.json"], &[]);
    assert_eq!(log, vec!["config.json", "model.safetensors", "preprocessor_config.json"]);
}

#[test]
fn kokoro_and_parler_files_are_fetched() {
    let (log, outcome) =
        run_snapshot(VoiceModel::Kokoro, &[], &["hexgrad/Kokoro-82M/model.safetensors"]);
    assert_eq!(log, vec!["config.json", "*.pth", "voices/*.pt"]);
    assert_eq!(outcome, Ok("/assets/kokoro-82m".to_owned()));
    let (log, _) = run_snapshot(VoiceModel::ParlerTts, &["config.json"], &[]);
    assert_eq!(log, vec!["tokenizer.json", "model.safetensors"]);
    let (_, outcome) = run_snapshot(
        VoiceModel::ParlerTts,
        &[],
        &["parler-tts/parler-tts-mini-v1/tokenizer.json"],
    );
    assert_eq!(outcome, Err("download Parler-TTS asset tokenizer.json".to_owned()));
}

#[test]
fn a_missing_asset_is_reported() {
    let (mut job, mut action) = SnapshotJob::prepare_snapshot(VoiceModel::Kokoro, "/assets");
    let error = loop {
        action = match action {
            SnapshotAction::Fetch { .. } => job.advance(SnapshotEvent::Fetched(Ok(()))),
            SnapshotAction::Check(_) => job.advance(SnapshotEvent::Exists(false)),
            SnapshotAction::Failed(error) => break error,
            _ => unreachable!(),
        };
    };
    assert_eq!(error, "Missing required model asset: /assets/kokoro-82m/config.json");
    assert_eq!(snapshots::cache_root("/assets"), "/assets/hf-cache");
    assert_eq!(snapshots::voice_preset_dir("/m"), "/m/voices");
}

#[test]
fn voices_are_chosen() {
    let voices: Vec<String> = ["en-Emma_woman", "Emma", "en-Mike_man"].map(str::to_owned).to_vec();
    assert_eq!(synthesis::resolve_voice(&voices, ""), Some("en-Emma_woman".to_owned()));
    assert_eq!(synthesis::resolve_voice(&voices, "EMMA"), Some("Emma".to_owned()));
    assert_eq!(synthesis::resolve_voice(&voices, "mike"), Some("en-Mike_man".to_owned()));
    assert_eq!(synthesis::resolve_voice(&voices, "nobody"), Some("en-Emma_woman".to_owned()));
    assert_eq!(synthesis::resolve_voice(&Vec::new(), "x"), None);
}

#[test]
fn parler_voices_are_described() {
    let names = synthesis::parler_voice_names();
    assert_eq!(names, vec!["senior_developer", "clear_female", "clear_male", "warm_narrator"]);
    for (name, start) in [
        ("senior_developer", "A calm speaker"),
        ("clear_female", "A female speaker"),
        ("clear_male", "A male speaker"),
        ("warm_narrator", "A warm narrator"),
        ("unknown", "A calm speaker"),
    ] {
        assert!(synthesis::parler_voice_description(Some(name)).starts_with(start));
    }
    assert!(synthesis::parler_voice_description(None).starts_with("A calm speaker"));
    let mut overrides = SpeechOverrides::default();
    overrides.style = Some("Slowly.".to_owned());
    assert!(synthesis::parler_request_description(Some("clear_male"), &overrides)
        .ends_with("easy to understand. Slowly."));
    overrides.description = Some("My voice.".to_owned());
    assert_eq!(synthesis::parler_request_description(None, &overrides), "My voice. Slowly.");
    overrides.style = None;
    assert_eq!(synthesis::parler_request_description(None, &overrides), "My voice.");
}

#[test]
fn requests_carry_the_settings_of_their_model() {
    let plain = SpeechOverrides::default();
    let request =
        synthesis::build_request("hi", VoiceModel::VibeVoiceRealtime, None, &plain, false);
    assert_eq!((request.text.as_str(), request.language.as_str()), ("hi", "en"));
    assert_eq!(request.instruct.as_deref(), Some(synthesis::STYLE_PROMPT));
    assert_eq!(request.temperature.map(|t| f64::from_bits(t.bits)), Some(0.15));
    let request = synthesis::build_request("hi", VoiceModel::VibeVoice, None, &plain, false);
    assert_eq!(request.cfg_scale.map(|t| f64::from_bits(t.bits)), Some(1.3));
    assert_eq!(request.temperature.map(|t| f64::from_bits(t.bits)), Some(0.0));
    assert_eq!(request.max_tokens, Some(32));
    assert!(matches!(request.seed, VoiceSeed::Unset));
    let mut overrides = SpeechOverrides::default();
    overrides.reference_audio_path = Some("/a.wav".to_owned());
    overrides.cfg_scale = Some(Real64 { bits: 2.0f64.to_bits() });
    let request = synthesis::build_request("hi", VoiceModel::VibeVoice, None, &overrides, false);
    assert!(matches!(request.seed, VoiceSeed::AudioFile(path) if path == "/a.wav"));
    assert_eq!(request.cfg_scale, overrides.cfg_scale);
    let request = synthesis::build_request("hi", VoiceModel::VibeVoice, None, &overrides, true);
    assert!(matches!(request.seed, VoiceSeed::Embedding));
    let voice = Some("af_heart".to_owned());
    let request = synthesis::build_request("hi", VoiceModel::Kokoro, voice, &plain, false);
    assert_eq!(request.voice.as_deref(), Some("af_heart"));
    assert_eq!((request.temperature, request.max_tokens, request.instruct), (None, None, None));
}

#[test]
fn loaded_models_are_asked() {
    let voices = synthesis::parler_voice_names();
    let mut overrides = SpeechOverrides::default();
    overrides.voice_preset = Some("clear_male".to_owned());
    let plan = synthesis::synthesize_with_loaded(
        "hi",
        VoiceModel::ParlerTts,
        "warm_narrator",
        &overrides,
        &voices,
    );
    assert_eq!(plan.voice.as_deref(), Some("clear_male"));
    assert!(matches!(plan.call, SynthesisCall::Parler { text, description }
        if text == "hi" && description == synthesis::CLEAR_MALE));
    assert!(matches!(plan.embedding, EmbeddingSource::Unset));
    overrides.reference_preset_name = Some("me".to_owned());
    let plan =
        synthesis::synthesize_with_loaded("hi", VoiceModel::VibeVoice, "", &overrides, &voices);
    assert!(matches!(plan.embedding, EmbeddingSource::ByName(name) if name == "me"));
    overrides.reference_preset_id = Some("me-1".to_owned());
    let plan =
        synthesis::synthesize_with_loaded("hi", VoiceModel::VibeVoice, "", &overrides, &voices);
    assert!(matches!(plan.embedding, EmbeddingSource::ById(id) if id == "me-1"));
    assert!(matches!(plan.call, SynthesisCall::Request(request)
        if matches!(request.seed, VoiceSeed::Embedding)));
    assert_eq!(
        synthesis::synthesis_context(VoiceModel::Kokoro),
        "synthesize speech with Kokoro-82M"
    );
}

#[test]
fn texts_take_the_right_way() {
    let mut overrides = SpeechOverrides::default();
    overrides.style = Some(" s ".to_owned());
    let route = synthesis::synthesize("The  GPU", VoiceModel::VibeVoice, &overrides);
    assert_eq!(route.spoken_text, "The G P U");
    assert_eq!(route.overrides.style.as_deref(), Some("s"));
    assert!(route.through_worker);
    assert!(!synthesis::synthesize("x", VoiceModel::Kokoro, &overrides).through_worker);
}

#[test]
fn only_vibevoice_is_tried_again() {
    let runtime = SynthesisFailure::Runtime("boom".to_owned());
    let prepare = SynthesisFailure::Prepare("bad".to_owned());
    assert!(runtime.is_runtime() && !prepare.is_runtime());
    let again = |model, precision, label: &str, failure: &SynthesisFailure| {
        synthesis::falls_back_to_cpu(model, precision, label, failure)
    };
    assert!(again(VoiceModel::VibeVoice, TtsPrecision::Auto, "metal:0 (f16)", &runtime));
    assert!(!again(VoiceModel::VibeVoice, TtsPrecision::Auto, "cpu (f32)", &runtime));
    assert!(!again(VoiceModel::VibeVoice, TtsPrecision::F16, "metal:0 (f16)", &runtime));
    assert!(!again(VoiceModel::VibeVoice, TtsPrecision::Auto, "metal:0 (f16)", &prepare));
    assert!(!again(VoiceModel::Kokoro, TtsPrecision::Auto, "metal:0 (f16)", &runtime));
    assert_eq!(runtime.into_error(), "boom");
    assert_eq!(prepare.into_error(), "bad");
}

fn preset(name: &str, id: &str, created: u64) -> VibeVoicePresetInfo {
    VibeVoicePresetInfo {
        id: id.to_owned(),
        name: name.to_owned(),
        source_audio_path: "/x.wav".to_owned(),
        clip_duration_secs: Real32 { bits: 1.5f32.to_bits() },
        sample_rate: 24_000,
        created_at_unix_secs: created,
    }
}

fn source(path: &str) -> PresetSource {
    PresetSource {
        path: path.to_owned(),
        clip_duration_secs: Real32 { bits: 2.0f32.to_bits() },
        sample_rate: 24_000,
        created_at_unix_secs: 1_716_420_000,
        created_at_millis: 1_716_420_000_123,
    }
}

#[test]
fn names_become_slugs() {
    for (name, slug) in [
        ("My Demo Voice", "my-demo-voice"),
        ("  --Ünïcode!! 42 ", "n-code-42"),
        ("***", "preset"),
        ("", "preset"),
        ("a_b.c", "a-b-c"),
    ] {
        assert_eq!(presets::slugify_preset_name(name), slug);
    }
    assert_eq!(presets::slugify_preset_name(&"x".repeat(60)), "x".repeat(48));
    let edge = format!("{} y", "x".repeat(47));
    assert_eq!(presets::slugify_preset_name(&edge), format!("{}-", "x".repeat(47)));
}

#[test]
fn names_are_compared_in_lower_case() {
    assert_eq!(presets::normalize_vibevoice_preset_name(" ÄB "), "äb");
    assert_eq!(presets::normalize_vibevoice_preset_name("ΑΣ"), "ας");
}

#[test]
fn names_are_unique() {
    let list = vec![preset("Alpha", "alpha-1", 1), preset("beta", "beta-2", 2)];
    assert_eq!(presets::ensure_unique_vibevoice_preset_name(&list, "gamma"), Ok(()));
    assert_eq!(
        presets::ensure_unique_vibevoice_preset_name(&list, " ALPHA ").unwrap_err(),
        "A VibeVoice preset named 'Alpha' already exists with id 'alpha-1'. Use a unique name."
    );
    assert_eq!(
        presets::ensure_unique_vibevoice_preset_name(&list, "  ").unwrap_err(),
        "Preset name cannot be empty."
    );
}

#[test]
fn presets_are_found_by_name() {
    let mut list = vec![preset("Alpha", "alpha-1", 1), preset("beta", "beta-2", 2)];
    assert_eq!(presets::find_vibevoice_preset_by_name(&list, "BETA "), Ok(1));
    assert_eq!(
        presets::find_vibevoice_preset_by_name(&list, " gamma ").unwrap_err(),
        "No VibeVoice preset named 'gamma' was found."
    );
    assert_eq!(
        presets::find_vibevoice_preset_by_name(&list, " ").unwrap_err(),
        "Preset name cannot be empty."
    );
    list.push(preset("Beta", "beta-3", 3));
    assert_eq!(
        presets::find_vibevoice_preset_by_name(&list, "beta").unwrap_err(),
        "Multiple VibeVoice presets named 'beta' were found. Use reference_preset_id instead."
    );
}

#[test]
fn ids_are_checked() {
    assert_eq!(presets::validate_vibevoice_preset_id(" a-B_9 "), Ok("a-B_9".to_owned()));
    assert_eq!(
        presets::validate_vibevoice_preset_id("  ").unwrap_err(),
        "Preset id cannot be empty."
    );
    assert_eq!(
        presets::validate_vibevoice_preset_id("../up").unwrap_err(),
        "Preset id must use only letters, numbers, hyphens, or underscores."
    );
    assert_eq!(presets::vibevoice_preset_path("/p", "a-1"), "/p/a-1.json");
    assert!(presets::is_preset_file("/p/a-1.json"));
    assert!(!presets::is_preset_file("/p/a-1.txt"));
    assert!(!presets::is_preset_file("/p/json"));
}

#[test]
fn presets_are_created_and_found_again() {
    let mut list = vec![preset("Alpha", "alpha-1", 1)];
    let plan =
        presets::create_vibevoice_preset("/assets", &source("/v/me.mp3"), Some(" My Voice "), &list)
            .unwrap();
    assert_eq!(plan.info.id, "my-voice-1716420000123");
    assert_eq!(plan.info.name, "My Voice");
    assert_eq!(
        plan.info.source_audio_path,
        "/assets/vibevoice-preset-audio/my-voice-1716420000123.mp3"
    );
    assert_eq!(plan.preset_path, "/assets/vibevoice-presets/my-voice-1716420000123.json");
    assert_eq!(plan.info.created_at_unix_secs, 1_716_420_000);
    assert_eq!(plan.info.sample_rate, 24_000);
    assert_eq!(presets::validate_vibevoice_preset_id(&plan.info.id), Ok(plan.info.id.clone()));
    list.push(plan.info.clone());
    assert_eq!(presets::find_vibevoice_preset_by_name(&list, "my voice"), Ok(1));
    let again =
        presets::create_vibevoice_preset("/assets", &source("/v/b.wav"), Some("MY VOICE"), &list);
    assert!(again.unwrap_err().contains("already exists with id 'my-voice-1716420000123'"));
}

#[test]
fn unnamed_presets_take_the_name_of_their_source() {
    assert_eq!(presets::new_preset_name("/v/me.mp3", None), "me");
    assert_eq!(presets::new_preset_name("/v/me.mp3", Some("  ")), "me");
    assert_eq!(presets::new_preset_name("/", None), "VibeVoice preset");
    assert_eq!(presets::preset_audio_path("/v/me", "/a", "id"), "/a/id.wav");
    assert_eq!(presets::preset_audio_path("/v/me. ", "/a", "id"), "/a/id.wav");
}

#[test]
fn the_newest_preset_comes_first() {
    let list = vec![
        preset("a", "1", 5),
        preset("b", "2", 9),
        preset("c", "3", 5),
        preset("d", "4", 1),
        preset("e", "5", 9),
    ];
    let sorted = presets::list_vibevoice_presets(list);
    let ids: Vec<&str> = sorted.iter().map(|p| p.id.as_str()).collect();
    assert_eq!(ids, vec!["2", "5", "1", "3", "4"]);
}

#[test]
fn reference_voices_are_resolved() {
    let mut overrides = SpeechOverrides::default();
    let resolve = presets::resolve_vibevoice_reference_audio_source;
    assert!(matches!(resolve(&overrides), ReferenceVoice::Unset));
    overrides.reference_preset_name = Some(" me ".to_owned());
    assert!(matches!(resolve(&overrides), ReferenceVoice::PresetName(name) if name == "me"));
    overrides.reference_preset_id = Some("me-1".to_owned());
    assert!(matches!(resolve(&overrides), ReferenceVoice::PresetId(id) if id == "me-1"));
    overrides.reference_audio_path = Some("  ".to_owned());
    assert!(matches!(resolve(&overrides), ReferenceVoice::PresetId(_)));
    overrides.reference_audio_path = Some("/a.wav".to_owned());
    assert!(matches!(resolve(&overrides), ReferenceVoice::AudioFile(path) if path == "/a.wav"));
}

#[test]
fn preset_voices_are_cached() {
    let mut kept: TextCache<u8> = TextCache::new();
    kept.insert("me-1".to_owned(), 7);
    assert!(matches!(
        presets::load_vibevoice_preset_embedding(&kept, "/assets", " me-1 "),
        Ok(PresetLookup::Cached(&7))
    ));
    assert!(matches!(
        presets::load_vibevoice_preset_embedding(&kept, "/assets", "you-2"),
        Ok(PresetLookup::Load { id, path })
            if id == "you-2" && path == "/assets/vibevoice-presets/you-2.json"
    ));
    assert!(presets::load_vibevoice_preset_embedding(&kept, "/assets", "a/b").is_err());
    assert_eq!(
        presets::load_vibevoice_preset_info_by_id("/assets", "me-1"),
        Ok("/assets/vibevoice-presets/me-1.json".to_owned())
    );
    assert!(presets::load_vibevoice_preset_info_by_id("/assets", "").is_err());
}

#[test]
fn reference_audio_is_brought_into_form() {
    let plan = presets::normalize_vibevoice_reference_audio(44_100, 24_000, true);
    assert_eq!((plan.resample_to, plan.normalize_loudness), (Some(24_000), true));
    let plan = presets::normalize_vibevoice_reference_audio(24_000, 24_000, false);
    assert_eq!((plan.resample_to, plan.normalize_loudness), (None, false));
}

#[test]
fn the_worker_is_warmed_up() {
    match mlx::warmup_request(Some("/ref.wav".to_owned())) {
        VibeVoiceMlxRequest::Warmup { text, reference_audio_path, cfg_scale, max_speech_tokens } => {
            assert_eq!(text, "Speaker 0: Warm up.");
            assert_eq!(reference_audio_path.as_deref(), Some("/ref.wav"));
            assert_eq!(f64::from_bits(cfg_scale.bits), 1.3);
            assert_eq!(max_speech_tokens, 32);
        }
        _ => unreachable!(),
    }
    let mut tts = service();
    let mut response =
        VibeVoiceMlxResponse { ok: true, runtime_label: None, output_path: None, error: None };
    let label = mlx::note_runtime(&mut tts, &response);
    assert_eq!(label, "python:mlx-int8:no-semantic");
    assert_eq!(tts.vibevoice_runtime_label.as_deref(), Some("python:mlx-int8:no-semantic"));
    response.runtime_label = Some("gpu".to_owned());
    assert_eq!(mlx::note_runtime(&mut tts, &response), "gpu");
    let info = mlx::warmed(label, 90);
    assert_eq!(info.voices, vec!["Speaker 0"]);
    assert!(info.warmed_inference);
}

#[test]
fn the_worker_is_asked_to_speak() {
    let mut overrides = SpeechOverrides::default();
    overrides.max_tokens = Some(900);
    let (request, path) = mlx::synthesize_with_vibevoice_mlx(
        "Speaker 0: hi",
        &overrides,
        Some("/ref.wav".to_owned()),
        "/assets",
        77,
    );
    assert_eq!(path, "/assets/mlx-output/vibevoice-mlx-77.wav");
    match request {
        VibeVoiceMlxRequest::Synthesize {
            text,
            reference_audio_path,
            output_path,
            cfg_scale,
            max_speech_tokens,
        } => {
            assert_eq!(text, "Speaker 0: hi");
            assert_eq!(reference_audio_path.as_deref(), Some("/ref.wav"));
            assert_eq!(output_path, path);
            assert_eq!(f64::from_bits(cfg_scale.bits), 1.3);
            assert_eq!(max_speech_tokens, 32);
        }
        _ => unreachable!(),
    }
    let mut response =
        VibeVoiceMlxResponse { ok: true, runtime_label: None, output_path: None, error: None };
    assert_eq!(mlx::returned_output_path(&response, &path), path);
    response.output_path = Some("/else.wav".to_owned());
    assert_eq!(mlx::returned_output_path(&response, &path), "/else.wav");
}

#[test]
fn a_silent_worker_is_replaced_once() {
    let (exchange, step) = MlxExchange::begin(false, true);
    assert_eq!(exchange.stage, ExchangeStage::Over);
    assert!(matches!(step, ExchangeStep::Failed(error)
        if error == "VibeVoice MLX is unavailable because the Python runtime was not found."));
    assert!(matches!(MlxExchange::begin(true, false).1, ExchangeStep::StartAndSend));

    let (mut exchange, step) = MlxExchange::begin(true, true);
    assert!(matches!(step, ExchangeStep::Send));
    let step = exchange.send_vibevoice_mlx_request(Err("eof".to_owned()));
    assert!(matches!(step, ExchangeStep::StartAndSend));
    assert_eq!(exchange.stage, ExchangeStage::Second);
    let step = exchange.send_vibevoice_mlx_request(Err("gone".to_owned()));
    assert!(matches!(step, ExchangeStep::Failed(error) if error == "gone"));
    assert_eq!(exchange.stage, ExchangeStage::Over);

    let answer = |ok: bool, error: Option<&str>| VibeVoiceMlxResponse {
        ok,
        runtime_label: None,
        output_path: None,
        error: error.map(str::to_owned),
    };
    let reply = |silent_before: bool, response: VibeVoiceMlxResponse| {
        let (mut exchange, _) = MlxExchange::begin(true, true);
        if silent_before {
            exchange.send_vibevoice_mlx_request(Err("eof".to_owned()));
        }
        let step = exchange.send_vibevoice_mlx_request(Ok(response));
        assert_eq!(exchange.stage, ExchangeStage::Over);
        step
    };
    assert!(matches!(reply(false, answer(true, None)), ExchangeStep::Done(_)));
    assert!(matches!(reply(true, answer(true, None)), ExchangeStep::Done(_)));
    assert!(matches!(reply(false, answer(false, Some("oom"))),
        ExchangeStep::Failed(error) if error == "VibeVoice MLX worker error: oom"));
    assert!(matches!(reply(true, answer(false, None)),
        ExchangeStep::Failed(error) if error == "VibeVoice MLX worker error: unknown worker error"));
    assert_eq!(mlx::reply_line(4, "{} \n", ""), Ok("{}".to_owned()));
    assert_eq!(
        mlx::reply_line(0, "", "Some(1)"),
        Err("VibeVoice MLX worker exited before replying: Some(1)".to_owned())
    );
}

#[test]
fn the_worker_has_a_script() {
    assert_eq!(
        mlx::worker_arguments("/d/w.py"),
        vec!["-u", "/d/w.py", "--model", "gafiatulin/vibevoice-1.5b-mlx"]
    );
    assert_eq!(
        mlx::worker_script_path("/data/tts-assets"),
        Ok("/data/vibevoice-mlx-worker.py".to_owned())
    );
    assert_eq!(
        mlx::worker_script_path(""),
        Err("determine DevVoice data directory for MLX worker".to_owned())
    );
    assert!(mlx::script_needs_write(None, "x"));
    assert!(mlx::script_needs_write(Some("y"), "x"));
    assert!(!mlx::script_needs_write(Some("x"), "x"));
}

#[test]
fn the_runtime_is_set_up_step_by_step() {
    let (mut job, step) = SetupJob::provision_vibevoice_mlx_runtime("/data", true);
    let mut commands = Vec::new();
    let mut step = step;
    let ready = loop {
        step = match step {
            SetupStep::Run(command) => {
                let probe = commands.is_empty();
                commands.push(format!("{} {}", command.program, command.arguments.join(" ")));
                job.advance(if probe { Err("broken".to_owned()) } else { Ok(()) })
            }
            SetupStep::Ready(path) => break path,
            SetupStep::Failed(_) => unreachable!(),
        };
    };
    assert_eq!(ready, "/data/vibevoice-mlx-venv/bin/python");
    assert_eq!(
        commands,
        vec![
            "/data/vibevoice-mlx-venv/bin/python -c import vibevoice_mlx, scipy".to_owned(),
            "python3 -m venv /data/vibevoice-mlx-venv".to_owned(),
            "/data/vibevoice-mlx-venv/bin/python -m pip install --upgrade pip".to_owned(),
            format!(
                "/data/vibevoice-mlx-venv/bin/python -m pip install {} scipy",
                mlx::MLX_INSTALL_SPEC
            ),
            "/data/vibevoice-mlx-venv/bin/python -c import vibevoice_mlx, scipy".to_owned(),
        ]
    );
    assert_eq!(service().mlx_python_location(), Some(ready));
    let (mut job, _) = SetupJob::provision_vibevoice_mlx_runtime("/data", false);
    assert!(matches!(job.advance(Err("no python".to_owned())),
        SetupStep::Failed(error) if error == "no python"));
    let (mut job, _) = SetupJob::provision_vibevoice_mlx_runtime("/data", true);
    assert!(matches!(job.advance(Ok(())), SetupStep::Ready(_)));
}

#[test]
fn failed_commands_are_reported() {
    let outcome = |success: bool, err: &[u8], out: &[u8]| {
        mlx::command_outcome("do it", success, &err.to_vec(), &out.to_vec(), "exit status: 1")
    };
    assert_eq!(outcome(true, b"noise", b""), Ok(()));
    assert_eq!(outcome(false, b" bad \n", b"out"), Err("Failed to do it: bad".to_owned()));
    assert_eq!(outcome(false, b" ", b"out\n"), Err("Failed to do it: out".to_owned()));
    assert_eq!(
        outcome(false, b"", b""),
        Err("Failed to do it: process exited with status exit status: 1".to_owned())
    );
    assert_eq!(
        outcome(false, &[0x66, 0xFF, 0xC3, 0xA9], b""),
        Err("Failed to do it: f\u{FFFD}é".to_owned())
    );
    assert_eq!(mlx::start_context("do it"), "start command to do it");
}

#[test]
fn texts_are_sent_to_be_rewritten() {
    let provider =
        GeminiProvider::new("key".to_owned(), "gemini-x".to_owned(), "Be brief.".to_owned());
    let call = provider.rewrite("the text").unwrap();
    assert_eq!(
        call.url,
        "https://generativelanguage.googleapis.com/v1beta/models/gemini-x:generateContent?key=key"
    );
    let system = call.request.system_instruction.unwrap();
    assert_eq!((system.role.as_str(), system.parts[0].text.as_str()), ("system", "Be brief."));
    assert_eq!(call.request.generation_config.max_output_tokens, 8000);
    assert_eq!(call.request.contents.len(), 1);
    let content = &call.request.contents[0];
    assert_eq!(content.role, "user");
    let parts: Vec<&str> = content.parts.iter().map(|p| p.text.as_str()).collect();
    assert_eq!(parts, vec![gemini::USER_CONTENT_PREFIX, "the text", gemini::USER_CONTENT_SUFFIX]);
    let keyless = GeminiProvider::new("  ".to_owned(), "m".to_owned(), "p".to_owned());
    assert_eq!(
        keyless.rewrite("x").unwrap_err(),
        "Gemini is enabled, but the API key is missing."
    );
}

fn answer(parts: Vec<Option<&str>>) -> GenerateContentResponse {
    let parts = parts
        .into_iter()
        .map(|text| CandidatePart { text: text.map(str::to_owned) })
        .collect();
    GenerateContentResponse {
        candidates: Some(vec![Candidate { content: Some(CandidateContent { parts }) }]),
        error: None,
    }
}

#[test]
fn answers_are_read() {
    assert_eq!(
        gemini::read_response(&answer(vec![Some(" one "), None, Some("two ")])),
        Ok("one two".to_owned())
    );
    assert_eq!(
        gemini::read_response(&answer(vec![Some("  "), None])).unwrap_err(),
        "Gemini returned an empty response."
    );
    let bare = |candidates, error| GenerateContentResponse { candidates, error };
    assert_eq!(
        gemini::read_response(&bare(None, None)).unwrap_err(),
        "Gemini returned no candidates."
    );
    assert_eq!(
        gemini::read_response(&bare(Some(Vec::new()), None)).unwrap_err(),
        "Gemini returned no candidates."
    );
    assert_eq!(
        gemini::read_response(&bare(Some(vec![Candidate { content: None }]), None)).unwrap_err(),
        "Gemini returned no content."
    );
    let quota = ApiError { message: Some("quota".to_owned()) };
    assert_eq!(
        gemini::read_response(&bare(None, Some(quota))).unwrap_err(),
        "Gemini request failed: quota"
    );
    let silent = ApiError { message: None };
    assert_eq!(
        gemini::read_response(&bare(None, Some(silent))).unwrap_err(),
        "Gemini returned no candidates."
    );
}

#[test]
fn refused_requests_are_reported() {
    let envelope = ErrorEnvelope { error: Some(ApiError { message: Some("denied".to_owned()) }) };
    assert_eq!(gemini::refused(Some(envelope), "{}"), "Gemini request failed: denied");
    assert_eq!(gemini::refused(None, "oops"), "Gemini request failed: oops");
    let bare = ErrorEnvelope { error: None };
    assert_eq!(gemini::refused(Some(bare), "oops"), "Gemini request failed: oops");
}

#[test]
fn only_a_successful_reply_gives_a_text() {
    let denied =
        || Some(ErrorEnvelope { error: Some(ApiError { message: Some("denied".to_owned()) }) });
    let good = || Ok(answer(vec![Some(" one ")]));
    for status in [200, 204, 299] {
        assert_eq!(gemini::answered(status, denied(), "{}", good()), Ok("one".to_owned()));
    }
    for status in [100, 199, 300, 404, 500] {
        assert_eq!(
            gemini::answered(status, denied(), "{}", good()).unwrap_err(),
            "Gemini request failed: denied"
        );
        assert_eq!(
            gemini::answered(status, None, "oops", good()).unwrap_err(),
            "Gemini request failed: oops"
        );
    }
    assert_eq!(
        gemini::answered(200, None, "oops", Err("expected value".to_owned())).unwrap_err(),
        "expected value"
    );
    assert_eq!(
        gemini::answered(200, None, "{}", Ok(answer(vec![Some(" ")]))).unwrap_err(),
        "Gemini returned an empty response."
    );
}

#[test]
fn the_icon_shows_the_status() {
    assert_eq!(tray_icon(AppStatus::Idle), (rgba(0, 0, 0, 255), true));
    assert_eq!(tray_icon(AppStatus::Ready), (rgba(0, 0, 0, 255), true));
    assert_eq!(tray_icon(AppStatus::Speaking), (rgba(34, 197, 94, 255), false));
    assert_eq!(tray_icon(AppStatus::Error), (rgba(239, 68, 68, 255), false));
    assert_eq!(tray_icon(AppStatus::Synthesizing), (rgba(250, 204, 21, 255), false));
}

#[test]
fn the_menu_is_known_by_its_names() {
    let menu = build_tray();
    assert_eq!(menu.len(), 7);
    for command in &menu {
        assert_eq!(menu_event(command.id()), Some(*command));
    }
    assert_eq!(menu_event("open-log"), Some(MenuCommand::OpenLog));
    assert_eq!(menu_event("nothing"), None);
    assert_eq!(MenuCommand::SkipNext.label(), "Skip to Next Item");
    assert_eq!(menu[6].label(), "Quit");
    let lines: Vec<bool> = menu.iter().map(|command| command.is_behind_line()).collect();
    assert_eq!(lines, [false, false, false, false, false, false, true]);
}

#[test]
fn slugs_are_ids_with_single_dashes() {
    for name in ["My  --  Voice", "a__b", "-- x --", "\u{e9}", "one two three four five six seven eight nine ten el"] {
        let slug = presets::slugify_preset_name(name);
        assert!(!slug.contains("--"), "{slug:?}");
        assert_eq!(presets::validate_vibevoice_preset_id(&slug), Ok(slug.clone()));
    }
    assert_eq!(presets::slugify_preset_name("My  --  Voice"), "my-voice");
}

#[test]
fn only_blank_names_count_as_empty() {
    let list = vec![preset("Alpha", "alpha-1", 1)];
    for blank in ["", " ", "\t\n", "\u{3000}"] {
        assert_eq!(
            presets::ensure_unique_vibevoice_preset_name(&list, blank).unwrap_err(),
            "Preset name cannot be empty."
        );
        assert_eq!(
            presets::find_vibevoice_preset_by_name(&list, blank).unwrap_err(),
            "Preset name cannot be empty."
        );
    }
    assert_eq!(presets::ensure_unique_vibevoice_preset_name(&list, " . "), Ok(()));
}

#[test]
fn preset_files_lie_in_their_directory() {
    for dir in ["", "/", "/data", "/data/", "/data//", "data/.", "./", ".", "/.", "a/../b"] {
        let file = presets::vibevoice_preset_path(dir, "alpha-1");
        let parent = path_parent(&file).unwrap();
        assert_eq!(std::path::Path::new(&parent), std::path::Path::new(dir), "{file:?}");
        assert_eq!(path_stem(&file).as_deref(), Some("alpha-1"));
        assert_eq!(path_extension(&file).as_deref(), Some("json"));
        assert_ne!(file, presets::vibevoice_preset_path(dir, "alpha-2"));
    }
}
