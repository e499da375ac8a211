use devvoice::config::{AppConfig, ConfigStore, TtsPrecision, VoiceModel};
use devvoice::http_api;
use devvoice::playback::PlaybackController;
use devvoice::queue::{QueueSignal, QueuedSpeechRequest, SpeechQueue};
use devvoice::runtime::{
    active_status, key_status, needs_warmup, AppRuntime, KeyStatus, Observed, RuntimeState,
    ShortcutAction, HOTKEY_DOUBLE_PRESS_WINDOW,
};
use devvoice::speech_job::{cancelled_now, SpeechMode};
use devvoice::state::{AppStatus, SettingsInput, SpeechOverrides};
use devvoice::tts::{CaptureResult, Host, WarmupInfo};

fn start() -> AppRuntime {
    let (store, config) = ConfigStore::load("/conf", "/data", None);
    AppRuntime::load(store, config)
}

const HOST: Host = Host { macos: true, python_is_file: false };

fn seen(playback_empty: bool) -> Observed {
    Observed { playback_empty, api_key_present: false, host: HOST }
}

fn input_of(config: &AppConfig) -> SettingsInput {
    SettingsInput {
        gemini_enabled: config.gemini_enabled,
        gemini_model: config.gemini_model.clone(),
        gemini_prompt: config.gemini_prompt.clone(),
        voice_model: config.voice_model,
        voice_preset: config.voice_preset.clone(),
        default_chunk_size: config.default_chunk_size,
        tts_precision: config.tts_precision,
        shortcut: config.shortcut.clone(),
        api_key: None,
    }
}

fn request(words: &str) -> QueuedSpeechRequest {
    QueuedSpeechRequest { text: words.to_owned(), overrides: SpeechOverrides::default() }
}

#[test]
fn texts_leave_the_queue_in_order() {
    let mut queue = SpeechQueue::new();
    assert_eq!(queue.enqueue(request("a")), 1);
    assert_eq!(queue.enqueue(request("b")), 2);
    assert_eq!(queue.enqueue(request("c").clone()), 3);
    assert_eq!(queue.take_signals(), vec![QueueSignal::NewItem; 3]);
    assert_eq!(queue.take_signals(), Vec::new());
    assert_eq!(queue.pop().unwrap().text, "a");
    assert_eq!(queue.pop().unwrap().text, "b");
    assert_eq!(queue.len(), 1);
    assert_eq!(queue.pop().unwrap().text, "c");
    assert!(queue.pop().is_none());
}

#[test]
fn emptying_the_queue_invalidates_it() {
    let mut queue = SpeechQueue::new();
    queue.enqueue(request("a"));
    queue.generation = u64::MAX;
    queue.clear_and_invalidate();
    assert_eq!(queue.len(), 0);
    assert_eq!(queue.generation(), 0);
    assert_eq!(queue.current_item_token(), 1);
    assert_eq!(queue.take_signals(), vec![QueueSignal::NewItem, QueueSignal::Stop]);
    queue.skip_current_item();
    assert_eq!((queue.generation(), queue.current_item_token()), (0, 2));
}

#[test]
fn jobs_follow_one_another() {
    let mut player = PlaybackController::new();
    let first = player.begin_job();
    assert_eq!(first, 1);
    assert!(player.is_current_job(first));
    let second = player.begin_job();
    assert!(!player.is_current_job(first));
    assert!(player.is_current_job(second));
    player.stop();
    assert!(!player.is_current_job(second));
    assert!(player.toggle_pause(false));
    assert!(!player.toggle_pause(true));
}

#[test]
fn a_start_is_idle() {
    let app = start();
    let shown = app.snapshot(seen(true));
    assert_eq!(shown.status, AppStatus::Idle);
    assert_eq!(shown.status_detail, "Ready to queue selected text.");
    assert_eq!(shown.queue_length, 0);
    assert!(!shown.can_skip);
    assert!(!shown.model_ready);
    assert_eq!(shown.last_error, None);
    assert_eq!(shown.model_instructions.model_label, "VibeVoice Realtime 0.5B");
    assert_eq!(shown.tts_backend_status, "VibeVoice Realtime 0.5B uses the built-in Rust backend.");
    assert_eq!(app.tts.asset_root, "/data/tts-assets");
    assert!(app.snapshot(seen(false)).can_skip);
    assert_eq!(format!("{:?}", RuntimeState::default()), format!("{:?}", app.runtime));
}

#[test]
fn typed_texts_are_queued() {
    let mut app = start();
    assert_eq!(app.enqueue_manual_text("  Hello  ", true), Ok(1));
    assert_eq!(app.runtime.status, AppStatus::Ready);
    assert_eq!(app.runtime.status_detail, "Queued 1 item for playback.");
    assert_eq!(app.runtime.last_selection.as_deref(), Some("Hello"));
    assert_eq!(app.enqueue_manual_text("Again", true), Ok(2));
    assert_eq!(app.runtime.status_detail, "Queued 2 items for playback.");
    let updates = app.take_updates();
    assert_eq!(updates.len(), 4);
    assert_eq!(updates[0].tray, None);
    assert_eq!(updates[0].queue_length, 0);
    assert_eq!(updates[1].tray, Some(AppStatus::Ready));
    assert_eq!(updates[1].queue_length, 1);
    assert_eq!(app.take_updates().len(), 0);
}

#[test]
fn blank_texts_are_refused() {
    let mut app = start();
    assert_eq!(app.enqueue_manual_text(" \n ", true), Err("Enter text to queue.".to_owned()));
    assert_eq!(app.runtime.status, AppStatus::Error);
    assert_eq!(app.runtime.last_error.as_deref(), Some("Enter text to queue."));
    assert_eq!(
        app.enqueue_text("  ", SpeechOverrides::default(), false, true),
        Err("No text was provided.".to_owned())
    );
    assert_eq!(app.runtime.status_detail, "No text was provided.");
    assert_eq!(app.speech_queue.len(), 0);
    assert_eq!(app.enqueue_manual_text("fine", true), Ok(1));
    assert_eq!(app.runtime.last_error, None);
}

#[test]
fn a_busy_application_keeps_its_status() {
    let mut app = start();
    app.mark_status(AppStatus::Speaking, "Speaking with x.".to_owned());
    assert_eq!(app.enqueue_manual_text("next", true), Ok(1));
    assert_eq!(app.runtime.status, AppStatus::Speaking);
    app.mark_status(AppStatus::Ready, "r".to_owned());
    assert_eq!(app.enqueue_manual_text("next", false), Ok(2));
    assert_eq!(app.runtime.status_detail, "r");
}

#[test]
fn unsupported_requests_are_not_queued() {
    let mut app = start();
    let mut overrides = SpeechOverrides::default();
    overrides.description = Some("deep".to_owned());
    let error = app.enqueue_text("x", overrides, false, true).unwrap_err();
    assert!(error.starts_with("VibeVoice Realtime supports"));
    assert_eq!(app.speech_queue.len(), 0);
    assert_eq!(app.runtime.status, AppStatus::Idle);
    assert_eq!(app.take_updates().len(), 0);
}

#[test]
fn queued_texts_are_clean() {
    let mut app = start();
    let mut overrides = SpeechOverrides::default();
    overrides.style = Some("  calm ".to_owned());
    overrides.description = Some("   ".to_owned());
    assert_eq!(app.enqueue_text("  hi ", overrides, false, true), Ok(1));
    let queued = app.speech_queue.pop().unwrap();
    assert_eq!(queued.text, "hi");
    assert_eq!(queued.overrides.style.as_deref(), Some("calm"));
    assert_eq!(queued.overrides.description, None);
}

#[test]
fn selections_are_queued() {
    let mut app = start();
    app.begin_capture();
    assert_eq!(app.runtime.status, AppStatus::CapturingSelection);
    assert!(app.is_active());
    let captured = Ok(CaptureResult { raw: "chosen".to_owned() });
    assert_eq!(app.enqueue_selection(captured, true), Ok(1));
    assert_eq!(app.runtime.last_selection.as_deref(), Some("chosen"));
    assert_eq!(
        app.enqueue_selection(Err("no access".to_owned()), true),
        Err("no access".to_owned())
    );
    assert_eq!(app.runtime.last_error.as_deref(), Some("no access"));
}

#[test]
fn stopping_cancels_everything() {
    let mut app = start();
    let job = app.speak_manual_text();
    let direct = SpeechMode::Direct(job);
    assert_eq!(app.enqueue_manual_text("waiting", true), Ok(1));
    let queued = SpeechMode::Queued {
        queue_gen: app.speech_queue.generation(),
        item_token: app.speech_queue.current_item_token(),
    };
    assert!(!cancelled_now(direct, &app) && !cancelled_now(queued, &app));
    app.stop_playback();
    assert!(cancelled_now(direct, &app) && cancelled_now(queued, &app));
    assert_eq!(app.speech_queue.len(), 0);
    assert_eq!(app.runtime.status_detail, "Playback stopped.");
}

#[test]
fn skipping_keeps_what_waits() {
    let mut app = start();
    assert!(!app.skip_current_item(true));
    assert_eq!(app.runtime.status_detail, "Nothing is queued right now.");
    assert_eq!(app.enqueue_manual_text("waiting", false), Ok(1));
    let mode = SpeechMode::Queued {
        queue_gen: app.speech_queue.generation(),
        item_token: app.speech_queue.current_item_token(),
    };
    assert!(app.skip_current_item(false));
    assert!(cancelled_now(mode, &app));
    assert_eq!(app.speech_queue.len(), 1);
    assert_eq!(
        app.runtime.status_detail,
        "Skipping the current message and continuing with the queue."
    );
    app.speech_queue.pop();
    app.mark_status(AppStatus::Synthesizing, "s".to_owned());
    assert!(app.skip_current_item(true));
    assert_eq!(app.runtime.status_detail, "Skipped the current message. Queue is empty.");
}

#[test]
fn two_presses_skip() {
    let mut app = start();
    app.mark_status(AppStatus::Speaking, "s".to_owned());
    assert_eq!(app.handle_shortcut(1_000, true), ShortcutAction::AwaitSecondPress(1));
    let second = 1_000 + HOTKEY_DOUBLE_PRESS_WINDOW;
    assert_eq!(app.handle_shortcut(second, true), ShortcutAction::EmptyPlayer);
    assert!(!app.consume_pending_hotkey_press(1));
    assert_eq!(app.runtime.status, AppStatus::Ready);
    assert_eq!(app.handle_shortcut(second, true), ShortcutAction::AwaitSecondPress(2));
    assert_eq!(app.handle_shortcut(second, true), ShortcutAction::Nothing);
}

#[test]
fn one_press_counts_once() {
    let mut app = start();
    assert_eq!(app.handle_shortcut(0, true), ShortcutAction::AwaitSecondPress(1));
    let late = HOTKEY_DOUBLE_PRESS_WINDOW + 1;
    assert_eq!(app.handle_shortcut(late, true), ShortcutAction::AwaitSecondPress(2));
    assert!(!app.consume_pending_hotkey_press(1));
    assert!(app.consume_pending_hotkey_press(2));
    assert!(!app.consume_pending_hotkey_press(2));
    assert_eq!(app.handle_shortcut(10, true), ShortcutAction::AwaitSecondPress(3));
    app.clear_pending_hotkey_press();
    assert!(!app.consume_pending_hotkey_press(3));
}

#[test]
fn pausing_is_shown() {
    let mut app = start();
    assert!(app.toggle_pause_playback(false));
    assert!(app.runtime.playback_paused);
    assert_eq!(app.runtime.status, AppStatus::Speaking);
    assert_eq!(app.runtime.status_detail, "Playback paused.");
    assert!(!app.toggle_pause_playback(true));
    assert_eq!(app.runtime.status_detail, "Playback resumed.");
}

#[test]
fn the_end_of_playback_is_noticed() {
    let mut app = start();
    app.watch_playback(true);
    assert_eq!(app.runtime.status, AppStatus::Idle);
    app.mark_status(AppStatus::Speaking, "s".to_owned());
    app.watch_playback(false);
    assert_eq!(app.runtime.status, AppStatus::Speaking);
    app.watch_playback(true);
    assert_eq!(app.runtime.status_detail, "Playback finished.");
}

#[test]
fn settings_are_taken_over() {
    let mut app = start();
    let mut input = input_of(&app.config);
    input.gemini_enabled = true;
    input.gemini_model = " gemini-x ".to_owned();
    input.gemini_prompt = "  ".to_owned();
    input.voice_model = VoiceModel::VibeVoice;
    input.tts_precision = TtsPrecision::BF16;
    input.shortcut = "Cmd+J".to_owned();
    input.api_key = Some(" secret ".to_owned());
    let plan = app.save_settings(&input);
    assert_eq!(plan.config.gemini_model, "gemini-x");
    assert_eq!(plan.config.gemini_prompt, app.config.gemini_prompt);
    assert_eq!(plan.config.tts_precision, TtsPrecision::Auto);
    assert_eq!(plan.config.shortcut, "Command+J");
    assert_eq!(plan.new_key.as_deref(), Some("secret"));
    assert!(needs_warmup(&app.config, &plan.config));
    let saved = plan.config.clone();
    assert!(app.settings_saved(plan.config));
    app.settings_finished(KeyStatus::Updated);
    assert_eq!(app.runtime.status_detail, "Settings saved. Gemini API key updated.");
    assert_eq!(format!("{:?}", app.current_config()), format!("{:?}", saved));
    let again = app.save_settings(&input);
    assert_eq!(format!("{:?}", again.config), format!("{:?}", saved));
    assert!(!needs_warmup(&app.config, &again.config));
    assert!(!app.settings_saved(again.config));
    let (_, reloaded) = ConfigStore::load("/conf", "/data", Some(saved.clone()));
    assert_eq!(format!("{:?}", reloaded), format!("{:?}", saved));
}

#[test]
fn key_news_is_told() {
    assert_eq!(key_status(true, false), KeyStatus::Updated);
    assert_eq!(key_status(false, true), KeyStatus::Kept);
    assert_eq!(key_status(false, false), KeyStatus::Missing);
    let mut app = start();
    app.settings_finished(KeyStatus::Kept);
    assert_eq!(app.runtime.status_detail, "Settings saved. Existing Gemini API key kept.");
    app.settings_finished(KeyStatus::Missing);
    assert_eq!(
        app.runtime.status_detail,
        "Settings saved. No Gemini API key is currently stored."
    );
}

fn warm(warmed_inference: bool) -> WarmupInfo {
    WarmupInfo {
        voices: vec!["a".to_owned(), "b".to_owned()],
        runtime_label: "metal:0 (f16)".to_owned(),
        warmed_inference,
        warmup_duration_ms: 1234,
    }
}

#[test]
fn warming_up_is_told() {
    let mut app = start();
    app.warmup_model();
    assert_eq!(app.runtime.status, AppStatus::LoadingModel);
    app.model_warmed(&Ok(warm(false)));
    assert_eq!(
        app.runtime.status_detail,
        "Model ready with 2 voice presets on metal:0 (f16)."
    );
    assert!(app.runtime.model_ready);
    assert_eq!(app.runtime.available_voices.len(), 2);
    app.model_warmed(&Ok(warm(true)));
    assert_eq!(
        app.runtime.status_detail,
        "Model ready with 2 voice presets on metal:0 (f16) after inference warmup (1234 ms)."
    );
    app.model_warmed(&Err("no disk".to_owned()));
    assert_eq!(app.runtime.last_error.as_deref(), Some("no disk"));
}

#[test]
fn warming_vibevoice_up_is_told() {
    let mut app = start();
    let mut bad = SpeechOverrides::default();
    bad.style = Some("x".to_owned());
    assert!(app.warmup_vibevoice(bad, false).unwrap_err().starts_with("VibeVoice 1.5B does not use"));
    let (precision, _) = app.warmup_vibevoice(SpeechOverrides::default(), false).unwrap();
    assert_eq!(precision, TtsPrecision::Auto);
    assert_eq!(app.runtime.status_detail, "Running VibeVoice 1.5B inference warmup...");
    app.vibevoice_warmed(&Ok(warm(true)));
    assert_eq!(
        app.runtime.status_detail,
        "VibeVoice 1.5B warmup finished on metal:0 (f16) in 1234 ms."
    );
    assert!(!app.runtime.model_ready);
    app.vibevoice_warmed(&Err("gone".to_owned()));
    assert_eq!(app.runtime.status, AppStatus::Error);
}

#[test]
fn speaking_at_once_gives_up_the_rest() {
    let mut app = start();
    assert_eq!(app.enqueue_manual_text("waiting", true), Ok(1));
    let job = app.speak_selection();
    assert_eq!(job, 1);
    assert_eq!(app.speech_queue.len(), 0);
    assert_eq!(
        app.runtime.status_detail,
        "Capturing selected text from the frontmost app..."
    );
}

#[test]
fn active_statuses() {
    let active: Vec<bool> = [
        AppStatus::Idle,
        AppStatus::LoadingModel,
        AppStatus::CapturingSelection,
        AppStatus::RewritingText,
        AppStatus::Synthesizing,
        AppStatus::Speaking,
        AppStatus::Ready,
        AppStatus::Error,
    ]
    .iter()
    .map(|s| active_status(*s))
    .collect();
    assert_eq!(active, vec![false, false, true, true, true, true, false, false]);
    assert!(start().has_skippable_work(false));
    assert!(!start().has_skippable_work(true));
}

#[test]
fn speak_requests_are_answered() {
    let mut app = start();
    let (code, answer) =
        http_api::speak_handler(&mut app, " ", SpeechOverrides::default(), false, true);
    assert_eq!((code, answer.ok, answer.queued, answer.position), (400, false, false, 0));
    assert_eq!(answer.error.as_deref(), Some("No text provided."));
    assert_eq!(app.runtime.status, AppStatus::Idle);
    let (code, answer) =
        http_api::speak_handler(&mut app, " hi ", SpeechOverrides::default(), false, true);
    assert_eq!((code, answer.ok, answer.queued, answer.position), (200, true, true, 1));
    assert_eq!(answer.error, None);
    let mut overrides = SpeechOverrides::default();
    overrides.max_tokens = Some(3);
    let (code, answer) = http_api::speak_handler(&mut app, "hi", overrides, false, true);
    assert_eq!((code, answer.ok), (400, false));
    assert_eq!(app.speech_queue.len(), 1);
}

#[test]
fn status_requests_are_answered() {
    let mut app = start();
    app.mark_error("broken");
    let answer = http_api::status_handler(&app, seen(true));
    assert_eq!(answer.status, "Error");
    assert_eq!(answer.status_detail, "broken");
    assert_eq!(answer.last_error.as_deref(), Some("broken"));
    assert_eq!(answer.queue_length, 0);
    assert_eq!(answer.tts_runtime_label, None);
    assert_eq!(answer.tts_backend_status, app.current_backend_status(HOST));
    assert_eq!(answer.tts_runtime_label, app.current_runtime_label(HOST));
}

#[test]
fn other_requests_are_answered() {
    let (code, answer) = http_api::stop_handler(Ok(()));
    assert_eq!((code, answer.ok), (200, true));
    let (code, answer) = http_api::stop_handler(Err("stuck".to_owned()));
    assert_eq!((code, answer.ok), (500, false));
    assert_eq!(answer.error.as_deref(), Some("stuck"));
    let (code, answer) = http_api::create_vibevoice_preset_handler(Err("taken".to_owned()));
    assert_eq!((code, answer.ok, answer.preset.is_none()), (400, false, true));
    let (code, answer) = http_api::list_vibevoice_presets_handler(Ok(Vec::new()));
    assert_eq!((code, answer.ok, answer.presets.len()), (200, true, 0));
    let (code, answer) = http_api::list_vibevoice_presets_handler(Err("disk".to_owned()));
    assert_eq!((code, answer.ok), (500, false));
    let (code, answer) = http_api::warmup_vibevoice_handler(Ok(warm(true)));
    assert_eq!((code, answer.warmup_duration_ms), (200, Some(1234)));
    assert_eq!(answer.runtime_label.as_deref(), Some("metal:0 (f16)"));
    let (code, answer) = http_api::warmup_vibevoice_handler(Err("no".to_owned()));
    assert_eq!((code, answer.error.as_deref()), (400, Some("no")));
    assert_eq!(http_api::listen_address(9876), "127.0.0.1:9876");
}
