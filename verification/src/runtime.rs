//! The state of the running application, and every step that changes it.

use vstd::prelude::*;
use vstd::string::*;

use crate::config;
use crate::config::{AppConfig, ConfigStore, ConfigView, TtsPrecision, VoiceModel};
use crate::instructions;
use crate::instructions::OverrideError;
use crate::playback::PlaybackController;
use crate::queue;
use crate::queue::{QueueView, QueuedSpeechRequest, RequestView, SpeechQueue};
use crate::state;
use crate::state::{
    AppSnapshot, AppStatus, InstructionsView, OverridesView, SettingsInput, SpeechOverrides,
};
use crate::text;
use crate::tts;
use crate::tts::{CaptureResult, Host, TtsService, TtsView, WarmupInfo, WarmupView};

verus! {

/// How long a second press of the shortcut may follow the first, in nanoseconds.
pub const HOTKEY_DOUBLE_PRESS_WINDOW: u64 = 450_000_000;

/// A press of the shortcut that may still become a double press.
#[derive(Debug, Clone, Copy, PartialEq, Eq, Structural)]
pub struct PendingHotkeyPress {
    pub id: u64,
    /// In nanoseconds of a clock that never goes back.
    pub pressed_at: u64,
}

/// What the application is doing and has done last.
#[derive(Debug)]
pub struct RuntimeState {
    pub status: AppStatus,
    pub status_detail: String,
    pub last_selection: Option<String>,
    pub last_prepared_text: Option<String>,
    pub last_error: Option<String>,
    pub model_ready: bool,
    pub playback_paused: bool,
    pub available_voices: Vec<String>,
    pub last_hotkey_press: Option<PendingHotkeyPress>,
    pub next_hotkey_press_id: u64,
}

/// What the application is doing and has done last, as a mathematical value.
#[verifier::ext_equal]
pub struct RuntimeView {
    pub status: AppStatus,
    pub status_detail: Seq<char>,
    pub last_selection: Option<Seq<char>>,
    pub last_prepared_text: Option<Seq<char>>,
    pub last_error: Option<Seq<char>>,
    pub model_ready: bool,
    pub playback_paused: bool,
    pub available_voices: Seq<Seq<char>>,
    pub last_hotkey_press: Option<PendingHotkeyPress>,
    pub next_hotkey_press_id: u64,
}

impl View for RuntimeState {
    type V = RuntimeView;

    open spec fn view(&self) -> RuntimeView {
        RuntimeView {
            status: self.status,
            status_detail: self.status_detail@,
            last_selection: self.last_selection.deep_view(),
            last_prepared_text: self.last_prepared_text.deep_view(),
            last_error: self.last_error.deep_view(),
            model_ready: self.model_ready,
            playback_paused: self.playback_paused,
            available_voices: self.available_voices.deep_view(),
            last_hotkey_press: self.last_hotkey_press,
            next_hotkey_press_id: self.next_hotkey_press_id,
        }
    }
}

impl Clone for RuntimeState {
    fn clone(&self) -> (res: Self)
        ensures
            res@ == self@,
    {
        RuntimeState {
            status: self.status,
            status_detail: self.status_detail.clone(),
            last_selection: state::clone_text(&self.last_selection),
            last_prepared_text: state::clone_text(&self.last_prepared_text),
            last_error: state::clone_text(&self.last_error),
            model_ready: self.model_ready,
            playback_paused: self.playback_paused,
            available_voices: state::clone_texts(&self.available_voices),
            last_hotkey_press: self.last_hotkey_press,
            next_hotkey_press_id: self.next_hotkey_press_id,
        }
    }
}

/// The state of an application that has just started.
pub open spec fn initial_runtime() -> RuntimeView {
    RuntimeView {
        status: AppStatus::Idle,
        status_detail: "Ready to queue selected text."@,
        last_selection: None,
        last_prepared_text: None,
        last_error: None,
        model_ready: false,
        playback_paused: false,
        available_voices: Seq::empty(),
        last_hotkey_press: None,
        next_hotkey_press_id: 0,
    }
}

impl Default for RuntimeState {
    fn default() -> (res: Self)
        ensures
            res@ == initial_runtime(),
    {
        let res = RuntimeState {
            status: AppStatus::Idle,
            status_detail: "Ready to queue selected text.".to_owned(),
            last_selection: None,
            last_prepared_text: None,
            last_error: None,
            model_ready: false,
            playback_paused: false,
            available_voices: Vec::new(),
            last_hotkey_press: None,
            next_hotkey_press_id: 0,
        };
        assert(res@.available_voices =~= Seq::empty());
        res
    }
}

/// What the user interface has still to be told: the state as it was when the
/// telling fell due, and the status to show in the tray where that is due too.
#[derive(Debug)]
pub struct UiUpdate {
    pub tray: Option<AppStatus>,
    pub runtime: RuntimeState,
    pub queue_length: usize,
}

/// What the user interface has still to be told, as a mathematical value.
#[verifier::ext_equal]
pub struct UpdateView {
    pub tray: Option<AppStatus>,
    pub runtime: RuntimeView,
    pub queue_length: nat,
}

impl View for UiUpdate {
    type V = UpdateView;

    open spec fn view(&self) -> UpdateView {
        UpdateView {
            tray: self.tray,
            runtime: self.runtime@,
            queue_length: self.queue_length as nat,
        }
    }
}

/// The running application.
#[derive(Debug)]
pub struct AppRuntime {
    pub store: ConfigStore,
    pub config: AppConfig,
    pub runtime: RuntimeState,
    pub tts: TtsService,
    pub playback: PlaybackController,
    pub speech_queue: SpeechQueue,
    pub updates: Vec<UiUpdate>,
}

/// The running application as a mathematical value.
#[verifier::ext_equal]
pub struct AppView {
    pub store: ConfigStore,
    pub config: ConfigView,
    pub runtime: RuntimeView,
    pub tts: TtsView,
    /// The generation of the player.
    pub playback: u64,
    pub queue: QueueView,
    pub updates: Seq<UpdateView>,
}

impl View for AppRuntime {
    type V = AppView;

    open spec fn view(&self) -> AppView {
        AppView {
            store: self.store,
            config: self.config@,
            runtime: self.runtime@,
            tts: self.tts@,
            playback: self.playback.generation,
            queue: self.speech_queue@,
            updates: self.updates@.map_values(|update: UiUpdate| update@),
        }
    }
}

/// What the application can see of its surroundings when it is asked for its state.
#[derive(Debug, Clone, Copy, PartialEq, Eq, Structural)]
pub struct Observed {
    /// Whether the player has nothing left to play.
    pub playback_empty: bool,
    /// Whether a key could be read from the key ring.
    pub api_key_present: bool,
    pub host: Host,
}

// ---------------------------------------------------------------------------
// The steps as mathematical functions
// ---------------------------------------------------------------------------

/// Whether a status means that a text is being worked on.
pub open spec fn is_active_status(status: AppStatus) -> bool {
    status == AppStatus::CapturingSelection || status == AppStatus::RewritingText || status
        == AppStatus::Synthesizing || status == AppStatus::Speaking
}

/// The user interface is to be told of the state as it is.
pub open spec fn emitted(app: AppView, tray: Option<AppStatus>) -> AppView {
    AppView {
        updates: app.updates.push(
            UpdateView { tray, runtime: app.runtime, queue_length: app.queue.items.len() },
        ),
        ..app
    }
}

/// A new status: any but an error clears the last error.
pub open spec fn with_status(
    runtime: RuntimeView,
    status: AppStatus,
    detail: Seq<char>,
) -> RuntimeView {
    RuntimeView {
        status,
        status_detail: detail,
        last_error: if status == AppStatus::Error {
            runtime.last_error
        } else {
            None
        },
        ..runtime
    }
}

/// The application with a new status, of which the user interface is to be told.
pub open spec fn marked(app: AppView, status: AppStatus, detail: Seq<char>) -> AppView {
    emitted(AppView { runtime: with_status(app.runtime, status, detail), ..app }, Some(status))
}

/// The application with an error, of which the user interface is to be told.
pub open spec fn failed(app: AppView, detail: Seq<char>) -> AppView {
    emitted(
        AppView {
            runtime: RuntimeView {
                status: AppStatus::Error,
                status_detail: detail,
                last_error: Some(detail),
                ..app.runtime
            },
            ..app
        },
        Some(AppStatus::Error),
    )
}

/// The application with no press of the shortcut pending.
pub open spec fn without_press(app: AppView) -> AppView {
    AppView { runtime: RuntimeView { last_hotkey_press: None, ..app.runtime }, ..app }
}

/// The application once it has noted which text was selected.
pub open spec fn with_selection(app: AppView, selection: Seq<char>) -> AppView {
    emitted(
        AppView {
            runtime: RuntimeView {
                last_selection: Some(selection),
                playback_paused: false,
                ..app.runtime
            },
            ..app
        },
        None,
    )
}

/// How the queue's length is told.
pub open spec fn queued_detail(position: nat) -> Seq<char> {
    if position > 1 {
        "Queued "@ + text::decimal(position) + " items for playback."@
    } else {
        "Queued 1 item for playback."@
    }
}

/// Whether a status gives way to the news that a text was queued.
pub open spec fn yields_to_queueing(status: AppStatus) -> bool {
    status != AppStatus::Speaking && status != AppStatus::Synthesizing && status
        != AppStatus::RewritingText && status != AppStatus::LoadingModel
}

/// The application once a valid text is in its queue.
pub open spec fn with_queued(app: AppView, request: RequestView, playback_empty: bool) -> AppView {
    let waiting = AppView {
        queue: queue::enqueued(app.queue, request),
        runtime: RuntimeView { playback_paused: false, ..app.runtime },
        ..app
    };
    if playback_empty && yields_to_queueing(app.runtime.status) {
        marked(waiting, AppStatus::Ready, queued_detail(waiting.queue.items.len()))
    } else {
        emitted(waiting, None)
    }
}

/// Why a text cannot be queued, if it cannot.
pub open spec fn enqueue_error(
    app: AppView,
    selection: Seq<char>,
    overrides: OverridesView,
    reference_exists: bool,
) -> Option<Seq<char>> {
    let normalized = state::normalized_overrides(overrides);
    if text::is_blank(selection) {
        Some("No text was provided."@)
    } else {
        match instructions::override_error(
            app.config.voice_model,
            normalized,
            reference_exists,
        ) {
            Some(error) => Some(
                instructions::override_message(error, reference_text(normalized)),
            ),
            None => None,
        }
    }
}

/// The reference audio path that a request names, empty if it names none.
pub open spec fn reference_text(overrides: OverridesView) -> Seq<char> {
    match overrides.reference_audio_path {
        Some(path) => path,
        None => Seq::empty(),
    }
}

/// The application once a text was to be queued.
pub open spec fn after_enqueue(
    app: AppView,
    selection: Seq<char>,
    overrides: OverridesView,
    reference_exists: bool,
    playback_empty: bool,
) -> AppView {
    if text::is_blank(selection) {
        failed(app, "No text was provided."@)
    } else if enqueue_error(app, selection, overrides, reference_exists) is Some {
        app
    } else {
        with_queued(
            app,
            RequestView {
                text: text::trimmed(selection),
                overrides: state::normalized_overrides(overrides),
            },
            playback_empty,
        )
    }
}

/// The settings that a user asked for, taken over into a configuration. Blank texts
/// leave the old ones, and VibeVoice 1.5B always runs at automatic precision.
pub open spec fn with_settings(config: ConfigView, input: SettingsInput) -> ConfigView {
    ConfigView {
        gemini_enabled: input.gemini_enabled,
        gemini_model: if text::is_blank(input.gemini_model@) {
            config.gemini_model
        } else {
            text::trimmed(input.gemini_model@)
        },
        gemini_prompt: if text::is_blank(input.gemini_prompt@) {
            config.gemini_prompt
        } else {
            text::trimmed(input.gemini_prompt@)
        },
        voice_model: input.voice_model,
        voice_preset: input.voice_preset@,
        default_chunk_size: input.default_chunk_size,
        tts_precision: if input.voice_model == VoiceModel::VibeVoice {
            TtsPrecision::Auto
        } else {
            input.tts_precision
        },
        shortcut: if text::is_blank(input.shortcut@) {
            config.shortcut
        } else {
            config::normalized_shortcut(input.shortcut@)
        },
        ..config
    }
}

/// The speech service once the application's settings have changed.
pub open spec fn with_model_choice(tts: TtsView, before: ConfigView, after: ConfigView) -> TtsView {
    let reset = if before.voice_model != after.voice_model || before.tts_precision
        != after.tts_precision {
        tts.auto_precision_overrides.remove(tts::model_number(after.voice_model))
    } else {
        tts.auto_precision_overrides
    };
    TtsView {
        cells: tts::kept_cells(
            tts.cells,
            tts::ModelCacheKey { voice_model: after.voice_model, precision: after.tts_precision },
        ),
        auto_precision_overrides: reset,
        ..tts
    }
}

/// What became of the stored key when settings were saved.
#[derive(Debug, Clone, Copy, PartialEq, Eq, Structural)]
pub enum KeyStatus {
    Updated,
    Kept,
    Missing,
}

/// What became of the stored key, in words.
pub open spec fn key_status_text(status: KeyStatus) -> Seq<char> {
    match status {
        KeyStatus::Updated => "Gemini API key updated."@,
        KeyStatus::Kept => "Existing Gemini API key kept."@,
        KeyStatus::Missing => "No Gemini API key is currently stored."@,
    }
}

/// How a warm-up is reported.
pub open spec fn warmup_detail(warmup: WarmupView) -> Seq<char> {
    let ready = "Model ready with "@ + text::decimal(warmup.voices.len()) + " voice presets on "@
        + warmup.runtime_label;
    if warmup.warmed_inference {
        ready + " after inference warmup ("@ + text::decimal(warmup.warmup_duration_ms as nat)
            + " ms)."@
    } else {
        ready + "."@
    }
}

/// How a warm-up of VibeVoice 1.5B is reported.
pub open spec fn vibevoice_warmup_detail(warmup: WarmupView) -> Seq<char> {
    "VibeVoice 1.5B warmup finished on "@ + warmup.runtime_label + " in "@ + text::decimal(
        warmup.warmup_duration_ms as nat,
    ) + " ms."@
}

/// The application with a model that is ready, and its voices.
pub open spec fn with_model_ready(app: AppView, voices: Seq<Seq<char>>) -> AppView {
    AppView {
        runtime: RuntimeView { model_ready: true, available_voices: voices, ..app.runtime },
        ..app
    }
}

/// Whether there is anything to skip.
pub open spec fn skippable(app: AppView, playback_empty: bool) -> bool {
    !playback_empty || is_active_status(app.runtime.status)
}

/// The application once the text under way was skipped.
pub open spec fn after_skip(app: AppView, playback_empty: bool) -> AppView {
    let ready = without_press(app);
    if !skippable(app, playback_empty) {
        marked(ready, AppStatus::Ready, "Nothing is queued right now."@)
    } else {
        marked(
            AppView {
                queue: queue::skipped(ready.queue),
                playback: queue::next_count(ready.playback),
                runtime: RuntimeView { playback_paused: false, ..ready.runtime },
                ..ready
            },
            AppStatus::Ready,
            if ready.queue.items.len() > 0 {
                "Skipping the current message and continuing with the queue."@
            } else {
                "Skipped the current message. Queue is empty."@
            },
        )
    }
}

/// The application once everything was stopped.
pub open spec fn after_stop(app: AppView) -> AppView {
    let ready = without_press(app);
    marked(
        AppView {
            queue: queue::cleared(ready.queue),
            playback: queue::next_count(ready.playback),
            runtime: RuntimeView { playback_paused: false, ..ready.runtime },
            ..ready
        },
        AppStatus::Ready,
        "Playback stopped."@,
    )
}

/// The application once the player was paused or set going again.
pub open spec fn after_toggle(app: AppView, is_paused: bool) -> AppView {
    emitted(
        AppView {
            runtime: RuntimeView {
                playback_paused: !is_paused,
                status: AppStatus::Speaking,
                status_detail: if is_paused {
                    "Playback resumed."@
                } else {
                    "Playback paused."@
                },
                ..app.runtime
            },
            ..app
        },
        None,
    )
}

/// Whether a press of the shortcut makes a double press with the pending one.
pub open spec fn is_double_press(runtime: RuntimeView, now: u64) -> bool {
    runtime.last_hotkey_press matches Some(last) && now - last.pressed_at
        <= HOTKEY_DOUBLE_PRESS_WINDOW
}

/// The application once a single press is pending.
pub open spec fn with_press(app: AppView, now: u64) -> AppView {
    let id = (app.runtime.next_hotkey_press_id + 1) as u64;
    AppView {
        runtime: RuntimeView {
            next_hotkey_press_id: id,
            last_hotkey_press: Some(PendingHotkeyPress { id, pressed_at: now }),
            ..app.runtime
        },
        ..app
    }
}

/// What is left to do when the shortcut was pressed.
#[derive(Debug, Clone, Copy, PartialEq, Eq, Structural)]
pub enum ShortcutAction {
    /// The press counts as a single one unless another follows within the window.
    AwaitSecondPress(u64),
    /// The text under way was skipped: the player is to be emptied.
    EmptyPlayer,
    /// Nothing is left to do.
    Nothing,
}

/// What is shown of the application.
pub struct SnapshotView {
    pub status: AppStatus,
    pub status_detail: Seq<char>,
    pub config: ConfigView,
    pub api_key_present: bool,
    pub model_ready: bool,
    pub playback_paused: bool,
    pub queue_length: nat,
    pub can_skip: bool,
    pub last_selection: Option<Seq<char>>,
    pub last_prepared_text: Option<Seq<char>>,
    pub last_error: Option<Seq<char>>,
    pub available_voices: Seq<Seq<char>>,
    pub tts_runtime_label: Option<Seq<char>>,
    pub tts_backend_status: Seq<char>,
    pub model_instructions: InstructionsView,
}

impl View for AppSnapshot {
    type V = SnapshotView;

    open spec fn view(&self) -> SnapshotView {
        SnapshotView {
            status: self.status,
            status_detail: self.status_detail@,
            config: self.config@,
            api_key_present: self.api_key_present,
            model_ready: self.model_ready,
            playback_paused: self.playback_paused,
            queue_length: self.queue_length as nat,
            can_skip: self.can_skip,
            last_selection: self.last_selection.deep_view(),
            last_prepared_text: self.last_prepared_text.deep_view(),
            last_error: self.last_error.deep_view(),
            available_voices: self.available_voices.deep_view(),
            tts_runtime_label: self.tts_runtime_label.deep_view(),
            tts_backend_status: self.tts_backend_status@,
            model_instructions: self.model_instructions@,
        }
    }
}

/// What is shown of the application in a state, with a length of its queue.
pub open spec fn shown(
    app: AppView,
    runtime: RuntimeView,
    queue_length: nat,
    observed: Observed,
) -> SnapshotView {
    let model = app.config.voice_model;
    let precision = app.config.tts_precision;
    SnapshotView {
        status: runtime.status,
        status_detail: runtime.status_detail,
        config: app.config,
        api_key_present: observed.api_key_present,
        model_ready: runtime.model_ready,
        playback_paused: runtime.playback_paused,
        queue_length,
        can_skip: !observed.playback_empty || is_active_status(runtime.status),
        last_selection: runtime.last_selection,
        last_prepared_text: runtime.last_prepared_text,
        last_error: runtime.last_error,
        available_voices: runtime.available_voices,
        tts_runtime_label: tts::runtime_label(app.tts, model, precision, observed.host),
        tts_backend_status: tts::backend_text(app.tts, model, precision, observed.host),
        model_instructions: instructions::instructions(model),
    }
}

// ---------------------------------------------------------------------------
// The steps
// ---------------------------------------------------------------------------

/// Whether the status means that a text is being worked on.
pub fn active_status(status: AppStatus) -> (res: bool)
    ensures
        res == is_active_status(status),
{
    match status {
        AppStatus::CapturingSelection
        | AppStatus::RewritingText
        | AppStatus::Synthesizing
        | AppStatus::Speaking => true,
        _ => false,
    }
}

/// What saving settings comes to: the configuration to keep, and the key to store
/// where a new one was given.
#[derive(Debug)]
pub struct SettingsPlan {
    pub config: AppConfig,
    pub new_key: Option<String>,
}

/// What became of the stored key.
pub fn key_status(new_key: bool, key_stored: bool) -> (res: KeyStatus)
    ensures
        res == if new_key {
            KeyStatus::Updated
        } else if key_stored {
            KeyStatus::Kept
        } else {
            KeyStatus::Missing
        },
{
    if new_key {
        KeyStatus::Updated
    } else if key_stored {
        KeyStatus::Kept
    } else {
        KeyStatus::Missing
    }
}

/// Whether a model has to be warmed up because the settings now choose another one.
pub fn needs_warmup(before: &AppConfig, after: &AppConfig) -> (res: bool)
    ensures
        res == (before@.voice_model != after@.voice_model || before@.tts_precision
            != after@.tts_precision),
{
    before.voice_model != after.voice_model || before.tts_precision != after.tts_precision
}

impl AppRuntime {
    /// Whether the parts are in order.
    pub open spec fn wf(&self) -> bool {
        self.tts.wf()
    }

    /// The application as it starts, with its store and its configuration.
    pub fn load(store: ConfigStore, config: AppConfig) -> (res: AppRuntime)
        ensures
            res.wf(),
            res@.store == store,
            res@.config == config@,
            res@.runtime == initial_runtime(),
            res@.tts.asset_root == text::joined_path(store.data_dir@, "tts-assets"@),
            res@.tts.cells.len() == 0,
            res@.tts.next_cell == 0,
            res@.tts.auto_precision_overrides == Map::<u64, TtsPrecision>::empty(),
            res@.tts.vibevoice_runtime_label is None,
            res@.playback == 0,
            res@.queue.items.len() == 0,
            res@.queue.outbox.len() == 0,
            res@.queue.generation == 0,
            res@.queue.current_item_generation == 0,
            res@.updates.len() == 0,
    {
        let asset_root = text::join_path(store.data_dir.as_str(), "tts-assets");
        AppRuntime {
            store,
            config,
            runtime: RuntimeState::default(),
            tts: TtsService::new(asset_root),
            playback: PlaybackController::new(),
            speech_queue: SpeechQueue::new(),
            updates: Vec::new(),
        }
    }

    /// What is shown of the application.
    pub fn snapshot(&self, observed: Observed) -> (res: AppSnapshot)
        ensures
            res@ == shown(self@, self@.runtime, self@.queue.items.len(), observed),
    {
        self.show(&self.runtime, self.speech_queue.len(), observed)
    }

    /// What is shown of the application in a state, with a length of its queue.
    pub fn show(&self, runtime: &RuntimeState, queue_length: usize, observed: Observed) -> (res:
        AppSnapshot)
        ensures
            res@ == shown(self@, runtime@, queue_length as nat, observed),
    {
        let model = self.config.voice_model;
        let precision = self.config.tts_precision;
        AppSnapshot {
            status: runtime.status,
            status_detail: runtime.status_detail.clone(),
            config: self.config.clone(),
            api_key_present: observed.api_key_present,
            model_ready: runtime.model_ready,
            playback_paused: runtime.playback_paused,
            queue_length,
            can_skip: !observed.playback_empty || active_status(runtime.status),
            last_selection: state::clone_text(&runtime.last_selection),
            last_prepared_text: state::clone_text(&runtime.last_prepared_text),
            last_error: state::clone_text(&runtime.last_error),
            available_voices: state::clone_texts(&runtime.available_voices),
            tts_runtime_label: self.tts.loaded_runtime_label(model, precision, observed.host),
            tts_backend_status: self.tts.backend_status(model, precision, observed.host),
            model_instructions: instructions::describe_model_instructions(model),
        }
    }

    /// What runs the selected model, where that is known.
    pub fn current_runtime_label(&self, host: Host) -> (res: Option<String>)
        ensures
            res.deep_view() == tts::runtime_label(
                self@.tts,
                self@.config.voice_model,
                self@.config.tts_precision,
                host,
            ),
    {
        self.tts.loaded_runtime_label(self.config.voice_model, self.config.tts_precision, host)
    }

    /// How the selected model's backend stands, in words.
    pub fn current_backend_status(&self, host: Host) -> (res: String)
        ensures
            res@ == tts::backend_text(
                self@.tts,
                self@.config.voice_model,
                self@.config.tts_precision,
                host,
            ),
    {
        self.tts.backend_status(self.config.voice_model, self.config.tts_precision, host)
    }

    /// A copy of the configuration.
    pub fn current_config(&self) -> (res: AppConfig)
        ensures
            res@ == self@.config,
    {
        self.config.clone()
    }

    /// Takes out what the user interface has still to be told.
    pub fn take_updates(&mut self) -> (res: Vec<UiUpdate>)
        ensures
            res@.map_values(|update: UiUpdate| update@) == old(self)@.updates,
            final(self)@ == (AppView { updates: Seq::empty(), ..old(self)@ }),
            final(self).tts == old(self).tts,
    {
        let mut updates: Vec<UiUpdate> = Vec::new();
        std::mem::swap(&mut updates, &mut self.updates);
        assert(self@.updates =~= Seq::empty());
        updates
    }

    /// Has the user interface told of the state as it is.
    pub fn emit_snapshot(&mut self, tray: Option<AppStatus>)
        ensures
            final(self)@ == emitted(old(self)@, tray),
            final(self).tts == old(self).tts,
    {
        let update = UiUpdate {
            tray,
            runtime: self.runtime.clone(),
            queue_length: self.speech_queue.len(),
        };
        self.updates.push(update);
        assert(self@.updates =~= old(self)@.updates.push(update@));
    }

    /// Sets a new status and has the user interface told of it.
    pub fn mark_status(&mut self, status: AppStatus, detail: String)
        ensures
            final(self)@ == marked(old(self)@, status, detail@),
            final(self).tts == old(self).tts,
    {
        self.runtime.status = status;
        self.runtime.status_detail = detail;
        if status != AppStatus::Error {
            self.runtime.last_error = None;
        }
        self.emit_snapshot(Some(status));
    }

    /// Notes an error and has the user interface told of it.
    pub fn mark_error(&mut self, detail: &str)
        ensures
            final(self)@ == failed(old(self)@, detail@),
            final(self).tts == old(self).tts,
    {
        self.runtime.status = AppStatus::Error;
        self.runtime.status_detail = detail.to_owned();
        self.runtime.last_error = Some(detail.to_owned());
        self.emit_snapshot(Some(AppStatus::Error));
    }

    /// What saving the settings comes to.
    pub fn save_settings(&self, input: &SettingsInput) -> (res: SettingsPlan)
        ensures
            res.config@ == with_settings(self@.config, *input),
            res.new_key.deep_view() == state::trimmed_option(input.api_key.deep_view()),
    {
        let mut config = self.config.clone();
        config.gemini_enabled = input.gemini_enabled;
        if !text::blank(input.gemini_model.as_str()) {
            config.gemini_model = text::trim(input.gemini_model.as_str());
        }
        if !text::blank(input.gemini_prompt.as_str()) {
            config.gemini_prompt = text::trim(input.gemini_prompt.as_str());
        }
        config.voice_model = input.voice_model;
        config.voice_preset = input.voice_preset.clone();
        config.default_chunk_size = input.default_chunk_size;
        config.tts_precision = input.tts_precision;
        if config.voice_model == VoiceModel::VibeVoice {
            config.tts_precision = TtsPrecision::Auto;
        }
        if !text::blank(input.shortcut.as_str()) {
            config.shortcut = config::normalize_shortcut(input.shortcut.as_str());
        }
        SettingsPlan { config, new_key: state::trim_option(state::clone_text(&input.api_key)) }
    }

    /// Takes over settings that were saved, and says whether the shortcut has to be
    /// bound anew.
    pub fn settings_saved(&mut self, config: AppConfig) -> (res: bool)
        requires
            old(self).wf(),
        ensures
            final(self).wf(),
            final(self)@ == (AppView {
                config: config@,
                tts: with_model_choice(old(self)@.tts, old(self)@.config, config@),
                ..old(self)@
            }),
            res == (old(self)@.config.shortcut != config@.shortcut),
    {
        let rebind = !text::same_text(self.config.shortcut.as_str(), config.shortcut.as_str());
        let changed = needs_warmup(&self.config, &config);
        self.config = config;
        if changed {
            self.tts.reset_auto_precision_override(self.config.voice_model);
        }
        self.tts.prune_cache(self.config.voice_model, self.config.tts_precision);
        assert(self@.updates =~= old(self)@.updates);
        rebind
    }

    /// Reports that the settings are saved.
    pub fn settings_finished(&mut self, key: KeyStatus)
        ensures
            final(self)@ == marked(
                old(self)@,
                AppStatus::Ready,
                "Settings saved. "@ + key_status_text(key),
            ),
            final(self).tts == old(self).tts,
    {
        let detail = match key {
            KeyStatus::Updated => text::concat2("Settings saved. ", "Gemini API key updated."),
            KeyStatus::Kept => text::concat2("Settings saved. ", "Existing Gemini API key kept."),
            KeyStatus::Missing => text::concat2(
                "Settings saved. ",
                "No Gemini API key is currently stored.",
            ),
        };
        self.mark_status(AppStatus::Ready, detail);
    }

    /// Begins to warm the selected model up.
    pub fn warmup_model(&mut self)
        requires
            old(self).wf(),
        ensures
            final(self).wf(),
            final(self)@ == marked(
                (AppView {
                    tts: (TtsView {
                        cells: tts::kept_cells(
                            old(self)@.tts.cells,
                            (tts::ModelCacheKey {
                                voice_model: old(self)@.config.voice_model,
                                precision: old(self)@.config.tts_precision,
                            }),
                        ),
                        ..old(self)@.tts
                    }),
                    ..old(self)@
                }),
                AppStatus::LoadingModel,
                "Downloading and warming the TTS model..."@,
            ),
    {
        self.tts.prune_cache(self.config.voice_model, self.config.tts_precision);
        assert(self@.updates =~= old(self)@.updates);
        self.mark_status(
            AppStatus::LoadingModel,
            "Downloading and warming the TTS model...".to_owned(),
        );
    }

    /// Takes note of what came of warming the selected model up.
    pub fn model_warmed(&mut self, outcome: &Result<WarmupInfo, String>)
        ensures
            final(self)@ == match *outcome {
                Ok(warmup) => marked(
                    with_model_ready(old(self)@, warmup@.voices),
                    AppStatus::Ready,
                    warmup_detail(warmup@),
                ),
                Err(error) => failed(old(self)@, error@),
            },
            final(self).tts == old(self).tts,
    {
        match outcome {
            Ok(warmup) => {
                self.runtime.model_ready = true;
                self.runtime.available_voices = state::clone_texts(&warmup.voices);
                assert(self@.updates =~= old(self)@.updates);
                assert(self@ =~= with_model_ready(old(self)@, warmup@.voices));
                let count = text::decimal_text(warmup.voices.len() as u128);
                let ready = text::concat3("Model ready with ", count.as_str(), " voice presets on ");
                let ready = text::concat2(ready.as_str(), warmup.runtime_label.as_str());
                let detail = if warmup.warmed_inference {
                    let millis = text::decimal_text(warmup.warmup_duration_ms as u128);
                    let ready = text::concat2(ready.as_str(), " after inference warmup (");
                    text::concat3(ready.as_str(), millis.as_str(), " ms).")
                } else {
                    text::concat2(ready.as_str(), ".")
                };
                self.mark_status(AppStatus::Ready, detail);
            },
            Err(error) => {
                self.mark_error(error.as_str());
            },
        }
    }

    /// Whether a text is being worked on.
    pub fn is_active(&self) -> (res: bool)
        ensures
            res == is_active_status(self@.runtime.status),
    {
        active_status(self.runtime.status)
    }

    /// Whether there is anything to skip.
    pub fn has_skippable_work(&self, playback_empty: bool) -> (res: bool)
        ensures
            res == skippable(self@, playback_empty),
    {
        if !playback_empty {
            return true;
        }
        active_status(self.runtime.status)
    }

    /// Forgets a pending press of the shortcut.
    pub fn clear_pending_hotkey_press(&mut self)
        ensures
            final(self)@ == without_press(old(self)@),
            final(self).tts == old(self).tts,
    {
        self.runtime.last_hotkey_press = None;
        assert(self@.updates =~= old(self)@.updates);
    }

    /// Takes a pending press of the shortcut, if it is the one with this number.
    pub fn consume_pending_hotkey_press(&mut self, press_id: u64) -> (res: bool)
        ensures
            res == (old(self)@.runtime.last_hotkey_press matches Some(pending) && pending.id
                == press_id),
            final(self)@ == if res {
                without_press(old(self)@)
            } else {
                old(self)@
            },
            final(self).tts == old(self).tts,
    {
        let taken = match self.runtime.last_hotkey_press {
            Some(pending) => pending.id == press_id,
            None => false,
        };
        if taken {
            self.clear_pending_hotkey_press();
        }
        taken
    }

    /// Begins to speak the selection at once: everything else is given up. Returns
    /// the job under which it is to be spoken.
    pub fn speak_selection(&mut self) -> (res: u64)
        ensures
            ({
                let ready = without_press(old(self)@);
                let told = marked(
                    (AppView { queue: queue::cleared(ready.queue), ..ready }),
                    AppStatus::CapturingSelection,
                    "Capturing selected text from the frontmost app..."@,
                );
                &&& final(self)@ == (AppView {
                    playback: queue::next_count(told.playback),
                    ..told
                })
                &&& res == final(self)@.playback
            }),
            final(self).tts == old(self).tts,
    {
        self.clear_pending_hotkey_press();
        let ghost ready = self@;
        self.speech_queue.clear_and_invalidate();
        assert(self@.updates =~= ready.updates);
        self.mark_status(
            AppStatus::CapturingSelection,
            "Capturing selected text from the frontmost app...".to_owned(),
        );
        let ghost told = self@;
        let job: u64 = self.playback.begin_job();
        assert(self@.updates =~= told.updates);
        job
    }

    /// Begins to speak a text at once: everything else is given up. Returns the job
    /// under which it is to be spoken.
    pub fn speak_manual_text(&mut self) -> (res: u64)
        ensures
            ({
                let ready = without_press(old(self)@);
                &&& final(self)@ == (AppView {
                    queue: queue::cleared(ready.queue),
                    playback: queue::next_count(ready.playback),
                    ..ready
                })
                &&& res == final(self)@.playback
            }),
            final(self).tts == old(self).tts,
    {
        self.clear_pending_hotkey_press();
        let ghost ready = self@;
        self.speech_queue.clear_and_invalidate();
        let job: u64 = self.playback.begin_job();
        assert(self@.updates =~= ready.updates);
        job
    }

    /// Begins to capture the selection for the queue.
    pub fn begin_capture(&mut self)
        ensures
            final(self)@ == marked(
                without_press(old(self)@),
                AppStatus::CapturingSelection,
                "Capturing selected text from the frontmost app..."@,
            ),
            final(self).tts == old(self).tts,
    {
        self.clear_pending_hotkey_press();
        self.mark_status(
            AppStatus::CapturingSelection,
            "Capturing selected text from the frontmost app...".to_owned(),
        );
    }

    /// Queues a selection that was captured, or notes why it could not be.
    pub fn enqueue_selection(
        &mut self,
        captured: Result<CaptureResult, String>,
        playback_empty: bool,
    ) -> (res: Result<usize, String>)
        ensures
            match captured {
                Err(error) => {
                    &&& final(self)@ == failed(old(self)@, error@)
                    &&& res == Err::<usize, String>(error)
                },
                Ok(capture) => {
                    let noted = with_selection(old(self)@, capture.raw@);
                    &&& final(self)@ == after_enqueue(
                        noted,
                        capture.raw@,
                        state::no_overrides(),
                        false,
                        playback_empty,
                    )
                    &&& match enqueue_error(
                        noted,
                        capture.raw@,
                        state::no_overrides(),
                        false,
                    ) {
                        Some(message) => res matches Err(error) && error@ == message,
                        None => res matches Ok(position) && position
                            == final(self)@.queue.items.len(),
                    }
                },
            },
            final(self).tts == old(self).tts,
    {
        match captured {
            Err(error) => {
                self.mark_error(error.as_str());
                Err(error)
            },
            Ok(capture) => {
                self.note_selection(capture.raw.as_str());
                self.enqueue_text(
                    capture.raw.as_str(),
                    SpeechOverrides::default(),
                    false,
                    playback_empty,
                )
            },
        }
    }

    /// Notes which text was selected.
    pub fn note_selection(&mut self, selection: &str)
        ensures
            final(self)@ == with_selection(old(self)@, selection@),
            final(self).tts == old(self).tts,
    {
        self.runtime.last_selection = Some(selection.to_owned());
        self.runtime.playback_paused = false;
        assert(self@.updates =~= old(self)@.updates);
        self.emit_snapshot(None);
    }

    /// Queues a text that was typed in.
    pub fn enqueue_manual_text(&mut self, manual: &str, playback_empty: bool) -> (res: Result<
        usize,
        String,
    >)
        ensures
            ({
                let ready = without_press(old(self)@);
                if text::is_blank(manual@) {
                    &&& final(self)@ == failed(ready, "Enter text to queue."@)
                    &&& res matches Err(error)
                    &&& error@ == "Enter text to queue."@
                } else {
                    let selection = text::trimmed(manual@);
                    let noted = with_selection(ready, selection);
                    &&& final(self)@ == after_enqueue(
                        noted,
                        selection,
                        state::no_overrides(),
                        false,
                        playback_empty,
                    )
                    &&& match enqueue_error(noted, selection, state::no_overrides(), false) {
                        Some(message) => res matches Err(error) && error@ == message,
                        None => res matches Ok(position) && position
                            == final(self)@.queue.items.len(),
                    }
                }
            }),
            final(self).tts == old(self).tts,
    {
        self.clear_pending_hotkey_press();
        let selection = text::trim(manual);
        if selection.as_str().is_empty() {
            self.mark_error("Enter text to queue.");
            return Err("Enter text to queue.".to_owned());
        }
        self.note_selection(selection.as_str());
        self.enqueue_text(
            selection.as_str(),
            SpeechOverrides::default(),
            false,
            playback_empty,
        )
    }

    /// Queues a text with what its request asks for, and returns how many texts wait
    /// then. `reference_exists` says whether there is a file at the reference audio
    /// path that the normalised request names.
    pub fn enqueue_text(
        &mut self,
        selection: &str,
        overrides: SpeechOverrides,
        reference_exists: bool,
        playback_empty: bool,
    ) -> (res: Result<usize, String>)
        ensures
            final(self)@ == after_enqueue(
                old(self)@,
                selection@,
                overrides@,
                reference_exists,
                playback_empty,
            ),
            match enqueue_error(old(self)@, selection@, overrides@, reference_exists) {
                Some(message) => res matches Err(error) && error@ == message,
                None => res matches Ok(position) && position == final(self)@.queue.items.len(),
            },
            final(self).tts == old(self).tts,
    {
        let trimmed = text::trim(selection);
        if trimmed.as_str().is_empty() {
            self.mark_error("No text was provided.");
            return Err("No text was provided.".to_owned());
        }
        let overrides = overrides.normalized();
        match self.validate_overrides(&overrides, reference_exists) {
            Ok(_) => {},
            Err(error) => {
                let message = match &overrides.reference_audio_path {
                    Some(path) => error.message(path.as_str()),
                    None => error.message(String::new().as_str()),
                };
                return Err(message);
            },
        }
        let request = QueuedSpeechRequest { text: trimmed, overrides };
        let position: usize = self.speech_queue.enqueue(request);
        self.runtime.playback_paused = false;
        assert(self@.updates =~= old(self)@.updates);
        let should_mark_ready = match self.runtime.status {
            AppStatus::Speaking
            | AppStatus::Synthesizing
            | AppStatus::RewritingText
            | AppStatus::LoadingModel => false,
            _ => true,
        };
        if playback_empty && should_mark_ready {
            let detail = if position > 1 {
                let count = text::decimal_text(position as u128);
                text::concat3("Queued ", count.as_str(), " items for playback.")
            } else {
                "Queued 1 item for playback.".to_owned()
            };
            self.mark_status(AppStatus::Ready, detail);
        } else {
            self.emit_snapshot(None);
        }
        Ok(position)
    }

    /// Checks that the selected model takes what a request sets.
    pub fn validate_overrides(&self, overrides: &SpeechOverrides, reference_exists: bool) -> (res:
        Result<(), OverrideError>)
        ensures
            match instructions::override_error(
                self@.config.voice_model,
                overrides@,
                reference_exists,
            ) {
                Some(error) => res == Err::<(), OverrideError>(error),
                None => res is Ok,
            },
    {
        instructions::validate_overrides_for_model(
            self.config.voice_model,
            overrides,
            reference_exists,
        )
    }

    /// Begins to warm VibeVoice 1.5B up, and returns the precision and the request to
    /// do it with.
    pub fn warmup_vibevoice(&mut self, overrides: SpeechOverrides, reference_exists: bool) -> (res:
        Result<(TtsPrecision, SpeechOverrides), String>)
        ensures
            ({
                let normalized = state::normalized_overrides(overrides@);
                match instructions::override_error(
                    VoiceModel::VibeVoice,
                    normalized,
                    reference_exists,
                ) {
                    Some(error) => {
                        &&& final(self)@ == old(self)@
                        &&& res matches Err(message)
                        &&& message@ == instructions::override_message(
                            error,
                            reference_text(normalized),
                        )
                    },
                    None => {
                        &&& final(self)@ == marked(
                            old(self)@,
                            AppStatus::LoadingModel,
                            "Running VibeVoice 1.5B inference warmup..."@,
                        )
                        &&& res matches Ok(plan)
                        &&& plan.0 == old(self)@.config.tts_precision
                        &&& plan.1@ == normalized
                    },
                }
            }),
            final(self).tts == old(self).tts,
    {
        let overrides = overrides.normalized();
        match instructions::validate_overrides_for_model(
            VoiceModel::VibeVoice,
            &overrides,
            reference_exists,
        ) {
            Ok(_) => {},
            Err(error) => {
                let message = match &overrides.reference_audio_path {
                    Some(path) => error.message(path.as_str()),
                    None => error.message(String::new().as_str()),
                };
                return Err(message);
            },
        }
        self.mark_status(
            AppStatus::LoadingModel,
            "Running VibeVoice 1.5B inference warmup...".to_owned(),
        );
        Ok((self.config.tts_precision, overrides))
    }

    /// Takes note of what came of warming VibeVoice 1.5B up. Its voices are shown only
    /// where it is the selected model.
    pub fn vibevoice_warmed(&mut self, outcome: &Result<WarmupInfo, String>)
        ensures
            final(self)@ == match *outcome {
                Ok(warmup) => marked(
                    if old(self)@.config.voice_model == VoiceModel::VibeVoice {
                        with_model_ready(old(self)@, warmup@.voices)
                    } else {
                        old(self)@
                    },
                    AppStatus::Ready,
                    vibevoice_warmup_detail(warmup@),
                ),
                Err(error) => failed(old(self)@, error@),
            },
            final(self).tts == old(self).tts,
    {
        match outcome {
            Ok(warmup) => {
                if self.config.voice_model == VoiceModel::VibeVoice {
                    self.runtime.model_ready = true;
                    self.runtime.available_voices = state::clone_texts(&warmup.voices);
                    assert(self@.updates =~= old(self)@.updates);
                    assert(self@ =~= with_model_ready(old(self)@, warmup@.voices));
                }
                let detail = text::concat3(
                    "VibeVoice 1.5B warmup finished on ",
                    warmup.runtime_label.as_str(),
                    " in ",
                );
                let millis = text::decimal_text(warmup.warmup_duration_ms as u128);
                let detail = text::concat3(detail.as_str(), millis.as_str(), " ms.");
                self.mark_status(AppStatus::Ready, detail);
            },
            Err(error) => {
                self.mark_error(error.as_str());
            },
        }
    }

    /// Skips the text under way. Returns whether the player is to be emptied.
    pub fn skip_current_item(&mut self, playback_empty: bool) -> (res: bool)
        ensures
            final(self)@ == after_skip(old(self)@, playback_empty),
            res == skippable(old(self)@, playback_empty),
            final(self).tts == old(self).tts,
    {
        self.clear_pending_hotkey_press();
        if !self.has_skippable_work(playback_empty) {
            self.mark_status(AppStatus::Ready, "Nothing is queued right now.".to_owned());
            return false;
        }
        let ghost ready = self@;
        self.speech_queue.skip_current_item();
        self.playback.stop();
        self.runtime.playback_paused = false;
        assert(self@.updates =~= ready.updates);
        let detail = if self.speech_queue.len() > 0 {
            "Skipping the current message and continuing with the queue."
        } else {
            "Skipped the current message. Queue is empty."
        };
        self.mark_status(AppStatus::Ready, detail.to_owned());
        true
    }

    /// Takes a press of the shortcut: the second of two within the window skips the
    /// text under way, any other waits for a second one.
    pub fn handle_shortcut(&mut self, now: u64, playback_empty: bool) -> (res: ShortcutAction)
        requires
            old(self)@.runtime.next_hotkey_press_id < u64::MAX,
        ensures
            if !is_double_press(old(self)@.runtime, now) {
                &&& final(self)@ == with_press(old(self)@, now)
                &&& res == ShortcutAction::AwaitSecondPress(
                    final(self)@.runtime.next_hotkey_press_id,
                )
            } else if skippable(old(self)@, playback_empty) {
                &&& final(self)@ == after_skip(old(self)@, playback_empty)
                &&& res == ShortcutAction::EmptyPlayer
            } else {
                &&& final(self)@ == without_press(old(self)@)
                &&& res == ShortcutAction::Nothing
            },
            final(self).tts == old(self).tts,
    {
        let double = match self.runtime.last_hotkey_press {
            Some(last) => now <= last.pressed_at || now - last.pressed_at
                <= HOTKEY_DOUBLE_PRESS_WINDOW,
            None => false,
        };
        if !double {
            let id: u64 = self.runtime.next_hotkey_press_id + 1;
            self.runtime.next_hotkey_press_id = id;
            self.runtime.last_hotkey_press = Some(PendingHotkeyPress { id, pressed_at: now });
            assert(self@.updates =~= old(self)@.updates);
            return ShortcutAction::AwaitSecondPress(id);
        }
        self.clear_pending_hotkey_press();
        if self.has_skippable_work(playback_empty) {
            self.skip_current_item(playback_empty);
            ShortcutAction::EmptyPlayer
        } else {
            ShortcutAction::Nothing
        }
    }

    /// Stops everything, for which the player is to be emptied.
    pub fn stop_playback(&mut self)
        ensures
            final(self)@ == after_stop(old(self)@),
            final(self).tts == old(self).tts,
    {
        self.clear_pending_hotkey_press();
        let ghost ready = self@;
        self.speech_queue.clear_and_invalidate();
        self.playback.stop();
        self.runtime.playback_paused = false;
        assert(self@.updates =~= ready.updates);
        self.mark_status(AppStatus::Ready, "Playback stopped.".to_owned());
    }

    /// Pauses the player or sets it going again, given whether it is paused. Returns
    /// whether it is to be paused.
    pub fn toggle_pause_playback(&mut self, is_paused: bool) -> (res: bool)
        ensures
            res == !is_paused,
            final(self)@ == after_toggle(old(self)@, is_paused),
            final(self).tts == old(self).tts,
    {
        let paused = self.playback.toggle_pause(is_paused);
        self.runtime.playback_paused = paused;
        self.runtime.status = AppStatus::Speaking;
        self.runtime.status_detail = if paused {
            "Playback paused.".to_owned()
        } else {
            "Playback resumed.".to_owned()
        };
        assert(self@.updates =~= old(self)@.updates);
        self.emit_snapshot(None);
        paused
    }

    /// Notes that playback has come to its end, if it has.
    pub fn watch_playback(&mut self, playback_empty: bool)
        ensures
            final(self)@ == if old(self)@.runtime.status == AppStatus::Speaking && playback_empty
                && old(self)@.queue.items.len() == 0 {
                marked(old(self)@, AppStatus::Ready, "Playback finished."@)
            } else {
                old(self)@
            },
            final(self).tts == old(self).tts,
    {
        if self.runtime.status == AppStatus::Speaking && playback_empty && self.speech_queue.len()
            == 0 {
            self.mark_status(AppStatus::Ready, "Playback finished.".to_owned());
        }
    }
}

} // verus!
