//! What every step of the application changes, and that it changes nothing else.

use vstd::prelude::*;
use vstd::string::*;

use crate::config;
use crate::config::{ConfigView, TtsPrecision, VoiceModel};
use crate::instructions;
use crate::instructions::OverrideError;
use crate::queue::{QueueSignal, RequestView};
use crate::runtime;
use crate::runtime::{AppView, Observed, PendingHotkeyPress, RuntimeView, UpdateView};
use crate::state;
use crate::state::{AppStatus, OverridesView, SettingsInput};
use crate::text;
use crate::tts;
use crate::tts::{ModelCacheKey, TtsView, WarmupView};

verus! {

// ---------------------------------------------------------------------------
// What is told
// ---------------------------------------------------------------------------

/// Whether the user interface is told of the state after a step, once, behind all that it
/// is still to be told, with `tray` as the status to show in the tray.
pub open spec fn is_told(before: AppView, after: AppView, tray: Option<AppStatus>) -> bool {
    after.updates == before.updates + seq![
        UpdateView { tray, runtime: after.runtime, queue_length: after.queue.items.len() },
    ]
}

/// Whether a step leaves the settings, the store and the speech service alone.
pub open spec fn keeps_setup(before: AppView, after: AppView) -> bool {
    after.store == before.store && after.config == before.config && after.tts == before.tts
}

/// Whether a step leaves what was heard and found out alone: the texts that were selected
/// and prepared, whether the model is ready, and its voices.
pub open spec fn keeps_findings(before: RuntimeView, after: RuntimeView) -> bool {
    &&& after.last_selection == before.last_selection
    &&& after.last_prepared_text == before.last_prepared_text
    &&& after.model_ready == before.model_ready
    &&& after.available_voices == before.available_voices
    &&& after.next_hotkey_press_id == before.next_hotkey_press_id
}

/// A new status is shown with its detail; unless it is an error, the last error is
/// forgotten. Nothing else changes.
pub proof fn law_what_a_status_changes(app: AppView, status: AppStatus, detail: Seq<char>)
    ensures
        ({
            let after = runtime::marked(app, status, detail);
            &&& after.runtime.status == status
            &&& after.runtime.status_detail == detail
            &&& after.runtime.last_error == if status == AppStatus::Error {
                app.runtime.last_error
            } else {
                None
            }
            &&& after.runtime.playback_paused == app.runtime.playback_paused
            &&& after.runtime.last_hotkey_press == app.runtime.last_hotkey_press
            &&& keeps_findings(app.runtime, after.runtime)
            &&& keeps_setup(app, after)
            &&& after.queue == app.queue
            &&& after.playback == app.playback
            &&& is_told(app, after, Some(status))
        }),
{
    let after = runtime::marked(app, status, detail);
    assert(after.updates =~= app.updates + seq![after.updates.last()]);
}

/// An error is shown and kept. Nothing else changes.
pub proof fn law_what_an_error_changes(app: AppView, detail: Seq<char>)
    ensures
        ({
            let after = runtime::failed(app, detail);
            &&& after.runtime.status == AppStatus::Error
            &&& after.runtime.status_detail == detail
            &&& after.runtime.last_error == Some(detail)
            &&& after.runtime.playback_paused == app.runtime.playback_paused
            &&& after.runtime.last_hotkey_press == app.runtime.last_hotkey_press
            &&& keeps_findings(app.runtime, after.runtime)
            &&& keeps_setup(app, after)
            &&& after.queue == app.queue
            &&& after.playback == app.playback
            &&& is_told(app, after, Some(AppStatus::Error))
        }),
{
    let after = runtime::failed(app, detail);
    assert(after.updates =~= app.updates + seq![after.updates.last()]);
}

/// A selection is noted as it is, and the player counts as set going. Nothing else
/// changes.
pub proof fn law_what_a_selection_changes(app: AppView, selection: Seq<char>)
    ensures
        ({
            let after = runtime::with_selection(app, selection);
            &&& after.runtime == (RuntimeView {
                status: app.runtime.status,
                status_detail: app.runtime.status_detail,
                last_selection: Some(selection),
                last_prepared_text: app.runtime.last_prepared_text,
                last_error: app.runtime.last_error,
                model_ready: app.runtime.model_ready,
                playback_paused: false,
                available_voices: app.runtime.available_voices,
                last_hotkey_press: app.runtime.last_hotkey_press,
                next_hotkey_press_id: app.runtime.next_hotkey_press_id,
            })
            &&& keeps_setup(app, after)
            &&& after.queue == app.queue
            &&& after.playback == app.playback
            &&& is_told(app, after, None)
        }),
{
    let after = runtime::with_selection(app, selection);
    assert(after.updates =~= app.updates + seq![after.updates.last()]);
}

// ---------------------------------------------------------------------------
// The queue
// ---------------------------------------------------------------------------

/// A text that is accepted waits behind all others, trimmed, with its overrides tidied;
/// the worker is told of it once, and everything that waited goes on waiting. Where the
/// player is silent and no text is being worked on, the length of the queue is shown.
pub proof fn law_what_queueing_changes(
    app: AppView,
    selection: Seq<char>,
    overrides: OverridesView,
    reference_exists: bool,
    playback_empty: bool,
)
    requires
        runtime::enqueue_error(app, selection, overrides, reference_exists) is None,
    ensures
        ({
            let after = runtime::after_enqueue(
                app,
                selection,
                overrides,
                reference_exists,
                playback_empty,
            );
            let shown = playback_empty && app.runtime.status != AppStatus::Speaking
                && app.runtime.status != AppStatus::Synthesizing && app.runtime.status
                != AppStatus::RewritingText && app.runtime.status != AppStatus::LoadingModel;
            let count = app.queue.items.len() + 1;
            &&& after.queue.items == app.queue.items + seq![
                RequestView {
                    text: text::trimmed(selection),
                    overrides: state::normalized_overrides(overrides),
                },
            ]
            &&& after.queue.outbox == app.queue.outbox + seq![QueueSignal::NewItem]
            &&& after.queue.generation == app.queue.generation
            &&& after.queue.current_item_generation == app.queue.current_item_generation
            &&& after.playback == app.playback
            &&& keeps_setup(app, after)
            &&& keeps_findings(app.runtime, after.runtime)
            &&& after.runtime.last_hotkey_press == app.runtime.last_hotkey_press
            &&& !after.runtime.playback_paused
            &&& if shown {
                &&& after.runtime.status == AppStatus::Ready
                &&& after.runtime.status_detail == if count == 1 {
                    "Queued 1 item for playback."@
                } else {
                    "Queued "@ + text::decimal(count) + " items for playback."@
                }
                &&& after.runtime.last_error is None
                &&& is_told(app, after, Some(AppStatus::Ready))
            } else {
                &&& after.runtime.status == app.runtime.status
                &&& after.runtime.status_detail == app.runtime.status_detail
                &&& after.runtime.last_error == app.runtime.last_error
                &&& is_told(app, after, None)
            }
        }),
{
    let after = runtime::after_enqueue(app, selection, overrides, reference_exists, playback_empty);
    assert(after.updates =~= app.updates + seq![after.updates.last()]);
    assert(after.queue.items =~= app.queue.items + seq![after.queue.items.last()]);
    assert(after.queue.outbox =~= app.queue.outbox + seq![QueueSignal::NewItem]);
}

/// A text is refused exactly if it is blank or sets what the selected model does not take.
/// A blank one is shown as an error; any other refused text changes nothing at all.
pub proof fn law_when_a_text_is_refused(
    app: AppView,
    selection: Seq<char>,
    overrides: OverridesView,
    reference_exists: bool,
    playback_empty: bool,
)
    ensures
        ({
            let tidied = state::normalized_overrides(overrides);
            let error = instructions::override_error(
                app.config.voice_model,
                tidied,
                reference_exists,
            );
            let found = runtime::enqueue_error(app, selection, overrides, reference_exists);
            let after = runtime::after_enqueue(
                app,
                selection,
                overrides,
                reference_exists,
                playback_empty,
            );
            &&& text::trimmed(selection).len() == 0 ==> found == Some("No text was provided."@)
                && after == runtime::failed(app, "No text was provided."@)
            &&& text::trimmed(selection).len() > 0 ==> (found is None <==> error is None)
            &&& text::trimmed(selection).len() > 0 && error is Some ==> after == app && found
                == Some(
                instructions::override_message(
                    error->0,
                    match tidied.reference_audio_path {
                        Some(path) => path,
                        None => Seq::empty(),
                    },
                ),
            )
        }),
{
}

/// Where something is being spoken or worked on, a skip invalidates it, empties the player
/// and keeps everything that waits; where nothing is, a skip is only reported.
pub proof fn law_what_a_skip_changes(app: AppView, playback_empty: bool)
    ensures
        ({
            let after = runtime::after_skip(app, playback_empty);
            let busy = !playback_empty || app.runtime.status == AppStatus::CapturingSelection
                || app.runtime.status == AppStatus::RewritingText || app.runtime.status
                == AppStatus::Synthesizing || app.runtime.status == AppStatus::Speaking;
            &&& runtime::skippable(app, playback_empty) == busy
            &&& after.queue.items == app.queue.items
            &&& after.queue.outbox == app.queue.outbox
            &&& after.queue.generation == app.queue.generation
            &&& keeps_setup(app, after)
            &&& keeps_findings(app.runtime, after.runtime)
            &&& after.runtime.last_hotkey_press is None
            &&& after.runtime.last_error is None
            &&& after.runtime.status == AppStatus::Ready
            &&& is_told(app, after, Some(AppStatus::Ready))
            &&& if busy {
                &&& after.queue.current_item_generation != app.queue.current_item_generation
                &&& after.playback != app.playback
                &&& !after.runtime.playback_paused
                &&& after.runtime.status_detail == if app.queue.items.len() > 0 {
                    "Skipping the current message and continuing with the queue."@
                } else {
                    "Skipped the current message. Queue is empty."@
                }
            } else {
                &&& after.queue.current_item_generation == app.queue.current_item_generation
                &&& after.playback == app.playback
                &&& after.runtime.playback_paused == app.runtime.playback_paused
                &&& after.runtime.status_detail == "Nothing is queued right now."@
            }
        }),
{
    let after = runtime::after_skip(app, playback_empty);
    assert(after.updates =~= app.updates + seq![after.updates.last()]);
}

/// A stop empties the queue and the player, invalidates whatever is under way, and tells
/// the worker once. The settings and what was found out stay.
pub proof fn law_what_a_stop_changes(app: AppView)
    ensures
        ({
            let after = runtime::after_stop(app);
            &&& after.queue.items.len() == 0
            &&& after.queue.outbox == app.queue.outbox + seq![QueueSignal::Stop]
            &&& after.queue.generation != app.queue.generation
            &&& after.queue.current_item_generation != app.queue.current_item_generation
            &&& after.playback != app.playback
            &&& keeps_setup(app, after)
            &&& keeps_findings(app.runtime, after.runtime)
            &&& after.runtime.last_hotkey_press is None
            &&& after.runtime.last_error is None
            &&& !after.runtime.playback_paused
            &&& after.runtime.status == AppStatus::Ready
            &&& after.runtime.status_detail == "Playback stopped."@
            &&& is_told(app, after, Some(AppStatus::Ready))
        }),
{
    let after = runtime::after_stop(app);
    assert(after.updates =~= app.updates + seq![after.updates.last()]);
    assert(after.queue.outbox =~= app.queue.outbox + seq![QueueSignal::Stop]);
}

/// The counters that tell one text from another count by one, and begin again at zero
/// behind the largest number.
pub proof fn law_counters_count_by_one(app: AppView, playback_empty: bool)
    ensures
        ({
            let stopped = runtime::after_stop(app);
            &&& app.queue.generation < u64::MAX ==> stopped.queue.generation
                == app.queue.generation + 1
            &&& app.queue.generation == u64::MAX ==> stopped.queue.generation == 0
            &&& app.playback < u64::MAX ==> stopped.playback == app.playback + 1
            &&& app.playback == u64::MAX ==> stopped.playback == 0
            &&& app.queue.current_item_generation < u64::MAX
                ==> stopped.queue.current_item_generation == app.queue.current_item_generation + 1
            &&& app.queue.current_item_generation == u64::MAX
                ==> stopped.queue.current_item_generation == 0
        }),
        runtime::skippable(app, playback_empty) ==> runtime::after_skip(
            app,
            playback_empty,
        ).queue.current_item_generation == runtime::after_stop(app).queue.current_item_generation,
        runtime::skippable(app, playback_empty) ==> runtime::after_skip(
            app,
            playback_empty,
        ).playback == runtime::after_stop(app).playback,
{
}

/// A player that was paused goes on and one that was not is paused; only that is shown.
pub proof fn law_what_a_pause_changes(app: AppView, is_paused: bool)
    ensures
        ({
            let after = runtime::after_toggle(app, is_paused);
            &&& after.runtime.playback_paused == !is_paused
            &&& after.runtime.status == AppStatus::Speaking
            &&& after.runtime.status_detail == if is_paused {
                "Playback resumed."@
            } else {
                "Playback paused."@
            }
            &&& after.runtime.last_error == app.runtime.last_error
            &&& after.runtime.last_hotkey_press == app.runtime.last_hotkey_press
            &&& keeps_findings(app.runtime, after.runtime)
            &&& keeps_setup(app, after)
            &&& after.queue == app.queue
            &&& after.playback == app.playback
            &&& is_told(app, after, None)
        }),
{
    let after = runtime::after_toggle(app, is_paused);
    assert(after.updates =~= app.updates + seq![after.updates.last()]);
}

/// A press of the shortcut is noted with its time and a new number, and nothing else
/// changes; forgetting it changes nothing else either.
pub proof fn law_what_a_press_changes(app: AppView, now: u64)
    requires
        app.runtime.next_hotkey_press_id < u64::MAX,
    ensures
        ({
            let number = (app.runtime.next_hotkey_press_id + 1) as u64;
            runtime::with_press(app, now) == (AppView {
                runtime: RuntimeView {
                    last_hotkey_press: Some(PendingHotkeyPress { id: number, pressed_at: now }),
                    next_hotkey_press_id: number,
                    ..app.runtime
                },
                ..app
            })
        }),
        runtime::without_press(app) == (AppView {
            runtime: RuntimeView { last_hotkey_press: None, ..app.runtime },
            ..app
        }),
        runtime::is_double_press(app.runtime, now) <==> (app.runtime.last_hotkey_press is Some
            && now - app.runtime.last_hotkey_press->0.pressed_at <= 450_000_000),
{
}

// ---------------------------------------------------------------------------
// What a model takes
// ---------------------------------------------------------------------------

/// What each model does not take is refused, and nothing else is: at most one reference
/// voice may be named, and a reference audio file has to be there.
pub proof fn law_what_a_model_takes(
    model: VoiceModel,
    overrides: OverridesView,
    reference_exists: bool,
)
    ensures
        ({
            let o = overrides;
            let generates = o.cfg_scale is Some || o.temperature is Some || o.max_tokens is Some;
            let refers = o.reference_audio_path is Some || o.reference_preset_id is Some
                || o.reference_preset_name is Some;
            let twice = {
                ||| o.reference_audio_path is Some && o.reference_preset_id is Some
                ||| o.reference_audio_path is Some && o.reference_preset_name is Some
                ||| o.reference_preset_id is Some && o.reference_preset_name is Some
            };
            let foreign = match model {
                VoiceModel::VibeVoiceRealtime => o.description is Some || refers || generates,
                VoiceModel::VibeVoice => o.voice_preset is Some || o.style is Some
                    || o.description is Some,
                VoiceModel::ParlerTts => refers || generates,
                VoiceModel::Kokoro => o.style is Some || o.description is Some || refers
                    || generates,
            };
            instructions::override_error(model, o, reference_exists) == if foreign {
                Some(OverrideError::Unsupported(model))
            } else if twice {
                Some(OverrideError::SeveralReferences)
            } else if o.reference_audio_path is Some && !reference_exists {
                Some(OverrideError::MissingReference)
            } else {
                None
            }
        }),
{
    instructions::lemma_all_supported(model, overrides);
}

// ---------------------------------------------------------------------------
// The settings
// ---------------------------------------------------------------------------

/// Saving settings takes over every setting that was sent: texts tidied, a blank model,
/// prompt or shortcut left as it was, and automatic precision for VibeVoice 1.5B. The
/// voice, the port and the version are not among them.
pub proof fn law_what_saving_settings_changes(saved: ConfigView, input: SettingsInput)
    ensures
        ({
            let after = runtime::with_settings(saved, input);
            &&& after.gemini_enabled == input.gemini_enabled
            &&& after.voice_model == input.voice_model
            &&& after.voice_preset == input.voice_preset@
            &&& after.default_chunk_size == input.default_chunk_size
            &&& input.voice_model == VoiceModel::VibeVoice ==> after.tts_precision
                == TtsPrecision::Auto
            &&& input.voice_model != VoiceModel::VibeVoice ==> after.tts_precision
                == input.tts_precision
            &&& after.gemini_model == if text::trimmed(input.gemini_model@).len() > 0 {
                text::trimmed(input.gemini_model@)
            } else {
                saved.gemini_model
            }
            &&& after.gemini_prompt == if text::trimmed(input.gemini_prompt@).len() > 0 {
                text::trimmed(input.gemini_prompt@)
            } else {
                saved.gemini_prompt
            }
            &&& after.shortcut == if text::trimmed(input.shortcut@).len() > 0 {
                config::normalized_shortcut(input.shortcut@)
            } else {
                saved.shortcut
            }
            &&& after.config_version == saved.config_version
            &&& after.voice_gender == saved.voice_gender
            &&& after.http_port == saved.http_port
        }),
{
}

/// Once the settings choose another model or precision, whether that model had to give up
/// automatic precision is forgotten; otherwise all such findings stay. Every loaded model
/// but the chosen one is let go.
pub proof fn law_what_a_model_choice_changes(tts: TtsView, before: ConfigView, after: ConfigView)
    ensures
        ({
            let now = runtime::with_model_choice(tts, before, after);
            let chosen = ModelCacheKey {
                voice_model: after.voice_model,
                precision: after.tts_precision,
            };
            &&& now.asset_root == tts.asset_root
            &&& now.vibevoice_runtime_label == tts.vibevoice_runtime_label
            &&& now.next_cell == tts.next_cell
            &&& now.cells == tts::kept_cells(tts.cells, chosen)
            &&& before.voice_model == after.voice_model && before.tts_precision
                == after.tts_precision ==> now.auto_precision_overrides
                == tts.auto_precision_overrides
            &&& before.voice_model != after.voice_model || before.tts_precision
                != after.tts_precision ==> now.auto_precision_overrides
                == tts.auto_precision_overrides.remove(tts::model_number(after.voice_model))
        }),
{
}

// ---------------------------------------------------------------------------
// What is shown
// ---------------------------------------------------------------------------

/// Everything that the user interface shows is what the application holds.
pub proof fn law_what_is_shown_is_what_is_there(
    app: AppView,
    now: RuntimeView,
    queue_length: nat,
    observed: Observed,
)
    ensures
        ({
            let shown = runtime::shown(app, now, queue_length, observed);
            &&& shown.status == now.status
            &&& shown.status_detail == now.status_detail
            &&& shown.config == app.config
            &&& shown.api_key_present == observed.api_key_present
            &&& shown.model_ready == now.model_ready
            &&& shown.playback_paused == now.playback_paused
            &&& shown.queue_length == queue_length
            &&& shown.can_skip <==> !observed.playback_empty || now.status
                == AppStatus::CapturingSelection || now.status == AppStatus::RewritingText
                || now.status == AppStatus::Synthesizing || now.status == AppStatus::Speaking
            &&& shown.last_selection == now.last_selection
            &&& shown.last_prepared_text == now.last_prepared_text
            &&& shown.last_error == now.last_error
            &&& shown.available_voices == now.available_voices
            &&& shown.tts_runtime_label == tts::runtime_label(
                app.tts,
                app.config.voice_model,
                app.config.tts_precision,
                observed.host,
            )
            &&& shown.tts_backend_status == tts::backend_text(
                app.tts,
                app.config.voice_model,
                app.config.tts_precision,
                observed.host,
            )
            &&& shown.model_instructions == instructions::instructions(app.config.voice_model)
        }),
{
}

/// A model that is ready is shown with its voices, and nothing else changes.
pub proof fn law_what_a_ready_model_changes(app: AppView, voices: Seq<Seq<char>>)
    ensures
        runtime::with_model_ready(app, voices) == (AppView {
            runtime: RuntimeView { model_ready: true, available_voices: voices, ..app.runtime },
            ..app
        }),
{
}

/// A warm-up is reported with the number of voices, what runs the model and, where it was
/// tried out, how long that took.
pub proof fn law_how_a_warmup_is_reported(warmup: WarmupView)
    ensures
        runtime::warmup_detail(warmup) == if warmup.warmed_inference {
            "Model ready with "@ + text::decimal(warmup.voices.len()) + " voice presets on "@
                + warmup.runtime_label + " after inference warmup ("@ + text::decimal(
                warmup.warmup_duration_ms as nat,
            ) + " ms)."@
        } else {
            "Model ready with "@ + text::decimal(warmup.voices.len()) + " voice presets on "@
                + warmup.runtime_label + "."@
        },
        runtime::vibevoice_warmup_detail(warmup) == "VibeVoice 1.5B warmup finished on "@
            + warmup.runtime_label + " in "@ + text::decimal(warmup.warmup_duration_ms as nat)
            + " ms."@,
{
}

} // verus!
