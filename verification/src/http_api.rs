//! The local HTTP API: what each request does and how it is answered.

use vstd::prelude::*;
use vstd::string::*;

use crate::presets::VibeVoicePresetInfo;
use crate::runtime;
use crate::runtime::{AppRuntime, Observed};
use crate::state;
use crate::state::SpeechOverrides;
use crate::text;
use crate::tts::WarmupInfo;

verus! {

pub const STATUS_OK: u16 = 200;

pub const STATUS_BAD_REQUEST: u16 = 400;

pub const STATUS_SERVER_ERROR: u16 = 500;

/// The answer to a request that stops playback.
#[derive(Debug)]
pub struct SpeakResponse {
    pub ok: bool,
    pub prepared_text: Option<String>,
    pub error: Option<String>,
}

/// The answer to a request that queues a text.
#[derive(Debug)]
pub struct EnqueueResponse {
    pub ok: bool,
    pub queued: bool,
    pub position: usize,
    pub error: Option<String>,
}

/// The answer to a request for the status.
#[derive(Debug)]
pub struct StatusResponse {
    pub status: String,
    pub status_detail: String,
    pub model_ready: bool,
    pub playback_paused: bool,
    pub queue_length: usize,
    pub tts_backend_status: String,
    pub tts_runtime_label: Option<String>,
    pub last_error: Option<String>,
}

/// The answer to a request that creates a preset.
#[derive(Debug)]
pub struct VibeVoicePresetResponse {
    pub ok: bool,
    pub preset: Option<VibeVoicePresetInfo>,
    pub error: Option<String>,
}

/// The answer to a request for the presets.
#[derive(Debug)]
pub struct VibeVoicePresetListResponse {
    pub ok: bool,
    pub presets: Vec<VibeVoicePresetInfo>,
    pub error: Option<String>,
}

/// The answer to a request that warms VibeVoice 1.5B up.
#[derive(Debug)]
pub struct VibeVoiceWarmupResponse {
    pub ok: bool,
    pub runtime_label: Option<String>,
    pub warmup_duration_ms: Option<u64>,
    pub warmed_inference: Option<bool>,
    pub error: Option<String>,
}

/// Whether an answer says that a text was queued at a position.
pub open spec fn says_queued(answer: (u16, EnqueueResponse), position: nat) -> bool {
    &&& answer.0 == STATUS_OK
    &&& answer.1.ok
    &&& answer.1.queued
    &&& answer.1.position == position
    &&& answer.1.error is None
}

/// Whether an answer says that a text was not queued, and why.
pub open spec fn says_not_queued(answer: (u16, EnqueueResponse), reason: Seq<char>) -> bool {
    &&& answer.0 == STATUS_BAD_REQUEST
    &&& !answer.1.ok
    &&& !answer.1.queued
    &&& answer.1.position == 0
    &&& answer.1.error matches Some(error)
    &&& error@ == reason
}

fn not_queued(reason: String) -> (res: (u16, EnqueueResponse))
    ensures
        says_not_queued(res, reason@),
{
    (
        STATUS_BAD_REQUEST,
        EnqueueResponse { ok: false, queued: false, position: 0, error: Some(reason) },
    )
}

/// Queues the text of a request with what the request sets.
pub fn speak_handler(
    app: &mut AppRuntime,
    body: &str,
    overrides: SpeechOverrides,
    reference_exists: bool,
    playback_empty: bool,
) -> (res: (u16, EnqueueResponse))
    ensures
        ({
            let words = text::trimmed(body@);
            if text::is_blank(body@) {
                &&& final(app)@ == old(app)@
                &&& says_not_queued(res, "No text provided."@)
            } else {
                &&& final(app)@ == runtime::after_enqueue(
                    old(app)@,
                    words,
                    overrides@,
                    reference_exists,
                    playback_empty,
                )
                &&& match runtime::enqueue_error(
                    old(app)@,
                    words,
                    overrides@,
                    reference_exists,
                ) {
                    Some(reason) => says_not_queued(res, reason),
                    None => says_queued(res, final(app)@.queue.items.len()),
                }
            }
        }),
        final(app).tts == old(app).tts,
{
    let words = text::trim(body);
    if words.as_str().is_empty() {
        return not_queued("No text provided.".to_owned());
    }
    match app.enqueue_text(words.as_str(), overrides, reference_exists, playback_empty) {
        Ok(position) => (
            STATUS_OK,
            EnqueueResponse { ok: true, queued: true, position, error: None },
        ),
        Err(error) => not_queued(error),
    }
}

/// The status of the application.
pub fn status_handler(app: &AppRuntime, observed: Observed) -> (res: StatusResponse)
    ensures
        ({
            let shown = runtime::shown(
                app@,
                app@.runtime,
                app@.queue.items.len(),
                observed,
            );
            &&& res.status@ == state::status_name(shown.status)
            &&& res.status_detail@ == shown.status_detail
            &&& res.model_ready == shown.model_ready
            &&& res.playback_paused == shown.playback_paused
            &&& res.queue_length == shown.queue_length
            &&& res.tts_backend_status@ == shown.tts_backend_status
            &&& res.tts_runtime_label.deep_view() == shown.tts_runtime_label
            &&& res.last_error.deep_view() == shown.last_error
        }),
{
    let snapshot = app.snapshot(observed);
    StatusResponse {
        status: snapshot.status.name().to_owned(),
        status_detail: snapshot.status_detail,
        model_ready: snapshot.model_ready,
        playback_paused: snapshot.playback_paused,
        queue_length: app.speech_queue.len(),
        tts_backend_status: app.current_backend_status(observed.host),
        tts_runtime_label: app.current_runtime_label(observed.host),
        last_error: snapshot.last_error,
    }
}

/// The answer once playback was stopped, or could not be.
pub fn stop_handler(outcome: Result<(), String>) -> (res: (u16, SpeakResponse))
    ensures
        res.1.prepared_text is None,
        match outcome {
            Ok(_) => res.0 == STATUS_OK && res.1.ok && res.1.error is None,
            Err(error) => res.0 == STATUS_SERVER_ERROR && !res.1.ok && res.1.error == Some(error),
        },
{
    match outcome {
        Ok(_) => (STATUS_OK, SpeakResponse { ok: true, prepared_text: None, error: None }),
        Err(error) => (
            STATUS_SERVER_ERROR,
            SpeakResponse { ok: false, prepared_text: None, error: Some(error) },
        ),
    }
}

/// The answer once a preset was created, or could not be.
pub fn create_vibevoice_preset_handler(outcome: Result<VibeVoicePresetInfo, String>) -> (res: (
    u16,
    VibeVoicePresetResponse,
))
    ensures
        match outcome {
            Ok(preset) => res.0 == STATUS_OK && res.1.ok && res.1.preset == Some(preset)
                && res.1.error is None,
            Err(error) => res.0 == STATUS_BAD_REQUEST && !res.1.ok && res.1.preset is None
                && res.1.error == Some(error),
        },
{
    match outcome {
        Ok(preset) => (
            STATUS_OK,
            VibeVoicePresetResponse { ok: true, preset: Some(preset), error: None },
        ),
        Err(error) => (
            STATUS_BAD_REQUEST,
            VibeVoicePresetResponse { ok: false, preset: None, error: Some(error) },
        ),
    }
}

/// The answer once the presets were listed, or could not be.
pub fn list_vibevoice_presets_handler(outcome: Result<Vec<VibeVoicePresetInfo>, String>) -> (res:
    (u16, VibeVoicePresetListResponse))
    ensures
        match outcome {
            Ok(presets) => res.0 == STATUS_OK && res.1.ok && res.1.presets == presets
                && res.1.error is None,
            Err(error) => res.0 == STATUS_SERVER_ERROR && !res.1.ok && res.1.presets@.len() == 0
                && res.1.error == Some(error),
        },
{
    match outcome {
        Ok(presets) => (
            STATUS_OK,
            VibeVoicePresetListResponse { ok: true, presets, error: None },
        ),
        Err(error) => (
            STATUS_SERVER_ERROR,
            VibeVoicePresetListResponse { ok: false, presets: Vec::new(), error: Some(error) },
        ),
    }
}

/// The answer once VibeVoice 1.5B was warmed up, or could not be.
pub fn warmup_vibevoice_handler(outcome: Result<WarmupInfo, String>) -> (res: (
    u16,
    VibeVoiceWarmupResponse,
))
    ensures
        match outcome {
            Ok(warmup) => {
                &&& res.0 == STATUS_OK
                &&& res.1.ok
                &&& res.1.runtime_label == Some(warmup.runtime_label)
                &&& res.1.warmup_duration_ms == Some(warmup.warmup_duration_ms)
                &&& res.1.warmed_inference == Some(warmup.warmed_inference)
                &&& res.1.error is None
            },
            Err(error) => {
                &&& res.0 == STATUS_BAD_REQUEST
                &&& !res.1.ok
                &&& res.1.runtime_label is None
                &&& res.1.warmup_duration_ms is None
                &&& res.1.warmed_inference is None
                &&& res.1.error == Some(error)
            },
        },
{
    match outcome {
        Ok(warmup) => (
            STATUS_OK,
            VibeVoiceWarmupResponse {
                ok: true,
                runtime_label: Some(warmup.runtime_label),
                warmup_duration_ms: Some(warmup.warmup_duration_ms),
                warmed_inference: Some(warmup.warmed_inference),
                error: None,
            },
        ),
        Err(error) => (
            STATUS_BAD_REQUEST,
            VibeVoiceWarmupResponse {
                ok: false,
                runtime_label: None,
                warmup_duration_ms: None,
                warmed_inference: None,
                error: Some(error),
            },
        ),
    }
}

/// Where the API listens: on this machine alone.
pub fn listen_address(port: u16) -> (res: String)
    ensures
        res@ == "127.0.0.1:"@ + text::decimal(port as nat),
{
    let port = text::decimal_text(port as u128);
    text::concat2("127.0.0.1:", port.as_str())
}

/// An answer says that something was queued exactly if the queue has grown by it.
pub proof fn law_queued_answers_are_true(
    before: runtime::AppView,
    words: Seq<char>,
    overrides: state::OverridesView,
    reference_exists: bool,
    playback_empty: bool,
)
    ensures
        ({
            let after = runtime::after_enqueue(
                before,
                words,
                overrides,
                reference_exists,
                playback_empty,
            );
            if runtime::enqueue_error(before, words, overrides, reference_exists) is None {
                after.queue.items.len() == before.queue.items.len() + 1
            } else {
                after.queue == before.queue
            }
        }),
{
}

/// An answer to a text that was queued is a success with its position and no error; one to
/// a text that was not is a refusal with the reason.
pub proof fn law_what_an_answer_says(
    answer: (u16, EnqueueResponse),
    position: nat,
    reason: Seq<char>,
)
    ensures
        says_queued(answer, position) <==> answer.0 == 200 && answer.1.ok && answer.1.queued
            && answer.1.position == position && answer.1.error is None,
        says_not_queued(answer, reason) <==> answer.0 == 400 && !answer.1.ok && !answer.1.queued
            && answer.1.position == 0 && answer.1.error is Some && answer.1.error->0@ == reason,
{
}

} // verus!
