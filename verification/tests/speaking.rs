use devvoice::config::ConfigStore;
use devvoice::playback::{
    combine_audio_chunks, default_audio_output_dir, output_location, AudioChunk, AudioError,
    AudioFormat, CombineError, PlaybackController,
};
use devvoice::config::VoiceModel;
use devvoice::queue::QueueSignal;
use devvoice::runtime::AppRuntime;
use devvoice::speech_job::{SpeechEvent, SpeechJob, SpeechMode, SpeechStep, SynthesizedAudio};
use devvoice::state::{AppStatus, SpeechOverrides};
use devvoice::worker::{QueueWorker, WorkerAction, WorkerEvent, WorkerState};

fn start() -> AppRuntime {
    let (store, config) = ConfigStore::load("/conf", "/data", None);
    AppRuntime::load(store, config)
}

const MONO: AudioFormat = AudioFormat { sample_rate: 24_000, channels: 1 };

fn made(voice: Option<&str>) -> SpeechEvent {
    SpeechEvent::Synthesized(Ok(SynthesizedAudio {
        voice: voice.map(|v| v.to_owned()),
        format: MONO,
    }))
}

fn queued(app: &AppRuntime) -> SpeechMode {
    SpeechMode::Queued {
        queue_gen: app.speech_queue.generation(),
        item_token: app.speech_queue.current_item_token(),
    }
}

#[test]
fn every_chunk_is_spoken_in_order() {
    let mut app = start();
    let mut overrides = SpeechOverrides::default();
    overrides.chunk_size = Some(5);
    let mode = queued(&app);
    let (mut job, step) =
        SpeechJob::process_text(&mut app, " Alpha one. Beta two. Gamma three. ", mode, overrides);
    let mut step = step;
    let mut spoken = Vec::new();
    loop {
        step = match step {
            SpeechStep::Synthesize(chunk) => {
                assert_eq!(app.runtime.status, AppStatus::Synthesizing);
                assert_eq!(
                    app.runtime.status_detail,
                    format!("Synthesizing chunk {} of 3...", spoken.len() + 1)
                );
                spoken.push(chunk);
                job.advance(&mut app, made(Some("emma")))
            }
            SpeechStep::Play => job.advance(&mut app, SpeechEvent::Played(Ok(()))),
            SpeechStep::Finished(outcome) => {
                assert_eq!(outcome.raw_selection, "Alpha one. Beta two. Gamma three.");
                assert_eq!(outcome.prepared_text, outcome.raw_selection);
                assert!(!outcome.used_gemini);
                break;
            }
            _ => unreachable!(),
        };
    }
    assert_eq!(spoken, vec!["Alpha one.", "Beta two.", "Gamma three."]);
    assert!(app.runtime.model_ready);
}

#[test]
fn the_voice_is_told_after_the_first_chunk() {
    let mut app = start();
    let mode = queued(&app);
    let (mut job, step) =
        SpeechJob::process_text(&mut app, "Short.", mode, SpeechOverrides::default());
    assert!(matches!(step, SpeechStep::Synthesize(chunk) if chunk == "Short."));
    assert_eq!(
        app.runtime.status_detail,
        "Synthesizing speech with the local neural voice..."
    );
    assert!(matches!(job.advance(&mut app, made(Some("emma"))), SpeechStep::Play));
    let step = job.advance(&mut app, SpeechEvent::Played(Ok(())));
    assert!(matches!(step, SpeechStep::Finished(_)));
    assert_eq!(app.runtime.status, AppStatus::Speaking);
    assert_eq!(app.runtime.status_detail, "Speaking with emma.");
}

#[test]
fn the_default_voice_is_told() {
    let mut app = start();
    let mode = queued(&app);
    let (mut job, _) = SpeechJob::process_text(&mut app, "x", mode, SpeechOverrides::default());
    job.advance(&mut app, made(None));
    job.advance(&mut app, SpeechEvent::Played(Ok(())));
    assert_eq!(app.runtime.status_detail, "Speaking with the default voice.");
}

#[test]
fn a_blank_text_is_not_spoken() {
    let mut app = start();
    let mode = queued(&app);
    let (_, step) = SpeechJob::process_text(&mut app, "  ", mode, SpeechOverrides::default());
    assert!(matches!(step, SpeechStep::Failed(error) if error == "No text was provided."));
    assert_eq!(app.runtime.status, AppStatus::Error);
}

#[test]
fn a_stopped_text_falls_silent() {
    let mut app = start();
    let mut overrides = SpeechOverrides::default();
    overrides.chunk_size = Some(5);
    overrides.save_audio = Some(true);
    let mode = queued(&app);
    let (mut job, _) = SpeechJob::process_text(&mut app, "Alpha one. Beta two.", mode, overrides);
    job.advance(&mut app, made(None));
    app.stop_playback();
    let step = job.advance(&mut app, SpeechEvent::Played(Ok(())));
    assert!(matches!(step, SpeechStep::Finished(_)));
    assert_eq!(app.runtime.status_detail, "Playback cancelled.");
}

#[test]
fn an_overtaken_text_is_not_played() {
    let mut app = start();
    let mode = SpeechMode::Direct(app.speak_manual_text());
    let (mut job, _) = SpeechJob::process_text(&mut app, "First.", mode, SpeechOverrides::default());
    app.speak_manual_text();
    let step = job.advance(&mut app, made(None));
    assert!(matches!(step, SpeechStep::Finished(_)));
    assert_eq!(app.runtime.status_detail, "Playback cancelled.");
}

#[test]
fn audio_is_saved_where_asked() {
    let mut app = start();
    let mut overrides = SpeechOverrides::default();
    overrides.output_dir = Some("/out".to_owned());
    let mode = queued(&app);
    let (mut job, _) = SpeechJob::process_text(&mut app, "x", mode, overrides);
    job.advance(&mut app, made(None));
    let step = job.advance(&mut app, SpeechEvent::Played(Ok(())));
    assert!(matches!(step, SpeechStep::Save { output_dir: Some(dir) } if dir == "/out"));
    let step = job.advance(&mut app, SpeechEvent::Saved(Err("full".to_owned())));
    assert!(matches!(step, SpeechStep::Failed(error) if error == "full"));
}

#[test]
fn saved_audio_finishes_the_job() {
    let mut app = start();
    let mut overrides = SpeechOverrides::default();
    overrides.save_audio = Some(true);
    let mode = queued(&app);
    let (mut job, _) = SpeechJob::process_text(&mut app, "x", mode, overrides);
    job.advance(&mut app, made(None));
    let step = job.advance(&mut app, SpeechEvent::Played(Ok(())));
    assert!(matches!(step, SpeechStep::Save { output_dir: None }));
    assert!(matches!(
        job.advance(&mut app, SpeechEvent::Saved(Ok(()))),
        SpeechStep::Finished(_)
    ));
}

#[test]
fn texts_are_rewritten_where_asked() {
    let mut app = start();
    app.config.gemini_enabled = true;
    let mode = queued(&app);
    let (mut job, step) =
        SpeechJob::process_text(&mut app, " raw ", mode, SpeechOverrides::default());
    assert!(matches!(step, SpeechStep::ReadApiKey));
    let step = job.advance(&mut app, SpeechEvent::ApiKey(Ok(Some("k".to_owned()))));
    assert_eq!(app.runtime.status_detail, "Rewriting with gemini-2.5-flash...");
    match step {
        SpeechStep::Rewrite { api_key, model, prompt, input } => {
            assert_eq!(api_key, "k");
            assert_eq!(model, "gemini-2.5-flash");
            assert_eq!(prompt, app.config.gemini_prompt);
            assert_eq!(input, "raw");
        }
        _ => unreachable!(),
    }
    let step = job.advance(&mut app, SpeechEvent::Rewritten(Ok("Spoken.".to_owned())));
    assert!(matches!(step, SpeechStep::Synthesize(chunk) if chunk == "Spoken."));
    assert_eq!(app.runtime.last_prepared_text.as_deref(), Some("Spoken."));
    assert_eq!(app.runtime.last_selection.as_deref(), Some("raw"));
    assert!(job.used_gemini);
}

#[test]
fn rewriting_can_fail() {
    for (event, message) in [
        (SpeechEvent::ApiKey(Ok(None)), "Gemini rewrite is enabled, but no API key is stored."),
        (SpeechEvent::ApiKey(Err("locked".to_owned())), "locked"),
    ] {
        let mut app = start();
        app.config.gemini_enabled = true;
        let mode = queued(&app);
        let (mut job, _) = SpeechJob::process_text(&mut app, "raw", mode, SpeechOverrides::default());
        let step = job.advance(&mut app, event);
        assert!(matches!(step, SpeechStep::Failed(error) if error == message));
        assert_eq!(app.runtime.last_error.as_deref(), Some(message));
    }
    let mut app = start();
    app.config.gemini_enabled = true;
    let mode = queued(&app);
    let (mut job, _) = SpeechJob::process_text(&mut app, "raw", mode, SpeechOverrides::default());
    job.advance(&mut app, SpeechEvent::ApiKey(Ok(Some("k".to_owned()))));
    let step = job.advance(&mut app, SpeechEvent::Rewritten(Err("offline".to_owned())));
    assert!(matches!(step, SpeechStep::Failed(error) if error == "offline"));
}

#[test]
fn synthesis_can_fail() {
    let mut app = start();
    let mode = queued(&app);
    let (mut job, _) = SpeechJob::process_text(&mut app, "x", mode, SpeechOverrides::default());
    let step = job.advance(&mut app, SpeechEvent::Synthesized(Err("no model".to_owned())));
    assert!(matches!(step, SpeechStep::Failed(error) if error == "no model"));
    assert_eq!(app.runtime.last_error.as_deref(), Some("no model"));
}

#[test]
fn silent_formats_are_refused() {
    let mut app = start();
    let mode = queued(&app);
    let (mut job, _) = SpeechJob::process_text(&mut app, "x", mode, SpeechOverrides::default());
    let format = AudioFormat { sample_rate: 24_000, channels: 0 };
    let step = job.advance(
        &mut app,
        SpeechEvent::Synthesized(Ok(SynthesizedAudio { voice: None, format })),
    );
    assert!(matches!(step, SpeechStep::Failed(error) if error == "audio had zero channels"));
    assert_eq!(app.runtime.status, AppStatus::Synthesizing);
}

#[test]
fn a_broken_player_ends_the_job() {
    let mut app = start();
    let mode = queued(&app);
    let (mut job, _) = SpeechJob::process_text(&mut app, "x", mode, SpeechOverrides::default());
    job.advance(&mut app, made(None));
    let step = job.advance(&mut app, SpeechEvent::Played(Err("gone".to_owned())));
    assert!(matches!(step, SpeechStep::Failed(error) if error == "gone"));
}

#[test]
fn formats_are_checked() {
    let silent = AudioFormat { sample_rate: 0, channels: 2 };
    let player = PlaybackController::new();
    assert_eq!(player.append_audio(0, MONO), Ok(true));
    assert_eq!(player.append_audio(1, silent), Ok(false));
    assert_eq!(player.append_audio(0, silent), Err(AudioError::ZeroSampleRate));
    assert_eq!(PlaybackController::append_audio_unchecked(MONO), Ok(()));
    assert_eq!(AudioError::ZeroSampleRate.message(), "audio had zero sample rate");
}

#[test]
fn audio_is_joined() {
    let chunk = |samples: Vec<f32>, format: AudioFormat| AudioChunk { samples, format };
    let joined =
        combine_audio_chunks(&vec![chunk(vec![0.5, -0.5], MONO), chunk(vec![0.25], MONO)]).unwrap();
    assert_eq!(joined.samples, vec![0.5, -0.5, 0.25]);
    assert_eq!(joined.format, MONO);
    let stereo = AudioFormat { sample_rate: 24_000, channels: 2 };
    let error = combine_audio_chunks(&vec![chunk(vec![], MONO), chunk(vec![], stereo)]).unwrap_err();
    assert_eq!(error, CombineError::MismatchedFormats);
    assert_eq!(
        error.message(),
        "cannot combine synthesized chunks with mismatched audio formats"
    );
    let none: Vec<AudioChunk<f32>> = Vec::new();
    let error = combine_audio_chunks(&none).unwrap_err();
    assert_eq!(error, CombineError::NoAudio);
    assert_eq!(error.message(), "no synthesized audio was available to save");
    assert_eq!(combine_audio_chunks(&vec![chunk(vec![1.0], stereo)]).unwrap().format.channels, 1);
}

#[test]
fn audio_files_are_named() {
    assert_eq!(default_audio_output_dir(Some("/home/u")), "/home/u/Downloads");
    assert_eq!(default_audio_output_dir(None), "./Downloads");
    assert_eq!(
        output_location(VoiceModel::Kokoro, Some("/out"), None, 17),
        ("/out".to_owned(), "/out/devvoice-kokoro-17.wav".to_owned())
    );
    assert_eq!(
        output_location(VoiceModel::VibeVoice, None, Some("/home/u"), 5).1,
        "/home/u/Downloads/devvoice-vibevoice-1-5b-5.wav"
    );
}

#[test]
fn the_worker_empties_the_queue() {
    let mut app = start();
    let mut worker = QueueWorker::new();
    app.enqueue_manual_text("one", true).unwrap();
    app.enqueue_manual_text("two", true).unwrap();
    let mut spoken = Vec::new();
    let mut action =
        worker.queue_worker(&mut app, WorkerEvent::Signal(QueueSignal::NewItem), true);
    loop {
        action = match action {
            WorkerAction::Speak { request, mode } => {
                assert_eq!(mode, queued(&app));
                spoken.push(request.text);
                worker.queue_worker(&mut app, WorkerEvent::Spoken, false)
            }
            WorkerAction::Sleep(millis) => {
                assert_eq!(millis, 100);
                worker.queue_worker(&mut app, WorkerEvent::Slept, true)
            }
            WorkerAction::DrainSignals => worker.queue_worker(&mut app, WorkerEvent::Drained, true),
            WorkerAction::AwaitSignal => break,
            WorkerAction::Exit => unreachable!(),
        };
    }
    assert_eq!(spoken, vec!["one", "two"]);
    assert_eq!(app.runtime.status_detail, "Queue complete.");
    assert!(matches!(
        worker.queue_worker(&mut app, WorkerEvent::Closed, true),
        WorkerAction::Exit
    ));
    assert_eq!(worker.state, WorkerState::Stopped);
}

#[test]
fn the_worker_waits_for_silence() {
    let mut app = start();
    let mut worker = QueueWorker::new();
    app.enqueue_manual_text("one", false).unwrap();
    let action = worker.queue_worker(&mut app, WorkerEvent::Signal(QueueSignal::NewItem), false);
    assert!(matches!(action, WorkerAction::Sleep(200)));
    let action = worker.queue_worker(&mut app, WorkerEvent::Slept, false);
    assert!(matches!(action, WorkerAction::Sleep(200)));
    let action = worker.queue_worker(&mut app, WorkerEvent::Slept, true);
    assert!(matches!(action, WorkerAction::Speak { request, .. } if request.text == "one"));
}

#[test]
fn the_worker_gives_up_a_stopped_queue() {
    let mut app = start();
    let mut worker = QueueWorker::new();
    app.enqueue_manual_text("one", false).unwrap();
    worker.queue_worker(&mut app, WorkerEvent::Signal(QueueSignal::NewItem), false);
    app.stop_playback();
    app.enqueue_manual_text("two", false).unwrap();
    let action = worker.queue_worker(&mut app, WorkerEvent::Slept, true);
    assert!(matches!(action, WorkerAction::AwaitSignal));
    let action = worker.queue_worker(&mut app, WorkerEvent::Signal(QueueSignal::Stop), true);
    assert!(matches!(action, WorkerAction::AwaitSignal));
    let action = worker.queue_worker(&mut app, WorkerEvent::Signal(QueueSignal::NewItem), true);
    assert!(matches!(action, WorkerAction::Speak { request, .. } if request.text == "two"));
    app.stop_playback();
    let action = worker.queue_worker(&mut app, WorkerEvent::Spoken, false);
    assert!(matches!(action, WorkerAction::DrainSignals));
    let action = worker.queue_worker(&mut app, WorkerEvent::Drained, true);
    assert!(matches!(action, WorkerAction::AwaitSignal));
    assert_eq!(app.runtime.status_detail, "Playback stopped.");
}
