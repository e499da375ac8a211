//! How one text is spoken: prepared, cut into chunks, synthesised, played and saved.
//!
//! A job decides; whoever runs it performs the step that it asks for and hands the
//! outcome back.

use vstd::prelude::*;
use vstd::string::*;

use crate::config::{AppConfig, ConfigView};
use crate::playback;
use crate::playback::{AudioFormat, PlaybackController};
use crate::runtime;
use crate::runtime::{AppRuntime, AppView, RuntimeView};
use crate::speech_text;
use crate::state;
use crate::state::{AppStatus, OverridesView, SpeakOutcome, SpeechOverrides};
use crate::text;

verus! {

/// On whose behalf a text is spoken, which decides when it is given up.
#[derive(Debug, Clone, Copy, PartialEq, Eq, Structural)]
pub enum SpeechMode {
    Direct(u64),
    Queued { queue_gen: u64, item_token: u64 },
}

/// What a job waits for.
#[derive(Debug, Clone, Copy, PartialEq, Eq, Structural)]
pub enum SpeechStage {
    ReadingKey,
    Rewriting,
    Synthesizing,
    Playing,
    Saving,
    Done,
}

/// A text on its way to being spoken.
#[derive(Debug)]
pub struct SpeechJob {
    pub mode: SpeechMode,
    pub overrides: SpeechOverrides,
    pub config: AppConfig,
    pub raw_selection: String,
    pub prepared_text: String,
    pub used_gemini: bool,
    pub chunks: Vec<String>,
    pub index: usize,
    pub first_voice: Option<String>,
    pub stage: SpeechStage,
}

/// A text on its way to being spoken, as a mathematical value.
#[verifier::ext_equal]
pub struct JobView {
    pub mode: SpeechMode,
    pub overrides: OverridesView,
    pub config: ConfigView,
    pub raw_selection: Seq<char>,
    pub prepared_text: Seq<char>,
    pub used_gemini: bool,
    pub chunks: Seq<Seq<char>>,
    pub index: nat,
    pub first_voice: Option<Seq<char>>,
    pub stage: SpeechStage,
}

impl View for SpeechJob {
    type V = JobView;

    open spec fn view(&self) -> JobView {
        JobView {
            mode: self.mode,
            overrides: self.overrides@,
            config: self.config@,
            raw_selection: self.raw_selection@,
            prepared_text: self.prepared_text@,
            used_gemini: self.used_gemini,
            chunks: self.chunks.deep_view(),
            index: self.index as nat,
            first_voice: self.first_voice.deep_view(),
            stage: self.stage,
        }
    }
}

/// What a synthesiser says of the audio that it made.
#[derive(Debug)]
pub struct SynthesizedAudio {
    pub voice: Option<String>,
    pub format: AudioFormat,
}

/// What came of the step that a job asked for.
#[derive(Debug)]
pub enum SpeechEvent {
    ApiKey(Result<Option<String>, String>),
    Rewritten(Result<String, String>),
    Synthesized(Result<SynthesizedAudio, String>),
    Played(Result<(), String>),
    Saved(Result<(), String>),
}

/// What came of a step, as a mathematical value.
pub enum EventView {
    ApiKey(Result<Option<Seq<char>>, Seq<char>>),
    Rewritten(Result<Seq<char>, Seq<char>>),
    Synthesized(Result<(Option<Seq<char>>, AudioFormat), Seq<char>>),
    Played(Result<(), Seq<char>>),
    Saved(Result<(), Seq<char>>),
}

impl View for SpeechEvent {
    type V = EventView;

    open spec fn view(&self) -> EventView {
        match *self {
            SpeechEvent::ApiKey(Ok(key)) => EventView::ApiKey(Ok(key.deep_view())),
            SpeechEvent::ApiKey(Err(error)) => EventView::ApiKey(Err(error@)),
            SpeechEvent::Rewritten(Ok(rewritten)) => EventView::Rewritten(Ok(rewritten@)),
            SpeechEvent::Rewritten(Err(error)) => EventView::Rewritten(Err(error@)),
            SpeechEvent::Synthesized(Ok(audio)) => EventView::Synthesized(
                Ok((audio.voice.deep_view(), audio.format)),
            ),
            SpeechEvent::Synthesized(Err(error)) => EventView::Synthesized(Err(error@)),
            SpeechEvent::Played(Ok(_)) => EventView::Played(Ok(())),
            SpeechEvent::Played(Err(error)) => EventView::Played(Err(error@)),
            SpeechEvent::Saved(Ok(_)) => EventView::Saved(Ok(())),
            SpeechEvent::Saved(Err(error)) => EventView::Saved(Err(error@)),
        }
    }
}

/// What a job asks for next.
#[derive(Debug)]
pub enum SpeechStep {
    ReadApiKey,
    /// Have the text rewritten.
    Rewrite { api_key: String, model: String, prompt: String, input: String },
    /// Synthesise a chunk with the job's settings, and keep the audio.
    Synthesize(String),
    /// Put the audio of the last chunk behind what is played.
    Play,
    /// Save the audio of all chunks.
    Save { output_dir: Option<String> },
    Finished(SpeakOutcome),
    Failed(String),
}

/// What a job asks for next, as a mathematical value.
pub enum StepView {
    ReadApiKey,
    Rewrite { api_key: Seq<char>, model: Seq<char>, prompt: Seq<char>, input: Seq<char> },
    Synthesize(Seq<char>),
    Play,
    Save { output_dir: Option<Seq<char>> },
    Finished { raw_selection: Seq<char>, prepared_text: Seq<char>, used_gemini: bool },
    Failed(Seq<char>),
}

impl View for SpeechStep {
    type V = StepView;

    open spec fn view(&self) -> StepView {
        match *self {
            SpeechStep::ReadApiKey => StepView::ReadApiKey,
            SpeechStep::Rewrite { api_key, model, prompt, input } => StepView::Rewrite {
                api_key: api_key@,
                model: model@,
                prompt: prompt@,
                input: input@,
            },
            SpeechStep::Synthesize(chunk) => StepView::Synthesize(chunk@),
            SpeechStep::Play => StepView::Play,
            SpeechStep::Save { output_dir } => StepView::Save {
                output_dir: output_dir.deep_view(),
            },
            SpeechStep::Finished(outcome) => StepView::Finished {
                raw_selection: outcome.raw_selection@,
                prepared_text: outcome.prepared_text@,
                used_gemini: outcome.used_gemini,
            },
            SpeechStep::Failed(error) => StepView::Failed(error@),
        }
    }
}

// ---------------------------------------------------------------------------
// The steps as mathematical functions
// ---------------------------------------------------------------------------

/// A job, the application, and what is asked for next.
pub struct Progress {
    pub job: JobView,
    pub app: AppView,
    pub step: StepView,
}

/// Whether a text is no longer to be spoken.
pub open spec fn is_cancelled(mode: SpeechMode, app: AppView) -> bool {
    match mode {
        SpeechMode::Direct(job) => app.playback != job,
        SpeechMode::Queued { queue_gen, item_token } => app.queue.generation != queue_gen
            || app.queue.current_item_generation != item_token,
    }
}

/// Whether an outcome is one that the job waits for.
pub open spec fn is_awaited(stage: SpeechStage, event: EventView) -> bool {
    match event {
        EventView::ApiKey(_) => stage == SpeechStage::ReadingKey,
        EventView::Rewritten(_) => stage == SpeechStage::Rewriting,
        EventView::Synthesized(_) => stage == SpeechStage::Synthesizing,
        EventView::Played(_) => stage == SpeechStage::Playing,
        EventView::Saved(_) => stage == SpeechStage::Saving,
    }
}

/// Whether a job that works on a chunk has that chunk.
pub open spec fn job_wf(job: JobView) -> bool {
    job.stage == SpeechStage::Synthesizing || job.stage == SpeechStage::Playing ==> job.index
        < job.chunks.len()
}

/// The job is over, and the text has been dealt with.
pub open spec fn finished(job: JobView, app: AppView) -> Progress {
    Progress {
        job: JobView { stage: SpeechStage::Done, ..job },
        app,
        step: StepView::Finished {
            raw_selection: job.raw_selection,
            prepared_text: job.prepared_text,
            used_gemini: job.used_gemini,
        },
    }
}

/// The job is over because of an error.
pub open spec fn given_up(job: JobView, app: AppView, error: Seq<char>) -> Progress {
    Progress {
        job: JobView { stage: SpeechStage::Done, ..job },
        app,
        step: StepView::Failed(error),
    }
}

/// The job is over because of an error that the user interface is told of.
pub open spec fn broken_off(job: JobView, app: AppView, error: Seq<char>) -> Progress {
    given_up(job, runtime::failed(app, error), error)
}

/// The job is over because the text is no longer to be spoken.
pub open spec fn cancelled(job: JobView, app: AppView) -> Progress {
    finished(job, runtime::marked(app, AppStatus::Ready, "Playback cancelled."@))
}

/// How work on a chunk is told.
pub open spec fn chunk_detail(index: nat, total: nat) -> Seq<char> {
    if total > 1 {
        "Synthesizing chunk "@ + text::decimal(index + 1) + " of "@ + text::decimal(total) + "..."@
    } else {
        "Synthesizing speech with the local neural voice..."@
    }
}

/// How the voice is told.
pub open spec fn speaking_detail(voice: Option<Seq<char>>) -> Seq<char> {
    match voice {
        Some(name) => "Speaking with "@ + name + "."@,
        None => "Speaking with the default voice."@,
    }
}

/// Whether the audio of a request is to be saved.
pub open spec fn saves_audio(overrides: OverridesView) -> bool {
    overrides.save_audio == Some(true) || overrides.output_dir is Some
}

/// The next chunk, unless the text is no longer to be spoken; behind the last one
/// the audio is saved where that was asked for.
pub open spec fn next_chunk(job: JobView, app: AppView) -> Progress {
    if job.index < job.chunks.len() {
        if is_cancelled(job.mode, app) {
            cancelled(job, app)
        } else {
            Progress {
                job: JobView { stage: SpeechStage::Synthesizing, ..job },
                app: runtime::marked(
                    app,
                    AppStatus::Synthesizing,
                    chunk_detail(job.index, job.chunks.len()),
                ),
                step: StepView::Synthesize(job.chunks[job.index as int]),
            }
        }
    } else if saves_audio(job.overrides) && job.chunks.len() > 0 {
        Progress {
            job: JobView { stage: SpeechStage::Saving, ..job },
            app,
            step: StepView::Save { output_dir: job.overrides.output_dir },
        }
    } else {
        finished(job, app)
    }
}

/// The chunk size that a job works with.
pub open spec fn chunk_target(job: JobView) -> nat {
    match job.overrides.chunk_size {
        Some(size) => size as nat,
        None => job.config.default_chunk_size as nat,
    }
}

/// The text is ready to be spoken.
pub open spec fn prepared(job: JobView, app: AppView, ready: Seq<char>, used_gemini: bool) -> Progress {
    next_chunk(
        JobView {
            prepared_text: ready,
            used_gemini,
            chunks: speech_text::speech_chunks(ready, chunk_target(job)),
            index: 0,
            ..job
        },
        runtime::emitted(
            AppView {
                runtime: RuntimeView { last_prepared_text: Some(ready), ..app.runtime },
                ..app
            },
            None,
        ),
    )
}

/// A job that has done nothing yet.
pub open spec fn new_job(
    app: AppView,
    selection: Seq<char>,
    mode: SpeechMode,
    overrides: OverridesView,
) -> JobView {
    JobView {
        mode,
        overrides,
        config: app.config,
        raw_selection: text::trimmed(selection),
        prepared_text: Seq::empty(),
        used_gemini: false,
        chunks: Seq::empty(),
        index: 0,
        first_voice: None,
        stage: SpeechStage::ReadingKey,
    }
}

/// How a job begins.
pub open spec fn started(
    app: AppView,
    selection: Seq<char>,
    mode: SpeechMode,
    overrides: OverridesView,
) -> Progress {
    let job = new_job(app, selection, mode, overrides);
    if text::is_blank(selection) {
        broken_off(job, app, "No text was provided."@)
    } else {
        let noted = runtime::with_selection(app, job.raw_selection);
        if !app.config.gemini_enabled {
            prepared(job, noted, job.raw_selection, false)
        } else {
            Progress { job, app: noted, step: StepView::ReadApiKey }
        }
    }
}

/// The audio of a chunk has been made. The first one shows that the model works and
/// which voice it speaks with.
pub open spec fn synthesized(
    job: JobView,
    app: AppView,
    voice: Option<Seq<char>>,
    format: AudioFormat,
) -> Progress {
    let known = if job.index == 0 {
        JobView { first_voice: voice, ..job }
    } else {
        job
    };
    let ready = if job.index == 0 {
        AppView { runtime: RuntimeView { model_ready: true, ..app.runtime }, ..app }
    } else {
        app
    };
    if job.mode is Direct && is_cancelled(job.mode, app) {
        cancelled(known, ready)
    } else {
        match playback::format_error(format) {
            Some(error) => given_up(known, ready, playback::audio_message(error)),
            None => Progress {
                job: JobView { stage: SpeechStage::Playing, ..known },
                app: ready,
                step: StepView::Play,
            },
        }
    }
}

/// The audio of a chunk has been put behind what is played.
pub open spec fn played(job: JobView, app: AppView) -> Progress {
    let told = if job.index == 0 {
        runtime::marked(app, AppStatus::Speaking, speaking_detail(job.first_voice))
    } else {
        app
    };
    next_chunk(JobView { index: job.index + 1, ..job }, told)
}

/// How a job goes on once the step that it asked for is done.
pub open spec fn advanced(job: JobView, app: AppView, event: EventView) -> Progress {
    match event {
        EventView::ApiKey(Err(error)) => broken_off(job, app, error),
        EventView::ApiKey(Ok(None)) => broken_off(
            job,
            app,
            "Gemini rewrite is enabled, but no API key is stored."@,
        ),
        EventView::ApiKey(Ok(Some(api_key))) => Progress {
            job: JobView { stage: SpeechStage::Rewriting, ..job },
            app: runtime::marked(
                app,
                AppStatus::RewritingText,
                "Rewriting with "@ + job.config.gemini_model + "..."@,
            ),
            step: StepView::Rewrite {
                api_key,
                model: job.config.gemini_model,
                prompt: job.config.gemini_prompt,
                input: job.raw_selection,
            },
        },
        EventView::Rewritten(Err(error)) => broken_off(job, app, error),
        EventView::Rewritten(Ok(rewritten)) => prepared(job, app, rewritten, true),
        EventView::Synthesized(Err(error)) => broken_off(job, app, error),
        EventView::Synthesized(Ok((voice, format))) => synthesized(job, app, voice, format),
        EventView::Played(Err(error)) => given_up(job, app, error),
        EventView::Played(Ok(_)) => played(job, app),
        EventView::Saved(Err(error)) => given_up(job, app, error),
        EventView::Saved(Ok(_)) => finished(job, app),
    }
}

// ---------------------------------------------------------------------------
// The steps
// ---------------------------------------------------------------------------

/// Whether a text is no longer to be spoken.
pub fn cancelled_now(mode: SpeechMode, app: &AppRuntime) -> (res: bool)
    ensures
        res == is_cancelled(mode, app@),
{
    match mode {
        SpeechMode::Direct(job) => !app.playback.is_current_job(job),
        SpeechMode::Queued { queue_gen, item_token } => app.speech_queue.generation() != queue_gen
            || app.speech_queue.current_item_token() != item_token,
    }
}

impl SpeechJob {
    /// Whether a job that works on a chunk has that chunk.
    pub open spec fn wf(&self) -> bool {
        job_wf(self@)
    }

    /// Begins to speak a text.
    pub fn process_text(
        app: &mut AppRuntime,
        raw_selection: &str,
        mode: SpeechMode,
        overrides: SpeechOverrides,
    ) -> (res: (SpeechJob, SpeechStep))
        ensures
            started(old(app)@, raw_selection@, mode, overrides@) == (Progress {
                job: res.0@,
                app: final(app)@,
                step: res.1@,
            }),
            res.0.wf(),
            final(app).tts == old(app).tts,
    {
        let selection = text::trim(raw_selection);
        let blank = selection.as_str().is_empty();
        let mut job = SpeechJob {
            mode,
            overrides,
            config: app.current_config(),
            raw_selection: selection,
            prepared_text: String::new(),
            used_gemini: false,
            chunks: Vec::new(),
            index: 0,
            first_voice: None,
            stage: SpeechStage::ReadingKey,
        };
        assert(job@.chunks =~= Seq::empty());
        assert(job@ =~= new_job(app@, raw_selection@, mode, overrides@));
        if blank {
            let step = job.break_off(app, "No text was provided.".to_owned());
            return (job, step);
        }
        app.note_selection(job.raw_selection.as_str());
        if !job.config.gemini_enabled {
            let ready = job.raw_selection.clone();
            let step = job.prepare_text(app, ready, false);
            (job, step)
        } else {
            (job, SpeechStep::ReadApiKey)
        }
    }

    fn give_up(&mut self, error: String) -> (res: SpeechStep)
        ensures
            forall|app: AppView| #[trigger]
                given_up(old(self)@, app, error@) == (Progress { job: final(self)@, app, step: res@ }),
    {
        self.stage = SpeechStage::Done;
        SpeechStep::Failed(error)
    }

    fn break_off(&mut self, app: &mut AppRuntime, error: String) -> (res: SpeechStep)
        ensures
            broken_off(old(self)@, old(app)@, error@) == (Progress {
                job: final(self)@,
                app: final(app)@,
                step: res@,
            }),
            final(app).tts == old(app).tts,
    {
        app.mark_error(error.as_str());
        self.stage = SpeechStage::Done;
        SpeechStep::Failed(error)
    }

    fn finish(&mut self) -> (res: SpeechStep)
        ensures
            forall|app: AppView| #[trigger]
                finished(old(self)@, app) == (Progress { job: final(self)@, app, step: res@ }),
    {
        self.stage = SpeechStage::Done;
        SpeechStep::Finished(
            SpeakOutcome {
                raw_selection: self.raw_selection.clone(),
                prepared_text: self.prepared_text.clone(),
                used_gemini: self.used_gemini,
            },
        )
    }

    fn cancel(&mut self, app: &mut AppRuntime) -> (res: SpeechStep)
        ensures
            cancelled(old(self)@, old(app)@) == (Progress {
                job: final(self)@,
                app: final(app)@,
                step: res@,
            }),
            final(app).tts == old(app).tts,
    {
        app.mark_status(AppStatus::Ready, "Playback cancelled.".to_owned());
        self.finish()
    }

    /// The text is ready: cuts it into chunks and begins with the first.
    fn prepare_text(&mut self, app: &mut AppRuntime, ready: String, used_gemini: bool) -> (res:
        SpeechStep)
        ensures
            prepared(old(self)@, old(app)@, ready@, used_gemini) == (Progress {
                job: final(self)@,
                app: final(app)@,
                step: res@,
            }),
            final(self).wf(),
            final(app).tts == old(app).tts,
    {
        let ghost before = app@;
        app.runtime.last_prepared_text = Some(ready.clone());
        assert(app@.updates =~= before.updates);
        app.emit_snapshot(None);
        let size: usize = match self.overrides.chunk_size {
            Some(size) => size,
            None => self.config.default_chunk_size,
        };
        self.chunks = speech_text::split_into_speech_chunks(ready.as_str(), Some(size));
        self.prepared_text = ready;
        self.used_gemini = used_gemini;
        self.index = 0;
        self.next_chunk(app)
    }

    fn next_chunk(&mut self, app: &mut AppRuntime) -> (res: SpeechStep)
        ensures
            next_chunk(old(self)@, old(app)@) == (Progress {
                job: final(self)@,
                app: final(app)@,
                step: res@,
            }),
            final(self).wf(),
            final(app).tts == old(app).tts,
    {
        let total: usize = self.chunks.len();
        if self.index < total {
            if cancelled_now(self.mode, app) {
                return self.cancel(app);
            }
            let detail = if total > 1 {
                let number = text::decimal_text(self.index as u128 + 1);
                let count = text::decimal_text(total as u128);
                let detail = text::concat3("Synthesizing chunk ", number.as_str(), " of ");
                text::concat3(detail.as_str(), count.as_str(), "...")
            } else {
                "Synthesizing speech with the local neural voice...".to_owned()
            };
            app.mark_status(AppStatus::Synthesizing, detail);
            self.stage = SpeechStage::Synthesizing;
            SpeechStep::Synthesize(self.chunks[self.index].clone())
        } else {
            let save = match self.overrides.save_audio {
                Some(save) => save,
                None => false,
            };
            if (save || self.overrides.output_dir.is_some()) && total > 0 {
                self.stage = SpeechStage::Saving;
                SpeechStep::Save { output_dir: state::clone_text(&self.overrides.output_dir) }
            } else {
                self.finish()
            }
        }
    }

    /// Goes on with the outcome of the step that was asked for last.
    pub fn advance(&mut self, app: &mut AppRuntime, event: SpeechEvent) -> (res: SpeechStep)
        requires
            old(self).wf(),
            is_awaited(old(self)@.stage, event@),
        ensures
            advanced(old(self)@, old(app)@, event@) == (Progress {
                job: final(self)@,
                app: final(app)@,
                step: res@,
            }),
            final(self).wf(),
            final(app).tts == old(app).tts,
    {
        match event {
            SpeechEvent::ApiKey(Err(error)) => self.break_off(app, error),
            SpeechEvent::ApiKey(Ok(None)) => self.break_off(
                app,
                "Gemini rewrite is enabled, but no API key is stored.".to_owned(),
            ),
            SpeechEvent::ApiKey(Ok(Some(api_key))) => {
                let detail = text::concat3(
                    "Rewriting with ",
                    self.config.gemini_model.as_str(),
                    "...",
                );
                app.mark_status(AppStatus::RewritingText, detail);
                self.stage = SpeechStage::Rewriting;
                SpeechStep::Rewrite {
                    api_key,
                    model: self.config.gemini_model.clone(),
                    prompt: self.config.gemini_prompt.clone(),
                    input: self.raw_selection.clone(),
                }
            },
            SpeechEvent::Rewritten(Err(error)) => self.break_off(app, error),
            SpeechEvent::Rewritten(Ok(rewritten)) => self.prepare_text(app, rewritten, true),
            SpeechEvent::Synthesized(Err(error)) => self.break_off(app, error),
            SpeechEvent::Synthesized(Ok(audio)) => self.audio_made(app, audio),
            SpeechEvent::Played(Err(error)) => self.give_up(error),
            SpeechEvent::Played(Ok(_)) => {
                if self.index == 0 {
                    let detail = match &self.first_voice {
                        Some(name) => text::concat3("Speaking with ", name.as_str(), "."),
                        None => "Speaking with the default voice.".to_owned(),
                    };
                    app.mark_status(AppStatus::Speaking, detail);
                }
                assert(self.index < self.chunks.len());
                self.index = self.index + 1;
                self.next_chunk(app)
            },
            SpeechEvent::Saved(Err(error)) => self.give_up(error),
            SpeechEvent::Saved(Ok(_)) => self.finish(),
        }
    }

    fn audio_made(&mut self, app: &mut AppRuntime, audio: SynthesizedAudio) -> (res: SpeechStep)
        requires
            old(self).wf(),
            old(self)@.stage == SpeechStage::Synthesizing,
        ensures
            synthesized(old(self)@, old(app)@, audio.voice.deep_view(), audio.format)
                == (Progress { job: final(self)@, app: final(app)@, step: res@ }),
            final(self).wf(),
            final(app).tts == old(app).tts,
    {
        let ghost before = app@;
        if self.index == 0 {
            self.first_voice = audio.voice;
            app.runtime.model_ready = true;
            assert(app@.updates =~= before.updates);
        }
        let appended = match self.mode {
            SpeechMode::Direct(job) => app.playback.append_audio(job, audio.format),
            SpeechMode::Queued { .. } => {
                match PlaybackController::append_audio_unchecked(audio.format) {
                    Ok(_) => Ok(true),
                    Err(error) => Err(error),
                }
            },
        };
        match appended {
            Err(error) => self.give_up(error.message().to_owned()),
            Ok(false) => self.cancel(app),
            Ok(true) => {
                self.stage = SpeechStage::Playing;
                SpeechStep::Play
            },
        }
    }
}

} // verus!
