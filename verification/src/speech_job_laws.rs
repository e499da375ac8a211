//! What holds of every text on its way to being spoken.

use vstd::prelude::*;
use vstd::string::*;

use crate::playback;
use crate::playback::AudioFormat;
use crate::runtime;
use crate::runtime::AppView;
use crate::speech_job;
use crate::speech_job::{EventView, JobView, Progress, SpeechMode, SpeechStage, StepView};
use crate::speech_text;
use crate::state::{AppStatus, OverridesView};
use crate::text;

verus! {

/// A job once a chunk was synthesised and put behind what is played.
pub open spec fn round(p: Progress, voice: Option<Seq<char>>, format: AudioFormat) -> Progress {
    let made = speech_job::synthesized(p.job, p.app, voice, format);
    speech_job::played(made.job, made.app)
}

/// A job once several chunks were synthesised and put behind what is played.
pub open spec fn rounds(
    p: Progress,
    n: nat,
    voices: Seq<Option<Seq<char>>>,
    formats: Seq<AudioFormat>,
) -> Progress
    decreases n,
{
    if n == 0 {
        p
    } else {
        round(
            rounds(p, (n - 1) as nat, voices, formats),
            voices[n - 1],
            formats[n - 1],
        )
    }
}

/// A job that nothing disturbs has every chunk of its text synthesised, each once and
/// in order; behind the last one it saves the audio where that was asked for, and
/// otherwise it is finished.
pub proof fn law_undisturbed_job_speaks_every_chunk(
    job: JobView,
    app: AppView,
    ready: Seq<char>,
    used_gemini: bool,
    voices: Seq<Option<Seq<char>>>,
    formats: Seq<AudioFormat>,
    n: nat,
)
    requires
        !speech_job::is_cancelled(job.mode, app),
        n <= speech_text::speech_chunks(ready, speech_job::chunk_target(job)).len(),
        forall|i: int|
            0 <= i < n ==> playback::format_error(#[trigger] formats[i]) is None,
    ensures
        ({
            let chunks = speech_text::speech_chunks(ready, speech_job::chunk_target(job));
            let begun = speech_job::prepared(job, app, ready, used_gemini);
            let p = rounds(begun, n, voices, formats);
            &&& p.job.chunks == chunks
            &&& p.job.index == n
            &&& n < chunks.len() ==> p.step == StepView::Synthesize(chunks[n as int])
            &&& n == chunks.len() ==> if speech_job::saves_audio(job.overrides) {
                p.step == (StepView::Save { output_dir: job.overrides.output_dir })
            } else {
                p.step == (StepView::Finished {
                    raw_selection: job.raw_selection,
                    prepared_text: ready,
                    used_gemini,
                })
            }
        }),
{
    lemma_rounds(job, app, ready, used_gemini, voices, formats, n);
}

proof fn lemma_rounds(
    job: JobView,
    app: AppView,
    ready: Seq<char>,
    used_gemini: bool,
    voices: Seq<Option<Seq<char>>>,
    formats: Seq<AudioFormat>,
    n: nat,
)
    requires
        !speech_job::is_cancelled(job.mode, app),
        n <= speech_text::speech_chunks(ready, speech_job::chunk_target(job)).len(),
        forall|i: int|
            0 <= i < n ==> playback::format_error(#[trigger] formats[i]) is None,
    ensures
        ({
            let chunks = speech_text::speech_chunks(ready, speech_job::chunk_target(job));
            let begun = speech_job::prepared(job, app, ready, used_gemini);
            let p = rounds(begun, n, voices, formats);
            &&& p.job.chunks == chunks
            &&& p.job.index == n
            &&& p.job.mode == job.mode
            &&& p.job.overrides == job.overrides
            &&& p.job.raw_selection == job.raw_selection
            &&& p.job.prepared_text == ready
            &&& p.job.used_gemini == used_gemini
            &&& !speech_job::is_cancelled(job.mode, p.app)
            &&& n < chunks.len() ==> p.step == StepView::Synthesize(chunks[n as int])
            &&& n == chunks.len() ==> p.step == speech_job::next_chunk(p.job, p.app).step
        }),
    decreases n,
{
    if n > 0 {
        lemma_rounds(job, app, ready, used_gemini, voices, formats, (n - 1) as nat);
        assert(playback::format_error(formats[n - 1]) is None);
    }
}

/// A text that is no longer to be spoken has no further chunk synthesised and is not
/// saved.
pub proof fn law_cancelled_job_falls_silent(job: JobView, app: AppView)
    requires
        speech_job::is_cancelled(job.mode, app),
        job.index + 1 < job.chunks.len(),
    ensures
        speech_job::advanced(job, app, EventView::Played(Ok(()))).step is Finished,
{
}

/// Audio that was made for a text spoken at once is not played if another text has
/// taken its place meanwhile.
pub proof fn law_overtaken_audio_is_not_played(
    job: JobView,
    app: AppView,
    voice: Option<Seq<char>>,
    format: AudioFormat,
)
    requires
        job.mode is Direct,
        speech_job::is_cancelled(job.mode, app),
    ensures
        speech_job::advanced(job, app, EventView::Synthesized(Ok((voice, format)))).step
            is Finished,
{
}

/// A job is over exactly when it says so.
pub proof fn law_done_means_done(job: JobView, app: AppView, event: EventView)
    ensures
        ({
            let after = speech_job::advanced(job, app, event);
            after.job.stage == SpeechStage::Done <==> after.step is Finished || after.step
                is Failed
        }),
{
}

/// A job works with the settings that held when it began, whatever is saved meanwhile.
pub proof fn law_job_keeps_its_settings(job: JobView, app: AppView, event: EventView)
    ensures
        ({
            let after = speech_job::advanced(job, app, event);
            &&& after.job.config == job.config
            &&& after.job.overrides == job.overrides
            &&& after.job.mode == job.mode
            &&& after.job.raw_selection == job.raw_selection
        }),
{
}

/// A job leaves the queue, the player's generation, the settings and the speech
/// service to others.
pub proof fn law_job_changes_only_what_is_shown(job: JobView, app: AppView, event: EventView)
    ensures
        ({
            let after = speech_job::advanced(job, app, event);
            &&& after.app.queue == app.queue
            &&& after.app.playback == app.playback
            &&& after.app.config == app.config
            &&& after.app.tts == app.tts
            &&& after.app.store == app.store
        }),
{
}

/// Where texts are not rewritten, what is spoken is the trimmed selection, and no key
/// is read.
pub proof fn law_unrewritten_text_is_the_selection(
    app: AppView,
    selection: Seq<char>,
    mode: SpeechMode,
    overrides: OverridesView,
)
    requires
        !app.config.gemini_enabled,
        !text::is_blank(selection),
    ensures
        speech_job::started(app, selection, mode, overrides).job.prepared_text == text::trimmed(
            selection,
        ),
        !speech_job::started(app, selection, mode, overrides).job.used_gemini,
        speech_job::started(app, selection, mode, overrides).step !is ReadApiKey,
        speech_job::started(app, selection, mode, overrides).step !is Rewrite,
{
}

// ---------------------------------------------------------------------------
// What each step does
// ---------------------------------------------------------------------------

/// A text is given up exactly if another one has taken its place: one spoken at once when
/// the player works for another job, one from the queue when the queue was emptied or the
/// text was skipped since.
pub proof fn law_when_a_text_is_given_up(mode: SpeechMode, app: AppView)
    ensures
        mode matches SpeechMode::Direct(job) ==> (speech_job::is_cancelled(mode, app) <==> job
            != app.playback),
        mode matches SpeechMode::Queued { queue_gen, item_token } ==> (speech_job::is_cancelled(
            mode,
            app,
        ) <==> queue_gen != app.queue.generation || item_token
            != app.queue.current_item_generation),
{
}

/// A blank text fails and is reported; any other is noted, trimmed, and goes on: to the
/// stored key where texts are rewritten, and otherwise to its own chunks. The job keeps
/// the settings of the moment and what the request asks for.
pub proof fn law_how_a_job_begins(
    app: AppView,
    selection: Seq<char>,
    mode: SpeechMode,
    overrides: OverridesView,
)
    ensures
        ({
            let begun = speech_job::started(app, selection, mode, overrides);
            let words = text::trimmed(selection);
            let target: nat = match overrides.chunk_size {
                Some(size) => size as nat,
                None => app.config.default_chunk_size as nat,
            };
            &&& begun.job.mode == mode
            &&& begun.job.overrides == overrides
            &&& begun.job.config == app.config
            &&& begun.job.raw_selection == words
            &&& begun.job.index == 0
            &&& begun.job.first_voice is None
            &&& !begun.job.used_gemini
            &&& words.len() == 0 ==> begun.step == StepView::Failed("No text was provided."@)
                && begun.app == runtime::failed(app, "No text was provided."@)
            &&& words.len() > 0 && app.config.gemini_enabled ==> begun.step == StepView::ReadApiKey
                && begun.app == runtime::with_selection(app, words) && begun.job.stage
                == SpeechStage::ReadingKey
            &&& words.len() > 0 && !app.config.gemini_enabled ==> begun.job.prepared_text == words
                && begun.job.chunks == speech_text::speech_chunks(words, target)
            &&& words.len() > 0 && !app.config.gemini_enabled && !speech_job::is_cancelled(
                mode,
                app,
            ) ==> begun.step == StepView::Synthesize(
                speech_text::speech_chunks(words, target)[0],
            ) && begun.job.stage == SpeechStage::Synthesizing
        }),
{
    crate::speech_laws::law_chunks_are_tidy(
        text::trimmed(selection),
        match overrides.chunk_size {
            Some(size) => size as nat,
            None => app.config.default_chunk_size as nat,
        },
    );
}

/// With a stored key the whole text is sent to be rewritten, with the model and the prompt
/// of the job; without one the job fails and says so.
pub proof fn law_what_is_sent_to_be_rewritten(
    job: JobView,
    app: AppView,
    answer: Result<Option<Seq<char>>, Seq<char>>,
)
    ensures
        ({
            let after = speech_job::advanced(job, app, EventView::ApiKey(answer));
            match answer {
                Ok(Some(key)) => {
                    &&& after.step == (StepView::Rewrite {
                        api_key: key,
                        model: job.config.gemini_model,
                        prompt: job.config.gemini_prompt,
                        input: job.raw_selection,
                    })
                    &&& after.job == (JobView { stage: SpeechStage::Rewriting, ..job })
                    &&& after.app == runtime::marked(
                        app,
                        AppStatus::RewritingText,
                        "Rewriting with "@ + job.config.gemini_model + "..."@,
                    )
                },
                Ok(None) => {
                    &&& after.step == StepView::Failed(
                        "Gemini rewrite is enabled, but no API key is stored."@,
                    )
                    &&& after.app == runtime::failed(
                        app,
                        "Gemini rewrite is enabled, but no API key is stored."@,
                    )
                },
                Err(error) => {
                    &&& after.step == StepView::Failed(error)
                    &&& after.app == runtime::failed(app, error)
                },
            }
        }),
{
}

/// What came back rewritten is what is spoken: it is shown, and its own chunks are
/// synthesised from the first on. Where it did not come back, the job fails and says so.
pub proof fn law_the_rewritten_text_is_spoken(
    job: JobView,
    app: AppView,
    answer: Result<Seq<char>, Seq<char>>,
)
    ensures
        ({
            let after = speech_job::advanced(job, app, EventView::Rewritten(answer));
            let target: nat = match job.overrides.chunk_size {
                Some(size) => size as nat,
                None => job.config.default_chunk_size as nat,
            };
            match answer {
                Ok(words) => {
                    let chunks = speech_text::speech_chunks(words, target);
                    &&& after.job.prepared_text == words
                    &&& after.job.used_gemini
                    &&& after.job.chunks == chunks
                    &&& after.job.index == 0
                    &&& after.app.runtime.last_prepared_text == Some(words)
                    &&& after.app.runtime.last_selection == app.runtime.last_selection
                    &&& if speech_job::is_cancelled(job.mode, app) {
                        after.step == (StepView::Finished {
                            raw_selection: job.raw_selection,
                            prepared_text: words,
                            used_gemini: true,
                        })
                    } else {
                        &&& after.step == StepView::Synthesize(chunks[0])
                        &&& after.app.runtime.status == AppStatus::Synthesizing
                        &&& after.app.runtime.status_detail == if chunks.len() > 1 {
                            "Synthesizing chunk "@ + text::decimal(1) + " of "@ + text::decimal(
                                chunks.len(),
                            ) + "..."@
                        } else {
                            "Synthesizing speech with the local neural voice..."@
                        }
                    }
                },
                Err(error) => {
                    &&& after.step == StepView::Failed(error)
                    &&& after.app == runtime::failed(app, error)
                },
            }
        }),
{
    if let Ok(words) = answer {
        crate::speech_laws::law_chunks_are_tidy(
            words,
            match job.overrides.chunk_size {
                Some(size) => size as nat,
                None => job.config.default_chunk_size as nat,
            },
        );
    }
}

/// Audio that was made is played, unless the text was spoken at once and has been given up,
/// or the audio cannot be played. The first audio shows that the model works and with
/// which voice. Where no audio was made, the job fails and says so.
pub proof fn law_what_becomes_of_audio(
    job: JobView,
    app: AppView,
    answer: Result<(Option<Seq<char>>, AudioFormat), Seq<char>>,
)
    ensures
        ({
            let after = speech_job::advanced(job, app, EventView::Synthesized(answer));
            match answer {
                Ok((voice, format)) => {
                    let overtaken = job.mode is Direct && speech_job::is_cancelled(job.mode, app);
                    &&& after.job.index == job.index
                    &&& after.job.chunks == job.chunks
                    &&& after.job.prepared_text == job.prepared_text
                    &&& after.job.used_gemini == job.used_gemini
                    &&& after.job.first_voice == if job.index == 0 {
                        voice
                    } else {
                        job.first_voice
                    }
                    &&& after.app.runtime.model_ready == (job.index == 0
                        || app.runtime.model_ready)
                    &&& overtaken ==> after.step == (StepView::Finished {
                        raw_selection: job.raw_selection,
                        prepared_text: job.prepared_text,
                        used_gemini: job.used_gemini,
                    }) && after.app.runtime.status_detail == "Playback cancelled."@
                    &&& !overtaken && format.channels == 0 ==> after.step == StepView::Failed(
                        "audio had zero channels"@,
                    )
                    &&& !overtaken && format.channels > 0 && format.sample_rate == 0 ==> after.step
                        == StepView::Failed("audio had zero sample rate"@)
                    &&& !overtaken && format.channels > 0 && format.sample_rate > 0 ==> after.step
                        == StepView::Play && after.job.stage == SpeechStage::Playing
                    &&& !overtaken ==> after.app.updates == app.updates
                        && after.app.runtime.status == app.runtime.status
                },
                Err(error) => {
                    &&& after.step == StepView::Failed(error)
                    &&& after.app == runtime::failed(app, error)
                },
            }
        }),
{
}

/// Once audio is played, the voice is shown behind the first chunk, and the job goes on
/// with the chunk that follows; behind the last one the audio is saved, if the request
/// asks for that or names a directory for it, and the job is over otherwise. A text that
/// is given up meanwhile is over at once.
pub proof fn law_what_follows_a_chunk(job: JobView, app: AppView)
    requires
        job.index < job.chunks.len(),
    ensures
        ({
            let after = speech_job::advanced(job, app, EventView::Played(Ok(())));
            let told = if job.index == 0 {
                runtime::marked(
                    app,
                    AppStatus::Speaking,
                    match job.first_voice {
                        Some(name) => "Speaking with "@ + name + "."@,
                        None => "Speaking with the default voice."@,
                    },
                )
            } else {
                app
            };
            let next = job.index as int + 1;
            let over = StepView::Finished {
                raw_selection: job.raw_selection,
                prepared_text: job.prepared_text,
                used_gemini: job.used_gemini,
            };
            &&& after.job.index == next
            &&& after.job.chunks == job.chunks
            &&& if next < job.chunks.len() {
                if speech_job::is_cancelled(job.mode, app) {
                    &&& after.step == over
                    &&& after.app == runtime::marked(told, AppStatus::Ready, "Playback cancelled."@)
                } else {
                    &&& after.step == StepView::Synthesize(job.chunks[next])
                    &&& after.app == runtime::marked(
                        told,
                        AppStatus::Synthesizing,
                        "Synthesizing chunk "@ + text::decimal(job.index + 2) + " of "@
                            + text::decimal(job.chunks.len()) + "..."@,
                    )
                }
            } else {
                &&& after.app == told
                &&& if job.overrides.save_audio == Some(true) || job.overrides.output_dir is Some {
                    after.step == (StepView::Save { output_dir: job.overrides.output_dir })
                } else {
                    after.step == over
                }
            }
        }),
{
}

/// Audio that cannot be played or saved ends the job with that error; once it is saved the
/// job is over. The application is not changed by either.
pub proof fn law_how_a_job_ends(job: JobView, app: AppView, error: Seq<char>)
    ensures
        speech_job::advanced(job, app, EventView::Played(Err(error))).step == StepView::Failed(
            error,
        ),
        speech_job::advanced(job, app, EventView::Played(Err(error))).app == app,
        speech_job::advanced(job, app, EventView::Saved(Err(error))).step == StepView::Failed(
            error,
        ),
        speech_job::advanced(job, app, EventView::Saved(Err(error))).app == app,
        speech_job::advanced(job, app, EventView::Saved(Ok(()))).step == (StepView::Finished {
            raw_selection: job.raw_selection,
            prepared_text: job.prepared_text,
            used_gemini: job.used_gemini,
        }),
        speech_job::advanced(job, app, EventView::Saved(Ok(()))).app == app,
{
}

/// Whether a job has left alone all that is shown but the status, the last error and the
/// texts and findings of its own.
pub open spec fn leaves_alone(before: AppView, after: AppView) -> bool {
    &&& after.queue == before.queue
    &&& after.playback == before.playback
    &&& after.config == before.config
    &&& after.tts == before.tts
    &&& after.store == before.store
    &&& after.runtime.available_voices == before.runtime.available_voices
    &&& after.runtime.last_hotkey_press == before.runtime.last_hotkey_press
    &&& after.runtime.next_hotkey_press_id == before.runtime.next_hotkey_press_id
}

/// A job that begins notes the trimmed selection and sets the player going; where texts are
/// not rewritten it also shows the text as prepared, and then works on its first chunk. It
/// changes nothing else, and each of these steps is told once.
pub proof fn law_what_a_beginning_shows(
    app: AppView,
    selection: Seq<char>,
    mode: SpeechMode,
    overrides: OverridesView,
)
    requires
        text::trimmed(selection).len() > 0,
    ensures
        ({
            let begun = speech_job::started(app, selection, mode, overrides);
            let words = text::trimmed(selection);
            let target: nat = match overrides.chunk_size {
                Some(size) => size as nat,
                None => app.config.default_chunk_size as nat,
            };
            let count = speech_text::speech_chunks(words, target).len();
            let direct = !app.config.gemini_enabled;
            &&& leaves_alone(app, begun.app)
            &&& begun.app.runtime.last_selection == Some(words)
            &&& !begun.app.runtime.playback_paused
            &&& begun.app.runtime.model_ready == app.runtime.model_ready
            &&& begun.app.runtime.last_prepared_text == if direct {
                Some(words)
            } else {
                app.runtime.last_prepared_text
            }
            &&& begun.app.updates.len() == app.updates.len() + if direct {
                3int
            } else {
                1int
            }
            &&& direct && speech_job::is_cancelled(mode, app) ==> {
                &&& begun.step == (StepView::Finished {
                    raw_selection: words,
                    prepared_text: words,
                    used_gemini: false,
                })
                &&& begun.app.runtime.status == AppStatus::Ready
                &&& begun.app.runtime.status_detail == "Playback cancelled."@
            }
            &&& direct && !speech_job::is_cancelled(mode, app) ==> {
                &&& begun.app.runtime.status == AppStatus::Synthesizing
                &&& begun.app.runtime.status_detail == if count > 1 {
                    "Synthesizing chunk "@ + text::decimal(1) + " of "@ + text::decimal(count)
                        + "..."@
                } else {
                    "Synthesizing speech with the local neural voice..."@
                }
            }
            &&& !direct ==> begun.app.runtime.status == app.runtime.status
                && begun.app.runtime.status_detail == app.runtime.status_detail
        }),
{
    crate::speech_laws::law_chunks_are_tidy(
        text::trimmed(selection),
        match overrides.chunk_size {
            Some(size) => size as nat,
            None => app.config.default_chunk_size as nat,
        },
    );
}

/// Whatever comes of a step, the job leaves alone what is not its own: the selection and
/// whether the player is paused stay, the prepared text changes only when a text came back
/// rewritten, and the model is found to be ready only by its first audio.
pub proof fn law_what_a_step_leaves_alone(job: JobView, app: AppView, event: EventView)
    ensures
        ({
            let after = speech_job::advanced(job, app, event).app;
            &&& leaves_alone(app, after)
            &&& after.runtime.last_selection == app.runtime.last_selection
            &&& after.runtime.playback_paused == app.runtime.playback_paused
            &&& !(event is Rewritten && event->Rewritten_0 is Ok)
                ==> after.runtime.last_prepared_text == app.runtime.last_prepared_text
            &&& !(event is Synthesized && event->Synthesized_0 is Ok && job.index == 0)
                ==> after.runtime.model_ready == app.runtime.model_ready
            &&& app.updates.len() <= after.updates.len()
            &&& forall|i: int|
                0 <= i < app.updates.len() ==> #[trigger] after.updates[i] == app.updates[i]
        }),
{
}

} // verus!
