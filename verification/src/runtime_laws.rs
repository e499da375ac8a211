//! What holds of the running application, whatever happened before.

use vstd::prelude::*;
use vstd::string::*;

use crate::config;
use crate::config::{ConfigView, TtsPrecision, VoiceModel};
use crate::config_laws;
use crate::instructions;
use crate::instructions_laws;
use crate::queue;
use crate::queue::{QueueSignal, QueueView, RequestView};
use crate::runtime;
use crate::runtime::{AppView, RuntimeView};
use crate::speech_job;
use crate::speech_job::{EventView, JobView, SpeechMode};
use crate::state;
use crate::state::{AppStatus, OverridesView, SettingsInput};
use crate::text;
use crate::text_laws;
use crate::worker;
use crate::worker::{WorkerEvent, WorkerProgress, WorkerState};

verus! {

// ---------------------------------------------------------------------------
// The queue
// ---------------------------------------------------------------------------

/// The queue once several texts were put into it, one after another.
pub open spec fn all_enqueued(queue: QueueView, requests: Seq<RequestView>) -> QueueView
    decreases requests.len(),
{
    if requests.len() == 0 {
        queue
    } else {
        queue::enqueued(all_enqueued(queue, requests.drop_last()), requests.last())
    }
}

/// The queue once several texts were taken out of it.
pub open spec fn times_popped(queue: QueueView, n: nat) -> QueueView
    decreases n,
{
    if n == 0 {
        queue
    } else {
        queue::popped(times_popped(queue, (n - 1) as nat))
    }
}

proof fn lemma_all_enqueued(queue: QueueView, requests: Seq<RequestView>)
    ensures
        all_enqueued(queue, requests).items == queue.items + requests,
        all_enqueued(queue, requests).outbox.len() == queue.outbox.len() + requests.len(),
        all_enqueued(queue, requests).generation == queue.generation,
        all_enqueued(queue, requests).current_item_generation == queue.current_item_generation,
    decreases requests.len(),
{
    if requests.len() == 0 {
        assert(queue.items + requests =~= queue.items);
    } else {
        lemma_all_enqueued(queue, requests.drop_last());
        assert((queue.items + requests.drop_last()).push(requests.last()) =~= queue.items
            + requests);
    }
}

proof fn lemma_times_popped(queue: QueueView, n: nat)
    requires
        n <= queue.items.len(),
    ensures
        times_popped(queue, n).items == queue.items.skip(n as int),
    decreases n,
{
    if n == 0 {
        assert(queue.items.skip(0) =~= queue.items);
    } else {
        lemma_times_popped(queue, (n - 1) as nat);
        assert(queue.items.skip(n - 1).skip(1) =~= queue.items.skip(n as int));
    }
}

/// Texts come out of the queue in the order in which they were put in, behind those
/// that were there before.
pub proof fn law_first_in_first_out(queue: QueueView, requests: Seq<RequestView>, k: nat)
    requires
        k < requests.len(),
    ensures
        ({
            let left = times_popped(all_enqueued(queue, requests), queue.items.len() + k);
            left.items.len() == requests.len() - k && left.items[0] == requests[k as int]
        }),
{
    lemma_all_enqueued(queue, requests);
    lemma_times_popped(all_enqueued(queue, requests), queue.items.len() + k);
}

/// Taking out a text that was put into an empty queue gives the same text back and
/// leaves the queue empty.
pub proof fn law_popping_undoes_enqueueing(queue: QueueView, request: RequestView)
    requires
        queue.items.len() == 0,
    ensures
        queue::enqueued(queue, request).items[0] == request,
        queue::popped(queue::enqueued(queue, request)).items == queue.items,
{
    assert(queue::popped(queue::enqueued(queue, request)).items =~= queue.items);
}

/// Every text that is queued is announced to the worker.
pub proof fn law_every_text_is_announced(queue: QueueView, request: RequestView)
    ensures
        queue::enqueued(queue, request).outbox == queue.outbox.push(QueueSignal::NewItem),
        queue::enqueued(queue, request).items.len() == queue.items.len() + 1,
{
}

/// Whether a text was cleaned before it was queued: it is tidy and not empty, and so
/// are the texts that its request sets.
pub open spec fn is_clean(request: RequestView) -> bool {
    &&& request.text.len() > 0
    &&& text_laws::is_tidy(request.text)
    &&& state::normalized_overrides(request.overrides) == request.overrides
}

/// Whether every text that waits was cleaned.
pub open spec fn holds_clean(queue: QueueView) -> bool {
    forall|i: int| 0 <= i < queue.items.len() ==> is_clean(#[trigger] queue.items[i])
}

/// Whatever is put into the queue is clean, and whatever else happens to the queue
/// leaves only clean texts in it.
pub proof fn law_queue_holds_clean_texts(
    app: AppView,
    selection: Seq<char>,
    overrides: OverridesView,
    reference_exists: bool,
    playback_empty: bool,
)
    requires
        holds_clean(app.queue),
    ensures
        holds_clean(
            runtime::after_enqueue(
                app,
                selection,
                overrides,
                reference_exists,
                playback_empty,
            ).queue,
        ),
        holds_clean(runtime::after_stop(app).queue),
        holds_clean(runtime::after_skip(app, playback_empty).queue),
        app.queue.items.len() > 0 ==> holds_clean(queue::popped(app.queue)),
{
    text_laws::law_trimmed_is_tidy(selection);
    instructions_laws::law_normalizing_overrides_is_idempotent(overrides);
    let after = runtime::after_enqueue(
        app,
        selection,
        overrides,
        reference_exists,
        playback_empty,
    ).queue;
    if after != app.queue {
        assert forall|i: int| 0 <= i < after.items.len() implies is_clean(
            #[trigger] after.items[i],
        ) by {
            if i < app.queue.items.len() {
                assert(after.items[i] == app.queue.items[i]);
            }
        }
    }
    if app.queue.items.len() > 0 {
        let left = queue::popped(app.queue);
        assert forall|i: int| 0 <= i < left.items.len() implies is_clean(
            #[trigger] left.items[i],
        ) by {
            assert(left.items[i] == app.queue.items[i + 1]);
        }
    }
}

/// A request that is refused leaves the queue as it was.
pub proof fn law_a_refused_text_is_not_queued(
    app: AppView,
    selection: Seq<char>,
    overrides: OverridesView,
    reference_exists: bool,
    playback_empty: bool,
)
    requires
        runtime::enqueue_error(app, selection, overrides, reference_exists) is Some,
    ensures
        runtime::after_enqueue(
            app,
            selection,
            overrides,
            reference_exists,
            playback_empty,
        ).queue == app.queue,
{
}

/// A selection or a typed text is never refused unless it is blank.
pub proof fn law_a_plain_text_is_queued(app: AppView, selection: Seq<char>)
    requires
        !text::is_blank(selection),
    ensures
        runtime::enqueue_error(app, selection, state::no_overrides(), false) is None,
{
    instructions_laws::law_a_plain_request_is_accepted(app.config.voice_model, false);
    assert(state::normalized_overrides(state::no_overrides()) == state::no_overrides());
}

// ---------------------------------------------------------------------------
// Stopping and skipping
// ---------------------------------------------------------------------------

/// Stopping empties the queue and cancels whatever was being spoken, at once or from
/// the queue.
pub proof fn law_stopping_cancels_everything(app: AppView, mode: SpeechMode)
    requires
        !speech_job::is_cancelled(mode, app),
    ensures
        speech_job::is_cancelled(mode, runtime::after_stop(app)),
        runtime::after_stop(app).queue.items.len() == 0,
        runtime::after_stop(app).runtime.status == AppStatus::Ready,
        runtime::after_stop(app).runtime.last_error is None,
        !runtime::after_stop(app).runtime.playback_paused,
{
}

/// Skipping cancels the text that is being spoken and keeps every text that waits.
pub proof fn law_skipping_keeps_the_queue(app: AppView, mode: SpeechMode, playback_empty: bool)
    requires
        runtime::skippable(app, playback_empty),
        !speech_job::is_cancelled(mode, app),
    ensures
        speech_job::is_cancelled(mode, runtime::after_skip(app, playback_empty)),
        runtime::after_skip(app, playback_empty).queue.items == app.queue.items,
        runtime::after_skip(app, playback_empty).queue.generation == app.queue.generation,
{
}

/// Where there is nothing to skip, skipping touches neither the queue nor the player.
pub proof fn law_skipping_nothing(app: AppView, playback_empty: bool)
    requires
        !runtime::skippable(app, playback_empty),
    ensures
        runtime::after_skip(app, playback_empty).queue == app.queue,
        runtime::after_skip(app, playback_empty).playback == app.playback,
{
}

/// After a skip or a stop no press of the shortcut is left that could still queue a
/// selection.
pub proof fn law_skipping_and_stopping_forget_the_shortcut(app: AppView, playback_empty: bool)
    ensures
        runtime::after_skip(app, playback_empty).runtime.last_hotkey_press is None,
        runtime::after_stop(app).runtime.last_hotkey_press is None,
{
}

// ---------------------------------------------------------------------------
// The shortcut
// ---------------------------------------------------------------------------

/// A press counts as the second of two exactly if it follows the first within the
/// window.
pub proof fn law_double_press_window(app: AppView, first: u64, second: u64)
    requires
        app.runtime.next_hotkey_press_id < u64::MAX,
        first <= second,
    ensures
        runtime::is_double_press(runtime::with_press(app, first).runtime, second) <==> second
            - first <= runtime::HOTKEY_DOUBLE_PRESS_WINDOW,
{
}

/// Every pending press has a number of its own: larger than that of any earlier one.
pub proof fn law_presses_are_numbered_upwards(app: AppView, now: u64)
    requires
        app.runtime.next_hotkey_press_id < u64::MAX,
        app.runtime.last_hotkey_press matches Some(pending) ==> pending.id
            <= app.runtime.next_hotkey_press_id,
    ensures
        runtime::with_press(app, now).runtime.last_hotkey_press matches Some(pending)
            && pending.id == runtime::with_press(app, now).runtime.next_hotkey_press_id
            && pending.id > app.runtime.next_hotkey_press_id,
{
}

// ---------------------------------------------------------------------------
// The status
// ---------------------------------------------------------------------------

/// Whether an error that is shown is the one that is kept.
pub open spec fn shows_its_error(app: AppView) -> bool {
    app.runtime.status == AppStatus::Error ==> app.runtime.last_error == Some(
        app.runtime.status_detail,
    )
}

/// A start shows no error.
pub proof fn law_a_start_shows_no_error(app: AppView)
    requires
        app.runtime == runtime::initial_runtime(),
    ensures
        shows_its_error(app),
        app.runtime.last_error is None,
{
}

/// Every step keeps the shown error and the kept one the same.
pub proof fn law_shown_error_is_the_last_error(
    app: AppView,
    status: AppStatus,
    detail: Seq<char>,
    selection: Seq<char>,
    overrides: OverridesView,
    flag: bool,
    playback_empty: bool,
)
    requires
        shows_its_error(app),
    ensures
        status != AppStatus::Error ==> shows_its_error(runtime::marked(app, status, detail)),
        shows_its_error(runtime::failed(app, detail)),
        shows_its_error(runtime::with_selection(app, selection)),
        shows_its_error(
            runtime::after_enqueue(app, selection, overrides, flag, playback_empty),
        ),
        shows_its_error(runtime::after_skip(app, playback_empty)),
        shows_its_error(runtime::after_stop(app)),
        shows_its_error(runtime::after_toggle(app, flag)),
        shows_its_error(runtime::without_press(app)),
{
}

/// Every step of the worker keeps the shown error and the kept one the same.
pub proof fn law_worker_keeps_the_shown_error(
    state: WorkerState,
    app: AppView,
    event: WorkerEvent,
    playback_empty: bool,
)
    requires
        shows_its_error(app),
    ensures
        shows_its_error(worker::worked(state, app, event, playback_empty).app),
{
}

/// Every step of a job keeps the shown error and the kept one the same.
pub proof fn law_jobs_show_their_errors(
    job: JobView,
    app: AppView,
    event: EventView,
    selection: Seq<char>,
    mode: SpeechMode,
    overrides: OverridesView,
)
    requires
        shows_its_error(app),
    ensures
        shows_its_error(speech_job::started(app, selection, mode, overrides).app),
        shows_its_error(speech_job::advanced(job, app, event).app),
{
}

/// Every new status that is no error clears the last error.
pub proof fn law_a_new_status_clears_the_error(app: AppView, status: AppStatus, detail: Seq<char>)
    requires
        status != AppStatus::Error,
    ensures
        runtime::marked(app, status, detail).runtime.last_error is None,
{
}

/// The user interface is told of every new status, with the state as it then is.
pub proof fn law_every_status_is_told(app: AppView, status: AppStatus, detail: Seq<char>)
    ensures
        ({
            let after = runtime::marked(app, status, detail);
            &&& after.updates.len() == app.updates.len() + 1
            &&& after.updates.last().tray == Some(status)
            &&& after.updates.last().runtime == after.runtime
            &&& after.updates.last().queue_length == after.queue.items.len()
        }),
{
}

// ---------------------------------------------------------------------------
// The settings
// ---------------------------------------------------------------------------

/// VibeVoice 1.5B is only ever set to automatic precision.
pub proof fn law_vibevoice_is_set_to_auto_precision(saved: ConfigView, input: SettingsInput)
    ensures
        runtime::with_settings(saved, input).voice_model == VoiceModel::VibeVoice
            ==> runtime::with_settings(saved, input).tts_precision == TtsPrecision::Auto,
{
}

/// Saving the same settings a second time changes nothing.
pub proof fn law_saving_settings_is_idempotent(saved: ConfigView, input: SettingsInput)
    ensures
        runtime::with_settings(runtime::with_settings(saved, input), input)
            == runtime::with_settings(saved, input),
{
}

/// Settings that were saved come back unchanged at the next start.
pub proof fn law_saved_settings_come_back(saved: ConfigView, input: SettingsInput)
    requires
        config_laws::is_settled(saved),
    ensures
        config_laws::is_settled(runtime::with_settings(saved, input)),
        config::initial_config(Some(runtime::with_settings(saved, input)))
            == runtime::with_settings(saved, input),
{
    config_laws::law_migrated_config_is_complete(saved);
    text_laws::law_trimming_is_idempotent(input.gemini_model@);
    text_laws::law_trimming_is_idempotent(input.gemini_prompt@);
    if !text::is_blank(input.shortcut@) {
        config_laws::law_normalizing_keeps_a_shortcut(input.shortcut@);
        config_laws::law_normalizing_a_shortcut_is_idempotent(input.shortcut@);
    }
}

// ---------------------------------------------------------------------------
// The worker
// ---------------------------------------------------------------------------

/// A text that the worker has spoken is the first one that waited, under the present
/// generation, so that it is not cancelled from the start; the others wait on.
pub proof fn law_worker_speaks_the_first_text(
    state: WorkerState,
    app: AppView,
    event: WorkerEvent,
    playback_empty: bool,
)
    requires
        worker::is_expected(state, event),
    ensures
        ({
            let after = worker::worked(state, app, event, playback_empty);
            after.action matches worker::ActionView::Speak { request, mode } ==> {
                &&& app.queue.items.len() > 0
                &&& request == app.queue.items[0]
                &&& after.app.queue.items == app.queue.items.skip(1)
                &&& !speech_job::is_cancelled(mode, after.app)
            }
        }),
{
}

/// A text is taken from a queue that was announced only while the player is silent.
pub proof fn law_worker_begins_in_silence(
    state: WorkerState,
    app: AppView,
    event: WorkerEvent,
    playback_empty: bool,
)
    requires
        worker::is_expected(state, event),
        state is Idle || state is Waiting,
        worker::worked(state, app, event, playback_empty).action is Speak,
    ensures
        playback_empty,
{
}

/// Once the queue was emptied, a worker that was under way speaks nothing more from
/// the generation before.
pub proof fn law_worker_gives_up_an_emptied_queue(
    state: WorkerState,
    app: AppView,
    event: WorkerEvent,
    playback_empty: bool,
)
    requires
        worker::is_expected(state, event),
        state matches WorkerState::Waiting { queue_gen } ==> queue_gen == app.queue.generation,
        state matches WorkerState::Speaking { queue_gen, .. } ==> queue_gen
            == app.queue.generation,
        state matches WorkerState::Settling { queue_gen, .. } ==> queue_gen
            == app.queue.generation,
        state matches WorkerState::Draining { queue_gen, .. } ==> queue_gen
            == app.queue.generation,
    ensures
        worker::worked(state, runtime::after_stop(app), event, playback_empty).action !is Speak,
{
}

/// As long as the queue is not emptied under it, a worker that waits for a signal again
/// has left no text behind.
pub proof fn law_worker_leaves_no_text_behind(
    state: WorkerState,
    app: AppView,
    event: WorkerEvent,
    playback_empty: bool,
)
    requires
        worker::is_expected(state, event),
        event != WorkerEvent::Signal(QueueSignal::Stop),
        state matches WorkerState::Waiting { queue_gen } ==> queue_gen == app.queue.generation,
        state matches WorkerState::Draining { queue_gen, .. } ==> queue_gen
            == app.queue.generation,
        worker::worked(state, app, event, playback_empty).action is AwaitSignal,
    ensures
        app.queue.items.len() == 0,
{
}

/// How far the worker has got with an announced queue, in a silent room, once so many
/// texts were spoken. `spoken` is what becomes of the application while a text is spoken.
pub open spec fn after_texts(
    app: AppView,
    spoken: spec_fn(AppView) -> AppView,
    n: nat,
) -> WorkerProgress
    decreases n,
{
    if n == 0 {
        worker::worked(WorkerState::Idle, app, WorkerEvent::Signal(QueueSignal::NewItem), true)
    } else {
        let before = after_texts(app, spoken, (n - 1) as nat);
        let settled = worker::worked(before.state, spoken(before.app), WorkerEvent::Spoken, true);
        worker::worked(settled.state, settled.app, WorkerEvent::Drained, true)
    }
}

proof fn lemma_after_texts(app: AppView, spoken: spec_fn(AppView) -> AppView, n: nat)
    requires
        n < app.queue.items.len(),
        forall|a: AppView|
            (#[trigger] spoken(a)).queue.items == a.queue.items && spoken(a).queue.generation
                == a.queue.generation,
    ensures
        ({
            let now = after_texts(app, spoken, n);
            &&& now.state matches WorkerState::Speaking { queue_gen, .. }
            &&& queue_gen == app.queue.generation
            &&& now.app.queue.generation == app.queue.generation
            &&& now.app.queue.items == app.queue.items.skip(n as int + 1)
            &&& now.action matches worker::ActionView::Speak { request, mode }
            &&& request == app.queue.items[n as int]
            &&& !speech_job::is_cancelled(mode, now.app)
        }),
    decreases n,
{
    if n > 0 {
        lemma_after_texts(app, spoken, (n - 1) as nat);
        let before = after_texts(app, spoken, (n - 1) as nat);
        let during = spoken(before.app);
        assert(during.queue.items == app.queue.items.skip(n as int));
        assert(app.queue.items.skip(n as int).skip(1) =~= app.queue.items.skip(n as int + 1));
    }
}

/// Every text of a queue that is not emptied meanwhile is spoken, once and in order, even
/// where some of them are skipped; behind the last one the queue is reported complete.
pub proof fn law_worker_speaks_every_text(
    app: AppView,
    spoken: spec_fn(AppView) -> AppView,
    k: nat,
)
    requires
        k < app.queue.items.len(),
        forall|a: AppView|
            (#[trigger] spoken(a)).queue.items == a.queue.items && spoken(a).queue.generation
                == a.queue.generation,
    ensures
        after_texts(app, spoken, k).action matches worker::ActionView::Speak { request, mode }
            && request == app.queue.items[k as int] && !speech_job::is_cancelled(
            mode,
            after_texts(app, spoken, k).app,
        ),
        ({
            let end = after_texts(app, spoken, app.queue.items.len());
            &&& end.state is Idle
            &&& end.action is AwaitSignal
            &&& end.app.queue.items.len() == 0
            &&& end.app.runtime.status == AppStatus::Ready
            &&& end.app.runtime.status_detail == "Queue complete."@
        }),
{
    lemma_after_texts(app, spoken, k);
    let len = app.queue.items.len();
    lemma_after_texts(app, spoken, (len - 1) as nat);
    let last = after_texts(app, spoken, (len - 1) as nat);
    let during = spoken(last.app);
    assert(during.queue.items.len() == 0);
    assert(during.queue.generation == app.queue.generation);
}

/// The worker reports a finished queue only when it is silent and nothing waits.
pub proof fn law_worker_reports_an_empty_queue(
    state: WorkerState,
    app: AppView,
    event: WorkerEvent,
    playback_empty: bool,
)
    requires
        worker::is_expected(state, event),
        worker::worked(state, app, event, playback_empty).app.runtime != app.runtime,
    ensures
        playback_empty,
        app.queue.items.len() == 0,
        state is Draining,
{
}

} // verus!
