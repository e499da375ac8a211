//! What the worker does at every turn.

use vstd::prelude::*;
use vstd::string::*;

use crate::queue::{QueueSignal, QueueView};
use crate::runtime;
use crate::runtime::AppView;
use crate::speech_job::SpeechMode;
use crate::state::AppStatus;
use crate::worker;
use crate::worker::{ActionView, WorkerEvent, WorkerProgress, WorkerState};

verus! {

/// Whether the worker has taken the first text that waits, to be spoken under the present
/// generations, and has left everything else as it was.
pub open spec fn speaks_the_first(
    before: AppView,
    after: WorkerProgress,
    items_played: u64,
) -> bool {
    &&& before.queue.items.len() > 0
    &&& after.state == (WorkerState::Speaking { queue_gen: before.queue.generation, items_played })
    &&& after.app == (AppView {
        queue: QueueView {
            items: before.queue.items.subrange(1, before.queue.items.len() as int),
            ..before.queue
        },
        ..before
    })
    &&& after.action == (ActionView::Speak {
        request: before.queue.items[0],
        mode: SpeechMode::Queued {
            queue_gen: before.queue.generation,
            item_token: before.queue.current_item_generation,
        },
    })
}

/// Whether the worker waits for the next signal and has left everything as it was.
pub open spec fn rests(before: AppView, after: WorkerProgress) -> bool {
    after.state is Idle && after.action is AwaitSignal && after.app == before
}

/// A worker that is told of a text, or has slept meanwhile, begins with the first one once
/// the player is silent, and sleeps a fifth of a second otherwise. It rests where nothing
/// waits, and where the queue was emptied while it slept.
pub proof fn law_how_the_worker_begins(
    state: WorkerState,
    app: AppView,
    event: WorkerEvent,
    playback_empty: bool,
)
    requires
        event == WorkerEvent::Signal(QueueSignal::NewItem) || (event == WorkerEvent::Slept
            && state is Waiting),
    ensures
        ({
            let after = worker::worked(state, app, event, playback_empty);
            let emptied = event == WorkerEvent::Slept && state->Waiting_queue_gen
                != app.queue.generation;
            if emptied {
                rests(app, after)
            } else if !playback_empty {
                &&& after.app == app
                &&& after.state == (WorkerState::Waiting { queue_gen: app.queue.generation })
                &&& after.action == ActionView::Sleep(200)
            } else if app.queue.items.len() == 0 {
                rests(app, after)
            } else {
                speaks_the_first(app, after, 0)
            }
        }),
{
    assert(app.queue.items.len() > 0 ==> app.queue.items.skip(1) =~= app.queue.items.subrange(
        1,
        app.queue.items.len() as int,
    ));
}

/// Behind a text the worker counts it, sleeps a tenth of a second at a time until the
/// player is silent or the queue was emptied, and throws away the signals that have come
/// in meanwhile.
pub proof fn law_what_the_worker_does_behind_a_text(
    state: WorkerState,
    app: AppView,
    event: WorkerEvent,
    playback_empty: bool,
)
    requires
        event == WorkerEvent::Spoken && state is Speaking || event == WorkerEvent::Slept
            && state is Settling,
    ensures
        ({
            let after = worker::worked(state, app, event, playback_empty);
            let queue_gen = match state {
                WorkerState::Speaking { queue_gen, .. } => queue_gen,
                WorkerState::Settling { queue_gen, .. } => queue_gen,
                _ => 0,
            };
            let played = match state {
                WorkerState::Speaking { items_played, .. } => if items_played == u64::MAX {
                    items_played
                } else {
                    (items_played + 1) as u64
                },
                WorkerState::Settling { items_played, .. } => items_played,
                _ => 0,
            };
            &&& after.app == app
            &&& if playback_empty || queue_gen != app.queue.generation {
                &&& after.state == (WorkerState::Draining { queue_gen, items_played: played })
                &&& after.action is DrainSignals
            } else {
                &&& after.state == (WorkerState::Settling { queue_gen, items_played: played })
                &&& after.action == ActionView::Sleep(100)
            }
        }),
{
}

/// With the signals thrown away the worker goes on with the next text, if the queue was
/// not emptied and one waits; otherwise it rests, and reports a queue that it has got
/// through once the player is silent.
pub proof fn law_how_the_worker_goes_on(
    queue_gen: u64,
    items_played: u64,
    app: AppView,
    playback_empty: bool,
)
    ensures
        ({
            let after = worker::worked(
                WorkerState::Draining { queue_gen, items_played },
                app,
                WorkerEvent::Drained,
                playback_empty,
            );
            if queue_gen != app.queue.generation {
                rests(app, after)
            } else if app.queue.items.len() > 0 {
                speaks_the_first(app, after, items_played)
            } else if items_played > 0 && playback_empty {
                &&& after.state is Idle
                &&& after.action is AwaitSignal
                &&& after.app == runtime::marked(app, AppStatus::Ready, "Queue complete."@)
            } else {
                rests(app, after)
            }
        }),
{
    assert(app.queue.items.len() > 0 ==> app.queue.items.skip(1) =~= app.queue.items.subrange(
        1,
        app.queue.items.len() as int,
    ));
}

/// A stop leaves the worker waiting for the next signal, and the end of all signals ends
/// it; neither changes the application.
pub proof fn law_how_the_worker_stops(state: WorkerState, app: AppView, playback_empty: bool)
    ensures
        rests(
            app,
            worker::worked(
                state,
                app,
                WorkerEvent::Signal(QueueSignal::Stop),
                playback_empty,
            ),
        ),
        ({
            let after = worker::worked(state, app, WorkerEvent::Closed, playback_empty);
            after.state is Stopped && after.action is Exit && after.app == app
        }),
{
}

} // verus!
