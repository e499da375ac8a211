//! How the queue is emptied: one text at a time, each once the player is silent.
//!
//! The worker decides; whoever runs it performs the action that it asks for and
//! hands back what happened.

use vstd::prelude::*;
use vstd::string::*;

use crate::queue;
use crate::queue::{QueueSignal, QueuedSpeechRequest, RequestView};
use crate::runtime;
use crate::runtime::{AppRuntime, AppView};
use crate::speech_job::SpeechMode;
use crate::state::AppStatus;

verus! {

/// How long the worker waits for a silent player before it begins, in milliseconds.
pub const IDLE_WAIT_MS: u64 = 200;

/// How long the worker waits for a silent player behind an item, in milliseconds.
pub const ITEM_WAIT_MS: u64 = 100;

/// What the worker is about.
#[derive(Debug, Clone, Copy, PartialEq, Eq, Structural)]
pub enum WorkerState {
    /// It waits for a signal.
    Idle,
    /// It waits for a silent player before it begins.
    Waiting { queue_gen: u64 },
    /// A text is being spoken.
    Speaking { queue_gen: u64, items_played: u64 },
    /// It waits for a silent player behind a text.
    Settling { queue_gen: u64, items_played: u64 },
    /// The signals that came in meanwhile are being thrown away.
    Draining { queue_gen: u64, items_played: u64 },
    /// It is over.
    Stopped,
}

/// What happened.
#[derive(Debug, Clone, Copy, PartialEq, Eq, Structural)]
pub enum WorkerEvent {
    Signal(QueueSignal),
    /// No signal will come any more.
    Closed,
    Slept,
    /// The text was dealt with, well or ill.
    Spoken,
    Drained,
}

/// What the worker asks for.
#[derive(Debug)]
pub enum WorkerAction {
    AwaitSignal,
    /// Sleep for so many milliseconds.
    Sleep(u64),
    Speak { request: QueuedSpeechRequest, mode: SpeechMode },
    /// Throw away the signals that have come in.
    DrainSignals,
    Exit,
}

/// What the worker asks for, as a mathematical value.
pub enum ActionView {
    AwaitSignal,
    Sleep(u64),
    Speak { request: RequestView, mode: SpeechMode },
    DrainSignals,
    Exit,
}

impl View for WorkerAction {
    type V = ActionView;

    open spec fn view(&self) -> ActionView {
        match *self {
            WorkerAction::AwaitSignal => ActionView::AwaitSignal,
            WorkerAction::Sleep(millis) => ActionView::Sleep(millis),
            WorkerAction::Speak { request, mode } => ActionView::Speak { request: request@, mode },
            WorkerAction::DrainSignals => ActionView::DrainSignals,
            WorkerAction::Exit => ActionView::Exit,
        }
    }
}

/// The worker, the application, and what is asked for next.
pub struct WorkerProgress {
    pub state: WorkerState,
    pub app: AppView,
    pub action: ActionView,
}

/// Whether something is what the worker waits for.
pub open spec fn is_expected(state: WorkerState, event: WorkerEvent) -> bool {
    match event {
        WorkerEvent::Signal(_) | WorkerEvent::Closed => state is Idle,
        WorkerEvent::Slept => state is Waiting || state is Settling,
        WorkerEvent::Spoken => state is Speaking,
        WorkerEvent::Drained => state is Draining,
    }
}

/// The worker has nothing more to do for now. Where it got through the queue and all
/// is silent, that is told.
pub open spec fn batch_over(
    app: AppView,
    queue_gen: u64,
    items_played: u64,
    playback_empty: bool,
) -> WorkerProgress {
    WorkerProgress {
        state: WorkerState::Idle,
        app: if app.queue.generation == queue_gen && items_played > 0 && playback_empty {
            runtime::marked(app, AppStatus::Ready, "Queue complete."@)
        } else {
            app
        },
        action: ActionView::AwaitSignal,
    }
}

/// The worker takes the next text, unless there is none or the queue was emptied.
pub open spec fn next_item(
    app: AppView,
    queue_gen: u64,
    items_played: u64,
    playback_empty: bool,
) -> WorkerProgress {
    if app.queue.generation != queue_gen || app.queue.items.len() == 0 {
        batch_over(app, queue_gen, items_played, playback_empty)
    } else {
        WorkerProgress {
            state: WorkerState::Speaking { queue_gen, items_played },
            app: AppView { queue: queue::popped(app.queue), ..app },
            action: ActionView::Speak {
                request: app.queue.items[0],
                mode: SpeechMode::Queued {
                    queue_gen,
                    item_token: app.queue.current_item_generation,
                },
            },
        }
    }
}

/// The worker waits for a silent player before it begins, unless the queue is emptied
/// in the meantime.
pub open spec fn idle_wait(app: AppView, queue_gen: u64, playback_empty: bool) -> WorkerProgress {
    if app.queue.generation != queue_gen {
        WorkerProgress { state: WorkerState::Idle, app, action: ActionView::AwaitSignal }
    } else if playback_empty {
        next_item(app, queue_gen, 0, playback_empty)
    } else {
        WorkerProgress {
            state: WorkerState::Waiting { queue_gen },
            app,
            action: ActionView::Sleep(IDLE_WAIT_MS),
        }
    }
}

/// The worker waits for a silent player behind a text, unless the queue is emptied in
/// the meantime.
pub open spec fn item_wait(
    app: AppView,
    queue_gen: u64,
    items_played: u64,
    playback_empty: bool,
) -> WorkerProgress {
    if app.queue.generation != queue_gen || playback_empty {
        WorkerProgress {
            state: WorkerState::Draining { queue_gen, items_played },
            app,
            action: ActionView::DrainSignals,
        }
    } else {
        WorkerProgress {
            state: WorkerState::Settling { queue_gen, items_played },
            app,
            action: ActionView::Sleep(ITEM_WAIT_MS),
        }
    }
}

/// One more item, up to the largest count.
pub open spec fn one_more(items_played: u64) -> u64 {
    if items_played == u64::MAX {
        items_played
    } else {
        (items_played + 1) as u64
    }
}

/// How the worker goes on.
pub open spec fn worked(
    state: WorkerState,
    app: AppView,
    event: WorkerEvent,
    playback_empty: bool,
) -> WorkerProgress {
    match event {
        WorkerEvent::Closed => WorkerProgress {
            state: WorkerState::Stopped,
            app,
            action: ActionView::Exit,
        },
        WorkerEvent::Signal(QueueSignal::Stop) => WorkerProgress {
            state: WorkerState::Idle,
            app,
            action: ActionView::AwaitSignal,
        },
        WorkerEvent::Signal(QueueSignal::NewItem) => idle_wait(
            app,
            app.queue.generation,
            playback_empty,
        ),
        WorkerEvent::Slept => match state {
            WorkerState::Waiting { queue_gen } => idle_wait(app, queue_gen, playback_empty),
            WorkerState::Settling { queue_gen, items_played } => item_wait(
                app,
                queue_gen,
                items_played,
                playback_empty,
            ),
            _ => WorkerProgress { state, app, action: ActionView::Exit },
        },
        WorkerEvent::Spoken => match state {
            WorkerState::Speaking { queue_gen, items_played } => item_wait(
                app,
                queue_gen,
                one_more(items_played),
                playback_empty,
            ),
            _ => WorkerProgress { state, app, action: ActionView::Exit },
        },
        WorkerEvent::Drained => match state {
            WorkerState::Draining { queue_gen, items_played } => next_item(
                app,
                queue_gen,
                items_played,
                playback_empty,
            ),
            _ => WorkerProgress { state, app, action: ActionView::Exit },
        },
    }
}

/// What empties the queue.
#[derive(Debug)]
pub struct QueueWorker {
    pub state: WorkerState,
}

impl QueueWorker {
    /// A worker that waits for its first signal.
    pub fn new() -> (res: QueueWorker)
        ensures
            res.state is Idle,
    {
        QueueWorker { state: WorkerState::Idle }
    }

    /// Goes on with what happened.
    pub fn queue_worker(&mut self, app: &mut AppRuntime, event: WorkerEvent, playback_empty: bool)
        -> (res: WorkerAction)
        requires
            is_expected(old(self).state, event),
        ensures
            worked(old(self).state, old(app)@, event, playback_empty) == (WorkerProgress {
                state: final(self).state,
                app: final(app)@,
                action: res@,
            }),
            final(app).tts == old(app).tts,
    {
        match event {
            WorkerEvent::Closed => {
                self.state = WorkerState::Stopped;
                WorkerAction::Exit
            },
            WorkerEvent::Signal(QueueSignal::Stop) => {
                self.state = WorkerState::Idle;
                WorkerAction::AwaitSignal
            },
            WorkerEvent::Signal(QueueSignal::NewItem) => {
                let queue_gen: u64 = app.speech_queue.generation();
                self.idle_wait(app, queue_gen, playback_empty)
            },
            WorkerEvent::Slept => match self.state {
                WorkerState::Waiting { queue_gen } => {
                    self.idle_wait(app, queue_gen, playback_empty)
                },
                WorkerState::Settling { queue_gen, items_played } => {
                    self.item_wait(app, queue_gen, items_played, playback_empty)
                },
                _ => WorkerAction::Exit,
            },
            WorkerEvent::Spoken => match self.state {
                WorkerState::Speaking { queue_gen, items_played } => {
                    let items_played: u64 = if items_played == u64::MAX {
                        items_played
                    } else {
                        items_played + 1
                    };
                    self.item_wait(app, queue_gen, items_played, playback_empty)
                },
                _ => WorkerAction::Exit,
            },
            WorkerEvent::Drained => match self.state {
                WorkerState::Draining { queue_gen, items_played } => {
                    self.next_item(app, queue_gen, items_played, playback_empty)
                },
                _ => WorkerAction::Exit,
            },
        }
    }

    fn idle_wait(&mut self, app: &mut AppRuntime, queue_gen: u64, playback_empty: bool) -> (res:
        WorkerAction)
        ensures
            idle_wait(old(app)@, queue_gen, playback_empty) == (WorkerProgress {
                state: final(self).state,
                app: final(app)@,
                action: res@,
            }),
            final(app).tts == old(app).tts,
    {
        if app.speech_queue.generation() != queue_gen {
            self.state = WorkerState::Idle;
            return WorkerAction::AwaitSignal;
        }
        if playback_empty {
            return self.next_item(app, queue_gen, 0, playback_empty);
        }
        self.state = WorkerState::Waiting { queue_gen };
        WorkerAction::Sleep(IDLE_WAIT_MS)
    }

    fn item_wait(
        &mut self,
        app: &mut AppRuntime,
        queue_gen: u64,
        items_played: u64,
        playback_empty: bool,
    ) -> (res: WorkerAction)
        ensures
            item_wait(old(app)@, queue_gen, items_played, playback_empty) == (WorkerProgress {
                state: final(self).state,
                app: final(app)@,
                action: res@,
            }),
            final(app).tts == old(app).tts,
    {
        if app.speech_queue.generation() != queue_gen || playback_empty {
            self.state = WorkerState::Draining { queue_gen, items_played };
            return WorkerAction::DrainSignals;
        }
        self.state = WorkerState::Settling { queue_gen, items_played };
        WorkerAction::Sleep(ITEM_WAIT_MS)
    }

    fn next_item(
        &mut self,
        app: &mut AppRuntime,
        queue_gen: u64,
        items_played: u64,
        playback_empty: bool,
    ) -> (res: WorkerAction)
        ensures
            next_item(old(app)@, queue_gen, items_played, playback_empty) == (WorkerProgress {
                state: final(self).state,
                app: final(app)@,
                action: res@,
            }),
            final(app).tts == old(app).tts,
    {
        let ghost before = app@;
        if app.speech_queue.generation() == queue_gen {
            if let Some(request) = app.speech_queue.pop() {
                assert(app@.updates =~= before.updates);
                let item_token: u64 = app.speech_queue.current_item_token();
                self.state = WorkerState::Speaking { queue_gen, items_played };
                return WorkerAction::Speak {
                    request,
                    mode: SpeechMode::Queued { queue_gen, item_token },
                };
            }
        }
        assert(app@ =~= before);
        if app.speech_queue.generation() == queue_gen && items_played > 0 && playback_empty {
            app.mark_status(AppStatus::Ready, "Queue complete.".to_owned());
        }
        self.state = WorkerState::Idle;
        WorkerAction::AwaitSignal
    }
}

} // verus!
