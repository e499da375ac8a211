//! The queue of texts that wait to be spoken.

use std::collections::VecDeque;

use vstd::prelude::*;
use vstd::string::*;

use crate::state::{OverridesView, SpeechOverrides};

verus! {

/// What the queue tells the worker that empties it.
#[derive(Debug, Clone, Copy, PartialEq, Eq, Structural)]
pub enum QueueSignal {
    NewItem,
    Stop,
}

/// A text that waits to be spoken, with what its request asked for.
#[derive(Debug)]
pub struct QueuedSpeechRequest {
    pub text: String,
    pub overrides: SpeechOverrides,
}

/// A waiting text as a mathematical value.
pub struct RequestView {
    pub text: Seq<char>,
    pub overrides: OverridesView,
}

impl View for QueuedSpeechRequest {
    type V = RequestView;

    open spec fn view(&self) -> RequestView {
        RequestView { text: self.text@, overrides: self.overrides@ }
    }
}

impl Clone for QueuedSpeechRequest {
    fn clone(&self) -> (res: Self)
        ensures
            res@ == self@,
    {
        QueuedSpeechRequest { text: self.text.clone(), overrides: self.overrides.clone() }
    }
}

/// The texts that wait to be spoken, first in, first out. The generation counts how
/// often the queue was emptied, the item generation also how often an item was
/// skipped; both count modulo 2^64. The outbox holds the signals that the worker
/// has still to be sent.
#[derive(Debug)]
pub struct SpeechQueue {
    pub items: VecDeque<QueuedSpeechRequest>,
    pub outbox: Vec<QueueSignal>,
    pub generation: u64,
    pub current_item_generation: u64,
}

/// The queue as a mathematical value.
#[verifier::ext_equal]
pub struct QueueView {
    pub items: Seq<RequestView>,
    pub outbox: Seq<QueueSignal>,
    pub generation: u64,
    pub current_item_generation: u64,
}

impl View for SpeechQueue {
    type V = QueueView;

    open spec fn view(&self) -> QueueView {
        QueueView {
            items: self.items@.map_values(|request: QueuedSpeechRequest| request@),
            outbox: self.outbox@,
            generation: self.generation,
            current_item_generation: self.current_item_generation,
        }
    }
}

/// The next value of a counter that counts modulo 2^64.
pub open spec fn next_count(n: u64) -> u64 {
    if n == u64::MAX {
        0
    } else {
        (n + 1) as u64
    }
}

/// The next value of the counter.
pub fn count_up(n: u64) -> (res: u64)
    ensures
        res == next_count(n),
{
    if n == u64::MAX {
        0
    } else {
        n + 1
    }
}

/// The queue with a text put at its end.
pub open spec fn enqueued(queue: QueueView, request: RequestView) -> QueueView {
    QueueView {
        items: queue.items.push(request),
        outbox: queue.outbox.push(QueueSignal::NewItem),
        ..queue
    }
}

/// The queue without its first text.
pub open spec fn popped(queue: QueueView) -> QueueView {
    QueueView { items: queue.items.skip(1), ..queue }
}

/// The queue emptied, with whatever is under way invalidated.
pub open spec fn cleared(queue: QueueView) -> QueueView {
    QueueView {
        items: Seq::empty(),
        outbox: queue.outbox.push(QueueSignal::Stop),
        generation: next_count(queue.generation),
        current_item_generation: next_count(queue.current_item_generation),
    }
}

/// The queue with the text under way invalidated.
pub open spec fn skipped(queue: QueueView) -> QueueView {
    QueueView { current_item_generation: next_count(queue.current_item_generation), ..queue }
}

impl SpeechQueue {
    /// An empty queue.
    pub fn new() -> (res: SpeechQueue)
        ensures
            res@ == (QueueView {
                items: Seq::empty(),
                outbox: Seq::empty(),
                generation: 0,
                current_item_generation: 0,
            }),
    {
        let res = SpeechQueue {
            items: VecDeque::new(),
            outbox: Vec::new(),
            generation: 0,
            current_item_generation: 0,
        };
        assert(res@.items =~= Seq::empty());
        res
    }

    /// Puts a text at the end of the queue and returns how many texts wait now.
    pub fn enqueue(&mut self, request: QueuedSpeechRequest) -> (res: usize)
        ensures
            final(self)@ == enqueued(old(self)@, request@),
            res == final(self)@.items.len(),
    {
        self.items.push_back(request);
        self.outbox.push(QueueSignal::NewItem);
        assert(self@.items =~= old(self)@.items.push(request@));
        self.items.len()
    }

    /// Takes the first text out of the queue.
    pub fn pop(&mut self) -> (res: Option<QueuedSpeechRequest>)
        ensures
            match res {
                Some(request) => {
                    &&& old(self)@.items.len() > 0
                    &&& request@ == old(self)@.items[0]
                    &&& final(self)@ == popped(old(self)@)
                },
                None => old(self)@.items.len() == 0 && final(self)@ == old(self)@,
            },
    {
        let res = self.items.pop_front();
        assert(res is Some ==> self@.items =~= old(self)@.items.skip(1));
        res
    }

    /// Empties the queue and invalidates what is under way.
    pub fn clear_and_invalidate(&mut self)
        ensures
            final(self)@ == cleared(old(self)@),
    {
        self.items.clear();
        self.generation = count_up(self.generation);
        self.current_item_generation = count_up(self.current_item_generation);
        self.outbox.push(QueueSignal::Stop);
        assert(self@.items =~= Seq::empty());
    }

    /// How often the queue was emptied.
    pub fn generation(&self) -> (res: u64)
        ensures
            res == self@.generation,
    {
        self.generation
    }

    /// How often the queue was emptied or an item was skipped.
    pub fn current_item_token(&self) -> (res: u64)
        ensures
            res == self@.current_item_generation,
    {
        self.current_item_generation
    }

    /// Invalidates the text under way.
    pub fn skip_current_item(&mut self)
        ensures
            final(self)@ == skipped(old(self)@),
    {
        self.current_item_generation = count_up(self.current_item_generation);
    }

    /// How many texts wait.
    pub fn len(&self) -> (res: usize)
        ensures
            res == self@.items.len(),
    {
        self.items.len()
    }

    /// Takes out the signals that the worker has still to be sent.
    pub fn take_signals(&mut self) -> (res: Vec<QueueSignal>)
        ensures
            res@ == old(self)@.outbox,
            final(self)@ == (QueueView { outbox: Seq::empty(), ..old(self)@ }),
    {
        let mut signals: Vec<QueueSignal> = Vec::new();
        std::mem::swap(&mut signals, &mut self.outbox);
        assert(self@.items =~= old(self)@.items);
        signals
    }
}

} // verus!
