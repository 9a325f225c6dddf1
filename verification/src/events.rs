//! Server-side event queues: a bounded FIFO of events that can be closed,
//! and taps that each receive a copy of every event enqueued after they
//! were created.

use vstd::prelude::*;
use std::collections::VecDeque;
use crate::core_types::{Message, MessageData};
use crate::models::{
    Task, TaskData, TaskStatusUpdateEvent, TaskStatusUpdateEventData, TaskArtifactUpdateEvent,
    TaskArtifactUpdateEventData,
};
use crate::error::A2AError;
use crate::text::{owned, concat2, usize_to_decimal, decimal};

verus! {

/// The content of an event.
pub enum EventData {
    Message(MessageData),
    Task(TaskData),
    TaskStatusUpdate(TaskStatusUpdateEventData),
    TaskArtifactUpdate(TaskArtifactUpdateEventData),
}

/// An event produced while an agent works on a request.
#[derive(Debug)]
pub enum Event {
    Message(Message),
    Task(Task),
    TaskStatusUpdate(TaskStatusUpdateEvent),
    TaskArtifactUpdate(TaskArtifactUpdateEvent),
}

impl DeepView for Event {
    type V = EventData;

    open spec fn deep_view(&self) -> EventData {
        match self {
            Event::Message(m) => EventData::Message(m.deep_view()),
            Event::Task(t) => EventData::Task(t.deep_view()),
            Event::TaskStatusUpdate(e) => EventData::TaskStatusUpdate(e.deep_view()),
            Event::TaskArtifactUpdate(e) => EventData::TaskArtifactUpdate(e.deep_view()),
        }
    }
}

impl Clone for Event {
    fn clone(&self) -> (r: Self)
        ensures
            r.deep_view() == self.deep_view(),
    {
        match self {
            Event::Message(m) => Event::Message(m.clone()),
            Event::Task(t) => Event::Task(t.clone()),
            Event::TaskStatusUpdate(e) => Event::TaskStatusUpdate(e.clone()),
            Event::TaskArtifactUpdate(e) => Event::TaskArtifactUpdate(e.clone()),
        }
    }
}

/// The default maximum number of events held by a queue.
pub const DEFAULT_MAX_QUEUE_SIZE: usize = 1024;

/// The largest queue size that a queue can be created with.
pub const MAX_QUEUE_CAPACITY: usize = usize::MAX / 2;

/// Errors of event queue operations.
#[derive(Debug)]
pub enum QueueError {
    Closed,
    Full,
    Empty,
    InvalidSize { size: usize },
}

impl QueueError {
    /// The text of an error, as its `Display` impl writes it.
    pub open spec fn spec_text(&self) -> Seq<char> {
        match self {
            QueueError::Closed => "Queue is closed"@,
            QueueError::Full => "Queue is full"@,
            QueueError::Empty => "Queue is empty"@,
            QueueError::InvalidSize { size } => "Invalid queue size: "@ + decimal(*size as nat),
        }
    }

    /// The text of this error.
    pub fn to_string(&self) -> (r: String)
        ensures
            r@ == self.spec_text(),
    {
        match self {
            QueueError::Closed => owned("Queue is closed"),
            QueueError::Full => owned("Queue is full"),
            QueueError::Empty => owned("Queue is empty"),
            QueueError::InvalidSize { size } => {
                let n = usize_to_decimal(*size);
                concat2("Invalid queue size: ", n.as_str())
            },
        }
    }

    /// The protocol error this queue error becomes: an internal error whose
    /// message is the text of this error.
    pub fn to_a2a_error(&self) -> (r: A2AError)
        ensures
            r matches A2AError::Internal(m) && m@ == self.spec_text(),
    {
        let text = self.to_string();
        A2AError::internal(text.as_str())
    }
}

/// Configuration of an event queue.
#[derive(Debug)]
pub struct QueueConfig {
    pub max_size: usize,
    pub block_when_full: bool,
    pub blocking_timeout_ms: Option<u64>,
}

impl Default for QueueConfig {
    fn default() -> (r: Self)
        ensures
            r.max_size == DEFAULT_MAX_QUEUE_SIZE,
            r.block_when_full,
            r.blocking_timeout_ms == Some(5000u64),
    {
        QueueConfig { max_size: DEFAULT_MAX_QUEUE_SIZE, block_when_full: true, blocking_timeout_ms: Some(5000) }
    }
}

impl Clone for QueueConfig {
    fn clone(&self) -> (r: Self)
        ensures
            r == *self,
    {
        QueueConfig {
            max_size: self.max_size,
            block_when_full: self.block_when_full,
            blocking_timeout_ms: self.blocking_timeout_ms,
        }
    }
}

impl QueueConfig {
    /// The default configuration with the given maximum size.
    pub fn with_max_size(max_size: usize) -> (r: Self)
        ensures
            r.max_size == max_size,
            r.block_when_full,
            r.blocking_timeout_ms == Some(5000u64),
    {
        QueueConfig { max_size, ..Default::default() }
    }

    /// The default configuration without blocking when full.
    pub fn non_blocking() -> (r: Self)
        ensures
            r.max_size == DEFAULT_MAX_QUEUE_SIZE,
            !r.block_when_full,
            r.blocking_timeout_ms == Some(5000u64),
    {
        QueueConfig { block_when_full: false, ..Default::default() }
    }

    /// Accepts every configuration with a positive maximum size.
    pub fn validate(&self) -> (r: Result<(), QueueError>)
        ensures
            r is Ok <==> self.max_size > 0,
            r matches Err(e) ==> e == (QueueError::InvalidSize { size: self.max_size }),
    {
        if self.max_size == 0 {
            return Err(QueueError::InvalidSize { size: self.max_size });
        }
        Ok(())
    }
}

/// The state of one tap: the events delivered to it and not yet read.
struct TapState {
    pending: VecDeque<Event>,
    closed: bool,
}

impl TapState {
    closed spec fn view(&self) -> TapView {
        TapView { pending: self.pending.deep_view(), closed: self.closed }
    }
}

/// The content of a tap.
pub struct TapView {
    pub pending: Seq<EventData>,
    pub closed: bool,
}

/// A handle to a tap of an event queue.
#[derive(Clone, Copy, PartialEq, Eq, Debug, Structural)]
pub struct TapId {
    pub index: usize,
}

/// The outcome of a single non-blocking dequeue attempt.
pub enum DequeuePoll {
    Ready(Event),
    Closed,
    WouldBlock,
}

/// The abstract state of an event queue.
pub struct QueueView {
    pub events: Seq<EventData>,
    pub max_size: nat,
    pub closed: bool,
    pub taps: Seq<TapView>,
}

impl QueueView {
    /// Enqueueing: refused when closed, then when full; otherwise the
    /// event joins the back of the queue and every tap.
    pub open spec fn enqueue(self, e: EventData) -> (QueueView, Result<(), QueueError>) {
        if self.closed {
            (self, Err(QueueError::Closed))
        } else if self.events.len() >= self.max_size {
            (self, Err(QueueError::Full))
        } else {
            (QueueView {
                events: self.events.push(e),
                taps: self.taps.map_values(|t: TapView| TapView {
                    pending: t.pending.push(e),
                    closed: t.closed,
                }),
                ..self
            }, Ok(()))
        }
    }

    /// Dequeueing without waiting: the oldest event if there is one, else
    /// `Closed` for a closed queue and `Empty` for an open one.
    pub open spec fn dequeue(self) -> (QueueView, Result<EventData, QueueError>) {
        if self.events.len() > 0 {
            (QueueView { events: self.events.drop_first(), ..self }, Ok(self.events[0]))
        } else if self.closed {
            (self, Err(QueueError::Closed))
        } else {
            (self, Err(QueueError::Empty))
        }
    }

    /// Closing: a closed queue stays as it is; otherwise it becomes closed,
    /// together with every tap, and an immediate close also discards the
    /// waiting events.
    pub open spec fn close(self, immediate: bool) -> QueueView {
        if self.closed {
            self
        } else {
            QueueView {
                closed: true,
                events: if immediate { Seq::empty() } else { self.events },
                taps: self.taps.map_values(|t: TapView| TapView { closed: true, ..t }),
                ..self
            }
        }
    }

    /// Tapping: a new open tap with nothing pending.
    pub open spec fn tap(self) -> QueueView {
        QueueView { taps: self.taps.push(TapView { pending: Seq::empty(), closed: false }), ..self }
    }

    /// Reading a tap without waiting: `Closed` once the tap is closed,
    /// else its oldest pending event, else `Empty`.
    pub open spec fn dequeue_tap(self, i: int) -> (QueueView, Result<EventData, QueueError>) {
        let t = self.taps[i];
        if t.closed {
            (self, Err(QueueError::Closed))
        } else if t.pending.len() > 0 {
            (QueueView {
                taps: self.taps.update(i, TapView { pending: t.pending.drop_first(), closed: false }),
                ..self
            }, Ok(t.pending[0]))
        } else {
            (self, Err(QueueError::Empty))
        }
    }

    /// Closing a tap.
    pub open spec fn close_tap(self, i: int) -> QueueView {
        QueueView { taps: self.taps.update(i, TapView { closed: true, ..self.taps[i] }), ..self }
    }
}

/// An exec dequeue result agrees with an abstract one.
pub open spec fn same_outcome(r: Result<Event, QueueError>, s: Result<EventData, QueueError>) -> bool {
    match (r, s) {
        (Ok(e), Ok(d)) => e.deep_view() == d,
        (Err(x), Err(y)) => x == y,
        _ => false,
    }
}

/// First in, first out: an event enqueued into an open queue with room comes
/// out after the events already waiting, and the oldest waiting event comes
/// out first.
pub proof fn law_queue_fifo(q: QueueView, e: EventData)
    requires
        !q.closed,
        q.events.len() < q.max_size,
    ensures
        q.enqueue(e).1 == Ok::<(), QueueError>(()),
        q.enqueue(e).0.dequeue().1 == Ok::<EventData, QueueError>(if q.events.len() == 0 { e } else { q.events[0] }),
        q.enqueue(e).0.dequeue().0.events == (if q.events.len() == 0 { Seq::empty() } else { q.events.drop_first().push(e) }),
{
    let q1 = q.enqueue(e).0;
    assert(q1.events == q.events.push(e));
    if q.events.len() == 0 {
        assert(q1.events.drop_first() =~= Seq::<EventData>::empty());
    } else {
        assert(q1.events.drop_first() =~= q.events.drop_first().push(e));
    }
}

/// A queue never holds more than its maximum size.
pub proof fn law_queue_bounded(q: QueueView, e: EventData)
    requires
        q.events.len() <= q.max_size,
    ensures
        q.enqueue(e).0.events.len() <= q.max_size,
        q.dequeue().0.events.len() <= q.max_size,
        q.close(true).events.len() <= q.max_size,
        q.close(false).events.len() <= q.max_size,
{
}

/// A closed queue refuses every event with `Closed` and stays as it is.
pub proof fn law_closed_queue_refuses(q: QueueView, immediate: bool, e: EventData)
    ensures
        q.close(immediate).enqueue(e) == (q.close(immediate), Err::<(), QueueError>(QueueError::Closed)),
{
}

/// Closing without `immediate` keeps the waiting events, which can still be
/// read; once they are read, reads answer `Closed`.
pub proof fn law_close_drains(q: QueueView)
    requires
        !q.closed,
    ensures
        q.close(false).events == q.events,
        q.events.len() > 0 ==> q.close(false).dequeue().1 == Ok::<EventData, QueueError>(q.events[0]),
        q.events.len() == 0 ==> q.close(false).dequeue().1 == Err::<EventData, QueueError>(QueueError::Closed),
        q.close(true).dequeue().1 == Err::<EventData, QueueError>(QueueError::Closed),
{
}

/// An open empty queue answers a non-waiting read with `Empty`.
pub proof fn law_open_empty_queue(q: QueueView)
    requires
        !q.closed,
        q.events.len() == 0,
    ensures
        q.dequeue() == (q, Err::<EventData, QueueError>(QueueError::Empty)),
{
}

/// Closing twice is closing once.
pub proof fn law_close_idempotent(q: QueueView, first: bool, second: bool)
    ensures
        q.close(first).close(second) == q.close(first),
{
}

/// Every tap receives every event that its queue accepts: its pending
/// events become the old ones followed by the new event, with nothing
/// dropped, whether or not the queue's own events are read meanwhile.
pub proof fn law_taps_receive_all(q: QueueView, e: EventData, i: int)
    requires
        !q.closed,
        q.events.len() < q.max_size,
        0 <= i < q.taps.len(),
    ensures
        q.enqueue(e).0.taps[i].pending == q.taps[i].pending.push(e),
        q.enqueue(e).0.taps[i].closed == q.taps[i].closed,
        q.dequeue().0.taps == q.taps,
{
}

/// An operation on a queue by its producer or its reader.
pub enum QueueOp {
    Enqueue(EventData),
    Dequeue,
}

/// The queue after the operations, in order (refused enqueues and empty
/// reads change nothing).
pub open spec fn run_ops(q: QueueView, ops: Seq<QueueOp>) -> QueueView
    decreases ops.len(),
{
    if ops.len() == 0 {
        q
    } else {
        let q1 = match ops[0] {
            QueueOp::Enqueue(e) => q.enqueue(e).0,
            QueueOp::Dequeue => q.dequeue().0,
        };
        run_ops(q1, ops.drop_first())
    }
}

/// The events the queue accepts during the operations, in order.
pub open spec fn accepted_events(q: QueueView, ops: Seq<QueueOp>) -> Seq<EventData>
    decreases ops.len(),
{
    if ops.len() == 0 {
        Seq::empty()
    } else {
        match ops[0] {
            QueueOp::Enqueue(e) => {
                let (q1, r) = q.enqueue(e);
                (if r is Ok { seq![e] } else { Seq::empty() }) + accepted_events(q1, ops.drop_first())
            },
            QueueOp::Dequeue => accepted_events(q.dequeue().0, ops.drop_first()),
        }
    }
}

/// Every tap receives, in order and with nothing dropped, every event its
/// queue accepts, however the queue's own reader reads meanwhile; the taps
/// stay as many and keep their open or closed state.
pub proof fn law_tap_receives_every_event(q: QueueView, ops: Seq<QueueOp>, i: int)
    requires
        0 <= i < q.taps.len(),
    ensures
        run_ops(q, ops).taps.len() == q.taps.len(),
        run_ops(q, ops).taps[i].pending == q.taps[i].pending + accepted_events(q, ops),
        run_ops(q, ops).taps[i].closed == q.taps[i].closed,
    decreases ops.len(),
{
    if ops.len() == 0 {
        assert(q.taps[i].pending + Seq::<EventData>::empty() =~= q.taps[i].pending);
    } else {
        let rest = ops.drop_first();
        match ops[0] {
            QueueOp::Enqueue(e) => {
                let (q1, r) = q.enqueue(e);
                law_tap_receives_every_event(q1, rest, i);
                if r is Ok {
                    assert(q1.taps[i].pending == q.taps[i].pending.push(e));
                    assert(q.taps[i].pending.push(e) + accepted_events(q1, rest)
                        =~= q.taps[i].pending + (seq![e] + accepted_events(q1, rest)));
                } else {
                    assert(Seq::<EventData>::empty() + accepted_events(q1, rest) =~= accepted_events(q1, rest));
                }
            },
            QueueOp::Dequeue => {
                law_tap_receives_every_event(q.dequeue().0, rest, i);
            },
        }
    }
}

/// A new tap sees exactly the events accepted after it was made, in the
/// order they were accepted: none of those enqueued before.
pub proof fn law_new_tap_sees_later_events(q: QueueView, ops: Seq<QueueOp>)
    ensures
        run_ops(q.tap(), ops).taps[q.taps.len() as int].pending == accepted_events(q.tap(), ops),
        !run_ops(q.tap(), ops).taps[q.taps.len() as int].closed,
{
    let i = q.taps.len() as int;
    law_tap_receives_every_event(q.tap(), ops, i);
    assert(Seq::<EventData>::empty() + accepted_events(q.tap(), ops) =~= accepted_events(q.tap(), ops));
}

/// A new tap receives the events enqueued after it was created, in order.
pub proof fn law_tap_receives(q: QueueView, e: EventData)
    requires
        !q.closed,
        q.events.len() < q.max_size,
    ensures
        ({
            let i = q.taps.len() as int;
            let q2 = q.tap().enqueue(e).0;
            &&& q2.dequeue_tap(i).1 == Ok::<EventData, QueueError>(e)
            &&& q2.dequeue_tap(i).0.taps[i].pending.len() == 0
        }),
{
    let i = q.taps.len() as int;
    let q1 = q.tap();
    let q2 = q1.enqueue(e).0;
    assert(q1.taps[i].pending.len() == 0);
    assert(q2.taps[i].pending =~= seq![e]);
}

/// Closing a queue closes every tap of it, and its taps then answer
/// `Closed`.
pub proof fn law_close_closes_taps(q: QueueView, immediate: bool, i: int)
    requires
        !q.closed,
        0 <= i < q.taps.len(),
    ensures
        q.close(immediate).taps[i].closed,
        q.close(immediate).taps[i].pending == q.taps[i].pending,
        q.close(immediate).dequeue_tap(i).1 == Err::<EventData, QueueError>(QueueError::Closed),
{
}

/// A closed tap answers `Closed`, whatever is pending in it.
pub proof fn law_closed_tap(q: QueueView, i: int)
    requires
        0 <= i < q.taps.len(),
    ensures
        q.close_tap(i).dequeue_tap(i).1 == Err::<EventData, QueueError>(QueueError::Closed),
{
}

/// An in-memory event queue holding at most `max_size` events, with taps
/// that each receive a copy of every later event.
pub struct InMemoryEventQueue {
    queue: VecDeque<Event>,
    max_size: usize,
    is_closed: bool,
    taps: Vec<TapState>,
}

impl InMemoryEventQueue {
    /// The abstract state of the queue.
    pub closed spec fn view(&self) -> QueueView {
        QueueView {
            events: self.queue.deep_view(),
            max_size: self.max_size as nat,
            closed: self.is_closed,
            taps: self.taps@.map_values(|t: TapState| t.view()),
        }
    }

    /// The invariant of a queue: its maximum size is positive and it holds
    /// at most that many events.
    pub closed spec fn wf(&self) -> bool {
        &&& 1 <= self.max_size <= MAX_QUEUE_CAPACITY
        &&& self.queue@.len() <= self.max_size
    }

    /// A queue stays within its bounds: its maximum size is positive and at
    /// most `MAX_QUEUE_CAPACITY`, and it never holds more events than that
    /// size.
    pub proof fn law_queue_within_bounds(&self)
        requires
            self.wf(),
        ensures
            1 <= self@.max_size <= MAX_QUEUE_CAPACITY,
            self@.events.len() <= self@.max_size,
    {
    }

    /// A queue with the default configuration.
    pub fn new() -> (r: Result<Self, A2AError>)
        ensures
            r is Ok,
            r matches Ok(q) ==> q.wf() && q@ == (QueueView {
                events: Seq::empty(),
                max_size: DEFAULT_MAX_QUEUE_SIZE as nat,
                closed: false,
                taps: Seq::empty(),
            }),
    {
        Self::with_config(Default::default())
    }

    /// A queue with the given configuration; a zero `max_size` is rejected
    /// with the "Invalid queue size: 0" error.
    pub fn with_config(config: QueueConfig) -> (r: Result<Self, A2AError>)
        requires
            config.max_size <= MAX_QUEUE_CAPACITY,
        ensures
            r is Ok <==> config.max_size > 0,
            r matches Ok(q) ==> q.wf() && q@ == (QueueView {
                events: Seq::empty(),
                max_size: config.max_size as nat,
                closed: false,
                taps: Seq::empty(),
            }),
            r matches Err(e) ==> e matches A2AError::Internal(m)
                && m@ == (QueueError::InvalidSize { size: config.max_size }).spec_text(),
    {
        match config.validate() {
            Err(e) => Err(e.to_a2a_error()),
            Ok(()) => {
                let q = InMemoryEventQueue {
                    queue: VecDeque::new(),
                    max_size: config.max_size,
                    is_closed: false,
                    taps: Vec::new(),
                };
                assert(q@.events =~= Seq::<EventData>::empty());
                assert(q@.taps =~= Seq::<TapView>::empty());
                Ok(q)
            },
        }
    }

    /// Adds an event at the back of the queue and delivers a copy to every
    /// tap. A closed queue refuses with `Closed`, a full one with `Full`,
    /// and then nothing changes.
    pub fn enqueue_event(&mut self, event: Event) -> (r: Result<(), QueueError>)
        requires
            old(self).wf(),
        ensures
            final(self).wf(),
            final(self)@ == old(self)@.enqueue(event.deep_view()).0,
            r == old(self)@.enqueue(event.deep_view()).1,
    {
        if self.is_closed {
            return Err(QueueError::Closed);
        }
        if self.queue.len() >= self.max_size {
            return Err(QueueError::Full);
        }
        let ghost ev = event.deep_view();
        let ghost old_taps = self.taps@;
        let mut i: usize = 0;
        while i < self.taps.len()
            invariant
                i <= self.taps@.len(),
                self.taps@.len() == old_taps.len(),
                old_taps == old(self).taps@,
                self.queue == old(self).queue,
                self.max_size == old(self).max_size,
                self.is_closed == old(self).is_closed,
                ev == event.deep_view(),
                forall|j: int| 0 <= j < i ==> (#[trigger] self.taps@[j]).view() == (TapView {
                    pending: old_taps[j].view().pending.push(ev),
                    closed: old_taps[j].closed,
                }),
                forall|j: int| i <= j < self.taps@.len() ==> #[trigger] self.taps@[j] == old_taps[j],
            decreases self.taps@.len() - i,
        {
            let copy = event.clone();
            let tap = &mut self.taps[i];
            let ghost before = tap.pending.deep_view();
            tap.pending.push_back(copy);
            proof {
                assert(tap.pending.deep_view() =~= before.push(ev));
            }
            i = i + 1;
        }
        let ghost before = self.queue.deep_view();
        self.queue.push_back(event);
        proof {
            assert(self.queue.deep_view() =~= before.push(ev));
            assert(self@.taps =~= old(self)@.taps.map_values(|t: TapView| TapView {
                pending: t.pending.push(ev),
                closed: t.closed,
            }));
        }
        Ok(())
    }

    /// Removes and returns the oldest event. An empty queue answers
    /// `Closed` once closed and `Empty` otherwise; waiting for an event is
    /// left to the caller, so `no_wait` is false only when an answer is due
    /// at once.
    pub fn dequeue_event(&mut self, no_wait: bool) -> (r: Result<Event, QueueError>)
        requires
            old(self).wf(),
            no_wait || old(self)@.events.len() > 0 || old(self)@.closed,
        ensures
            final(self).wf(),
            final(self)@ == old(self)@.dequeue().0,
            same_outcome(r, old(self)@.dequeue().1),
    {
        let ghost before = self.queue.deep_view();
        match self.queue.pop_front() {
            Some(e) => {
                proof {
                    assert(self.queue.deep_view() =~= before.drop_first());
                }
                Ok(e)
            },
            None => {
                if self.is_closed {
                    Err(QueueError::Closed)
                } else {
                    Err(QueueError::Empty)
                }
            },
        }
    }

    /// One dequeue attempt for callers that wait between attempts: the
    /// oldest event, or `Closed` for an empty closed queue, or `WouldBlock`.
    pub fn poll_dequeue(&mut self) -> (r: DequeuePoll)
        requires
            old(self).wf(),
        ensures
            final(self).wf(),
            final(self)@ == old(self)@.dequeue().0,
            match r {
                DequeuePoll::Ready(e) => old(self)@.dequeue().1 == Ok::<EventData, QueueError>(e.deep_view()),
                DequeuePoll::Closed => old(self)@.dequeue().1 == Err::<EventData, QueueError>(QueueError::Closed),
                DequeuePoll::WouldBlock => old(self)@.dequeue().1 == Err::<EventData, QueueError>(QueueError::Empty),
            },
    {
        match self.dequeue_event(true) {
            Ok(e) => DequeuePoll::Ready(e),
            Err(QueueError::Closed) => DequeuePoll::Closed,
            Err(_) => DequeuePoll::WouldBlock,
        }
    }

    /// Closes the queue for enqueueing, and every tap of it; an immediate
    /// close also discards the waiting events. Closing a closed queue
    /// changes nothing.
    pub fn close(&mut self, immediate: bool) -> (r: Result<(), A2AError>)
        requires
            old(self).wf(),
        ensures
            final(self).wf(),
            final(self)@ == old(self)@.close(immediate),
            r is Ok,
    {
        if self.is_closed {
            return Ok(());
        }
        self.is_closed = true;
        if immediate {
            self.clear_events();
        }
        let ghost mid = self@;
        let mut i: usize = 0;
        while i < self.taps.len()
            invariant
                self.wf(),
                i <= self.taps@.len(),
                self.taps@.len() == mid.taps.len(),
                self@.events == mid.events,
                self@.max_size == mid.max_size,
                self@.closed == mid.closed,
                forall|j: int| 0 <= j < i ==> (#[trigger] self@.taps[j]) == (TapView { closed: true, ..mid.taps[j] }),
                forall|j: int| i <= j < self.taps@.len() ==> (#[trigger] self@.taps[j]) == mid.taps[j],
            decreases self.taps@.len() - i,
        {
            let ghost before = self@.taps;
            let tap = &mut self.taps[i];
            tap.closed = true;
            proof {
                assert(self@.taps =~= before.update(i as int, TapView { closed: true, ..before[i as int] }));
            }
            i = i + 1;
        }
        proof {
            assert(self@.taps =~= mid.taps.map_values(|t: TapView| TapView { closed: true, ..t }));
        }
        Ok(())
    }

    /// Discards every waiting event.
    fn clear_events(&mut self)
        requires
            old(self).wf(),
        ensures
            final(self).wf(),
            final(self)@ == (QueueView { events: Seq::empty(), ..old(self)@ }),
    {
        self.queue.clear();
        assert(self.queue.deep_view() =~= Seq::<EventData>::empty());
    }

    /// Whether the queue was closed.
    pub fn is_closed(&self) -> (r: bool)
        ensures
            r == self@.closed,
    {
        self.is_closed
    }

    /// The number of waiting events.
    pub fn size(&self) -> (r: usize)
        ensures
            r == self@.events.len(),
    {
        self.queue.len()
    }

    /// Signals that a dequeued event was processed; the in-memory queue
    /// keeps no account of that.
    pub fn task_done(&self) {
    }

    /// Whether a stream of this queue's events has ended: the queue is
    /// closed and empty.
    pub fn stream_exhausted(&self) -> (r: bool)
        ensures
            r == (self@.closed && self@.events.len() == 0),
    {
        self.is_closed && self.queue.len() == 0
    }

    /// Creates a tap that receives a copy of every event enqueued from now on.
    pub fn tap(&mut self) -> (r: TapId)
        requires
            old(self).wf(),
        ensures
            final(self).wf(),
            final(self)@ == old(self)@.tap(),
            r.index == old(self)@.taps.len(),
    {
        let r = TapId { index: self.taps.len() };
        self.taps.push(TapState { pending: VecDeque::new(), closed: false });
        proof {
            assert(self.taps@.last().view().pending =~= Seq::<EventData>::empty());
            assert(self@.taps =~= old(self)@.taps.push(TapView { pending: Seq::empty(), closed: false }));
        }
        r
    }

    /// Taps a tap: like tapping the queue, the new tap receives the events
    /// enqueued from now on, not those pending in `of`.
    pub fn tap_tap(&mut self, of: TapId) -> (r: TapId)
        requires
            old(self).wf(),
            of.index < old(self)@.taps.len(),
        ensures
            final(self).wf(),
            final(self)@ == old(self)@.tap(),
            r.index == old(self)@.taps.len(),
    {
        self.tap()
    }

    /// The number of taps of this queue.
    pub fn tap_count(&self) -> (r: usize)
        requires
            self.wf(),
        ensures
            r == self@.taps.len(),
    {
        self.taps.len()
    }

    /// Reads the oldest event pending in a tap. A closed tap answers
    /// `Closed`; an empty open one `Empty`, and `no_wait` is false only when
    /// an answer is due at once.
    pub fn dequeue_tap(&mut self, id: TapId, no_wait: bool) -> (r: Result<Event, QueueError>)
        requires
            old(self).wf(),
            id.index < old(self)@.taps.len(),
            no_wait || old(self)@.taps[id.index as int].pending.len() > 0 || old(self)@.taps[id.index as int].closed,
        ensures
            final(self).wf(),
            final(self)@ == old(self)@.dequeue_tap(id.index as int).0,
            same_outcome(r, old(self)@.dequeue_tap(id.index as int).1),
    {
        let i = id.index;
        if self.taps[i].closed {
            return Err(QueueError::Closed);
        }
        let tap = &mut self.taps[i];
        let ghost before = tap.pending.deep_view();
        let r = match tap.pending.pop_front() {
            Some(e) => Ok(e),
            None => Err(QueueError::Empty),
        };
        proof {
            assert(tap.pending.deep_view() =~= if before.len() > 0 { before.drop_first() } else { before });
        }
        proof {
            assert(self@.taps =~= if before.len() > 0 {
                old(self)@.taps.update(i as int, TapView { pending: before.drop_first(), closed: false })
            } else {
                old(self)@.taps
            });
        }
        r
    }

    /// Enqueueing into a tap is refused: taps only receive from their queue.
    pub fn enqueue_to_tap(&self, id: TapId, event: Event) -> (r: Result<(), A2AError>)
        ensures
            r matches Err(A2AError::UnsupportedOperation(m)) && m@ == "Child queues cannot be enqueued directly"@,
    {
        Err(A2AError::unsupported_operation("Child queues cannot be enqueued directly"))
    }

    /// Closes a tap; its reads answer `Closed` from now on.
    pub fn close_tap(&mut self, id: TapId, immediate: bool) -> (r: Result<(), A2AError>)
        requires
            old(self).wf(),
            id.index < old(self)@.taps.len(),
        ensures
            final(self).wf(),
            final(self)@ == old(self)@.close_tap(id.index as int),
            r is Ok,
    {
        let tap = &mut self.taps[id.index];
        tap.closed = true;
        proof {
            assert(self@.taps =~= old(self)@.taps.update(id.index as int,
                TapView { closed: true, ..old(self)@.taps[id.index as int] }));
        }
        Ok(())
    }

    /// Whether a tap was closed.
    pub fn tap_is_closed(&self, id: TapId) -> (r: bool)
        requires
            id.index < self@.taps.len(),
        ensures
            r == self@.taps[id.index as int].closed,
    {
        self.taps[id.index].closed
    }

    /// The size a tap reports: taps are receivers and always report zero.
    pub fn tap_size(&self, id: TapId) -> (r: usize)
        ensures
            r == 0,
    {
        0
    }
}

} // verus!
