//! Managing named event queues: creation with validated identifiers and a
//! bound on their number, tapping, closing, and clean-up of spent queues.

use vstd::prelude::*;
use vstd::utf8::encode_utf8;
use crate::events::{
    InMemoryEventQueue, QueueConfig, QueueView, QueueError, TapId, Event, EventData, MAX_QUEUE_CAPACITY,
    same_outcome,
};
use crate::error::A2AError;
use crate::text::{owned, concat2, usize_to_decimal, decimal};

verus! {

#[verifier::external_type_specification]
#[verifier::external_body]
pub struct ExInstant(std::time::Instant);

/// The current instant, from `std::time::Instant::now`. Nothing is claimed
/// of it: it is the clock.
#[verifier::external_body]
fn instant_now() -> (r: std::time::Instant) {
    std::time::Instant::now()
}

/// The time passed since `since`, in nanoseconds, from `Instant::elapsed`
/// (read with `Duration::as_nanos`). Nothing is claimed of it: it is the
/// clock.
#[verifier::external_body]
fn elapsed_nanos(since: &std::time::Instant) -> (r: u128) {
    since.elapsed().as_nanos()
}

/// How long after a clean-up the next one is due: one minute, in
/// nanoseconds.
pub const CLEANUP_INTERVAL_NANOS: u128 = 60000000000;

/// Configuration of a queue manager.
#[derive(Debug)]
pub struct QueueManagerConfig {
    pub max_queues: usize,
    pub default_queue_config: QueueConfig,
    pub auto_cleanup: bool,
}

impl Default for QueueManagerConfig {
    fn default() -> (r: Self)
        ensures
            r.max_queues == 1000,
            r.default_queue_config.max_size == crate::events::DEFAULT_MAX_QUEUE_SIZE,
            r.default_queue_config.block_when_full,
            r.default_queue_config.blocking_timeout_ms == Some(5000u64),
            r.auto_cleanup,
    {
        QueueManagerConfig { max_queues: 1000, default_queue_config: Default::default(), auto_cleanup: true }
    }
}

/// Errors of queue manager operations.
#[derive(Debug)]
pub enum QueueManagerError {
    QueueNotFound { id: String },
    QueueExists { id: String },
    MaxQueuesReached { max: usize },
    InvalidQueueId { id: String },
}

impl QueueManagerError {
    /// The text of an error, as its `Display` impl writes it.
    pub open spec fn spec_text(&self) -> Seq<char> {
        match self {
            QueueManagerError::QueueNotFound { id } => "Queue not found: "@ + id@,
            QueueManagerError::QueueExists { id } => "Queue already exists: "@ + id@,
            QueueManagerError::MaxQueuesReached { max } => "Maximum number of queues reached: "@ + decimal(*max as nat),
            QueueManagerError::InvalidQueueId { id } => "Invalid queue ID: "@ + id@,
        }
    }

    /// The text of this error.
    pub fn to_string(&self) -> (r: String)
        ensures
            r@ == self.spec_text(),
    {
        match self {
            QueueManagerError::QueueNotFound { id } => concat2("Queue not found: ", id.as_str()),
            QueueManagerError::QueueExists { id } => concat2("Queue already exists: ", id.as_str()),
            QueueManagerError::MaxQueuesReached { max } => {
                let n = usize_to_decimal(*max);
                concat2("Maximum number of queues reached: ", n.as_str())
            },
            QueueManagerError::InvalidQueueId { id } => concat2("Invalid queue ID: ", id.as_str()),
        }
    }

    /// The protocol error this error becomes: an internal error whose
    /// message is the text of this error.
    pub fn to_a2a_error(&self) -> (r: A2AError)
        ensures
            r matches A2AError::Internal(m) && m@ == self.spec_text(),
    {
        let text = self.to_string();
        A2AError::internal(text.as_str())
    }
}

/// A queue identifier is valid when it is non-empty, holds no '/', '\\' or
/// NUL character, and its UTF-8 encoding is at most 255 bytes long.
pub open spec fn valid_queue_id(id: Seq<char>) -> bool {
    &&& id.len() > 0
    &&& !id.contains('/')
    &&& !id.contains('\\')
    &&& !id.contains('\0')
    &&& encode_utf8(id).len() <= 255
}

fn contains_char(s: &str, c: char) -> (r: bool)
    ensures
        r == s@.contains(c),
{
    let n = s.unicode_len();
    let mut i: usize = 0;
    while i < n
        invariant
            n == s@.len(),
            i <= n,
            forall|j: int| 0 <= j < i ==> s@[j] != c,
        decreases n - i,
    {
        if s.get_char(i) == c {
            return true;
        }
        i = i + 1;
    }
    false
}

/// Checks a queue identifier.
pub fn validate_queue_id(id: &str) -> (r: Result<(), QueueManagerError>)
    ensures
        r is Ok <==> valid_queue_id(id@),
        r matches Err(e) ==> e matches QueueManagerError::InvalidQueueId { id: x } && x@ == id@,
{
    if id.unicode_len() == 0 {
        return Err(QueueManagerError::InvalidQueueId { id: owned(id) });
    }
    if contains_char(id, '/') || contains_char(id, '\\') || contains_char(id, '\0') {
        return Err(QueueManagerError::InvalidQueueId { id: owned(id) });
    }
    if utf8_len_exceeds(id, 255) {
        return Err(QueueManagerError::InvalidQueueId { id: owned(id) });
    }
    Ok(())
}

/// The number of bytes of the UTF-8 encoding of `c`.
fn utf8_width(c: char) -> (r: usize)
    ensures
        r == vstd::utf8::encode_scalar(c as u32).len(),
{
    proof {
        vstd::utf8::char_is_scalar(c);
    }
    let v = c as u32;
    if v <= 0x7F {
        1
    } else if v <= 0x7FF {
        2
    } else if v <= 0xFFFF {
        3
    } else {
        4
    }
}

/// Whether the UTF-8 encoding of `s` is longer than `limit` bytes.
fn utf8_len_exceeds(s: &str, limit: usize) -> (r: bool)
    requires
        limit <= 1024,
    ensures
        r == (encode_utf8(s@).len() > limit),
{
    let n = s.unicode_len();
    let mut i: usize = 0;
    let mut total: usize = 0;
    assert(s@.skip(0) =~= s@);
    while i < n
        invariant
            n == s@.len(),
            i <= n,
            total <= limit,
            limit <= 1024,
            total + encode_utf8(s@.skip(i as int)).len() == encode_utf8(s@).len(),
        decreases n - i,
    {
        let c = s.get_char(i);
        let w = utf8_width(c);
        proof {
            assert(s@.skip(i as int)[0] == c);
            assert(s@.skip(i as int).drop_first() =~= s@.skip(i + 1));
        }
        total = total + w;
        i = i + 1;
        if total > limit {
            return true;
        }
    }
    proof {
        assert(s@.skip(i as int).len() == 0);
    }
    false
}

/// The queues of a list of named queues.
pub open spec fn queues_map(s: Seq<(String, InMemoryEventQueue)>) -> Map<Seq<char>, QueueView>
    decreases s.len(),
{
    if s.len() == 0 {
        Map::empty()
    } else {
        queues_map(s.drop_last()).insert(s.last().0@, s.last().1@)
    }
}

/// No name occurs twice.
pub open spec fn names_distinct(s: Seq<(String, InMemoryEventQueue)>) -> bool {
    forall|i: int, j: int| 0 <= i < j < s.len() ==> s[i].0@ != s[j].0@
}

proof fn lemma_queues_map_dom(s: Seq<(String, InMemoryEventQueue)>, k: Seq<char>)
    ensures
        queues_map(s).contains_key(k) <==> exists|i: int| 0 <= i < s.len() && s[i].0@ == k,
    decreases s.len(),
{
    if s.len() > 0 {
        lemma_queues_map_dom(s.drop_last(), k);
        if queues_map(s).contains_key(k) && s.last().0@ != k {
            let i = choose|i: int| 0 <= i < s.len() - 1 && s.drop_last()[i].0@ == k;
            assert(s[i].0@ == k);
        }
        if exists|i: int| 0 <= i < s.len() && s[i].0@ == k {
            let i = choose|i: int| 0 <= i < s.len() && s[i].0@ == k;
            if i < s.len() - 1 {
                assert(s.drop_last()[i].0@ == k);
            }
        }
    }
}

proof fn lemma_queues_map_at(s: Seq<(String, InMemoryEventQueue)>, i: int)
    requires
        names_distinct(s),
        0 <= i < s.len(),
    ensures
        queues_map(s).contains_key(s[i].0@),
        queues_map(s)[s[i].0@] == s[i].1@,
    decreases s.len(),
{
    if i < s.len() - 1 {
        lemma_queues_map_at(s.drop_last(), i);
    }
}

proof fn lemma_queues_map_update(s: Seq<(String, InMemoryEventQueue)>, i: int, e: (String, InMemoryEventQueue))
    requires
        names_distinct(s),
        0 <= i < s.len(),
        e.0@ == s[i].0@,
    ensures
        queues_map(s.update(i, e)) == queues_map(s).insert(e.0@, e.1@),
        names_distinct(s.update(i, e)),
    decreases s.len(),
{
    let s2 = s.update(i, e);
    if i == s.len() - 1 {
        assert(s2.drop_last() =~= s.drop_last());
        lemma_queues_map_dom(s.drop_last(), e.0@);
    } else {
        lemma_queues_map_update(s.drop_last(), i, e);
        assert(s2.drop_last() =~= s.drop_last().update(i, e));
    }
    assert(queues_map(s2) =~= queues_map(s).insert(e.0@, e.1@));
    assert forall|a: int, b: int| 0 <= a < b < s2.len() implies s2[a].0@ != s2[b].0@ by {
        assert(s2[a].0@ == s[a].0@);
        assert(s2[b].0@ == s[b].0@);
    }
}

proof fn lemma_queues_map_remove(s: Seq<(String, InMemoryEventQueue)>, i: int)
    requires
        names_distinct(s),
        0 <= i < s.len(),
    ensures
        queues_map(s.remove(i)) == queues_map(s).remove(s[i].0@),
        names_distinct(s.remove(i)),
    decreases s.len(),
{
    let s2 = s.remove(i);
    if i == s.len() - 1 {
        assert(s2 =~= s.drop_last());
        lemma_queues_map_dom(s.drop_last(), s[i].0@);
        assert(queues_map(s2) =~= queues_map(s).remove(s[i].0@));
    } else {
        lemma_queues_map_remove(s.drop_last(), i);
        assert(s2.drop_last() =~= s.drop_last().remove(i));
        assert(s2.last() == s.last());
        assert(queues_map(s2) =~= queues_map(s).remove(s[i].0@));
    }
}

proof fn lemma_queues_map_len(s: Seq<(String, InMemoryEventQueue)>)
    requires
        names_distinct(s),
    ensures
        queues_map(s).dom().finite(),
        queues_map(s).dom().len() == s.len(),
    decreases s.len(),
{
    if s.len() > 0 {
        lemma_queues_map_len(s.drop_last());
        lemma_queues_map_dom(s.drop_last(), s.last().0@);
    }
}

/// The abstract state of a queue manager.
pub struct ManagerView {
    pub queues: Map<Seq<char>, QueueView>,
    pub max_queues: nat,
    pub queue_max_size: nat,
    pub auto_cleanup: bool,
}

/// Why creating a queue failed.
pub enum CreateFailure {
    InvalidId,
    InvalidSize,
    MaxQueuesReached,
    Exists,
}

impl ManagerView {
    /// The state of a new queue.
    pub open spec fn fresh_queue(self) -> QueueView {
        QueueView {
            events: Seq::empty(),
            max_size: self.queue_max_size,
            closed: false,
            taps: Seq::empty(),
        }
    }

    /// Creating a queue named `id`: the identifier is checked, then the queue
    /// configuration, then the bound on the number of queues, then that the
    /// name is free.
    pub open spec fn create(self, id: Seq<char>) -> (ManagerView, Result<(), CreateFailure>) {
        if !valid_queue_id(id) {
            (self, Err(CreateFailure::InvalidId))
        } else if self.queue_max_size == 0 {
            (self, Err(CreateFailure::InvalidSize))
        } else if self.queues.dom().len() >= self.max_queues {
            (self, Err(CreateFailure::MaxQueuesReached))
        } else if self.queues.contains_key(id) {
            (self, Err(CreateFailure::Exists))
        } else {
            (ManagerView { queues: self.queues.insert(id, self.fresh_queue()), ..self }, Ok(()))
        }
    }

    /// Removing the queues that are closed and empty.
    pub open spec fn cleaned(self) -> ManagerView {
        ManagerView {
            queues: Map::new(
                |k: Seq<char>| self.queues.contains_key(k) && keeps(self.queues[k]),
                |k: Seq<char>| self.queues[k],
            ),
            ..self
        }
    }

    /// The state before an operation that may clean up first: clean-up
    /// happens only when it is enabled and `due`.
    pub open spec fn maybe_cleaned(self, due: bool) -> ManagerView {
        if self.auto_cleanup && due {
            self.cleaned()
        } else {
            self
        }
    }
}

/// The message of a failed creation of the queue `id`.
pub open spec fn create_failure_text(f: CreateFailure, id: Seq<char>, max_queues: nat, queue_max_size: usize) -> Seq<char> {
    match f {
        CreateFailure::InvalidId => "Invalid queue ID: "@ + id,
        CreateFailure::InvalidSize => (QueueError::InvalidSize { size: queue_max_size }).spec_text(),
        CreateFailure::MaxQueuesReached => "Maximum number of queues reached: "@ + decimal(max_queues),
        CreateFailure::Exists => "Queue already exists: "@ + id,
    }
}

/// What a managed queue handle refers to.
pub enum ManagedQueue {
    /// The queue itself, newly created.
    Primary,
    /// A tap of an existing queue.
    Tap(TapId),
}

/// Closing each queue of a list closes each queue of its map.
proof fn lemma_queues_map_closed(s: Seq<(String, InMemoryEventQueue)>, t: Seq<(String, InMemoryEventQueue)>)
    requires
        s.len() == t.len(),
        names_distinct(s),
        forall|j: int| 0 <= j < s.len() ==> (#[trigger] t[j]).0 == s[j].0 && t[j].1@ == s[j].1@.close(false),
    ensures
        names_distinct(t),
        queues_map(t) == queues_map(s).map_values(|q: QueueView| q.close(false)),
    decreases s.len(),
{
    if s.len() > 0 {
        let s0 = s.drop_last();
        let t0 = t.drop_last();
        assert forall|j: int| 0 <= j < s0.len() implies (#[trigger] t0[j]).0 == s0[j].0 && t0[j].1@ == s0[j].1@.close(false) by {
            assert(t0[j] == t[j] && s0[j] == s[j]);
        }
        lemma_queues_map_closed(s0, t0);
        assert(t.last().0 == s.last().0);
        assert(queues_map(t) =~= queues_map(s).map_values(|q: QueueView| q.close(false)));
    }
}

/// The queues, each closed without discarding its waiting events (and
/// with its taps closed), in the same order and under the same names.
fn close_each(queues: Vec<(String, InMemoryEventQueue)>) -> (r: Vec<(String, InMemoryEventQueue)>)
    requires
        forall|j: int| 0 <= j < queues@.len() ==> (#[trigger] queues@[j]).1.wf(),
    ensures
        r@.len() == queues@.len(),
        forall|j: int| 0 <= j < r@.len() ==> {
            &&& (#[trigger] r@[j]).0 == queues@[j].0
            &&& r@[j].1.wf()
            &&& r@[j].1@ == queues@[j].1@.close(false)
            &&& r@[j].1@.closed
        },
{
    let mut queues = queues;
    let ghost orig = queues@;
    let mut out: Vec<(String, InMemoryEventQueue)> = Vec::new();
    while queues.len() > 0
        invariant
            out@.len() + queues@.len() == orig.len(),
            forall|j: int| 0 <= j < queues@.len() ==> #[trigger] queues@[j] == orig[out@.len() + j],
            forall|j: int| 0 <= j < orig.len() ==> (#[trigger] orig[j]).1.wf(),
            forall|j: int| 0 <= j < out@.len() ==> {
                &&& (#[trigger] out@[j]).0 == orig[j].0
                &&& out@[j].1.wf()
                &&& out@[j].1@ == orig[j].1@.close(false)
                &&& out@[j].1@.closed
            },
        decreases queues@.len(),
    {
        let ghost k = out@.len() as int;
        let ghost before = queues@;
        let (name, mut q) = queues.remove(0);
        assert(before[0] == orig[k]);
        assert forall|j: int| 0 <= j < queues@.len() implies #[trigger] queues@[j] == orig[out@.len() + 1 + j] by {
            assert(queues@[j] == before[j + 1]);
        }
        let _ = q.close(false);
        out.push((name, q));
    }
    out
}

/// An in-memory manager of named event queues.
pub struct InMemoryQueueManager {
    queues: Vec<(String, InMemoryEventQueue)>,
    config: QueueManagerConfig,
    last_cleanup: std::time::Instant,
}

impl InMemoryQueueManager {
    /// The abstract state of the manager.
    pub closed spec fn view(&self) -> ManagerView {
        ManagerView {
            queues: queues_map(self.queues@),
            max_queues: self.config.max_queues as nat,
            queue_max_size: self.config.default_queue_config.max_size as nat,
            auto_cleanup: self.config.auto_cleanup,
        }
    }

    /// The configuration of new queues.
    pub closed spec fn queue_config(&self) -> QueueConfig {
        self.config.default_queue_config
    }

    /// The invariant: names are distinct and every queue is well formed.
    pub closed spec fn wf(&self) -> bool {
        &&& names_distinct(self.queues@)
        &&& forall|i: int| 0 <= i < self.queues@.len() ==> (#[trigger] self.queues@[i]).1.wf()
        &&& self.config.default_queue_config.max_size <= MAX_QUEUE_CAPACITY
    }

    /// A manager with the default configuration.
    pub fn new() -> (r: Result<Self, A2AError>)
        ensures
            r matches Ok(m) && m.wf() && m@ == (ManagerView {
                queues: Map::empty(),
                max_queues: 1000,
                queue_max_size: crate::events::DEFAULT_MAX_QUEUE_SIZE as nat,
                auto_cleanup: true,
            }),
            r matches Ok(m) && m.queue_config().block_when_full && m.queue_config().blocking_timeout_ms == Some(5000u64),
    {
        Self::with_config(Default::default())
    }

    /// A manager with the given configuration, holding no queue.
    pub fn with_config(config: QueueManagerConfig) -> (r: Result<Self, A2AError>)
        requires
            config.default_queue_config.max_size <= MAX_QUEUE_CAPACITY,
        ensures
            r matches Ok(m) && m.wf() && m@ == (ManagerView {
                queues: Map::empty(),
                max_queues: config.max_queues as nat,
                queue_max_size: config.default_queue_config.max_size as nat,
                auto_cleanup: config.auto_cleanup,
            }),
            r matches Ok(m) && m.queue_config() == config.default_queue_config,
    {
        let m = InMemoryQueueManager { queues: Vec::new(), config, last_cleanup: instant_now() };
        assert(m@.queues =~= Map::<Seq<char>, QueueView>::empty());
        Ok(m)
    }

    fn find(&self, id: &str) -> (r: Option<usize>)
        requires
            self.wf(),
        ensures
            r is Some <==> self@.queues.contains_key(id@),
            r matches Some(i) ==> i < self.queues@.len() && self.queues@[i as int].0@ == id@,
    {
        let mut i: usize = 0;
        while i < self.queues.len()
            invariant
                i <= self.queues@.len(),
                forall|j: int| 0 <= j < i ==> self.queues@[j].0@ != id@,
            decreases self.queues@.len() - i,
        {
            if crate::text::str_eq(self.queues[i].0.as_str(), id) {
                proof {
                    lemma_queues_map_dom(self.queues@, id@);
                }
                return Some(i);
            }
            i = i + 1;
        }
        proof {
            lemma_queues_map_dom(self.queues@, id@);
        }
        None
    }

    /// Removes the queues that are closed and empty, and notes the time.
    fn cleanup_empty_queues(&mut self)
        requires
            old(self).wf(),
        ensures
            final(self).wf(),
            final(self)@ == old(self)@.cleaned(),
            final(self).queue_config() == old(self).queue_config(),
    {
        let mut kept: Vec<(String, InMemoryEventQueue)> = Vec::new();
        let mut rest: Vec<(String, InMemoryEventQueue)> = Vec::new();
        std::mem::swap(&mut rest, &mut self.queues);
        let ghost all = rest@;
        let mut i: usize = 0;
        assert(all.len() == rest.len());
        while rest.len() > 0
            invariant
                all.len() <= usize::MAX,
                names_distinct(all),
                forall|j: int| 0 <= j < all.len() ==> (#[trigger] all[j]).1.wf(),
                i <= all.len(),
                rest@ =~= all.skip(i as int),
                kept@ == kept_entries(all.take(i as int)),
            decreases rest@.len(),
        {
            let e = rest.remove(0);
            assert(e == all[i as int]);
            if !(e.1.is_closed() && e.1.size() == 0) {
                kept.push(e);
            }
            proof {
                assert(all.take(i + 1).drop_last() =~= all.take(i as int));
                assert(all.take(i + 1).last() == all[i as int]);
            }
            i = i + 1;
        }
        proof {
            assert(all.take(i as int) =~= all);
            lemma_kept_entries(all);
        }
        self.queues = kept;
        self.last_cleanup = instant_now();
    }

    /// Cleans up when clean-up is enabled and the last one is over a minute old.
    fn cleanup_if_needed(&mut self)
        requires
            old(self).wf(),
        ensures
            final(self).wf(),
            exists|due: bool| final(self)@ == old(self)@.maybe_cleaned(due),
            final(self).queue_config() == old(self).queue_config(),
    {
        if !self.config.auto_cleanup {
            assert(self@ == old(self)@.maybe_cleaned(false));
            return;
        }
        let due = elapsed_nanos(&self.last_cleanup) > CLEANUP_INTERVAL_NANOS;
        if due {
            self.cleanup_empty_queues();
            assert(self@ == old(self)@.maybe_cleaned(true));
        } else {
            assert(self@ == old(self)@.maybe_cleaned(false));
        }
    }

    fn create_queue_internal(&mut self, id: &str) -> (r: Result<(), A2AError>)
        requires
            old(self).wf(),
        ensures
            final(self).wf(),
            final(self)@ == old(self)@.create(id@).0,
            final(self).queue_config() == old(self).queue_config(),
            r is Ok <==> old(self)@.create(id@).1 is Ok,
            r matches Err(A2AError::Internal(m)) && old(self)@.create(id@).1 matches Err(f)
                && m@ == create_failure_text(f, id@, old(self)@.max_queues, old(self).queue_config().max_size)
                || r is Ok,
    {
        if let Err(e) = validate_queue_id(id) {
            return Err(e.to_a2a_error());
        }
        let queue = match InMemoryEventQueue::with_config(self.config.default_queue_config.clone()) {
            Ok(q) => q,
            Err(e) => return Err(e),
        };
        proof {
            lemma_queues_map_len(self.queues@);
        }
        if self.queues.len() >= self.config.max_queues {
            let e = QueueManagerError::MaxQueuesReached { max: self.config.max_queues };
            return Err(e.to_a2a_error());
        }
        if self.find(id).is_some() {
            let e = QueueManagerError::QueueExists { id: owned(id) };
            return Err(e.to_a2a_error());
        }
        let ghost before = self.queues@;
        self.queues.push((owned(id), queue));
        proof {
            assert(self.queues@.drop_last() =~= before);
            assert forall|a: int, b: int| 0 <= a < b < self.queues@.len() implies
                self.queues@[a].0@ != self.queues@[b].0@ by {
                if b == before.len() {
                    lemma_queues_map_dom(before, id@);
                }
            }
            assert(queues_map(self.queues@) =~= queues_map(before).insert(id@, old(self)@.fresh_queue()));
        }
        Ok(())
    }

    /// Creates the queue `id`, after the periodic clean-up.
    pub fn create_queue(&mut self, id: &str) -> (r: Result<(), A2AError>)
        requires
            old(self).wf(),
        ensures
            final(self).wf(),
            final(self).queue_config() == old(self).queue_config(),
            exists|due: bool| {
                let pre = #[trigger] old(self)@.maybe_cleaned(due);
                &&& final(self)@ == pre.create(id@).0
                &&& (r is Ok <==> pre.create(id@).1 is Ok)
                &&& (r is Ok || (r matches Err(A2AError::Internal(m)) && pre.create(id@).1 matches Err(f)
                    && m@ == create_failure_text(f, id@, pre.max_queues, old(self).queue_config().max_size)))
            },
    {
        self.cleanup_if_needed();
        let ghost mid = self@;
        let r = self.create_queue_internal(id);
        proof {
            let due = choose|due: bool| mid == old(self)@.maybe_cleaned(due);
            assert(old(self)@.maybe_cleaned(due) == mid);
        }
        r
    }

    /// Taps the queue `id` if it exists, else creates it.
    pub fn create_or_tap(&mut self, id: &str) -> (r: Result<ManagedQueue, A2AError>)
        requires
            old(self).wf(),
        ensures
            final(self).wf(),
            final(self).queue_config() == old(self).queue_config(),
            exists|due: bool| {
                let pre = #[trigger] old(self)@.maybe_cleaned(due);
                if !valid_queue_id(id@) {
                    final(self)@ == pre && (r matches Err(A2AError::Internal(m)) && m@ == "Invalid queue ID: "@ + id@)
                } else if pre.queues.contains_key(id@) {
                    &&& final(self)@ == (ManagerView { queues: pre.queues.insert(id@, pre.queues[id@].tap()), ..pre })
                    &&& r matches Ok(ManagedQueue::Tap(t)) && t.index == pre.queues[id@].taps.len()
                } else {
                    &&& final(self)@ == pre.create(id@).0
                    &&& (r is Ok <==> pre.create(id@).1 is Ok)
                    &&& (r matches Ok(h) ==> h is Primary)
                    &&& (r is Ok || (r matches Err(A2AError::Internal(m)) && pre.create(id@).1 matches Err(f)
                        && m@ == create_failure_text(f, id@, pre.max_queues, old(self).queue_config().max_size)))
                }
            },
    {
        self.cleanup_if_needed();
        let ghost mid = self@;
        let r = if let Err(e) = validate_queue_id(id) {
            Err(e.to_a2a_error())
        } else {
            match self.find(id) {
                Some(i) => {
                    proof {
                        lemma_queues_map_at(self.queues@, i as int);
                    }
                    let t = self.tap_at(i);
                    Ok(ManagedQueue::Tap(t))
                },
                None => match self.create_queue_internal(id) {
                    Ok(()) => Ok(ManagedQueue::Primary),
                    Err(e) => Err(e),
                },
            }
        };
        proof {
            let due = choose|due: bool| mid == old(self)@.maybe_cleaned(due);
            assert(old(self)@.maybe_cleaned(due) == mid);
        }
        r
    }

    fn tap_at(&mut self, i: usize) -> (t: TapId)
        requires
            old(self).wf(),
            i < old(self).queues@.len(),
        ensures
            final(self).wf(),
            final(self).queue_config() == old(self).queue_config(),
            final(self)@ == (ManagerView {
                queues: old(self)@.queues.insert(old(self).queues@[i as int].0@, old(self).queues@[i as int].1@.tap()),
                ..old(self)@
            }),
            t.index == old(self).queues@[i as int].1@.taps.len(),
    {
        let ghost before = self.queues@;
        let entry = &mut self.queues[i];
        let t = entry.1.tap();
        proof {
            lemma_queues_map_update(before, i as int, self.queues@[i as int]);
            assert(self.queues@ =~= before.update(i as int, self.queues@[i as int]));
            lemma_queues_map_at(before, i as int);
            assert forall|j: int| 0 <= j < self.queues@.len() implies (#[trigger] self.queues@[j]).1.wf() by {
                if j != i {
                    assert(self.queues@[j] == before[j]);
                }
            }
        }
        t
    }

    /// A tap of the queue `id`, or `None` when there is no such queue.
    pub fn tap(&mut self, id: &str) -> (r: Result<Option<TapId>, A2AError>)
        requires
            old(self).wf(),
        ensures
            final(self).wf(),
            final(self).queue_config() == old(self).queue_config(),
            !valid_queue_id(id@) ==> (final(self)@ == old(self)@
                && (r matches Err(A2AError::Internal(m)) && m@ == "Invalid queue ID: "@ + id@)),
            valid_queue_id(id@) && !old(self)@.queues.contains_key(id@) ==> (final(self)@ == old(self)@
                && (r matches Ok(None))),
            valid_queue_id(id@) && old(self)@.queues.contains_key(id@) ==> (
                final(self)@ == (ManagerView { queues: old(self)@.queues.insert(id@, old(self)@.queues[id@].tap()), ..old(self)@ })
                && (r matches Ok(Some(t)) && t.index == old(self)@.queues[id@].taps.len())),
    {
        if let Err(e) = validate_queue_id(id) {
            return Err(e.to_a2a_error());
        }
        match self.find(id) {
            Some(i) => {
                proof {
                    lemma_queues_map_at(self.queues@, i as int);
                }
                Ok(Some(self.tap_at(i)))
            },
            None => Ok(None),
        }
    }

    /// Removes the queue `id` and closes it (keeping its waiting events);
    /// the closed queue is handed back.
    pub fn close(&mut self, id: &str) -> (r: Result<InMemoryEventQueue, A2AError>)
        requires
            old(self).wf(),
        ensures
            final(self).wf(),
            final(self).queue_config() == old(self).queue_config(),
            !valid_queue_id(id@) ==> (final(self)@ == old(self)@
                && (r matches Err(A2AError::Internal(m)) && m@ == "Invalid queue ID: "@ + id@)),
            valid_queue_id(id@) && !old(self)@.queues.contains_key(id@) ==> (final(self)@ == old(self)@
                && (r matches Err(A2AError::Internal(m)) && m@ == "Queue not found: "@ + id@)),
            valid_queue_id(id@) && old(self)@.queues.contains_key(id@) ==> (
                final(self)@ == (ManagerView { queues: old(self)@.queues.remove(id@), ..old(self)@ })
                && (r matches Ok(q) && q.wf() && q@ == old(self)@.queues[id@].close(false))),
    {
        if let Err(e) = validate_queue_id(id) {
            return Err(e.to_a2a_error());
        }
        match self.find(id) {
            Some(i) => {
                let ghost before = self.queues@;
                proof {
                    lemma_queues_map_at(before, i as int);
                    lemma_queues_map_remove(before, i as int);
                }
                let (_, mut q) = self.queues.remove(i);
                proof {
                    assert forall|j: int| 0 <= j < self.queues@.len() implies (#[trigger] self.queues@[j]).1.wf() by {
                        if j < i {
                            assert(self.queues@[j] == before[j]);
                        } else {
                            assert(self.queues@[j] == before[j + 1]);
                        }
                    }
                }
                let _ = q.close(false);
                Ok(q)
            },
            None => {
                let e = QueueManagerError::QueueNotFound { id: owned(id) };
                Err(e.to_a2a_error())
            },
        }
    }

    /// Removes and closes every queue (keeping their waiting events); the
    /// closed queues are handed back, each under its name.
    pub fn close_all(&mut self) -> (r: Result<Vec<(String, InMemoryEventQueue)>, A2AError>)
        requires
            old(self).wf(),
        ensures
            final(self).wf(),
            final(self).queue_config() == old(self).queue_config(),
            final(self)@ == (ManagerView { queues: Map::empty(), ..old(self)@ }),
            r matches Ok(v) && names_distinct(v@)
                && queues_map(v@) == old(self)@.queues.map_values(|q: QueueView| q.close(false))
                && forall|j: int| 0 <= j < v@.len() ==> (#[trigger] v@[j]).1.wf(),
    {
        let mut queues: Vec<(String, InMemoryEventQueue)> = Vec::new();
        std::mem::swap(&mut queues, &mut self.queues);
        let ghost before = queues@;
        let closed = close_each(queues);
        proof {
            lemma_queues_map_closed(before, closed@);
        }
        assert(self@.queues =~= Map::<Seq<char>, QueueView>::empty());
        Ok(closed)
    }

    /// The number of queues.
    pub fn queue_count(&self) -> (r: usize)
        requires
            self.wf(),
        ensures
            r == self@.queues.dom().len(),
    {
        proof {
            lemma_queues_map_len(self.queues@);
        }
        self.queues.len()
    }

    /// Whether the queue `id` exists.
    pub fn has_queue(&self, id: &str) -> (r: bool)
        requires
            self.wf(),
        ensures
            r == self@.queues.contains_key(id@),
    {
        self.find(id).is_some()
    }

    /// Enqueues an event into the queue `id`.
    pub fn enqueue_event(&mut self, id: &str, event: Event) -> (r: Result<(), A2AError>)
        requires
            old(self).wf(),
        ensures
            final(self).wf(),
            final(self).queue_config() == old(self).queue_config(),
            !old(self)@.queues.contains_key(id@) ==> (final(self)@ == old(self)@
                && (r matches Err(A2AError::Internal(m)) && m@ == "Queue not found: "@ + id@)),
            old(self)@.queues.contains_key(id@) ==> {
                let (q2, out) = old(self)@.queues[id@].enqueue(event.deep_view());
                &&& final(self)@ == (ManagerView { queues: old(self)@.queues.insert(id@, q2), ..old(self)@ })
                &&& (r is Ok <==> out is Ok)
                &&& (out matches Err(e) ==> r matches Err(A2AError::Internal(m)) && m@ == e.spec_text())
            },
    {
        match self.find(id) {
            Some(i) => {
                let ghost before = self.queues@;
                proof {
                    lemma_queues_map_at(before, i as int);
                }
                let entry = &mut self.queues[i];
                let out = entry.1.enqueue_event(event);
                proof {
                    lemma_queues_map_update(before, i as int, self.queues@[i as int]);
                    assert(self.queues@ =~= before.update(i as int, self.queues@[i as int]));
                    assert forall|j: int| 0 <= j < self.queues@.len() implies (#[trigger] self.queues@[j]).1.wf() by {
                        if j != i {
                            assert(self.queues@[j] == before[j]);
                        }
                    }
                }
                match out {
                    Ok(()) => Ok(()),
                    Err(e) => Err(e.to_a2a_error()),
                }
            },
            None => {
                let e = QueueManagerError::QueueNotFound { id: owned(id) };
                Err(e.to_a2a_error())
            },
        }
    }

    /// Reads the oldest event of the queue `id` without waiting.
    pub fn dequeue_event(&mut self, id: &str) -> (r: Result<Event, A2AError>)
        requires
            old(self).wf(),
        ensures
            final(self).wf(),
            final(self).queue_config() == old(self).queue_config(),
            !old(self)@.queues.contains_key(id@) ==> (final(self)@ == old(self)@
                && (r matches Err(A2AError::Internal(m)) && m@ == "Queue not found: "@ + id@)),
            old(self)@.queues.contains_key(id@) ==> {
                let (q2, out) = old(self)@.queues[id@].dequeue();
                &&& final(self)@ == (ManagerView { queues: old(self)@.queues.insert(id@, q2), ..old(self)@ })
                &&& (out matches Ok(d) ==> r matches Ok(e) && e.deep_view() == d)
                &&& (out matches Err(x) ==> r matches Err(A2AError::Internal(m)) && m@ == x.spec_text())
            },
    {
        match self.find(id) {
            Some(i) => {
                let ghost before = self.queues@;
                proof {
                    lemma_queues_map_at(before, i as int);
                }
                let entry = &mut self.queues[i];
                let out = entry.1.dequeue_event(true);
                proof {
                    lemma_queues_map_update(before, i as int, self.queues@[i as int]);
                    assert(self.queues@ =~= before.update(i as int, self.queues@[i as int]));
                    assert forall|j: int| 0 <= j < self.queues@.len() implies (#[trigger] self.queues@[j]).1.wf() by {
                        if j != i {
                            assert(self.queues@[j] == before[j]);
                        }
                    }
                }
                match out {
                    Ok(e) => Ok(e),
                    Err(e) => Err(e.to_a2a_error()),
                }
            },
            None => {
                let e = QueueManagerError::QueueNotFound { id: owned(id) };
                Err(e.to_a2a_error())
            },
        }
    }

    /// Reads the oldest event pending in the tap `tap` of the queue `id`
    /// without waiting; an unknown queue or tap is "Queue not found: {id}".
    pub fn dequeue_tap_event(&mut self, id: &str, tap: TapId) -> (r: Result<Event, A2AError>)
        requires
            old(self).wf(),
        ensures
            final(self).wf(),
            final(self).queue_config() == old(self).queue_config(),
            !(old(self)@.queues.contains_key(id@) && tap.index < old(self)@.queues[id@].taps.len()) ==> (final(self)@
                == old(self)@ && (r matches Err(A2AError::Internal(m)) && m@ == "Queue not found: "@ + id@)),
            old(self)@.queues.contains_key(id@) && tap.index < old(self)@.queues[id@].taps.len() ==> {
                let (q2, out) = old(self)@.queues[id@].dequeue_tap(tap.index as int);
                &&& final(self)@ == (ManagerView { queues: old(self)@.queues.insert(id@, q2), ..old(self)@ })
                &&& (out matches Ok(d) ==> r matches Ok(e) && e.deep_view() == d)
                &&& (out matches Err(x) ==> r matches Err(A2AError::Internal(m)) && m@ == x.spec_text())
            },
    {
        match self.find(id) {
            Some(i) => {
                let ghost before = self.queues@;
                proof {
                    lemma_queues_map_at(before, i as int);
                }
                if tap.index >= self.queues[i].1.tap_count() {
                    let e = QueueManagerError::QueueNotFound { id: owned(id) };
                    return Err(e.to_a2a_error());
                }
                let entry = &mut self.queues[i];
                let out = entry.1.dequeue_tap(tap, true);
                proof {
                    lemma_queues_map_update(before, i as int, self.queues@[i as int]);
                    assert(self.queues@ =~= before.update(i as int, self.queues@[i as int]));
                    assert forall|j: int| 0 <= j < self.queues@.len() implies (#[trigger] self.queues@[j]).1.wf() by {
                        if j != i {
                            assert(self.queues@[j] == before[j]);
                        }
                    }
                }
                match out {
                    Ok(e) => Ok(e),
                    Err(e) => Err(e.to_a2a_error()),
                }
            },
            None => {
                let e = QueueManagerError::QueueNotFound { id: owned(id) };
                Err(e.to_a2a_error())
            },
        }
    }

    /// The size of the queue `id`, if it exists.
    pub fn queue_size(&self, id: &str) -> (r: Option<usize>)
        requires
            self.wf(),
        ensures
            r is Some == self@.queues.contains_key(id@),
            r matches Some(n) ==> n == self@.queues[id@].events.len(),
    {
        match self.find(id) {
            Some(i) => {
                proof {
                    lemma_queues_map_at(self.queues@, i as int);
                }
                Some(self.queues[i].1.size())
            },
            None => None,
        }
    }
}

/// A manager never holds more queues than its bound: clean-up only removes
/// queues, and creation refuses once the bound is reached.
pub proof fn law_queue_count_bounded(m: ManagerView, id: Seq<char>, due: bool)
    requires
        m.queues.dom().finite(),
        m.queues.dom().len() <= m.max_queues,
    ensures
        m.maybe_cleaned(due).create(id).0.queues.dom().finite(),
        m.maybe_cleaned(due).create(id).0.queues.dom().len() <= m.max_queues,
{
    let c = m.maybe_cleaned(due);
    assert(c.queues.dom().subset_of(m.queues.dom()));
    vstd::set_lib::lemma_len_subset(c.queues.dom(), m.queues.dom());
    if c.create(id).1 is Ok {
        assert(!c.queues.dom().contains(id));
        assert(c.create(id).0.queues.dom() =~= c.queues.dom().insert(id));
    }
}

/// A queue that was created is there afterwards, empty and open, and no
/// other name appears or goes.
pub proof fn law_created_queue_present(m: ManagerView, id: Seq<char>, other: Seq<char>)
    requires
        m.create(id).1 is Ok,
    ensures
        m.create(id).0.queues.contains_key(id),
        m.create(id).0.queues[id].events.len() == 0,
        !m.create(id).0.queues[id].closed,
        !m.queues.contains_key(id),
        other != id ==> (m.create(id).0.queues.contains_key(other) <==> m.queues.contains_key(other)),
{
}

/// With a positive queue size, creating a queue is refused exactly when the
/// identifier is invalid, the bound on queues is reached or the name is in
/// use; a refusal changes nothing, and a success adds exactly that queue.
pub proof fn law_create_refusals(m: ManagerView, id: Seq<char>)
    requires
        m.queue_max_size > 0,
    ensures
        m.create(id).1 is Err <==> (!valid_queue_id(id) || m.queues.dom().len() >= m.max_queues
            || m.queues.contains_key(id)),
        m.create(id).1 is Err ==> m.create(id).0 == m,
        m.create(id).1 is Ok ==> m.create(id).0 == (ManagerView { queues: m.queues.insert(id, m.fresh_queue()), ..m }),
{
}

/// Creating a queue under a name already in use is refused and changes
/// nothing.
pub proof fn law_existing_name_refused(m: ManagerView, id: Seq<char>)
    requires
        m.queues.contains_key(id),
    ensures
        m.create(id).1 is Err,
        m.create(id).0 == m,
{
}

/// Clean-up removes exactly the queues that are closed and empty.
pub proof fn law_cleanup_removes_spent(m: ManagerView, k: Seq<char>)
    ensures
        m.cleaned().queues.contains_key(k) <==> (m.queues.contains_key(k) && !(m.queues[k].closed
            && m.queues[k].events.len() == 0)),
        m.cleaned().queues.contains_key(k) ==> m.cleaned().queues[k] == m.queues[k],
{
}

/// Whether clean-up keeps a queue: it goes only when closed and empty.
pub open spec fn keeps(q: QueueView) -> bool {
    !(q.closed && q.events.len() == 0)
}

/// The entries that clean-up keeps, in their order.
pub open spec fn kept_entries(s: Seq<(String, InMemoryEventQueue)>) -> Seq<(String, InMemoryEventQueue)>
    decreases s.len(),
{
    if s.len() == 0 {
        Seq::empty()
    } else {
        let k = kept_entries(s.drop_last());
        if keeps(s.last().1@) {
            k.push(s.last())
        } else {
            k
        }
    }
}

proof fn lemma_kept_entries(s: Seq<(String, InMemoryEventQueue)>)
    requires
        names_distinct(s),
        forall|i: int| 0 <= i < s.len() ==> (#[trigger] s[i]).1.wf(),
    ensures
        names_distinct(kept_entries(s)),
        forall|j: int| 0 <= j < kept_entries(s).len() ==> (#[trigger] kept_entries(s)[j]).1.wf(),
        forall|k: Seq<char>| #[trigger] queues_map(kept_entries(s)).contains_key(k)
            ==> queues_map(s).contains_key(k),
        queues_map(kept_entries(s)) =~= Map::new(
            |k: Seq<char>| queues_map(s).contains_key(k) && keeps(queues_map(s)[k]),
            |k: Seq<char>| queues_map(s)[k],
        ),
    decreases s.len(),
{
    if s.len() > 0 {
        let d = s.drop_last();
        let l = s.last();
        assert forall|i: int| 0 <= i < d.len() implies (#[trigger] d[i]).1.wf() by {
            assert(d[i] == s[i]);
        }
        lemma_kept_entries(d);
        lemma_queues_map_dom(d, l.0@);
        let kd = kept_entries(d);
        if keeps(l.1@) {
            let ks = kept_entries(s);
            assert(ks == kd.push(l));
            assert(ks.drop_last() =~= kd);
            assert forall|a: int, b: int| 0 <= a < b < ks.len() implies ks[a].0@ != ks[b].0@ by {
                if b == kd.len() {
                    lemma_queues_map_dom(kd, ks[a].0@);
                    assert(kd[a] == ks[a]);
                } else {
                    assert(kd[a] == ks[a]);
                    assert(kd[b] == ks[b]);
                }
            }
            assert forall|j: int| 0 <= j < ks.len() implies (#[trigger] ks[j]).1.wf() by {
                if j < kd.len() {
                    assert(kd[j] == ks[j]);
                }
            }
        }
    }
}

} // verus!
