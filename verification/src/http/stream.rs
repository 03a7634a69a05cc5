//! The stream of events that a client follows: stored events in their order, and between them the
//! text of models as it comes in.
//!
//! An [`EventStream`] decides; whoever runs it does what its [`StreamAction`] says and hands back
//! what came of it.

use crate::domain::event::{EventRecord, EventRecordView, SessionEvent, SessionEventView};
use crate::http::events::{
    public_event, told_event, PublicEvent, PublicEventView, TransientModelEvent,
    TransientModelEventView,
};
use crate::number::decimal;
use crate::text_map::{
    kept_is_found, keyed_otherwise, lookup, numbered_above, removed_is_not_found, stored,
    stored_then_found, TextMap,
};
use std::collections::VecDeque;
use vstd::hash_set::StringHashSet;
use vstd::prelude::*;

verus! {

/// How many stored events are read at once.
pub const READ_GLOBAL_BATCH_SIZE: usize = 256;

/// What is sent to those who follow the stream.
#[derive(Clone, Debug, PartialEq)]
pub enum RuntimeStreamEvent {
    /// Text of a model, which is not stored.
    Transient(TransientModelEvent),
    /// An event that was stored.
    Durable(EventRecord),
}

/// The content of a [`RuntimeStreamEvent`].
pub enum RuntimeStreamEventView {
    Transient(TransientModelEventView),
    Durable(EventRecordView),
}

impl DeepView for RuntimeStreamEvent {
    type V = RuntimeStreamEventView;

    open spec fn deep_view(&self) -> RuntimeStreamEventView {
        match self {
            RuntimeStreamEvent::Transient(event) => RuntimeStreamEventView::Transient(
                event.deep_view(),
            ),
            RuntimeStreamEvent::Durable(record) => RuntimeStreamEventView::Durable(
                record.deep_view(),
            ),
        }
    }
}

/// What came of listening.
pub enum Live {
    /// There is no message now.
    Nothing,
    /// A message with its place among the messages.
    Message { sequence: u64, event: RuntimeStreamEvent },
    /// Messages were lost.
    Lagged,
    /// No more messages will come.
    Closed,
}

/// The content of a [`Live`].
pub enum LiveView {
    Nothing,
    Message { sequence: u64, event: RuntimeStreamEventView },
    Lagged,
    Closed,
}

impl DeepView for Live {
    type V = LiveView;

    open spec fn deep_view(&self) -> LiveView {
        match self {
            Live::Nothing => LiveView::Nothing,
            Live::Message { sequence, event } => LiveView::Message {
                sequence: *sequence,
                event: event.deep_view(),
            },
            Live::Lagged => LiveView::Lagged,
            Live::Closed => LiveView::Closed,
        }
    }
}

/// Whether a session belongs to the client.
#[derive(Clone, Copy, PartialEq, Eq, Structural, Debug)]
pub enum Ownership {
    Owned,
    Foreign,
    /// It could not be found out.
    Unknown,
}

/// Where a subscription stands: messages up to `sequence` and stored events up to
/// `durable_position` came before it.
pub struct StreamFence {
    pub sequence: u64,
    pub durable_position: u64,
    /// By session, the position that has to be told before any more text of its model.
    pub retry_barriers: TextMap<u64>,
}

/// The content of a [`StreamFence`].
pub struct StreamFenceView {
    pub sequence: u64,
    pub durable_position: u64,
    pub retry_barriers: Seq<(Seq<char>, u64)>,
}

impl DeepView for StreamFence {
    type V = StreamFenceView;

    open spec fn deep_view(&self) -> StreamFenceView {
        StreamFenceView {
            sequence: self.sequence,
            durable_position: self.durable_position,
            retry_barriers: self.retry_barriers.deep_view(),
        }
    }
}

/// What is to be done next.
#[derive(Clone, Debug, PartialEq)]
pub enum StreamAction {
    /// Decide again, with [`EventStream::advance`].
    Again,
    /// Take a message if there is one, and hand it to [`EventStream::receive`].
    Poll,
    /// Wait for a message, and hand it to [`EventStream::receive`].
    Receive,
    /// Find out whose session an event belongs to, and call [`EventStream::owner_checked`].
    CheckOwner(TransientModelEvent),
    /// Subscribe anew after the last position, and call [`EventStream::resubscribed`].
    Resubscribe,
    /// Go on with [`EventStream::catch_up`].
    CatchUp,
    /// Read stored events after the last position, and call [`EventStream::batch_read`].
    ReadBatch,
    /// Tell text of a model, and decide again.
    TellTransient(TransientModelEvent),
    /// Tell a stored event, and decide again.
    TellDurable(PublicEvent),
    /// Tell that something failed, and end.
    Fail,
    /// End.
    Close,
}

/// The content of a [`StreamAction`].
pub enum StreamActionView {
    Again,
    Poll,
    Receive,
    CheckOwner(TransientModelEventView),
    Resubscribe,
    CatchUp,
    ReadBatch,
    TellTransient(TransientModelEventView),
    TellDurable(PublicEventView),
    Fail,
    Close,
}

impl DeepView for StreamAction {
    type V = StreamActionView;

    open spec fn deep_view(&self) -> StreamActionView {
        match self {
            StreamAction::Again => StreamActionView::Again,
            StreamAction::Poll => StreamActionView::Poll,
            StreamAction::Receive => StreamActionView::Receive,
            StreamAction::CheckOwner(event) => StreamActionView::CheckOwner(event.deep_view()),
            StreamAction::Resubscribe => StreamActionView::Resubscribe,
            StreamAction::CatchUp => StreamActionView::CatchUp,
            StreamAction::ReadBatch => StreamActionView::ReadBatch,
            StreamAction::TellTransient(event) => StreamActionView::TellTransient(
                event.deep_view(),
            ),
            StreamAction::TellDurable(public) => StreamActionView::TellDurable(public.deep_view()),
            StreamAction::Fail => StreamActionView::Fail,
            StreamAction::Close => StreamActionView::Close,
        }
    }
}

/// The state of a stream of events.
pub struct EventStream {
    last_position: u64,
    owned_sessions: StringHashSet,
    skip_through_sequence: u64,
    catch_up_through: u64,
    catch_up_pending: bool,
    retry_barriers: TextMap<u64>,
    blocked_transient: Option<TransientModelEvent>,
    prefer_live: bool,
    batch: VecDeque<EventRecord>,
    batch_was_full: bool,
}

/// The content of an [`EventStream`].
pub struct EventStreamView {
    /// The position of the last stored event that was told or passed over.
    pub last_position: u64,
    /// The sessions that are known to belong to the client.
    pub owned_sessions: Set<Seq<char>>,
    /// Messages up to this one are known already.
    pub skip_through_sequence: u64,
    /// The position up to which stored events are read.
    pub catch_up_through: u64,
    /// Whether stored events may be left to read.
    pub catch_up_pending: bool,
    /// By session, the position that has to be told before any more text of its model.
    pub retry_barriers: Seq<(Seq<char>, u64)>,
    /// Text of a model that waits for stored events.
    pub blocked_transient: Option<TransientModelEventView>,
    /// Whether messages come before stored events.
    pub prefer_live: bool,
    /// Stored events that were read and not told.
    pub batch: Seq<EventRecordView>,
    /// Whether as many events were read as could be.
    pub batch_was_full: bool,
}

impl DeepView for EventStream {
    type V = EventStreamView;

    closed spec fn deep_view(&self) -> EventStreamView {
        EventStreamView {
            last_position: self.last_position,
            owned_sessions: self.owned_sessions@,
            skip_through_sequence: self.skip_through_sequence,
            catch_up_through: self.catch_up_through,
            catch_up_pending: self.catch_up_pending,
            retry_barriers: self.retry_barriers.deep_view(),
            blocked_transient: self.blocked_transient.deep_view(),
            prefer_live: self.prefer_live,
            batch: self.batch.deep_view(),
            batch_was_full: self.batch_was_full,
        }
    }
}

/// Whether a stored event has to be told before any more text of its session's model.
pub open spec fn fences(event: SessionEventView) -> bool {
    event is ModelStepRetryScheduled
}

/// Whether a session waits for a stored event that was not told.
pub open spec fn is_held(stream: EventStreamView, session_id: Seq<char>) -> bool {
    lookup(stream.retry_barriers, session_id) matches Some(position) && position
        > stream.last_position
}

/// A stream that begins after a position.
pub open spec fn opened_stream(
    after: u64,
    fence: StreamFenceView,
    records: Seq<EventRecordView>,
) -> EventStreamView {
    EventStreamView {
        last_position: after,
        owned_sessions: Set::empty(),
        skip_through_sequence: fence.sequence,
        catch_up_through: fence.durable_position,
        catch_up_pending: records.len() > 0,
        retry_barriers: fence.retry_barriers.filter(numbered_above(after)),
        blocked_transient: None,
        prefer_live: true,
        batch: records,
        batch_was_full: records.len() == READ_GLOBAL_BATCH_SIZE,
    }
}

/// The decision at the head of each round. Text that waited is told once its session is free.
/// While stored events are left, messages are looked for only in turn with them.
pub open spec fn advance_step(stream: EventStreamView) -> (EventStreamView, StreamActionView) {
    match stream.blocked_transient {
        Some(event) => if is_held(stream, event.session_id) {
            (stream, StreamActionView::CatchUp)
        } else {
            (
                EventStreamView {
                    blocked_transient: None,
                    retry_barriers: stream.retry_barriers.filter(keyed_otherwise(event.session_id)),
                    prefer_live: false,
                    ..stream
                },
                StreamActionView::TellTransient(event),
            )
        },
        None => if !stream.catch_up_pending {
            (stream, StreamActionView::Receive)
        } else if stream.prefer_live {
            (stream, StreamActionView::Poll)
        } else {
            (stream, StreamActionView::CatchUp)
        },
    }
}

/// Text of a model of a session that belongs to the client: it waits while its session is held.
pub open spec fn transient_step(
    stream: EventStreamView,
    event: TransientModelEventView,
) -> (EventStreamView, StreamActionView) {
    if is_held(stream, event.session_id) {
        (
            EventStreamView { blocked_transient: Some(event), prefer_live: false, ..stream },
            StreamActionView::CatchUp,
        )
    } else {
        (
            EventStreamView { prefer_live: false, ..stream },
            StreamActionView::TellTransient(event),
        )
    }
}

/// News of a stored event: it moves the end of what is to be read, and may hold its session.
pub open spec fn durable_step(
    stream: EventStreamView,
    record: EventRecordView,
) -> (EventStreamView, StreamActionView) {
    if record.global_position <= stream.last_position {
        (stream, StreamActionView::Again)
    } else {
        (
            EventStreamView {
                catch_up_through: if stream.catch_up_through < record.global_position {
                    record.global_position
                } else {
                    stream.catch_up_through
                },
                catch_up_pending: true,
                retry_barriers: if fences(record.event) {
                    stored(stream.retry_barriers, record.stream_id, record.global_position)
                } else {
                    stream.retry_barriers
                },
                ..stream
            },
            StreamActionView::CatchUp,
        )
    }
}

/// What follows on what came of listening.
pub open spec fn receive_step(
    stream: EventStreamView,
    live: LiveView,
) -> (EventStreamView, StreamActionView) {
    match live {
        LiveView::Nothing => (stream, StreamActionView::CatchUp),
        LiveView::Lagged => (stream, StreamActionView::Resubscribe),
        LiveView::Closed => (stream, StreamActionView::Close),
        LiveView::Message { sequence, event } => if sequence <= stream.skip_through_sequence {
            (stream, StreamActionView::Again)
        } else {
            match event {
                RuntimeStreamEventView::Transient(event) => if stream.owned_sessions.contains(
                    event.session_id,
                ) {
                    transient_step(stream, event)
                } else {
                    (stream, StreamActionView::CheckOwner(event))
                },
                RuntimeStreamEventView::Durable(record) => durable_step(stream, record),
            }
        },
    }
}

/// What follows once it is known whose session an event belongs to.
pub open spec fn owner_step(
    stream: EventStreamView,
    event: TransientModelEventView,
    ownership: Ownership,
) -> (EventStreamView, StreamActionView) {
    match ownership {
        Ownership::Owned => transient_step(
            EventStreamView {
                owned_sessions: stream.owned_sessions.insert(event.session_id),
                ..stream
            },
            event,
        ),
        Ownership::Foreign => (stream, StreamActionView::Again),
        Ownership::Unknown => (stream, StreamActionView::Fail),
    }
}

/// What follows on a new subscription, after messages were lost.
pub open spec fn resubscribe_step(
    stream: EventStreamView,
    subscription: Option<(StreamFenceView, Seq<EventRecordView>)>,
) -> (EventStreamView, StreamActionView) {
    match subscription {
        None => (stream, StreamActionView::Fail),
        Some((fence, records)) => (
            EventStreamView {
                last_position: stream.last_position,
                owned_sessions: stream.owned_sessions,
                skip_through_sequence: fence.sequence,
                catch_up_through: if stream.catch_up_through < fence.durable_position {
                    fence.durable_position
                } else {
                    stream.catch_up_through
                },
                catch_up_pending: records.len() > 0,
                retry_barriers: fence.retry_barriers.filter(numbered_above(stream.last_position)),
                blocked_transient: None,
                prefer_live: records.len() == 0,
                batch: records,
                batch_was_full: records.len() == READ_GLOBAL_BATCH_SIZE,
            },
            StreamActionView::CatchUp,
        ),
    }
}

/// The stream once a stored event was passed that had not been told.
pub open spec fn passed(stream: EventStreamView, record: EventRecordView) -> EventStreamView {
    let rest = stream.batch.skip(1);
    let done = record.global_position == stream.catch_up_through || (rest.len() == 0
        && !stream.batch_was_full);
    EventStreamView {
        last_position: record.global_position,
        owned_sessions: stream.owned_sessions.insert(record.stream_id),
        retry_barriers: stream.retry_barriers.filter(numbered_above(record.global_position)),
        catch_up_pending: stream.catch_up_pending && !done,
        prefer_live: true,
        batch: if done {
            Seq::empty()
        } else {
            rest
        },
        ..stream
    }
}

/// The stream after the next stored event that is told, if there is one among those that were
/// read. Events beyond the end of what is to be read stay untold.
pub open spec fn drained(stream: EventStreamView) -> (EventStreamView, Option<PublicEventView>)
    decreases stream.batch.len(),
{
    if stream.batch.len() == 0 {
        (stream, None)
    } else {
        let record = stream.batch[0];
        if record.global_position > stream.catch_up_through {
            (
                EventStreamView {
                    batch: Seq::empty(),
                    catch_up_pending: false,
                    prefer_live: true,
                    ..stream
                },
                None,
            )
        } else if record.global_position <= stream.last_position {
            drained(EventStreamView { batch: stream.batch.skip(1), ..stream })
        } else {
            let next = passed(stream, record);
            if told_event(record) is Some {
                (next, told_event(record))
            } else if !next.catch_up_pending {
                (next, None)
            } else {
                drained(next)
            }
        }
    }
}

/// What follows on the stored events that were read.
pub open spec fn told_step(stream: EventStreamView) -> (EventStreamView, StreamActionView) {
    let (next, told) = drained(stream);
    match told {
        Some(public) => (next, StreamActionView::TellDurable(public)),
        None => (next, StreamActionView::Again),
    }
}

/// The step to stored events.
pub open spec fn catch_up_step(stream: EventStreamView) -> (EventStreamView, StreamActionView) {
    if !stream.catch_up_pending {
        (stream, StreamActionView::Again)
    } else if stream.batch.len() == 0 {
        (stream, StreamActionView::ReadBatch)
    } else {
        told_step(stream)
    }
}

/// What follows on reading stored events.
pub open spec fn batch_step(
    stream: EventStreamView,
    records: Option<Seq<EventRecordView>>,
) -> (EventStreamView, StreamActionView) {
    match records {
        None => (stream, StreamActionView::Fail),
        Some(records) => if records.len() == 0 {
            (
                EventStreamView { catch_up_pending: false, prefer_live: true, ..stream },
                StreamActionView::Again,
            )
        } else {
            told_step(
                EventStreamView {
                    batch: records,
                    batch_was_full: records.len() == READ_GLOBAL_BATCH_SIZE,
                    ..stream
                },
            )
        },
    }
}

fn queue_of(records: Vec<EventRecord>) -> (queue: VecDeque<EventRecord>)
    ensures
        queue.deep_view() == records.deep_view(),
{
    let mut records = records;
    let ghost view = records.deep_view();
    let mut queue: VecDeque<EventRecord> = VecDeque::new();
    assert(queue.deep_view() =~= view.skip(view.len() as int));
    assert(records.deep_view() =~= view.take(view.len() as int));
    while records.len() > 0
        invariant
            records.len() <= view.len(),
            records.deep_view() == view.take(records.len() as int),
            queue.deep_view() == view.skip(records.len() as int),
        decreases records.len(),
    {
        let ghost left = records.len() - 1;
        let ghost last = records.deep_view()[left];
        let ghost before = queue.deep_view();
        if let Some(record) = records.pop() {
            queue.push_front(record);
            assert(queue.deep_view() =~= seq![last] + before);
            assert(records.deep_view() =~= view.take(left));
            assert(seq![last] + before =~= view.skip(left));
        }
    }
    assert(view.skip(0) =~= view);
    queue
}

/// Whether a stored event has to be told before any more text of its session's model.
pub fn durable_fences_following_transient(record: &EventRecord) -> (does: bool)
    ensures
        does == fences(record.deep_view().event),
{
    matches!(&record.event, SessionEvent::ModelStepRetryScheduled { .. })
}

impl EventStream {
    /// A stream that begins after a position, with a subscription and what was stored before it.
    pub fn open(after: Option<u64>, fence: StreamFence, records: Vec<EventRecord>) -> (stream: Self)
        ensures
            stream.deep_view() == opened_stream(
                match after {
                    Some(position) => position,
                    None => 0,
                },
                fence.deep_view(),
                records.deep_view(),
            ),
    {
        let last_position: u64 = match after {
            Some(position) => position,
            None => 0,
        };
        let mut retry_barriers = fence.retry_barriers;
        retry_barriers.keep_above(last_position);
        let length: usize = records.len();
        EventStream {
            last_position,
            owned_sessions: StringHashSet::new(),
            skip_through_sequence: fence.sequence,
            catch_up_through: fence.durable_position,
            catch_up_pending: length > 0,
            retry_barriers,
            blocked_transient: None,
            prefer_live: true,
            batch: queue_of(records),
            batch_was_full: length == READ_GLOBAL_BATCH_SIZE,
        }
    }

    /// The position after which stored events are to be read.
    pub fn last_position(&self) -> (position: u64)
        ensures
            position == self.deep_view().last_position,
    {
        self.last_position
    }

    fn holds(&self, session_id: &str) -> (held: bool)
        ensures
            held == is_held(self.deep_view(), session_id@),
    {
        match self.retry_barriers.get(session_id) {
            Some(position) => *position > self.last_position,
            None => false,
        }
    }

    /// The decision at the head of each round.
    pub fn advance(&mut self) -> (action: StreamAction)
        ensures
            (final(self).deep_view(), action.deep_view()) == advance_step(old(self).deep_view()),
    {
        if let Some(event) = self.blocked_transient.take() {
            if self.holds(&event.session_id) {
                self.blocked_transient = Some(event);
                return StreamAction::CatchUp;
            }
            self.retry_barriers.remove(&event.session_id);
            self.prefer_live = false;
            return StreamAction::TellTransient(event);
        }
        if !self.catch_up_pending {
            StreamAction::Receive
        } else if self.prefer_live {
            StreamAction::Poll
        } else {
            StreamAction::CatchUp
        }
    }

    fn take_transient(&mut self, event: TransientModelEvent) -> (action: StreamAction)
        ensures
            (final(self).deep_view(), action.deep_view()) == transient_step(
                old(self).deep_view(),
                event.deep_view(),
            ),
    {
        self.prefer_live = false;
        if self.holds(&event.session_id) {
            self.blocked_transient = Some(event);
            StreamAction::CatchUp
        } else {
            StreamAction::TellTransient(event)
        }
    }

    fn take_durable(&mut self, record: EventRecord) -> (action: StreamAction)
        ensures
            (final(self).deep_view(), action.deep_view()) == durable_step(
                old(self).deep_view(),
                record.deep_view(),
            ),
    {
        let position: u64 = record.global_position;
        if position <= self.last_position {
            return StreamAction::Again;
        }
        if self.catch_up_through < position {
            self.catch_up_through = position;
        }
        self.catch_up_pending = true;
        if durable_fences_following_transient(&record) {
            self.retry_barriers.insert(record.stream_id, position);
        }
        StreamAction::CatchUp
    }

    /// Takes what came of listening.
    pub fn receive(&mut self, live: Live) -> (action: StreamAction)
        ensures
            (final(self).deep_view(), action.deep_view()) == receive_step(
                old(self).deep_view(),
                live.deep_view(),
            ),
    {
        match live {
            Live::Nothing => StreamAction::CatchUp,
            Live::Lagged => StreamAction::Resubscribe,
            Live::Closed => StreamAction::Close,
            Live::Message { sequence, event } => {
                if sequence <= self.skip_through_sequence {
                    return StreamAction::Again;
                }
                match event {
                    RuntimeStreamEvent::Transient(event) => {
                        if self.owned_sessions.contains(&event.session_id) {
                            self.take_transient(event)
                        } else {
                            StreamAction::CheckOwner(event)
                        }
                    },
                    RuntimeStreamEvent::Durable(record) => self.take_durable(record),
                }
            },
        }
    }

    /// Takes whose session an event belongs to.
    pub fn owner_checked(&mut self, event: TransientModelEvent, ownership: Ownership) -> (action:
        StreamAction)
        ensures
            (final(self).deep_view(), action.deep_view()) == owner_step(
                old(self).deep_view(),
                event.deep_view(),
                ownership,
            ),
    {
        match ownership {
            Ownership::Owned => {
                let _ = self.owned_sessions.insert(event.session_id.clone());
                self.take_transient(event)
            },
            Ownership::Foreign => StreamAction::Again,
            Ownership::Unknown => StreamAction::Fail,
        }
    }

    /// Takes a new subscription and what was stored before it, if there is one.
    pub fn resubscribed(
        &mut self,
        subscription: Option<(StreamFence, Vec<EventRecord>)>,
    ) -> (action: StreamAction)
        ensures
            (final(self).deep_view(), action.deep_view()) == resubscribe_step(
                old(self).deep_view(),
                subscription.deep_view(),
            ),
    {
        match subscription {
            None => StreamAction::Fail,
            Some((fence, records)) => {
                self.skip_through_sequence = fence.sequence;
                if self.catch_up_through < fence.durable_position {
                    self.catch_up_through = fence.durable_position;
                }
                self.retry_barriers = fence.retry_barriers;
                self.retry_barriers.keep_above(self.last_position);
                self.blocked_transient = None;
                self.catch_up_pending = records.len() > 0;
                self.prefer_live = records.len() == 0;
                self.batch_was_full = records.len() == READ_GLOBAL_BATCH_SIZE;
                self.batch = queue_of(records);
                StreamAction::CatchUp
            },
        }
    }

    fn clear_batch(&mut self)
        ensures
            final(self).deep_view() == (EventStreamView {
                batch: Seq::empty(),
                ..old(self).deep_view()
            }),
    {
        self.batch.clear();
        assert(self.batch.deep_view() =~= Seq::empty());
    }

    fn drain(&mut self) -> (told: Option<PublicEvent>)
        ensures
            (final(self).deep_view(), told.deep_view()) == drained(old(self).deep_view()),
    {
        let ghost start = self.deep_view();
        while self.batch.len() > 0
            invariant
                start == old(self).deep_view(),
                drained(self.deep_view()) == drained(start),
            decreases self.batch.len(),
        {
            let ghost before = self.deep_view();
            let record = match self.batch.pop_front() {
                Some(record) => record,
                None => {
                    return None;
                },
            };
            assert(self.batch.deep_view() =~= before.batch.skip(1));
            assert(record.deep_view() == before.batch[0]);
            if record.global_position > self.catch_up_through {
                self.clear_batch();
                self.catch_up_pending = false;
                self.prefer_live = true;
                return None;
            }
            if record.global_position > self.last_position {
                self.last_position = record.global_position;
                let _ = self.owned_sessions.insert(record.stream_id.clone());
                self.retry_barriers.keep_above(self.last_position);
                if self.last_position == self.catch_up_through || (self.batch.len() == 0
                    && !self.batch_was_full) {
                    self.clear_batch();
                    self.catch_up_pending = false;
                }
                self.prefer_live = true;
                assert(self.deep_view() == passed(before, record.deep_view()));
                let told = public_event(&record);
                if told.is_some() {
                    return told;
                }
                if !self.catch_up_pending {
                    return None;
                }
            }
        }
        None
    }

    fn tell(&mut self) -> (action: StreamAction)
        ensures
            (final(self).deep_view(), action.deep_view()) == told_step(old(self).deep_view()),
    {
        match self.drain() {
            Some(public) => StreamAction::TellDurable(public),
            None => StreamAction::Again,
        }
    }

    /// Goes on with stored events.
    pub fn catch_up(&mut self) -> (action: StreamAction)
        ensures
            (final(self).deep_view(), action.deep_view()) == catch_up_step(old(self).deep_view()),
    {
        if !self.catch_up_pending {
            StreamAction::Again
        } else if self.batch.len() == 0 {
            StreamAction::ReadBatch
        } else {
            self.tell()
        }
    }

    /// Takes the stored events that were read, if they could be.
    pub fn batch_read(&mut self, records: Option<Vec<EventRecord>>) -> (action: StreamAction)
        ensures
            (final(self).deep_view(), action.deep_view()) == batch_step(
                old(self).deep_view(),
                records.deep_view(),
            ),
    {
        match records {
            None => StreamAction::Fail,
            Some(records) => {
                if records.len() == 0 {
                    self.catch_up_pending = false;
                    self.prefer_live = true;
                    StreamAction::Again
                } else {
                    self.batch_was_full = records.len() == READ_GLOBAL_BATCH_SIZE;
                    self.batch = queue_of(records);
                    self.tell()
                }
            },
        }
    }
}

/// Whether the text that waits belongs to a session of the client.
pub open spec fn is_sound(stream: EventStreamView) -> bool {
    stream.blocked_transient matches Some(event) ==> stream.owned_sessions.contains(
        event.session_id,
    )
}

/// What is handed to a stream.
pub enum StreamInputView {
    Advance,
    Received(LiveView),
    OwnerChecked(TransientModelEventView, Ownership),
    Resubscribed(Option<(StreamFenceView, Seq<EventRecordView>)>),
    CatchUp,
    BatchRead(Option<Seq<EventRecordView>>),
}

/// The step of a stream on what is handed to it.
pub open spec fn stream_step(stream: EventStreamView, input: StreamInputView) -> (
    EventStreamView,
    StreamActionView,
) {
    match input {
        StreamInputView::Advance => advance_step(stream),
        StreamInputView::Received(live) => receive_step(stream, live),
        StreamInputView::OwnerChecked(event, ownership) => owner_step(stream, event, ownership),
        StreamInputView::Resubscribed(subscription) => resubscribe_step(stream, subscription),
        StreamInputView::CatchUp => catch_up_step(stream),
        StreamInputView::BatchRead(records) => batch_step(stream, records),
    }
}

/// The stream with the events that were handed to it.
pub(crate) open spec fn with_batch(
    stream: EventStreamView,
    input: StreamInputView,
) -> EventStreamView {
    match input {
        StreamInputView::BatchRead(Some(records)) => EventStreamView {
            batch: records,
            batch_was_full: records.len() == READ_GLOBAL_BATCH_SIZE,
            ..stream
        },
        _ => stream,
    }
}

proof fn lemma_drained(stream: EventStreamView)
    requires
        is_sound(stream),
    ensures
        ({
            let (next, told) = drained(stream);
            &&& is_sound(next)
            &&& next.last_position >= stream.last_position
            &&& next.catch_up_through == stream.catch_up_through
            &&& stream.owned_sessions.subset_of(next.owned_sessions)
            &&& told matches Some(public) ==> {
                &&& next.last_position > stream.last_position
                &&& next.last_position <= stream.catch_up_through
                &&& public.id == decimal(next.last_position as nat)
            }
        }),
    decreases stream.batch.len(),
{
    if stream.batch.len() > 0 {
        let record = stream.batch[0];
        if record.global_position > stream.catch_up_through {
        } else if record.global_position <= stream.last_position {
            lemma_drained(EventStreamView { batch: stream.batch.skip(1), ..stream });
        } else {
            let next = passed(stream, record);
            if told_event(record) is None && next.catch_up_pending {
                lemma_drained(next);
            }
        }
    }
}

/// The stream never goes back: its position never falls, a stored event is told at a position
/// beyond all that were told before, under that position as its id, and never beyond the end of
/// what was known to be stored.
pub proof fn stream_never_goes_back(stream: EventStreamView, input: StreamInputView)
    requires
        is_sound(stream),
    ensures
        ({
            let (next, action) = stream_step(stream, input);
            &&& next.last_position >= stream.last_position
            &&& next.catch_up_through >= stream.catch_up_through
            &&& action matches StreamActionView::TellDurable(public) ==> {
                &&& next.last_position > stream.last_position
                &&& next.last_position <= next.catch_up_through
                &&& public.id == decimal(next.last_position as nat)
            }
        }),
{
    lemma_drained(with_batch(stream, input));
}

/// Text of a model is told only of sessions that belong to the client, and only once every stored
/// event that has to come before it was told; text that waits belongs to the client too.
pub proof fn text_is_told_in_its_turn(stream: EventStreamView, input: StreamInputView)
    requires
        is_sound(stream),
    ensures
        ({
            let (next, action) = stream_step(stream, input);
            &&& is_sound(next)
            &&& action matches StreamActionView::TellTransient(event) ==> {
                &&& next.owned_sessions.contains(event.session_id)
                &&& !is_held(stream, event.session_id)
                &&& !is_held(next, event.session_id)
            }
        }),
{
    lemma_drained(with_batch(stream, input));
    if let Some(event) = stream.blocked_transient {
        removed_is_not_found(stream.retry_barriers, event.session_id, event.session_id);
    }
}

/// Whether the positions of stored events ascend.
pub open spec fn in_order(records: Seq<EventRecordView>) -> bool {
    forall|i: int, j: int|
        0 <= i < j < records.len() ==> (#[trigger] records[i]).global_position < (
        #[trigger] records[j]).global_position
}

/// Nothing is passed over: of the events that were read, each that the stream has come past was
/// told now, or is one that is never told, or had been passed before.
pub proof fn nothing_is_passed_over(stream: EventStreamView, index: int)
    requires
        in_order(stream.batch),
        0 <= index < stream.batch.len(),
        stream.last_position < stream.batch[index].global_position
            <= drained(stream).0.last_position,
    ensures
        told_event(stream.batch[index]) is None || (drained(stream).1 == told_event(
            stream.batch[index],
        ) && drained(stream).0.last_position == stream.batch[index].global_position),
    decreases stream.batch.len(),
{
    let record = stream.batch[0];
    let rest = stream.batch.skip(1);
    assert(in_order(rest)) by {
        assert forall|i: int, j: int| 0 <= i < j < rest.len() implies (
        #[trigger] rest[i]).global_position < (#[trigger] rest[j]).global_position by {
            assert(rest[i] == stream.batch[i + 1]);
            assert(rest[j] == stream.batch[j + 1]);
        }
    }
    if record.global_position > stream.catch_up_through {
    } else if record.global_position <= stream.last_position {
        assert(index > 0);
        assert(rest[index - 1] == stream.batch[index]);
        nothing_is_passed_over(EventStreamView { batch: rest, ..stream }, index - 1);
    } else {
        let next = passed(stream, record);
        if told_event(record) is None && next.catch_up_pending && index > 0 {
            assert(next.batch == rest);
            assert(rest[index - 1] == stream.batch[index]);
            nothing_is_passed_over(next, index - 1);
        }
    }
}

/// A session that is held stays held until the stream has come to the event that it waits for:
/// stored events that come before do not free it.
pub proof fn held_session_stays_held(
    stream: EventStreamView,
    record: EventRecordView,
    session_id: Seq<char>,
)
    requires
        lookup(stream.retry_barriers, session_id) matches Some(position) && position
            > record.global_position,
    ensures
        is_held(passed(stream, record), session_id),
{
    kept_is_found(stream.retry_barriers, record.global_position, session_id);
}

/// News of a stored retry holds its session, unless the stream has come past it.
pub proof fn stored_retry_holds_its_session(stream: EventStreamView, record: EventRecordView)
    requires
        fences(record.event),
        record.global_position > stream.last_position,
    ensures
        is_held(durable_step(stream, record).0, record.stream_id),
{
    stored_then_found(
        stream.retry_barriers,
        record.stream_id,
        record.global_position,
        record.stream_id,
    );
}

/// What a stream has told after a number of inputs, each event with its position, and the state
/// that it has come to.
pub open spec fn run(start: EventStreamView, inputs: Seq<StreamInputView>) -> (
    EventStreamView,
    Seq<(u64, PublicEventView)>,
)
    decreases inputs.len(),
{
    if inputs.len() == 0 {
        (start, Seq::empty())
    } else {
        let (before, told) = run(start, inputs.drop_last());
        let (next, action) = stream_step(before, inputs.last());
        match action {
            StreamActionView::TellDurable(public) => (
                next,
                told.push((next.last_position, public)),
            ),
            _ => (next, told),
        }
    }
}

/// Whether all records are accepted.
pub open spec fn all_are(
    records: Seq<EventRecordView>,
    owned: spec_fn(EventRecordView) -> bool,
) -> bool {
    forall|i: int| 0 <= i < records.len() ==> owned(#[trigger] records[i])
}

/// Whether all records that an input hands over are accepted.
pub open spec fn hands_over(
    input: StreamInputView,
    owned: spec_fn(EventRecordView) -> bool,
) -> bool {
    match input {
        StreamInputView::Resubscribed(Some((_, records))) => all_are(records, owned),
        StreamInputView::BatchRead(Some(records)) => all_are(records, owned),
        _ => true,
    }
}

/// Whether what is told at a position is an accepted record that stands there.
pub open spec fn tells_owned(
    told: (u64, PublicEventView),
    owned: spec_fn(EventRecordView) -> bool,
) -> bool {
    exists|record: EventRecordView| #[trigger]
        owned(record) && record.global_position == told.0 && told_event(record) == Some(told.1)
}

proof fn lemma_drained_source(stream: EventStreamView, owned: spec_fn(EventRecordView) -> bool)
    requires
        all_are(stream.batch, owned),
    ensures
        all_are(drained(stream).0.batch, owned),
        drained(stream).1 matches Some(public) ==> tells_owned(
            (drained(stream).0.last_position, public),
            owned,
        ),
    decreases stream.batch.len(),
{
    if stream.batch.len() > 0 {
        let record = stream.batch[0];
        let rest = stream.batch.skip(1);
        assert(owned(record));
        assert(all_are(rest, owned)) by {
            assert forall|i: int| 0 <= i < rest.len() implies owned(#[trigger] rest[i]) by {
                assert(rest[i] == stream.batch[i + 1]);
            }
        }
        if record.global_position > stream.catch_up_through {
        } else if record.global_position <= stream.last_position {
            lemma_drained_source(EventStreamView { batch: rest, ..stream }, owned);
        } else {
            let next = passed(stream, record);
            assert(all_are(next.batch, owned));
            if let Some(public) = told_event(record) {
                assert(tells_owned((next.last_position, public), owned));
            } else if next.catch_up_pending {
                lemma_drained_source(next, owned);
            }
        }
    }
}

pub(crate) proof fn lemma_step_source(
    stream: EventStreamView,
    input: StreamInputView,
    owned: spec_fn(EventRecordView) -> bool,
)
    requires
        all_are(stream.batch, owned),
        hands_over(input, owned),
    ensures
        ({
            let (next, action) = stream_step(stream, input);
            &&& all_are(next.batch, owned)
            &&& action matches StreamActionView::TellDurable(public) ==> tells_owned(
                (next.last_position, public),
                owned,
            )
        }),
{
    lemma_drained_source(with_batch(stream, input), owned);
}

/// Over a whole run the ids that are told rise strictly, all of them above the position that the
/// stream began at, and each belongs to a record that was handed over: where only records of the
/// client are, only those are told.
pub proof fn told_ids_rise(
    start: EventStreamView,
    inputs: Seq<StreamInputView>,
    owned: spec_fn(EventRecordView) -> bool,
)
    requires
        is_sound(start),
        all_are(start.batch, owned),
        forall|i: int| 0 <= i < inputs.len() ==> hands_over(#[trigger] inputs[i], owned),
    ensures
        ({
            let (now, told) = run(start, inputs);
            &&& is_sound(now)
            &&& all_are(now.batch, owned)
            &&& now.last_position >= start.last_position
            &&& forall|i: int|
                0 <= i < told.len() ==> {
                    &&& start.last_position < (#[trigger] told[i]).0 <= now.last_position
                    &&& told[i].1.id == decimal(told[i].0 as nat)
                    &&& tells_owned(told[i], owned)
                }
            &&& forall|i: int, j: int|
                0 <= i < j < told.len() ==> (#[trigger] told[i]).0 < (#[trigger] told[j]).0
        }),
    decreases inputs.len(),
{
    if inputs.len() > 0 {
        let earlier = inputs.drop_last();
        assert forall|i: int| 0 <= i < earlier.len() implies hands_over(
            #[trigger] earlier[i],
            owned,
        ) by {
            assert(earlier[i] == inputs[i]);
        }
        told_ids_rise(start, earlier, owned);
        let (before, told) = run(start, earlier);
        let input = inputs.last();
        assert(inputs[inputs.len() - 1] == input);
        stream_never_goes_back(before, input);
        text_is_told_in_its_turn(before, input);
        lemma_step_source(before, input, owned);
        let (now, all) = run(start, inputs);
        assert forall|i: int| 0 <= i < all.len() implies {
            &&& start.last_position < (#[trigger] all[i]).0 <= now.last_position
            &&& all[i].1.id == decimal(all[i].0 as nat)
            &&& tells_owned(all[i], owned)
        } by {
            if i < told.len() {
                assert(all[i] == told[i]);
            }
        }
        assert forall|i: int, j: int| 0 <= i < j < all.len() implies (#[trigger] all[i]).0 < (
        #[trigger] all[j]).0 by {
            assert(all[i] == told[i]);
            if j < told.len() {
                assert(all[j] == told[j]);
            }
        }
    }
}

/// A stream that was opened is sound, knows no session yet, and begins with the records that it was
/// opened with.
pub proof fn opened_stream_is_sound(
    after: u64,
    fence: StreamFenceView,
    records: Seq<EventRecordView>,
)
    ensures
        is_sound(opened_stream(after, fence, records)),
        opened_stream(after, fence, records).batch == records,
        opened_stream(after, fence, records).last_position == after,
        opened_stream(after, fence, records).owned_sessions == Set::<Seq<char>>::empty(),
{
}

} // verus!
