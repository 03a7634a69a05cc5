//! What events do to a session: its creation and selection, its history, deliveries and waits.

use super::delivery::{
    acknowledge_step, append_step, materialize_step, queue_step, queued_after, queued_as,
};
use super::laws::newest_key_is_remembered;
use super::step::left_by;
use super::waits::{timer_step, wait_ended_step, wait_set_step};
use super::{applied, created_step, dedupe_step, payload_step, reselected_step};
use crate::checks::{first_index, first_match, lemma_first_index_sound, lemma_first_index_is};
use crate::domain::dedupe::{remembered, DedupeFactsView};
use crate::domain::event::{event_fault, SessionEventView, SessionStatus};
use crate::domain::history::named;
use crate::domain::selection::{SessionOwnerView, SessionSelectionView};
use crate::domain::state::{valid_state, SessionStateView};
use crate::domain::transcript::{
    delivery_agrees, message_agrees, QueuedDeliveryView, TranscriptMessageView, TranscriptRole,
};
use crate::domain::waits::{ActiveWaitView, WaitTimerIntentView};
use crate::domain::{MAX_DELIVERY_QUEUE_ITEMS, MAX_TRANSCRIPT_MESSAGES};
use vstd::prelude::*;

verus! {

/// Whether a state accepts the payload of an event and is changed by it.
pub open spec fn takes_effect(state: SessionStateView, event: SessionEventView) -> bool {
    payload_step(state, event) matches Ok((_, effective)) && effective
}

/// Whether a state accepts the payload of an event and passes it over.
pub open spec fn is_passed_over(state: SessionStateView, event: SessionEventView) -> bool {
    payload_step(state, event) matches Ok((_, effective)) && !effective
}

/// Whether a state refuses the payload of an event.
pub open spec fn is_refused(state: SessionStateView, event: SessionEventView) -> bool {
    payload_step(state, event) is Err
}

/// The state that the payload of an event leaves behind.
pub open spec fn after(state: SessionStateView, event: SessionEventView) -> SessionStateView {
    left_by(payload_step(state, event), state)
}

/// An event is applied where the state is valid, the event is sound and at its place, its payload
/// is accepted, and the state that it leads to is valid. The result is what the payload leaves, one
/// version further if it took effect.
pub proof fn event_is_carried_out(state: SessionStateView, event: SessionEventView)
    ensures
        applied(state, event) matches Ok(next) ==> {
            &&& valid_state(state)
            &&& valid_state(next)
            &&& event_fault(event) is None
            &&& (event is SessionCreated <==> state.stream_version == 0)
            &&& !is_refused(state, event)
            &&& next.stream_version == after(state, event).stream_version + if takes_effect(
                state,
                event,
            ) {
                1int
            } else {
                0int
            }
            &&& next == (SessionStateView {
                stream_version: next.stream_version,
                ..after(state, event)
            })
        },
        valid_state(state) && event_fault(event) is None && (event is SessionCreated
            <==> state.stream_version == 0) && is_passed_over(state, event) && valid_state(
            after(state, event),
        ) ==> applied(state, event) is Ok,
{
}

/// A session is created under the id of its stream only. It has the owner, the time and the
/// selection of its creation, in the first version, and nothing else yet.
pub proof fn creation_takes_effect(
    state: SessionStateView,
    schema_version: u32,
    session_id: Seq<char>,
    owner: SessionOwnerView,
    created_at_ms: i64,
    selection: SessionSelectionView,
)
    ensures
        ({
            let event = SessionEventView::SessionCreated {
                schema_version,
                session_id,
                owner,
                created_at_ms,
                selection,
            };
            let next = after(state, event);
            &&& takes_effect(state, event) <==> session_id == state.session_id
            &&& is_refused(state, event) <==> session_id != state.session_id
            &&& takes_effect(state, event) ==> {
                &&& next.owner == Some(owner)
                &&& next.created_at_ms == Some(created_at_ms)
                &&& next.selection == selection
                &&& next.selection_version == 1
                &&& next == (SessionStateView {
                    owner: next.owner,
                    created_at_ms: next.created_at_ms,
                    selection: next.selection,
                    selection_version: next.selection_version,
                    ..state
                })
            }
        }),
{
    reveal(created_step);
}

/// A new selection takes the place of the old one, under the next version. Nothing else changes, a
/// running activation least of all.
pub proof fn selection_takes_effect(state: SessionStateView, selection: SessionSelectionView)
    ensures
        ({
            let event = SessionEventView::ModelSelectionChanged { selection };
            let next = after(state, event);
            &&& takes_effect(state, event) <==> state.selection_version < u64::MAX
            &&& is_refused(state, event) <==> state.selection_version == u64::MAX
            &&& takes_effect(state, event) ==> {
                &&& next.selection == selection
                &&& next.selection_version == state.selection_version + 1
                &&& next == (SessionStateView {
                    selection: next.selection,
                    selection_version: next.selection_version,
                    ..state
                })
            }
        }),
{
    reveal(reselected_step);
}

/// A session has the status that it was told last. The status that it has already changes nothing.
pub proof fn status_takes_effect(state: SessionStateView, status: SessionStatus)
    ensures
        ({
            let event = SessionEventView::StatusChanged { status };
            let next = after(state, event);
            &&& !is_refused(state, event)
            &&& takes_effect(state, event) <==> state.status != status
            &&& next.status == status
            &&& next == (SessionStateView { status: next.status, ..state })
        }),
{
}

/// Whether all keys of a window were in another one or are the given ones.
pub open spec fn only_adds(
    facts: DedupeFactsView,
    next: DedupeFactsView,
    first: Seq<char>,
    second: Seq<char>,
) -> bool {
    forall|key: Seq<char>| #[trigger]
        next.recent_keys.contains(key) ==> key == first || key == second
            || facts.recent_keys.contains(key)
}

/// A key that is seen becomes the newest one. Where it is that already, nothing changes. A key
/// comes in only by being seen.
pub proof fn key_takes_effect(state: SessionStateView, key: Seq<char>)
    ensures
        ({
            let event = SessionEventView::DedupeRecorded { key };
            let next = after(state, event);
            let keys = state.dedupe_facts.recent_keys;
            &&& !is_refused(state, event)
            &&& is_passed_over(state, event) <==> keys.len() > 0 && keys[keys.len() - 1] == key
            &&& next.dedupe_facts.recent_keys.len() > 0
            &&& next.dedupe_facts.recent_keys.last() == key
            &&& only_adds(state.dedupe_facts, next.dedupe_facts, key, key)
            &&& next == (SessionStateView { dedupe_facts: next.dedupe_facts, ..state })
        }),
{
    reveal(dedupe_step);
    newest_key_is_remembered(state.dedupe_facts, key);
}

/// Whether a delivery of the queue has the given queue id.
pub open spec fn is_queued(queue: Seq<QueuedDeliveryView>, queue_id: u64) -> bool {
    exists|i: int| 0 <= i < queue.len() && (#[trigger] queue[i]).queue_id == queue_id
}

/// A delivery joins the end of the queue exactly if its number is the next one, there is room, and
/// neither its id nor its dedupe key was seen. It is queued as it came, and both are remembered.
/// One that wakes marks the wait that is active, and only that, as to be woken. Nothing else
/// changes. A delivery that was acknowledged is passed over.
pub proof fn delivery_takes_effect(state: SessionStateView, delivery: QueuedDeliveryView)
    ensures
        ({
            let event = SessionEventView::DeliveryQueued { delivery };
            let next = after(state, event);
            let keys = state.dedupe_facts.recent_keys;
            let key = "delivery:"@ + delivery.delivery_id;
            &&& takes_effect(state, event) <==> {
                &&& delivery.queue_id == state.delivery_ack + state.delivery_queue.len() + 1
                &&& !is_queued(state.delivery_queue, delivery.queue_id)
                &&& state.delivery_queue.len() < MAX_DELIVERY_QUEUE_ITEMS
                &&& !keys.contains(key)
                &&& !keys.contains(delivery.dedupe_key)
            }
            &&& delivery.queue_id <= state.delivery_ack ==> is_passed_over(state, event)
            &&& delivery.queue_id > state.delivery_ack && !is_queued(
                state.delivery_queue,
                delivery.queue_id,
            ) && (keys.contains(key) || keys.contains(delivery.dedupe_key)) ==> is_passed_over(
                state,
                event,
            )
            &&& !takes_effect(state, event) ==> next == state
            &&& takes_effect(state, event) ==> {
                &&& next.delivery_queue == state.delivery_queue.push(delivery)
                &&& next.dedupe_facts.recent_keys.contains(delivery.dedupe_key)
                &&& only_adds(state.dedupe_facts, next.dedupe_facts, key, delivery.dedupe_key)
                &&& state.active_wait matches Some(wait) ==> delivery.wake
                    ==> next.wake_pending_wait_id == Some(wait.wait_id)
                &&& !delivery.wake || state.active_wait is None ==> next.wake_pending_wait_id
                    == state.wake_pending_wait_id
                &&& next == (SessionStateView {
                    delivery_queue: next.delivery_queue,
                    dedupe_facts: next.dedupe_facts,
                    wake_pending_wait_id: next.wake_pending_wait_id,
                    ..state
                })
            }
        }),
{
    reveal(queue_step);
    let queue = state.delivery_queue;
    let pick = queued_as(delivery.queue_id);
    let key = "delivery:"@ + delivery.delivery_id;
    lemma_first_index_sound(queue, pick);
    if let Some(index) = first_index(queue, pick) {
        assert(pick(queue[index]));
        assert(queue[index].queue_id == delivery.queue_id);
    } else {
        assert forall|i: int| 0 <= i < queue.len() implies (#[trigger] queue[i]).queue_id
            != delivery.queue_id by {
            assert(!pick(queue[i]));
        }
    }
    let once = remembered(state.dedupe_facts, key);
    newest_key_is_remembered(state.dedupe_facts, key);
    newest_key_is_remembered(once, delivery.dedupe_key);
    let twice = remembered(once, delivery.dedupe_key);
    assert(twice.recent_keys[twice.recent_keys.len() - 1] == delivery.dedupe_key);
}

/// A delivery under a number that is taken is passed over if it is the one that is queued, and
/// refused if it is another.
pub proof fn queued_delivery_is_kept(
    state: SessionStateView,
    delivery: QueuedDeliveryView,
    index: int,
)
    requires
        0 <= index < state.delivery_queue.len(),
        state.delivery_queue[index].queue_id == delivery.queue_id,
        forall|i: int| 0 <= i < index ==> state.delivery_queue[i].queue_id != delivery.queue_id,
        delivery.queue_id > state.delivery_ack,
    ensures
        ({
            let event = SessionEventView::DeliveryQueued { delivery };
            if delivery_agrees(state.delivery_queue[index], delivery) {
                is_passed_over(state, event)
            } else {
                is_refused(state, event)
            }
        }),
{
    reveal(queue_step);
    lemma_first_index_is(state.delivery_queue, queued_as(delivery.queue_id), index);
}

/// Whether the queue runs on from the acknowledged delivery without a gap.
pub open spec fn runs_on(state: SessionStateView) -> bool {
    forall|i: int|
        0 <= i < state.delivery_queue.len() ==> (#[trigger] state.delivery_queue[i]).queue_id
            == state.delivery_ack + 1 + i
}

proof fn lemma_acknowledged_leave(queue: Seq<QueuedDeliveryView>, first: int, through: u64)
    requires
        forall|i: int| 0 <= i < queue.len() ==> (#[trigger] queue[i]).queue_id == first + i,
    ensures
        queue.filter(queued_after(through)) == if through < first {
            queue
        } else if through - first + 1 <= queue.len() {
            queue.skip(through - first + 1)
        } else {
            Seq::empty()
        },
    decreases queue.len(),
{
    reveal(Seq::filter);
    let keep = queued_after(through);
    if queue.len() == 0 {
        assert(queue.filter(keep) =~= Seq::empty());
        assert(queue =~= Seq::empty());
        if through >= first && through - first + 1 <= queue.len() {
            assert(queue.skip(through - first + 1) =~= Seq::empty());
        }
    } else {
        let front = queue.drop_last();
        assert forall|i: int| 0 <= i < front.len() implies (#[trigger] front[i]).queue_id == first
            + i by {
            assert(front[i] == queue[i]);
        }
        lemma_acknowledged_leave(front, first, through);
        let last = queue.last();
        assert(last == queue[queue.len() - 1]);
        assert(keep(last) == (last.queue_id > through));
        assert(queue.filter(keep) == if keep(last) {
            front.filter(keep).push(last)
        } else {
            front.filter(keep)
        });
        if through < first {
            assert(front.push(last) =~= queue);
        } else if through - first + 1 <= front.len() {
            assert(front.skip(through - first + 1).push(last) =~= queue.skip(through - first + 1));
        } else if through - first + 1 == queue.len() {
            assert(queue.skip(through - first + 1) =~= Seq::empty());
        }
    }
}

/// Deliveries are acknowledged exactly if they are queued and each of them has become a message.
/// They leave the queue, and those after them stay as they are. Nothing else changes. What was
/// acknowledged before is passed over.
pub proof fn acknowledgement_takes_effect(state: SessionStateView, through_queue_id: u64)
    requires
        runs_on(state),
    ensures
        ({
            let event = SessionEventView::DeliveryAcknowledged { through_queue_id };
            let next = after(state, event);
            let queue = state.delivery_queue;
            &&& is_passed_over(state, event) <==> through_queue_id <= state.delivery_ack
            &&& takes_effect(state, event) <==> {
                &&& state.delivery_ack < through_queue_id <= state.delivery_ack + queue.len()
                &&& state.delivery_ack + queue.len() <= u64::MAX
                &&& forall|i: int|
                    0 <= i < queue.len() && (#[trigger] queue[i]).queue_id <= through_queue_id
                        ==> queue[i].materialized_message_id is Some
            }
            &&& !takes_effect(state, event) ==> next == state
            &&& takes_effect(state, event) ==> {
                &&& next.delivery_ack == through_queue_id
                &&& next.delivery_queue == queue.skip(through_queue_id - state.delivery_ack)
                &&& next == (SessionStateView {
                    delivery_ack: next.delivery_ack,
                    delivery_queue: next.delivery_queue,
                    ..state
                })
            }
        }),
{
    reveal(acknowledge_step);
    let queue = state.delivery_queue;
    lemma_acknowledged_leave(queue, state.delivery_ack + 1, through_queue_id);
    assert forall|i: int|
        0 <= i < queue.len() && (#[trigger] queue[i]).queue_id <= through_queue_id
            && queue[i].materialized_message_id is None implies forall|j: int|
        0 <= j <= i ==> (#[trigger] queue[j]).queue_id <= through_queue_id by {
        assert forall|j: int| 0 <= j <= i implies (#[trigger] queue[j]).queue_id
            <= through_queue_id by {
            assert(queue[j].queue_id == state.delivery_ack + 1 + j);
        }
    }
}

/// Whether a message of the history has the given id.
pub open spec fn is_in_history(history: Seq<TranscriptMessageView>, id: Seq<char>) -> bool {
    exists|i: int| 0 <= i < history.len() && (#[trigger] history[i]).message_id == id
}

/// Whether a wait, its timer and its wake are gone.
pub open spec fn wait_is_over(state: SessionStateView) -> bool {
    state.active_wait is None && state.active_timer is None && state.wake_pending_wait_id is None
}

/// Whether a wait, its timer and its wake are the same as before.
pub open spec fn same_wait(state: SessionStateView, next: SessionStateView) -> bool {
    &&& next.active_wait == state.active_wait
    &&& next.active_timer == state.active_timer
    &&& next.wake_pending_wait_id == state.wake_pending_wait_id
}

proof fn lemma_named(history: Seq<TranscriptMessageView>, id: Seq<char>)
    ensures
        first_match(history, named(id)) is Some <==> is_in_history(history, id),
        first_match(history, named(id)) matches Some(message) ==> message.message_id == id
            && history.contains(message),
{
    let pick = named(id);
    lemma_first_index_sound(history, pick);
    if let Some(index) = first_index(history, pick) {
        assert(pick(history[index]));
        assert(history[index].message_id == id);
    } else {
        assert forall|i: int| 0 <= i < history.len() implies (#[trigger] history[i]).message_id
            != id by {
            assert(!pick(history[i]));
        }
    }
}

/// A delivery that becomes a message puts that message at the end of the history, where no message
/// has its id yet, and is marked with that id; the other deliveries stay as they are. A waking one
/// ends the wait, another leaves it alone. Nothing else changes. The message names the delivery,
/// and the deliveries before it have become messages.
pub proof fn materialization_takes_effect(
    state: SessionStateView,
    queue_id: u64,
    message: TranscriptMessageView,
    index: int,
)
    requires
        0 <= index < state.delivery_queue.len(),
        state.delivery_queue[index].queue_id == queue_id,
        forall|i: int| 0 <= i < index ==> state.delivery_queue[i].queue_id != queue_id,
    ensures
        ({
            let event = SessionEventView::DeliveryMaterialized { queue_id, message };
            let next = after(state, event);
            let queue = state.delivery_queue;
            &&& !is_in_history(state.transcript, message.message_id) ==> (takes_effect(state, event)
                <==> {
                &&& message.source_queue_id == Some(queue_id)
                &&& queue[index].materialized_message_id is None
                &&& forall|i: int|
                    0 <= i < index ==> (#[trigger] queue[i]).materialized_message_id is Some
            })
            &&& !takes_effect(state, event) ==> next == state
            &&& takes_effect(state, event) ==> {
                &&& message.source_queue_id == Some(queue_id)
                &&& queue[index].materialized_message_id is None
                &&& forall|i: int|
                    0 <= i < index ==> (#[trigger] queue[i]).materialized_message_id is Some
                &&& next.transcript == if is_in_history(state.transcript, message.message_id) {
                    state.transcript
                } else {
                    state.transcript.push(message)
                }
                &&& next.delivery_queue.len() == queue.len()
                &&& next.delivery_queue[index] == (QueuedDeliveryView {
                    materialized_message_id: Some(message.message_id),
                    ..queue[index]
                })
                &&& forall|i: int|
                    0 <= i < queue.len() && i != index ==> #[trigger] next.delivery_queue[i]
                        == queue[i]
                &&& next.dedupe_facts.recent_keys.contains("message:"@ + message.message_id)
                &&& only_adds(
                    state.dedupe_facts,
                    next.dedupe_facts,
                    "message:"@ + message.message_id,
                    "message:"@ + message.message_id,
                )
                &&& queue[index].wake ==> wait_is_over(next)
                &&& !queue[index].wake ==> same_wait(state, next)
                &&& next == (SessionStateView {
                    transcript: next.transcript,
                    delivery_queue: next.delivery_queue,
                    dedupe_facts: next.dedupe_facts,
                    active_wait: next.active_wait,
                    active_timer: next.active_timer,
                    wake_pending_wait_id: next.wake_pending_wait_id,
                    ..state
                })
            }
        }),
{
    reveal(materialize_step);
    lemma_first_index_is(state.delivery_queue, queued_as(queue_id), index);
    lemma_named(state.transcript, message.message_id);
    let key = "message:"@ + message.message_id;
    newest_key_is_remembered(state.dedupe_facts, key);
    let facts = remembered(state.dedupe_facts, key);
    assert(facts.recent_keys[facts.recent_keys.len() - 1] == key);
}

/// A delivery that is not queued becomes no message.
pub proof fn unknown_delivery_is_refused(
    state: SessionStateView,
    queue_id: u64,
    message: TranscriptMessageView,
)
    requires
        !is_queued(state.delivery_queue, queue_id),
    ensures
        is_refused(state, SessionEventView::DeliveryMaterialized { queue_id, message }),
{
    reveal(materialize_step);
    let pick = queued_as(queue_id);
    lemma_first_index_sound(state.delivery_queue, pick);
    if let Some(index) = first_index(state.delivery_queue, pick) {
        assert(pick(state.delivery_queue[index]));
        assert(state.delivery_queue[index].queue_id == queue_id);
    }
}

/// A message that is new joins the end of the history as it is, and its id and its dedupe key are
/// remembered. One that wakes ends the wait, another leaves it alone. Nothing else changes. Only an
/// assistant declares calls, and only a tool answers one. A message whose id is in the history, or
/// whose dedupe key was seen, joins nothing.
pub proof fn message_takes_effect(
    state: SessionStateView,
    message: TranscriptMessageView,
    wake_wait: bool,
)
    ensures
        ({
            let event = SessionEventView::MessageAppended { message, wake_wait };
            let next = after(state, event);
            let keys = state.dedupe_facts.recent_keys;
            &&& is_in_history(state.transcript, message.message_id) ==> !takes_effect(state, event)
            &&& !is_in_history(state.transcript, message.message_id) && (
            message.dedupe_key matches Some(key) && keys.contains(key)) ==> is_passed_over(
                state,
                event,
            )
            &&& !is_in_history(state.transcript, message.message_id) && !(
            message.dedupe_key matches Some(key) && keys.contains(key)) && state.transcript.len()
                < MAX_TRANSCRIPT_MESSAGES && message.tool_calls.len() == 0 && message.tool_call_id
                is None ==> takes_effect(state, event)
            &&& !takes_effect(state, event) ==> next == state
            &&& takes_effect(state, event) ==> {
                &&& state.transcript.len() < MAX_TRANSCRIPT_MESSAGES
                &&& next.transcript == state.transcript.push(message)
                &&& message.tool_calls.len() > 0 ==> message.role == TranscriptRole::Assistant
                &&& message.tool_call_id is Some ==> message.role == TranscriptRole::Tool
                &&& message.dedupe_key matches Some(key) ==> {
                    &&& next.dedupe_facts.recent_keys.contains(key)
                    &&& only_adds(
                        state.dedupe_facts,
                        next.dedupe_facts,
                        "message:"@ + message.message_id,
                        key,
                    )
                }
                &&& message.dedupe_key is None ==> {
                    &&& next.dedupe_facts.recent_keys.contains("message:"@ + message.message_id)
                    &&& only_adds(
                        state.dedupe_facts,
                        next.dedupe_facts,
                        "message:"@ + message.message_id,
                        "message:"@ + message.message_id,
                    )
                }
                &&& wake_wait ==> wait_is_over(next)
                &&& !wake_wait ==> same_wait(state, next)
                &&& next == (SessionStateView {
                    transcript: next.transcript,
                    dedupe_facts: next.dedupe_facts,
                    active_wait: next.active_wait,
                    active_timer: next.active_timer,
                    wake_pending_wait_id: next.wake_pending_wait_id,
                    ..state
                })
            }
        }),
{
    reveal(append_step);
    lemma_named(state.transcript, message.message_id);
    let key = "message:"@ + message.message_id;
    newest_key_is_remembered(state.dedupe_facts, key);
    let facts = remembered(state.dedupe_facts, key);
    assert(facts.recent_keys[facts.recent_keys.len() - 1] == key);
    if let Some(other) = message.dedupe_key {
        newest_key_is_remembered(facts, other);
        let both = remembered(facts, other);
        assert(both.recent_keys[both.recent_keys.len() - 1] == other);
    }
}

/// A message that is in the history and comes again as it is is passed over; another under its id
/// is refused.
pub proof fn known_message_is_kept(
    state: SessionStateView,
    message: TranscriptMessageView,
    wake_wait: bool,
    index: int,
)
    requires
        0 <= index < state.transcript.len(),
        state.transcript[index].message_id == message.message_id,
        forall|i: int| 0 <= i < index ==> state.transcript[i].message_id != message.message_id,
    ensures
        ({
            let event = SessionEventView::MessageAppended { message, wake_wait };
            if message_agrees(state.transcript[index], message) {
                is_passed_over(state, event)
            } else {
                is_refused(state, event)
            }
        }),
{
    reveal(append_step);
    lemma_first_index_is(state.transcript, named(message.message_id), index);
}

/// A wait takes the place of the one before it, without a timer and with no wake due. The same wait
/// with nothing done to it is passed over. Nothing else changes.
pub proof fn wait_takes_effect(state: SessionStateView, wait: ActiveWaitView)
    ensures
        ({
            let event = SessionEventView::WaitSet { wait };
            let next = after(state, event);
            &&& !is_refused(state, event)
            &&& is_passed_over(state, event) <==> state.active_wait == Some(wait)
                && state.active_timer is None && state.wake_pending_wait_id is None
            &&& next.active_wait == Some(wait)
            &&& next.active_timer is None
            &&& next.wake_pending_wait_id is None
            &&& next == (SessionStateView {
                active_wait: next.active_wait,
                active_timer: next.active_timer,
                wake_pending_wait_id: next.wake_pending_wait_id,
                ..state
            })
        }),
{
    reveal(wait_set_step);
}

/// A timer is set for the wait that is active, by its id and its deadline, and for no other.
pub proof fn timer_takes_effect(state: SessionStateView, timer: WaitTimerIntentView)
    ensures
        ({
            let event = SessionEventView::WaitTimerScheduled { timer };
            let next = after(state, event);
            &&& is_refused(state, event) <==> !(state.active_wait matches Some(wait) && wait.wait_id
                == timer.wait_id && wait.deadline_ms == timer.deadline_ms)
            &&& !is_refused(state, event) ==> {
                &&& is_passed_over(state, event) <==> state.active_timer == Some(timer)
                &&& next.active_timer == Some(timer)
                &&& next == (SessionStateView { active_timer: next.active_timer, ..state })
            }
        }),
{
    reveal(timer_step);
}

/// A wait ends, or runs out, by its own id only, and not while a wake for it is due. With it go its
/// timer and its wake; nothing else changes.
pub proof fn end_of_wait_takes_effect(state: SessionStateView, wait_id: Seq<char>)
    ensures
        forall|event: SessionEventView|
            event == (SessionEventView::WaitCleared { wait_id }) || event == (
            SessionEventView::WaitExpired { wait_id }) ==> {
                let next = #[trigger] after(state, event);
                &&& !is_refused(state, event)
                &&& takes_effect(state, event) <==> state.wake_pending_wait_id != Some(wait_id) && (
                state.active_wait matches Some(wait) && wait.wait_id == wait_id)
                &&& !takes_effect(state, event) ==> next == state
                &&& takes_effect(state, event) ==> {
                    &&& wait_is_over(next)
                    &&& next == (SessionStateView {
                        active_wait: next.active_wait,
                        active_timer: next.active_timer,
                        wake_pending_wait_id: next.wake_pending_wait_id,
                        ..state
                    })
                }
            },
{
    reveal(wait_ended_step);
}

} // verus!
