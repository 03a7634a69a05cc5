//! Deliveries and messages.

use super::step::{changed, kept, one_more, outcome, refused, without_wait, Step};
use crate::checks::{
    first_fault, first_index, first_match, lemma_first_fault_prefix, lemma_first_fault_step,
    lemma_first_fault_whole, lemma_first_index_is, lemma_no_first_index,
};
use crate::checks::{fault_if, Checks};
use crate::datum::Datum;
use crate::domain::dedupe::remembered;
use crate::domain::error::{fault_of, invalid, invalid_state, DomainError, DomainErrorView};
use crate::domain::history::{find_declared_call, find_message, is_declared, named};
use crate::domain::state::{SessionState, SessionStateView};
use crate::domain::transcript::{
    delivery_agrees, message_agrees, QueuedDelivery, QueuedDeliveryView, ToolCall, ToolCallView,
    TranscriptMessage, TranscriptMessageView, TranscriptRole,
};
use crate::domain::{MAX_DELIVERY_QUEUE_ITEMS, MAX_TRANSCRIPT_MESSAGES};
use crate::text::joined;
use vstd::prelude::*;

verus! {

/// Accepts the delivery with the given queue id.
pub open spec fn queued_as(queue_id: u64) -> spec_fn(QueuedDeliveryView) -> bool {
    |delivery: QueuedDeliveryView| delivery.queue_id == queue_id
}

/// The id of the wait that a waking delivery ends.
pub open spec fn woken(state: SessionStateView, wake: bool) -> Option<Seq<char>> {
    match state.active_wait {
        Some(wait) if wake => Some(wait.wait_id),
        _ => state.wake_pending_wait_id,
    }
}

/// A delivery joins the queue. One that was queued or acknowledged before, or whose id or dedupe
/// key is known, changes nothing; another under a queue id that is taken is refused, and so is
/// one that does not follow on the queue.
#[verifier::opaque]
pub open spec fn queue_step(state: SessionStateView, delivery: QueuedDeliveryView) -> Step {
    let queue = state.delivery_queue;
    let keys = state.dedupe_facts.recent_keys;
    let delivery_key = "delivery:"@ + delivery.delivery_id;
    let expected = state.delivery_ack + queue.len() + 1;
    if delivery.queue_id <= state.delivery_ack {
        kept(state)
    } else if let Some(existing) = first_match(queue, queued_as(delivery.queue_id)) {
        if delivery_agrees(existing, delivery) {
            kept(state)
        } else {
            refused(DomainErrorView::ConflictingDelivery(delivery.delivery_id))
        }
    } else if keys.contains(delivery_key) || keys.contains(delivery.dedupe_key) {
        kept(state)
    } else if queue.len() >= MAX_DELIVERY_QUEUE_ITEMS {
        refused(
            DomainErrorView::CollectionTooLarge {
                field: "delivery queue"@,
                items: one_more(queue.len()),
                max: MAX_DELIVERY_QUEUE_ITEMS,
            },
        )
    } else if expected > u64::MAX {
        refused(DomainErrorView::VersionOverflow)
    } else if delivery.queue_id != expected {
        refused(
            DomainErrorView::DeliveryQueueOrder {
                expected: expected as u64,
                actual: delivery.queue_id,
            },
        )
    } else {
        changed(
            SessionStateView {
                delivery_queue: queue.push(delivery),
                dedupe_facts: remembered(
                    remembered(state.dedupe_facts, delivery_key),
                    delivery.dedupe_key,
                ),
                wake_pending_wait_id: woken(state, delivery.wake),
                ..state
            },
        )
    }
}

/// Whether a delivery at the head of the queue, through the given id, has no message yet.
pub open spec fn unmaterialized_through(queue: Seq<QueuedDeliveryView>, through: u64) -> bool {
    exists|i: int|
        0 <= i < queue.len() && (#[trigger] queue[i]).materialized_message_id is None && forall|
            j: int,
        |
            0 <= j <= i ==> (#[trigger] queue[j]).queue_id <= through
}

/// Accepts the deliveries after the given queue id.
pub open spec fn queued_after(through: u64) -> spec_fn(QueuedDeliveryView) -> bool {
    |delivery: QueuedDeliveryView| delivery.queue_id > through
}

/// The deliveries through an id are done with and leave the queue. They must be queued, and each
/// must have become a message.
#[verifier::opaque]
pub open spec fn acknowledge_step(state: SessionStateView, through: u64) -> Step {
    let max_queued = state.delivery_ack + state.delivery_queue.len();
    if through <= state.delivery_ack {
        kept(state)
    } else if max_queued > u64::MAX {
        refused(DomainErrorView::VersionOverflow)
    } else if through > max_queued {
        refused(
            DomainErrorView::AckBeyondEnqueued {
                requested: through,
                max_queued: max_queued as u64,
            },
        )
    } else if unmaterialized_through(state.delivery_queue, through) {
        refused(DomainErrorView::DeliveryNotMaterialized(through))
    } else {
        changed(
            SessionStateView {
                delivery_ack: through,
                delivery_queue: state.delivery_queue.filter(queued_after(through)),
                ..state
            },
        )
    }
}

/// Whether one of the first `end` deliveries has no message yet.
pub open spec fn unmaterialized_before(queue: Seq<QueuedDeliveryView>, end: int) -> bool {
    exists|i: int| 0 <= i < end && (#[trigger] queue[i]).materialized_message_id is None
}

/// Whether the history holds an equal message.
pub open spec fn holds_message(
    history: Seq<TranscriptMessageView>,
    message: TranscriptMessageView,
) -> bool {
    exists|i: int| 0 <= i < history.len() && message_agrees(#[trigger] history[i], message)
}

/// The state in which the delivery at `index` has become `message`.
pub open spec fn materialized(
    state: SessionStateView,
    index: int,
    message: TranscriptMessageView,
) -> SessionStateView {
    let delivery = state.delivery_queue[index];
    let known = first_match(state.transcript, named(message.message_id)) is Some;
    let next = SessionStateView {
        transcript: if known {
            state.transcript
        } else {
            state.transcript.push(message)
        },
        delivery_queue: state.delivery_queue.update(
            index,
            QueuedDeliveryView { materialized_message_id: Some(message.message_id), ..delivery },
        ),
        dedupe_facts: remembered(state.dedupe_facts, "message:"@ + message.message_id),
        ..state
    };
    if delivery.wake {
        without_wait(next)
    } else {
        next
    }
}

/// A delivery becomes a message. The deliveries before it must have become messages, the message
/// must name it, and it becomes no other message than the one it became.
#[verifier::opaque]
pub open spec fn materialize_step(
    state: SessionStateView,
    queue_id: u64,
    message: TranscriptMessageView,
) -> Step {
    let queue = state.delivery_queue;
    match first_index(queue, queued_as(queue_id)) {
        None => refused(DomainErrorView::UnknownDelivery(queue_id)),
        Some(index) => if message.source_queue_id != Some(queue_id) {
            refused(DomainErrorView::MaterializationIdentity(queue_id))
        } else if unmaterialized_before(queue, index) {
            refused(invalid("deliveries must materialize in queue order"@))
        } else if let Some(existing_id) = queue[index].materialized_message_id {
            if existing_id == message.message_id && holds_message(state.transcript, message) {
                kept(state)
            } else {
                refused(DomainErrorView::ConflictingDelivery(queue[index].delivery_id))
            }
        } else if first_match(state.transcript, named(message.message_id)) matches Some(existing)
            && !message_agrees(existing, message) {
            refused(DomainErrorView::ConflictingTranscriptMessage(message.message_id))
        } else {
            changed(materialized(state, index, message))
        },
    }
}

/// A call that no message of the history declares.
pub open spec fn new_call_check(history: Seq<TranscriptMessageView>) -> spec_fn(
    Seq<ToolCallView>,
    ToolCallView,
) -> Option<DomainErrorView> {
    |before: Seq<ToolCallView>, call: ToolCallView|
        fault_if(
            is_declared(history, call.tool_call_id),
            DomainErrorView::DuplicateTranscriptToolCallId(call.tool_call_id),
        )
}

/// Why a new message cannot follow on a history: only an assistant declares calls, each once, and
/// only a tool answers one, which must be declared.
pub open spec fn append_fault(
    history: Seq<TranscriptMessageView>,
    message: TranscriptMessageView,
) -> Option<DomainErrorView> {
    fault_if(
        message.tool_calls.len() > 0 && message.role != TranscriptRole::Assistant,
        invalid("only assistant messages may declare tool calls"@),
    ).before(first_fault(message.tool_calls, new_call_check(history))).before(
        match message.tool_call_id {
            None => None,
            Some(id) => fault_if(
                message.role != TranscriptRole::Tool,
                invalid("tool_call_id may only be attached to tool messages"@),
            ).before(
                fault_if(!is_declared(history, id), DomainErrorView::UnknownToolCall(id)),
            ),
        },
    )
}

/// The state with a new message at the end of its history.
pub open spec fn appended(
    state: SessionStateView,
    message: TranscriptMessageView,
    wake_wait: bool,
) -> SessionStateView {
    let facts = remembered(state.dedupe_facts, "message:"@ + message.message_id);
    let next = SessionStateView {
        transcript: state.transcript.push(message),
        dedupe_facts: match message.dedupe_key {
            Some(key) => remembered(facts, key),
            None => facts,
        },
        ..state
    };
    if wake_wait {
        without_wait(next)
    } else {
        next
    }
}

/// A message joins the history. One that is there, or whose dedupe key is known, changes nothing;
/// another under the same id is refused.
#[verifier::opaque]
pub open spec fn append_step(
    state: SessionStateView,
    message: TranscriptMessageView,
    wake_wait: bool,
) -> Step {
    let keys = state.dedupe_facts.recent_keys;
    if let Some(existing) = first_match(state.transcript, named(message.message_id)) {
        if message_agrees(existing, message) {
            kept(state)
        } else {
            refused(DomainErrorView::ConflictingTranscriptMessage(message.message_id))
        }
    } else if message.dedupe_key matches Some(key) && keys.contains(key) {
        kept(state)
    } else if state.transcript.len() >= MAX_TRANSCRIPT_MESSAGES {
        refused(
            DomainErrorView::CollectionTooLarge {
                field: "transcript"@,
                items: one_more(state.transcript.len()),
                max: MAX_TRANSCRIPT_MESSAGES,
            },
        )
    } else if let Some(fault) = append_fault(state.transcript, message) {
        refused(fault)
    } else {
        changed(appended(state, message, wake_wait))
    }
}

fn find_delivery(queue: &Vec<QueuedDelivery>, queue_id: u64) -> (found: Option<usize>)
    ensures
        match found {
            Some(index) => index < queue.len() && first_index(
                queue.deep_view(),
                queued_as(queue_id),
            ) == Some(index as int),
            None => first_index(queue.deep_view(), queued_as(queue_id)) is None,
        },
{
    let ghost view = queue.deep_view();
    let mut index: usize = 0;
    while index < queue.len()
        invariant
            view == queue.deep_view(),
            index <= queue.len(),
            forall|i: int| 0 <= i < index ==> (#[trigger] view[i]).queue_id != queue_id,
        decreases queue.len() - index,
    {
        if queue[index].queue_id == queue_id {
            proof {
                assert(view[index as int].queue_id == queue_id);
                lemma_first_index_is(view, queued_as(queue_id), index as int);
            }
            return Some(index);
        }
        index += 1;
    }
    proof {
        lemma_no_first_index(view, queued_as(queue_id));
    }
    None
}

fn any_unmaterialized_through(queue: &Vec<QueuedDelivery>, through: u64) -> (found: bool)
    ensures
        found == unmaterialized_through(queue.deep_view(), through),
{
    let ghost view = queue.deep_view();
    let mut index: usize = 0;
    while index < queue.len()
        invariant
            view == queue.deep_view(),
            index <= queue.len(),
            forall|i: int|
                0 <= i < index ==> (#[trigger] view[i]).materialized_message_id is Some
                    && view[i].queue_id <= through,
        decreases queue.len() - index,
    {
        assert(view[index as int].queue_id == queue[index as int].queue_id);
        if queue[index].queue_id > through {
            return false;
        }
        if queue[index].materialized_message_id.is_none() {
            assert(view[index as int].materialized_message_id is None);
            return true;
        }
        index += 1;
    }
    false
}

fn any_unmaterialized_before(queue: &Vec<QueuedDelivery>, end: usize) -> (found: bool)
    requires
        end <= queue.len(),
    ensures
        found == unmaterialized_before(queue.deep_view(), end as int),
{
    let ghost view = queue.deep_view();
    let mut index: usize = 0;
    while index < end
        invariant
            view == queue.deep_view(),
            index <= end <= queue.len(),
            forall|i: int| 0 <= i < index ==> (#[trigger] view[i]).materialized_message_id is Some,
        decreases end - index,
    {
        if queue[index].materialized_message_id.is_none() {
            assert(view[index as int].materialized_message_id is None);
            return true;
        }
        index += 1;
    }
    false
}

fn retain_after(queue: &Vec<QueuedDelivery>, through: u64) -> (rest: Vec<QueuedDelivery>)
    ensures
        rest.deep_view() == queue.deep_view().filter(queued_after(through)),
{
    let ghost view = queue.deep_view();
    let ghost keep = queued_after(through);
    let mut rest: Vec<QueuedDelivery> = Vec::new();
    let mut index: usize = 0;
    proof {
        reveal(Seq::filter);
        assert(view.take(0) =~= Seq::empty());
        assert(rest.deep_view() =~= Seq::empty());
    }
    while index < queue.len()
        invariant
            view == queue.deep_view(),
            keep == queued_after(through),
            index <= queue.len(),
            rest.deep_view() == view.take(index as int).filter(keep),
        decreases queue.len() - index,
    {
        proof {
            reveal(Seq::filter);
            assert(view.take(index + 1).drop_last() =~= view.take(index as int));
        }
        if queue[index].queue_id > through {
            let ghost before = rest.deep_view();
            rest.push(queue[index].replica());
            assert(rest.deep_view() =~= before.push(view[index as int]));
        }
        index += 1;
    }
    assert(view.take(index as int) =~= view);
    rest
}

fn has_equal_message(history: &Vec<TranscriptMessage>, message: &TranscriptMessage) -> (found: bool)
    ensures
        found == holds_message(history.deep_view(), message.deep_view()),
{
    let ghost view = history.deep_view();
    let mut index: usize = 0;
    while index < history.len()
        invariant
            view == history.deep_view(),
            index <= history.len(),
            forall|i: int|
                0 <= i < index ==> !message_agrees(#[trigger] view[i], message.deep_view()),
        decreases history.len() - index,
    {
        if history[index].agrees(message) {
            assert(message_agrees(view[index as int], message.deep_view()));
            return true;
        }
        index += 1;
    }
    false
}

fn check_new_calls(calls: &Vec<ToolCall>, history: &Vec<TranscriptMessage>) -> (result: Result<
    (),
    DomainError,
>)
    ensures
        fault_of(result) == first_fault(calls.deep_view(), new_call_check(history.deep_view())),
{
    let ghost view = calls.deep_view();
    let ghost check = new_call_check(history.deep_view());
    proof {
        lemma_first_fault_whole(view, check);
    }
    let mut index: usize = 0;
    while index < calls.len()
        invariant
            view == calls.deep_view(),
            check == new_call_check(history.deep_view()),
            index <= calls.len(),
            first_fault(view.take(index as int), check) is None,
        decreases calls.len() - index,
    {
        proof {
            lemma_first_fault_step(view, check, index as int);
            if first_fault(view.take(index + 1), check) is Some {
                lemma_first_fault_prefix(view, check, index + 1);
            }
        }
        let id = &calls[index].tool_call_id;
        if find_declared_call(history, id).is_some() {
            return Err(DomainError::DuplicateTranscriptToolCallId(id.clone()));
        }
        index += 1;
    }
    proof {
        lemma_first_fault_whole(view, check);
    }
    Ok(())
}

fn check_appended(history: &Vec<TranscriptMessage>, message: &TranscriptMessage) -> (result: Result<
    (),
    DomainError,
>)
    ensures
        fault_of(result) == append_fault(history.deep_view(), message.deep_view()),
{
    if message.tool_calls.len() > 0 && message.role != TranscriptRole::Assistant {
        return Err(invalid_state("only assistant messages may declare tool calls"));
    }
    check_new_calls(&message.tool_calls, history)?;
    if let Some(tool_call_id) = &message.tool_call_id {
        if message.role != TranscriptRole::Tool {
            return Err(invalid_state("tool_call_id may only be attached to tool messages"));
        }
        if find_declared_call(history, tool_call_id).is_none() {
            return Err(DomainError::UnknownToolCall(tool_call_id.clone()));
        }
    }
    Ok(())
}

impl SessionState {
    pub(crate) fn queue_delivery(&mut self, delivery: &QueuedDelivery) -> (result: Result<
        bool,
        DomainError,
    >)
        ensures
            outcome(result, *final(self)) == queue_step(
                old(self).deep_view(),
                delivery.deep_view(),
            ),
            result is Err ==> final(self).deep_view() == old(self).deep_view(),
    {
        proof {
            reveal(queue_step);
        }
        let ghost before = self.deep_view();
        if delivery.queue_id <= self.delivery_ack {
            return Ok(false);
        }
        if let Some(index) = find_delivery(&self.delivery_queue, delivery.queue_id) {
            if self.delivery_queue[index].agrees(delivery) {
                return Ok(false);
            }
            return Err(DomainError::ConflictingDelivery(delivery.delivery_id.clone()));
        }
        let delivery_key = joined("delivery:", &delivery.delivery_id);
        if self.dedupe_facts.contains(&delivery_key) || self.dedupe_facts.contains(
            &delivery.dedupe_key,
        ) {
            return Ok(false);
        }
        let queued: usize = self.delivery_queue.len();
        if queued >= MAX_DELIVERY_QUEUE_ITEMS {
            return Err(
                DomainError::CollectionTooLarge {
                    field: "delivery queue",
                    items: queued.saturating_add(1),
                    max: MAX_DELIVERY_QUEUE_ITEMS,
                },
            );
        }
        let expected: u64 = match self.delivery_ack.checked_add(queued as u64 + 1) {
            Some(expected) => expected,
            None => {
                return Err(DomainError::VersionOverflow);
            },
        };
        if delivery.queue_id != expected {
            return Err(
                DomainError::DeliveryQueueOrder { expected, actual: delivery.queue_id },
            );
        }
        self.delivery_queue.push(delivery.replica());
        assert(self.deep_view().delivery_queue =~= before.delivery_queue.push(
            delivery.deep_view(),
        ));
        self.dedupe_facts.remember(delivery_key);
        self.dedupe_facts.remember(delivery.dedupe_key.clone());
        if delivery.wake {
            if let Some(wait) = &self.active_wait {
                self.wake_pending_wait_id = Some(wait.wait_id.clone());
            }
        }
        Ok(true)
    }

    pub(crate) fn acknowledge_deliveries(&mut self, through: u64) -> (result: Result<
        bool,
        DomainError,
    >)
        ensures
            outcome(result, *final(self)) == acknowledge_step(old(self).deep_view(), through),
            result is Err ==> final(self).deep_view() == old(self).deep_view(),
    {
        proof {
            reveal(acknowledge_step);
        }
        if through <= self.delivery_ack {
            return Ok(false);
        }
        let max_queued: u64 = match self.delivery_ack.checked_add(
            self.delivery_queue.len() as u64,
        ) {
            Some(max_queued) => max_queued,
            None => {
                return Err(DomainError::VersionOverflow);
            },
        };
        if through > max_queued {
            return Err(DomainError::AckBeyondEnqueued { requested: through, max_queued });
        }
        if any_unmaterialized_through(&self.delivery_queue, through) {
            return Err(DomainError::DeliveryNotMaterialized(through));
        }
        self.delivery_ack = through;
        self.delivery_queue = retain_after(&self.delivery_queue, through);
        Ok(true)
    }

    pub(crate) fn materialize_delivery(
        &mut self,
        queue_id: u64,
        message: &TranscriptMessage,
    ) -> (result: Result<bool, DomainError>)
        ensures
            outcome(result, *final(self)) == materialize_step(
                old(self).deep_view(),
                queue_id,
                message.deep_view(),
            ),
            result is Err ==> final(self).deep_view() == old(self).deep_view(),
    {
        proof {
            reveal(materialize_step);
        }
        let ghost before = self.deep_view();
        let index: usize = match find_delivery(&self.delivery_queue, queue_id) {
            Some(index) => index,
            None => {
                return Err(DomainError::UnknownDelivery(queue_id));
            },
        };
        let names_delivery = match message.source_queue_id {
            Some(source) => source == queue_id,
            None => false,
        };
        if !names_delivery {
            return Err(DomainError::MaterializationIdentity(queue_id));
        }
        if any_unmaterialized_before(&self.delivery_queue, index) {
            return Err(invalid_state("deliveries must materialize in queue order"));
        }
        assert(before.delivery_queue[index as int]
            == self.delivery_queue[index as int].deep_view());
        if let Some(existing_id) = &self.delivery_queue[index].materialized_message_id {
            if *existing_id == message.message_id && has_equal_message(&self.transcript, message) {
                return Ok(false);
            }
            return Err(
                DomainError::ConflictingDelivery(self.delivery_queue[index].delivery_id.clone()),
            );
        }
        match find_message(&self.transcript, &message.message_id) {
            Some(position) => {
                if !self.transcript[position].agrees(message) {
                    return Err(
                        DomainError::ConflictingTranscriptMessage(message.message_id.clone()),
                    );
                }
            },
            None => {
                self.transcript.push(message.replica());
                assert(self.deep_view().transcript =~= before.transcript.push(
                    message.deep_view(),
                ));
            },
        }
        let mut delivery = self.delivery_queue[index].replica();
        let wake = delivery.wake;
        delivery.materialized_message_id = Some(message.message_id.clone());
        let ghost updated = delivery.deep_view();
        self.delivery_queue.set(index, delivery);
        assert(self.deep_view().delivery_queue =~= before.delivery_queue.update(
            index as int,
            updated,
        ));
        self.dedupe_facts.remember(joined("message:", &message.message_id));
        if wake {
            self.clear_wait();
        }
        Ok(true)
    }

    pub(crate) fn append_message(
        &mut self,
        message: &TranscriptMessage,
        wake_wait: bool,
    ) -> (result: Result<bool, DomainError>)
        ensures
            outcome(result, *final(self)) == append_step(
                old(self).deep_view(),
                message.deep_view(),
                wake_wait,
            ),
            result is Err ==> final(self).deep_view() == old(self).deep_view(),
    {
        proof {
            reveal(append_step);
        }
        let ghost before = self.deep_view();
        if let Some(position) = find_message(&self.transcript, &message.message_id) {
            if self.transcript[position].agrees(message) {
                return Ok(false);
            }
            return Err(DomainError::ConflictingTranscriptMessage(message.message_id.clone()));
        }
        if let Some(key) = &message.dedupe_key {
            if self.dedupe_facts.contains(key) {
                return Ok(false);
            }
        }
        if self.transcript.len() >= MAX_TRANSCRIPT_MESSAGES {
            return Err(
                DomainError::CollectionTooLarge {
                    field: "transcript",
                    items: self.transcript.len().saturating_add(1),
                    max: MAX_TRANSCRIPT_MESSAGES,
                },
            );
        }
        check_appended(&self.transcript, message)?;
        self.transcript.push(message.replica());
        assert(self.deep_view().transcript =~= before.transcript.push(message.deep_view()));
        self.dedupe_facts.remember(joined("message:", &message.message_id));
        if let Some(key) = &message.dedupe_key {
            self.dedupe_facts.remember(key.clone());
        }
        if wake_wait {
            self.clear_wait();
        }
        Ok(true)
    }
}

} // verus!
