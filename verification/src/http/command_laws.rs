//! What holds of the commands on a session: what they store, and what they find again.

use crate::domain::error::DomainErrorView;
use crate::domain::event::{EventRecordView, SessionEventView};
use crate::domain::payload::{inline_payload, payload_agrees, DurablePayloadView};
use crate::domain::reducer::effects::{after, delivery_takes_effect, message_takes_effect,
    selection_takes_effect, takes_effect};
use crate::domain::selection::{
    model_agrees, SessionModelSelectionView, SessionOwnerView, SessionSelectionView,
};
use crate::domain::state::SessionStateView;
use crate::domain::transcript::{message_agrees, DeliveryKind, QueuedDeliveryView, TranscriptRole};
use crate::http::commands::{
    answers, delivery_content, delivery_draft_of, message_command_of, message_draft_of,
    message_failure, message_of,
    model_draft_of, of_command, position_after, replayed_command, requested_delivery_of,
    told_after, CommandRequestView, MessageCommandView,
};
use crate::http::errors::ServiceErrorView;
use crate::http::events::told_event;
use crate::json::JsonView;
use crate::number::decimal;
use vstd::prelude::*;
use vstd::string::*;

verus! {

/// Whether the payload of a delivery holds the id and the words of a message, and no more.
pub open spec fn carries(payload: DurablePayloadView, id: Seq<char>, words: Seq<char>) -> bool {
    payload matches DurablePayloadView::Inline(inline) && (inline.value matches JsonView::Object(
        entries,
    ) && {
        &&& entries.dom() == set!["message_id"@, "content"@]
        &&& entries["message_id"@] == JsonView::Text(id)
        &&& entries["content"@] == JsonView::Text(words)
    })
}

proof fn lemma_content(command: MessageCommandView)
    ensures
        delivery_content(command) matches JsonView::Object(entries) && {
            &&& entries.dom() == set!["message_id"@, "content"@]
            &&& entries["message_id"@] == JsonView::Text(command.message_id)
            &&& entries["content"@] == JsonView::Text(command.content)
        },
{
    reveal_strlit("message_id");
    reveal_strlit("content");
    assert("message_id"@.len() != "content"@.len());
    let entries = delivery_content(command)->Object_0;
    assert(entries.dom() =~= set!["message_id"@, "content"@]);
}

/// A message of a user that is queued is queued as input of a user, at the next place of the queue,
/// to wake the session; it carries the id and the words of the message, under the ids of the
/// command and with its time. It fails only where its words are too large, or the places are used
/// up.
pub proof fn message_is_queued_as_input(current: SessionStateView, command: MessageCommandView)
    ensures
        ({
            let fits = inline_payload(delivery_content(command)) is Ok;
            let place = current.delivery_ack + current.delivery_queue.len() + 1;
            &&& delivery_draft_of(current, command) is Ok <==> fits && place <= u64::MAX
            &&& fits && place > u64::MAX ==> (delivery_draft_of(current, command) matches Err(error)
                && error == ServiceErrorView::Invalid("delivery queue is full"@))
            &&& delivery_draft_of(current, command) matches Ok(draft) ==> {
                &&& draft.event_id == command.delivery_event_id
                &&& draft.event matches SessionEventView::DeliveryQueued { delivery } && {
                    &&& delivery.kind == DeliveryKind::UserInput
                    &&& delivery.wake
                    &&& delivery.queue_id == place
                    &&& delivery.delivery_id == command.delivery_id
                    &&& delivery.dedupe_key == command.dedupe_key
                    &&& delivery.created_at_ms == Some(command.created_at_ms)
                    &&& delivery.source_tool_call_id is None
                    &&& delivery.materialized_message_id is None
                    &&& carries(delivery.payload, command.message_id, command.content)
                }
            }
        }),
{
    lemma_content(command);
}

/// A message of a user wakes a session that waits: once it is queued, the wait that is active is
/// marked as to be woken, and the message is the last of the queue.
pub proof fn queued_message_wakes(current: SessionStateView, command: MessageCommandView)
    ensures
        delivery_draft_of(current, command) matches Ok(draft) ==> takes_effect(current, draft.event)
            ==> {
            let next = after(current, draft.event);
            &&& current.active_wait matches Some(wait) ==> next.wake_pending_wait_id == Some(
                wait.wait_id,
            )
            &&& next.delivery_queue.len() == current.delivery_queue.len() + 1
            &&& carries(
                next.delivery_queue.last().payload,
                command.message_id,
                command.content,
            )
            &&& next.delivery_queue.last().wake
        },
{
    message_is_queued_as_input(current, command);
    if let Ok(draft) = delivery_draft_of(current, command) {
        if let SessionEventView::DeliveryQueued { delivery } = draft.event {
            delivery_takes_effect(current, delivery);
        }
    }
}

/// A message of a user that joins the history is one of a user, with exactly its words, under the
/// id of the command and its idempotency key; and it ends the wait.
pub proof fn message_joins_as_it_is(current: SessionStateView, command: MessageCommandView)
    ensures
        ({
            let draft = message_draft_of(command);
            &&& draft.event_id == command.event_id
            &&& draft.event matches SessionEventView::MessageAppended { message, wake_wait } && {
                &&& wake_wait
                &&& message.role == TranscriptRole::User
                &&& message.content == command.content
                &&& message.message_id == command.message_id
                &&& message.dedupe_key == Some(command.idempotency_key)
                &&& message.tool_calls.len() == 0
                &&& message.tool_call_id is None
                &&& message.source_queue_id is None
            }
            &&& takes_effect(current, draft.event) ==> {
                let next = after(current, draft.event);
                &&& next.active_wait is None
                &&& next.transcript.len() == current.transcript.len() + 1
                &&& next.transcript.last().content == command.content
                &&& next.transcript.last().role == TranscriptRole::User
            }
        }),
{
    message_takes_effect(current, message_of(command), true);
}

/// The delivery that is looked for when a message is sent again is the one that was queued, but for
/// its place: whatever else came in between.
pub proof fn requested_delivery_is_the_queued_one(
    current: SessionStateView,
    command: MessageCommandView,
)
    ensures
        delivery_draft_of(current, command) matches Ok(draft) ==> (
        draft.event matches SessionEventView::DeliveryQueued { delivery } && (
        requested_delivery_of(command) matches Some(wanted) && wanted == (QueuedDeliveryView {
            queue_id: wanted.queue_id,
            ..delivery
        }))),
        requested_delivery_of(command) is Some <==> inline_payload(delivery_content(command))
            is Ok,
{
}

/// The ids of a message follow from the owner, the session and the idempotency key, and from the id
/// that the message was given: neither its words nor its time have a part in them. A message that
/// was given an id has that id, and its words, its key and its time are those that came.
pub proof fn ids_do_not_depend_on_words(
    owner: SessionOwnerView,
    session_id: Seq<char>,
    key: Seq<char>,
    message_id: Option<Seq<char>>,
    content: Seq<char>,
    other: Seq<char>,
    now: i64,
    then: i64,
)
    ensures
        ({
            let left = message_command_of(owner, session_id, key, message_id, content, now);
            let right = message_command_of(owner, session_id, key, message_id, other, then);
            &&& left == (MessageCommandView { content, created_at_ms: now, ..right })
            &&& left.content == content
            &&& left.created_at_ms == now
            &&& left.idempotency_key == key
            &&& message_id matches Some(id) ==> left.message_id == id
            &&& left.command_id == message_command_of(
                owner,
                session_id,
                key,
                None,
                other,
                then,
            ).command_id
            &&& left.dedupe_key == "delivery:"@ + left.command_id
            &&& "message-"@.is_prefix_of(left.command_id)
        }),
{
    let left = message_command_of(owner, session_id, key, message_id, content, now);
    assert("message-"@ =~= left.command_id.subrange(0, "message-"@.len() as int));
}

/// The selection of a model changes the model and nothing else of the selection.
pub proof fn selected_model_is_chosen(
    current: SessionStateView,
    model: SessionModelSelectionView,
    command_id: Seq<char>,
)
    ensures
        ({
            let draft = model_draft_of(current, model, command_id);
            &&& draft.event_id == "model-selection-changed:"@ + command_id
            &&& draft.event matches SessionEventView::ModelSelectionChanged { selection } && {
                &&& selection.model == Some(model)
                &&& selection.tools == current.selection.tools
                &&& selection.callback_base_url == current.selection.callback_base_url
            }
            &&& takes_effect(current, draft.event) ==> after(
                current,
                draft.event,
            ).selection.model == Some(model)
        }),
{
    selection_takes_effect(
        current,
        SessionSelectionView { model: Some(model), ..current.selection },
    );
}

/// A stored event answers a request only if it stored what is asked for: the same message word for
/// word, a delivery with the same ids and the same payload, or the same model. An event of another
/// kind answers none of them.
pub proof fn only_the_same_request_is_answered(
    event: SessionEventView,
    request: CommandRequestView,
)
    ensures
        answers(event, request) ==> match request {
            CommandRequestView::Message { message, delivery } => {
                ||| event matches SessionEventView::MessageAppended { message: stored, .. } && {
                    &&& stored.content == message.content
                    &&& stored.message_id == message.message_id
                    &&& stored.role == message.role
                    &&& stored.dedupe_key == message.dedupe_key
                    &&& stored.tool_call_id == message.tool_call_id
                    &&& stored.source_queue_id == message.source_queue_id
                    &&& stored.tool_calls.len() == message.tool_calls.len()
                }
                ||| event matches SessionEventView::DeliveryQueued { delivery: stored } && (
                delivery matches Some(wanted) && is_same_delivery(stored, wanted))
            },
            CommandRequestView::Delivery(wanted) => {
                event matches SessionEventView::DeliveryQueued { delivery: stored }
                    && is_same_delivery(stored, wanted)
            },
            CommandRequestView::Model(model) => {
                event matches SessionEventView::ModelSelectionChanged { selection } && (
                selection.model matches Some(chosen) && model_agrees(chosen, model))
            },
        },
        match (request, event) {
            (
                CommandRequestView::Message { message, .. },
                SessionEventView::MessageAppended { message: stored, .. },
            ) => message_agrees(stored, message) ==> answers(event, request),
            (
                CommandRequestView::Message { delivery: Some(wanted), .. },
                SessionEventView::DeliveryQueued { delivery: stored },
            ) => is_same_delivery(stored, wanted) ==> answers(event, request),
            (
                CommandRequestView::Delivery(wanted),
                SessionEventView::DeliveryQueued { delivery: stored },
            ) => is_same_delivery(stored, wanted) ==> answers(event, request),
            _ => true,
        },
{
}

/// Whether two deliveries are the same but for their places, their times and what became of them.
pub open spec fn is_same_delivery(left: QueuedDeliveryView, right: QueuedDeliveryView) -> bool {
    &&& left.delivery_id == right.delivery_id
    &&& left.kind == right.kind
    &&& left.dedupe_key == right.dedupe_key
    &&& left.wake == right.wake
    &&& left.source_tool_call_id == right.source_tool_call_id
    &&& payload_agrees(left.payload, right.payload)
}

/// Whether a record of a command is the only one.
pub open spec fn is_only_record(
    records: Seq<EventRecordView>,
    command_id: Seq<char>,
    index: int,
) -> bool {
    &&& 0 <= index < records.len()
    &&& records[index].command_id == command_id
    &&& forall|i: int|
        0 <= i < records.len() && i != index ==> (#[trigger] records[i]).command_id != command_id
}

proof fn lemma_command_records(records: Seq<EventRecordView>, command_id: Seq<char>)
    ensures
        records.filter(of_command(command_id)).len() == 0 <==> forall|i: int|
            0 <= i < records.len() ==> (#[trigger] records[i]).command_id != command_id,
        forall|index: int| #[trigger]
            is_only_record(records, command_id, index) ==> records.filter(of_command(command_id))
                == seq![records[index]],
        records.filter(of_command(command_id)).len() == 1 ==> exists|index: int|
            is_only_record(records, command_id, index),
    decreases records.len(),
{
    reveal(Seq::filter);
    let keep = of_command(command_id);
    if records.len() == 0 {
        assert(records.filter(keep) =~= Seq::empty());
    } else {
        let front = records.drop_last();
        let last = records.last();
        lemma_command_records(front, command_id);
        assert(records[records.len() - 1] == last);
        assert(forall|i: int| 0 <= i < front.len() ==> front[i] == records[i]);
        assert(records.filter(keep) == if keep(last) {
            front.filter(keep).push(last)
        } else {
            front.filter(keep)
        });
        if last.command_id == command_id {
            assert(front.filter(keep).len() == 0 ==> is_only_record(
                records,
                command_id,
                records.len() - 1,
            )) by {
                if front.filter(keep).len() == 0 {
                    assert forall|i: int| 0 <= i < records.len() && i != records.len() - 1 implies (
                    #[trigger] records[i]).command_id != command_id by {
                        assert(front[i].command_id != command_id);
                    }
                }
            }
            assert forall|index: int| #[trigger]
                is_only_record(records, command_id, index) implies records.filter(keep)
                == seq![records[index]] by {
                assert(records[records.len() - 1].command_id == command_id);
                assert(index == records.len() - 1);
                assert forall|i: int| 0 <= i < front.len() implies (#[trigger] front[i]).command_id
                    != command_id by {
                    assert(records[i].command_id != command_id);
                }
                assert(front.filter(keep) =~= Seq::empty());
                assert(records.filter(keep) =~= seq![last]);
            }
        } else {
            assert forall|index: int| #[trigger]
                is_only_record(records, command_id, index) implies records.filter(keep)
                == seq![records[index]] by {
                assert(index < front.len());
                assert(is_only_record(front, command_id, index)) by {
                    assert forall|i: int| 0 <= i < front.len() && i != index implies (
                    #[trigger] front[i]).command_id != command_id by {
                        assert(records[i].command_id != command_id);
                    }
                }
            }
            if front.filter(keep).len() == 1 {
                let index = choose|index: int| is_only_record(front, command_id, index);
                assert(is_only_record(records, command_id, index)) by {
                    assert forall|i: int| 0 <= i < records.len() && i != index implies (
                    #[trigger] records[i]).command_id != command_id by {
                        if i < front.len() {
                            assert(front[i].command_id != command_id);
                        }
                    }
                }
            }
        }
    }
}

/// A command finds nothing exactly if no record is its own. It finds its record again exactly if
/// that is the only one of its own and stored what is asked for now; it is told as found again, at
/// the version of the record, and with that record alone. In every other case it conflicts.
pub proof fn command_finds_its_own_record(
    session_id: Seq<char>,
    command_id: Seq<char>,
    records: Seq<EventRecordView>,
    request: CommandRequestView,
)
    ensures
        ({
            let found = replayed_command(session_id, command_id, records, request);
            &&& (found matches Ok(result) && result is None) <==> forall|i: int|
                0 <= i < records.len() ==> (#[trigger] records[i]).command_id != command_id
            &&& forall|index: int| #[trigger]
                is_only_record(records, command_id, index) ==> if answers(
                    records[index].event,
                    request,
                ) {
                    found matches Ok(Some(result)) && {
                        &&& result.replayed
                        &&& result.stream_id == session_id
                        &&& result.command_id == command_id
                        &&& result.stream_version == records[index].stream_version
                        &&& result.events == seq![records[index]]
                    }
                } else {
                    found is Err
                }
            &&& found matches Err(error) ==> error == ServiceErrorView::Conflict(
                "request conflicts with an existing command"@,
            )
            &&& found matches Ok(Some(_)) ==> exists|index: int|
                is_only_record(records, command_id, index)
        }),
{
    lemma_command_records(records, command_id);
}

/// Every event that is told has the position of one of the records as its id, beyond the position
/// that was told last; and the new position is that of the furthest record, or the old one.
pub proof fn only_later_records_are_told(last: u64, records: Seq<EventRecordView>)
    ensures
        forall|i: int|
            0 <= i < told_after(last, records).len() ==> exists|j: int|
                0 <= j < records.len() && (#[trigger] records[j]).global_position > last
                    && told_event(records[j]) == Some(#[trigger] told_after(last, records)[i])
                    && told_after(last, records)[i].id == decimal(
                    records[j].global_position as nat,
                ),
        position_after(last, records) >= last,
        forall|j: int|
            0 <= j < records.len() ==> (#[trigger] records[j]).global_position <= position_after(
                last,
                records,
            ),
        position_after(last, records) == last || exists|j: int|
            0 <= j < records.len() && (#[trigger] records[j]).global_position == position_after(
                last,
                records,
            ),
    decreases records.len(),
{
    if records.len() > 0 {
        let front = records.drop_last();
        only_later_records_are_told(last, front);
        let all = told_after(last, records);
        let earlier = told_after(last, front);
        assert(records[records.len() - 1] == records.last());
        assert forall|i: int| 0 <= i < all.len() implies exists|j: int|
            0 <= j < records.len() && (#[trigger] records[j]).global_position > last && told_event(
                records[j],
            ) == Some(#[trigger] all[i]) && all[i].id == decimal(
                records[j].global_position as nat,
            ) by {
            if i < earlier.len() {
                assert(all[i] == earlier[i]);
                let j = choose|j: int|
                    0 <= j < front.len() && (#[trigger] front[j]).global_position > last
                        && told_event(front[j]) == Some(earlier[i]);
                assert(records[j] == front[j]);
            } else {
                assert(told_event(records[records.len() - 1]) == Some(all[i]));
            }
        }
        assert forall|j: int| 0 <= j < records.len() implies (
        #[trigger] records[j]).global_position <= position_after(last, records) by {
            if j < front.len() {
                assert(front[j].global_position <= position_after(last, front));
            }
        }
        if position_after(last, front) != last {
            let j = choose|j: int|
                0 <= j < front.len() && (#[trigger] front[j]).global_position == position_after(
                    last,
                    front,
                );
            assert(records[j] == front[j]);
        }
    }
}

/// A record beyond all that was told before, and that is told at all, is told last.
pub proof fn next_record_is_told(
    last: u64,
    records: Seq<EventRecordView>,
    record: EventRecordView,
)
    ensures
        record.global_position > position_after(last, records) ==> {
            &&& position_after(last, records.push(record)) == record.global_position
            &&& told_event(record) matches Some(event) ==> told_after(last, records.push(record))
                == told_after(last, records).push(event)
            &&& told_event(record) is None ==> told_after(last, records.push(record))
                == told_after(last, records)
        },
        record.global_position <= position_after(last, records) ==> {
            &&& position_after(last, records.push(record)) == position_after(last, records)
            &&& told_after(last, records.push(record)) == told_after(last, records)
        },
{
    assert(records.push(record).drop_last() =~= records);
}

/// A message that is too long, or whose delivery would be, is refused as too large, and one that is
/// refused otherwise as invalid. A queue without a place left is full.
pub proof fn refused_messages_are_told_why(
    current: SessionStateView,
    command: MessageCommandView,
    fault: DomainErrorView,
)
    ensures
        message_failure(fault) is PayloadTooLarge <==> fault is DurablePayloadTooLarge
            || fault is TextTooLarge,
        message_failure(fault) is PayloadTooLarge || message_failure(fault)
            == ServiceErrorView::Invalid("invalid message request"@),
        inline_payload(delivery_content(command)) matches Err(held) ==> (delivery_draft_of(
            current,
            command,
        ) matches Err(error) && error == message_failure(held)),
        inline_payload(delivery_content(command)) is Ok && current.delivery_ack
            + current.delivery_queue.len() + 1 > u64::MAX ==> (delivery_draft_of(
            current,
            command,
        ) matches Err(error) && error == ServiceErrorView::Invalid("delivery queue is full"@)),
{
}

} // verus!
