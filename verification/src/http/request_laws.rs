//! What holds of requests and answers: how headers and bodies are read, what is refused, and with
//! which status.

use crate::domain::selection::SessionOwnerView;
use crate::domain::state::SessionStateView;
use crate::domain::validity::{is_identifier, owners_are_sound};
use crate::config::ToolCompletion;
use crate::http::capabilities::{
    answers_at_once, capabilities_of, CapabilityTool, CapabilityToolView, OutboundCapability,
};
use crate::http::errors::{
    callback_not_found_answer, conflict_answer, error_body, internal_answer, invalid_answer,
    malformed_answer, payload_too_large_answer, receipt_not_found_answer,
    replica_not_found_answer, replica_unavailable_answer, service_answer,
    session_not_found_answer, tool_not_found_answer, unauthenticated_answer, ApiErrorView,
    ServiceErrorView,
};
use crate::http::headers::{
    bearer_in, callback_token, content_type_fault, has_white, is_visible, last_event_position,
    lower_code,
    media_type, optional_key, part_before, replay_only, required_key, rotation_key,
    same_but_for_case, trimmed, value_text, without_back, without_front,
};
use crate::http::owner::{owner_for, seen_by};
use crate::http::requests::{
    callback_fault, cancel_reason_fault, create_body_fault, is_blank, list_limit_of,
    replica_request_of, shared_owner, told_replica, ExternalCallbackStatus, ReplicaRequestKind,
};
use crate::http::told::entry;
use crate::http::views::replica_json;
use crate::json::JsonView;
use crate::number::{decimal, unsigned_number};
use crate::replicas::ReplicaMetadataView;
use crate::sorting::{is_in_order, sorting_orders_all};
use crate::text::{byte_len, is_white};
use vstd::prelude::*;
use vstd::string::*;
use vstd::utf8::{decode_utf8, valid_utf8};

verus! {

/// Whether a text is white throughout.
pub open spec fn all_white(text: Seq<char>) -> bool {
    forall|i: int| 0 <= i < text.len() ==> is_white(#[trigger] text[i])
}

/// Whether a text is a middle part of another, with white space around it and none at its ends.
pub open spec fn is_core(core: Seq<char>, text: Seq<char>) -> bool {
    &&& exists|front: Seq<char>, back: Seq<char>| #[trigger]
        (front + core + back) == text && all_white(front) && all_white(back)
    &&& core.len() > 0 ==> !is_white(core[0]) && !is_white(core.last())
}

proof fn lemma_front(text: Seq<char>)
    ensures
        exists|front: Seq<char>| #[trigger]
            (front + without_front(text)) == text && all_white(front),
        without_front(text).len() > 0 ==> !is_white(without_front(text)[0]),
        without_front(text).len() <= text.len(),
        text.len() > 0 && without_front(text).len() > 0 ==> without_front(text).last()
            == text.last(),
    decreases text.len(),
{
    if text.len() > 0 && is_white(text[0]) {
        let rest = text.drop_first();
        lemma_front(rest);
        let front = choose|front: Seq<char>| #[trigger]
            (front + without_front(rest)) == rest && all_white(front);
        let more = seq![text[0]] + front;
        assert(more + without_front(rest) =~= text) by {
            assert(seq![text[0]] + rest =~= text);
            assert(more + without_front(rest) =~= seq![text[0]] + (front + without_front(rest)));
        }
        assert(more + without_front(text) == text);
        assert(all_white(more));
    } else {
        let none = Seq::<char>::empty();
        assert(none + without_front(text) =~= text);
        assert(all_white(none));
    }
}

proof fn lemma_back(text: Seq<char>)
    ensures
        exists|back: Seq<char>| #[trigger] (without_back(text) + back) == text && all_white(back),
        without_back(text).len() > 0 ==> !is_white(without_back(text).last()),
        without_back(text).len() <= text.len(),
        without_back(text).len() > 0 ==> without_back(text)[0] == text[0],
    decreases text.len(),
{
    if text.len() > 0 && is_white(text.last()) {
        let rest = text.drop_last();
        lemma_back(rest);
        let back = choose|back: Seq<char>| #[trigger]
            (without_back(rest) + back) == rest && all_white(back);
        let more = back.push(text.last());
        assert(without_back(rest) + more =~= text) by {
            assert(rest.push(text.last()) =~= text);
            assert(without_back(rest) + more =~= (without_back(rest) + back).push(text.last()));
        }
        assert(without_back(text) + more == text);
        assert(all_white(more));
    } else {
        let none = Seq::<char>::empty();
        assert(without_back(text) + none =~= text);
        assert(all_white(none));
    }
}

/// A value is trimmed of the white space around it, and of nothing else.
pub proof fn values_are_trimmed(text: Seq<char>)
    ensures
        is_core(trimmed(text), text),
{
    lemma_front(text);
    let rest = without_front(text);
    lemma_back(rest);
    let front = choose|front: Seq<char>| #[trigger] (front + rest) == text && all_white(front);
    let back = choose|back: Seq<char>| #[trigger]
        (without_back(rest) + back) == rest && all_white(back);
    assert(front + trimmed(text) + back =~= text) by {
        assert(front + (trimmed(text) + back) =~= front + trimmed(text) + back);
    }
}

proof fn lemma_untrimmed(text: Seq<char>)
    requires
        text.len() > 0,
        !is_white(text[0]),
        !is_white(text.last()),
    ensures
        trimmed(text) == text,
{
}

/// What stands before the first character that is picked: all that comes before it, or everything.
pub proof fn parts_end_at_the_first_pick(text: Seq<char>, pick: spec_fn(char) -> bool)
    ensures
        ({
            let part = part_before(text, pick);
            &&& part.len() <= text.len()
            &&& part == text.take(part.len() as int)
            &&& forall|i: int| 0 <= i < part.len() ==> !pick(#[trigger] part[i])
            &&& part.len() < text.len() ==> pick(text[part.len() as int])
        }),
    decreases text.len(),
{
    let part = part_before(text, pick);
    if text.len() == 0 || pick(text[0]) {
        assert(part =~= text.take(0));
    } else {
        let rest = text.drop_first();
        parts_end_at_the_first_pick(rest, pick);
        let tail = part_before(rest, pick);
        assert(part =~= seq![text[0]] + tail);
        assert(part =~= text.take(part.len() as int)) by {
            assert(tail == rest.take(tail.len() as int));
        }
        assert forall|i: int| 0 <= i < part.len() implies !pick(#[trigger] part[i]) by {
            if i > 0 {
                assert(part[i] == tail[i - 1]);
            }
        }
    }
}

/// Letters count the same whether they are small or capital, and nothing else does.
pub proof fn case_does_not_count(left: Seq<char>, right: Seq<char>)
    ensures
        same_but_for_case(left, left),
        same_but_for_case(left, right) == same_but_for_case(right, left),
        same_but_for_case(left, right) ==> left.len() == right.len() && forall|i: int|
            0 <= i < left.len() ==> {
                ||| #[trigger] left[i] as u32 == right[i] as u32
                ||| 'A' <= left[i] <= 'Z' && right[i] as u32 == left[i] as u32 + 32
                ||| 'A' <= right[i] <= 'Z' && left[i] as u32 == right[i] as u32 + 32
            },
{
    if same_but_for_case(left, right) {
        assert forall|i: int| 0 <= i < left.len() implies {
            ||| #[trigger] left[i] as u32 == right[i] as u32
            ||| 'A' <= left[i] <= 'Z' && right[i] as u32 == left[i] as u32 + 32
            ||| 'A' <= right[i] <= 'Z' && left[i] as u32 == right[i] as u32 + 32
        } by {
            assert(lower_code(left[i]) == lower_code(right[i]));
        }
        assert forall|i: int| 0 <= i < right.len() implies lower_code(#[trigger] right[i])
            == lower_code(left[i]) by {
            assert(lower_code(left[i]) == lower_code(right[i]));
        }
    }
    if same_but_for_case(right, left) {
        assert forall|i: int| 0 <= i < left.len() implies lower_code(#[trigger] left[i])
            == lower_code(right[i]) by {
            assert(lower_code(right[i]) == lower_code(left[i]));
        }
    }
}

/// A value of a header is text exactly if all its bytes are visible, spaces or tabs; its characters
/// are its bytes.
pub proof fn header_values_are_visible(bytes: Seq<u8>)
    ensures
        value_text(bytes) is Some <==> forall|i: int|
            0 <= i < bytes.len() ==> 32 <= #[trigger] bytes[i] <= 126 || bytes[i] == 9,
        value_text(bytes) matches Some(text) ==> text.len() == bytes.len() && forall|i: int|
            0 <= i < bytes.len() ==> #[trigger] text[i] as u32 == bytes[i] as u32,
{
    if forall|i: int| 0 <= i < bytes.len() ==> 32 <= #[trigger] bytes[i] <= 126 || bytes[i] == 9 {
        assert forall|i: int| 0 <= i < bytes.len() implies is_visible(
            #[trigger] bytes[i],
        ) by {}
    }
    if value_text(bytes) is Some {
        assert forall|i: int| 0 <= i < bytes.len() implies 32 <= #[trigger] bytes[i] <= 126
            || bytes[i] == 9 by {
            assert(is_visible(bytes[i]));
        }
    }
}

/// The content of a request is accepted exactly if its type is given once, and what stands before a
/// semicolon is that of JSON, whatever the case. A type that is given twice is malformed; a wrong
/// one is told as such.
pub proof fn json_is_accepted(values: Seq<Seq<u8>>)
    ensures
        content_type_fault(values) is None <==> values.len() == 1 && (value_text(
            values[0],
        ) matches Some(text) && same_but_for_case(media_type(text), "application/json"@)),
        values.len() > 1 ==> content_type_fault(values) == Some(malformed_answer()),
        values.len() <= 1 && content_type_fault(values) is Some ==> content_type_fault(values)
            == Some(invalid_answer("content type must be application/json"@)),
{
}

/// The type of a content is the core of what stands before the first semicolon.
pub proof fn media_types_end_at_a_semicolon(text: Seq<char>, at: int)
    requires
        0 <= at <= text.len(),
        forall|i: int| 0 <= i < at ==> text[i] != ';',
        at < text.len() ==> text[at] == ';',
    ensures
        is_core(media_type(text), text.take(at)),
{
    let pick = |c: char| c == ';';
    parts_end_at_the_first_pick(text, pick);
    let part = part_before(text, pick);
    if part.len() < at {
        assert(pick(text[part.len() as int]));
    } else if part.len() > at {
        assert(!pick(part[at]));
        assert(part[at] == text[at]);
    }
    values_are_trimmed(part);
}

/// A key is taken exactly if it is given once, is there, is not too long and is text; it is taken
/// as it stands. None is none, where that is allowed. A key that is given twice, one that is too
/// long, one that is no text and one that is empty are told apart.
pub proof fn keys_are_taken_as_they_stand(values: Seq<Seq<u8>>)
    ensures
        (optional_key(values) matches Ok(key) && key is None) <==> values.len() == 0,
        (optional_key(values) matches Ok(key) && key is Some) <==> values.len() == 1 && 1
            <= values[0].len() <= 1024 && value_text(values[0]) is Some,
        optional_key(values) matches Ok(Some(key)) ==> Some(key) == value_text(values[0]),
        values.len() > 1 ==> (optional_key(values) matches Err(error) && error
            == ServiceErrorView::Invalid("duplicate Idempotency-Key"@)),
        values.len() == 1 && values[0].len() > 1024 ==> (optional_key(values) matches Err(error)
            && error == ServiceErrorView::PayloadTooLarge),
        required_key(values) is Ok <==> (optional_key(values) matches Ok(key) && key is Some),
        required_key(values) matches Ok(key) ==> Some(key) == value_text(values[0]),
        values.len() == 0 ==> (required_key(values) matches Err(error) && error
            == ServiceErrorView::Invalid("Idempotency-Key header is required"@)),
{
}

/// Only an earlier command is asked for exactly if that is said, once and in the one way. Saying
/// nothing asks for the command itself, and every other word is refused.
pub proof fn replays_are_asked_for(values: Seq<Seq<u8>>)
    ensures
        replay_only(values) == Ok::<bool, ServiceErrorView>(true) <==> values.len() == 1
            && value_text(values[0]) == Some("replay-only"@),
        replay_only(values) == Ok::<bool, ServiceErrorView>(false) <==> values.len() == 0,
        values.len() > 1 ==> replay_only(values) == Err::<bool, ServiceErrorView>(
            ServiceErrorView::Malformed,
        ),
        values.len() == 1 && (value_text(values[0]) matches Some(text) && text
            != "replay-only"@) ==> replay_only(values) == Err::<bool, ServiceErrorView>(
            ServiceErrorView::Invalid("unsupported idempotency mode"@),
        ),
{
}

/// The last event that a client has seen is the number that it gives, once; none is none; and
/// anything else is malformed.
pub proof fn last_events_are_numbers(values: Seq<Seq<u8>>)
    ensures
        last_event_position(values) == Ok::<Option<u64>, ServiceErrorView>(None) <==> values.len()
            == 0,
        (last_event_position(values) matches Ok(position) && position is Some) <==> values.len()
            == 1 && (value_text(values[0]) matches Some(text) && unsigned_number(text) is Some),
        last_event_position(values) matches Ok(Some(position)) ==> unsigned_number(
            value_text(values[0])->0,
        ) == Some(position),
        last_event_position(values) matches Err(error) ==> error == ServiceErrorView::Malformed,
{
}

/// The key of a rotation is given once, is text, is there and is not too long; it is taken as it
/// stands.
pub proof fn rotation_keys_are_taken_as_they_stand(values: Seq<Seq<u8>>)
    ensures
        rotation_key(values) is Ok <==> values.len() == 1 && 1 <= values[0].len() <= 1024
            && valid_utf8(values[0]),
        rotation_key(values) matches Ok(key) ==> key == decode_utf8(values[0]),
        rotation_key(values) matches Err(error) ==> error == if values.len() == 1 && values[0].len()
            > 1024 {
            payload_too_large_answer()
        } else {
            malformed_answer()
        },
{
}

/// A token that is found is there, has no white space in it, and is a part of the value; the value
/// is given once and is text.
pub proof fn tokens_are_whole(values: Seq<Seq<u8>>, text: Seq<char>)
    ensures
        bearer_in(text) matches Some(token) ==> token.len() > 0 && !has_white(token),
        callback_token(values) is Some ==> values.len() == 1 && (value_text(
            values[0],
        ) matches Some(held) && callback_token(values) == bearer_in(held)),
        values.len() == 1 && (value_text(values[0]) matches Some(held) && bearer_in(held) is Some)
            ==> callback_token(values) is Some,
{
}

/// A token after the word for a bearer and a space is found as it stands, whatever the case of the
/// word.
pub proof fn bearers_are_found(scheme: Seq<char>, token: Seq<char>)
    requires
        same_but_for_case(scheme, "bearer"@),
        token.len() > 0,
        !has_white(token),
    ensures
        bearer_in(scheme + seq![' '] + token) == Some(token),
{
    reveal_strlit("bearer");
    assert("bearer"@.len() == 6);
    let text = scheme + seq![' '] + token;
    let pick = |c: char| is_white(c);
    assert forall|i: int| 0 <= i < scheme.len() implies !is_white(#[trigger] scheme[i]) by {
        assert(lower_code(scheme[i]) == lower_code("bearer"@[i]));
        assert("bearer"@[0] == 'b' && "bearer"@[1] == 'e' && "bearer"@[2] == 'a' && "bearer"@[3]
            == 'r' && "bearer"@[4] == 'e' && "bearer"@[5] == 'r');
    }
    assert(!is_white(token[0]));
    assert(!is_white(token[token.len() - 1]));
    assert(text[0] == scheme[0]);
    assert(text.last() == token.last());
    lemma_untrimmed(text);
    parts_end_at_the_first_pick(text, pick);
    let part = part_before(text, pick);
    assert(text[6] == ' ');
    if part.len() < 6 {
        assert(pick(text[part.len() as int]));
        assert(text[part.len() as int] == scheme[part.len() as int]);
    } else if part.len() > 6 {
        assert(!pick(part[6]));
        assert(part[6] == text[6]);
    }
    assert(part =~= scheme);
    assert(text.skip(7) =~= token);
    lemma_untrimmed(token);
}

/// A request without the word for a bearer has no token.
pub proof fn other_schemes_have_no_token(text: Seq<char>)
    requires
        text.len() > 0,
        !is_white(text[0]),
        !is_white(text.last()),
        text[0] as u32 != 'b' as u32,
        text[0] as u32 != 'B' as u32,
    ensures
        bearer_in(text) is None,
{
    reveal_strlit("bearer");
    assert("bearer"@.len() == 6);
    assert("bearer"@[0] == 'b');
    lemma_untrimmed(text);
    let pick = |c: char| is_white(c);
    parts_end_at_the_first_pick(text, pick);
    let scheme = part_before(text, pick);
    if same_but_for_case(scheme, "bearer"@) {
        assert(lower_code(scheme[0]) == lower_code("bearer"@[0]));
        assert(scheme[0] == text[0]);
    }
}

/// A session is asked for by an object without an id: the endpoint makes the ids.
pub proof fn sessions_are_named_by_the_endpoint(body: JsonView)
    ensures
        create_body_fault(body) is None <==> body is Object && entry(body, "session_id"@) is None,
        create_body_fault(body) matches Some(answer) ==> answer.status == 422,
{
}

/// A list is as long as is asked for, fifty where nothing is asked; at least one and not more than
/// allowed.
pub proof fn lists_are_bounded(limit: Option<u64>, most: u64)
    ensures
        limit matches Some(asked) ==> (list_limit_of(limit, most) == Ok::<u64, ApiErrorView>(asked)
            <==> 1 <= asked <= most),
        limit is None && most >= 50 ==> list_limit_of(limit, most) == Ok::<u64, ApiErrorView>(50),
        list_limit_of(limit, most) matches Err(error) ==> error == invalid_answer(
            "limit must be between 1 and "@ + decimal(most as nat),
        ),
        list_limit_of(limit, most) matches Ok(asked) ==> 1 <= asked <= most,
{
}

/// A cancellation has a reason that is not too long.
pub proof fn cancellations_have_reasons(reason: Seq<char>)
    ensures
        cancel_reason_fault(reason) is None <==> reason.len() > 0 && byte_len(reason) <= 8192,
        reason.len() > 0 && byte_len(reason) > 8192 ==> cancel_reason_fault(reason) == Some(
            payload_too_large_answer(),
        ),
        reason.len() == 0 ==> (cancel_reason_fault(reason) matches Some(answer) && answer.status
            == 422),
{
}

/// A callback is taken exactly if it completes with a result and no error, or fails with an error
/// and no result, whose class and words are there and not too long.
pub proof fn callbacks_say_how_it_ended(
    status: ExternalCallbackStatus,
    has_result: bool,
    error: Option<(Seq<char>, Seq<char>)>,
)
    ensures
        callback_fault(status, has_result, error) is None <==> match status {
            ExternalCallbackStatus::Completed => has_result && error is None,
            ExternalCallbackStatus::Failed => !has_result && (error matches Some((class, message))
                && {
                &&& !is_blank(class)
                &&& !is_blank(message)
                &&& byte_len(class) <= 512
                &&& byte_len(message) <= 8192
            }),
        },
        status == ExternalCallbackStatus::Failed && !has_result && (error matches Some(
            (class, message),
        ) && !is_blank(class) && !is_blank(message) && (byte_len(class) > 512 || byte_len(message)
            > 8192)) ==> callback_fault(status, has_result, error) == Some(
            payload_too_large_answer(),
        ),
{
}

/// A request for a replica is one to install or to withdraw by its schema, and nothing else.
pub proof fn replica_requests_are_told_apart(body: JsonView)
    ensures
        replica_request_of(body) == Ok::<ReplicaRequestKind, ApiErrorView>(
            ReplicaRequestKind::Install,
        ) <==> entry(body, "schema"@) == Some(JsonView::Text("zode.auth-replica.install.v1"@)),
        replica_request_of(body) == Ok::<ReplicaRequestKind, ApiErrorView>(
            ReplicaRequestKind::Tombstone,
        ) <==> entry(body, "schema"@) == Some(JsonView::Text("zode.auth-replica.tombstone.v1"@)),
        replica_request_of(body) matches Err(answer) ==> answer.status == 422,
{
    reveal_strlit("zode.auth-replica.install.v1");
    reveal_strlit("zode.auth-replica.tombstone.v1");
    assert("zode.auth-replica.install.v1"@.len() == 28);
    assert("zode.auth-replica.tombstone.v1"@.len() == 30);
}

/// A replica is found by its profile, the first of that name; where there is none, that is told.
pub proof fn replicas_are_found_by_profile(
    metadata: Seq<ReplicaMetadataView>,
    profile_id: Seq<char>,
)
    ensures
        told_replica(metadata, profile_id) is Err <==> forall|i: int|
            0 <= i < metadata.len() ==> (#[trigger] metadata[i]).profile_id != profile_id,
        told_replica(metadata, profile_id) matches Err(answer) ==> answer
            == replica_not_found_answer(),
        told_replica(metadata, profile_id) matches Ok(told) ==> exists|i: int|
            0 <= i < metadata.len() && (#[trigger] metadata[i]).profile_id == profile_id && told
                == replica_json(metadata[i]),
    decreases metadata.len(),
{
    if metadata.len() > 0 && metadata[0].profile_id != profile_id {
        let rest = metadata.skip(1);
        replicas_are_found_by_profile(rest, profile_id);
        if told_replica(rest, profile_id) is Err {
            assert forall|i: int| 0 <= i < metadata.len() implies (
            #[trigger] metadata[i]).profile_id != profile_id by {
                if i > 0 {
                    assert(rest[i - 1].profile_id != profile_id);
                }
            }
        } else {
            let i = choose|i: int|
                0 <= i < rest.len() && (#[trigger] rest[i]).profile_id == profile_id
                    && told_replica(rest, profile_id) == Ok::<JsonView, ApiErrorView>(
                    replica_json(rest[i]),
                );
            assert(metadata[i + 1] == rest[i]);
        }
    }
}

/// The sessions that are shared belong to one owner.
pub proof fn shared_sessions_have_one_owner()
    ensures
        shared_owner().authority_id == "local"@,
        shared_owner().subject == "shared"@,
{
}

/// Every answer to a failure has the status and the code of its kind. Only a credential that is not
/// there now may be asked for again.
pub proof fn answers_have_their_status(message: Seq<char>)
    ensures
        malformed_answer().status == 400 && malformed_answer().code == "malformed_request"@,
        unauthenticated_answer().status == 401 && unauthenticated_answer().code
            == "unauthenticated"@,
        session_not_found_answer().status == 404 && session_not_found_answer().code
            == "session_not_found"@,
        tool_not_found_answer().status == 404 && tool_not_found_answer().code
            == "tool_call_not_found"@,
        callback_not_found_answer().status == 404 && callback_not_found_answer().code
            == "callback_not_found"@,
        replica_not_found_answer().status == 404 && replica_not_found_answer().code
            == "auth_replica_not_found"@,
        receipt_not_found_answer().status == 404 && receipt_not_found_answer().code
            == "idempotency_receipt_not_found"@,
        conflict_answer(message).status == 409 && conflict_answer(message).code == "conflict"@
            && conflict_answer(message).message == message,
        payload_too_large_answer().status == 413 && payload_too_large_answer().code
            == "payload_too_large"@,
        invalid_answer(message).status == 422 && invalid_answer(message).code
            == "invalid_request"@ && invalid_answer(message).message == message,
        internal_answer().status == 500 && internal_answer().code == "internal_error"@,
        replica_unavailable_answer().status == 503 && replica_unavailable_answer().code
            == "auth_replica_unavailable"@ && replica_unavailable_answer().retryable,
        !malformed_answer().retryable && !unauthenticated_answer().retryable
            && !session_not_found_answer().retryable && !tool_not_found_answer().retryable
            && !callback_not_found_answer().retryable && !replica_not_found_answer().retryable
            && !receipt_not_found_answer().retryable && !conflict_answer(message).retryable
            && !payload_too_large_answer().retryable && !invalid_answer(message).retryable
            && !internal_answer().retryable,
{
}

/// A failure of the service is answered with the status of its kind, and with its own words where
/// it has some. What failed inside is told as that alone.
pub proof fn failures_are_answered_by_kind(error: ServiceErrorView)
    ensures
        match error {
            ServiceErrorView::NotFound => service_answer(error).status == 404 && service_answer(
                error,
            ).code == "session_not_found"@,
            ServiceErrorView::IdempotencyReceiptNotFound => service_answer(error).status == 404
                && service_answer(error).code == "idempotency_receipt_not_found"@,
            ServiceErrorView::Conflict(message) => service_answer(error).status == 409
                && service_answer(error).message == message,
            ServiceErrorView::AuthReplicaUnavailable => service_answer(error).status == 503
                && service_answer(error).retryable,
            ServiceErrorView::Malformed => service_answer(error).status == 400,
            ServiceErrorView::Invalid(message) => service_answer(error).status == 422
                && service_answer(error).message == message,
            ServiceErrorView::PayloadTooLarge => service_answer(error).status == 413,
            ServiceErrorView::Backend => service_answer(error).status == 500 && service_answer(
                error,
            ).code == "internal_error"@,
        },
{
}

/// The body of an answer holds its code, its words and whether it may be asked again, within its
/// error.
pub proof fn answers_hold_their_error(error: ApiErrorView)
    ensures
        entry(error_body(error), "error"@) matches Some(inner) && {
            &&& entry(inner, "code"@) == Some(JsonView::Text(error.code))
            &&& entry(inner, "message"@) == Some(JsonView::Text(error.message))
            &&& entry(inner, "retryable"@) == Some(JsonView::Bool(error.retryable))
        },
{
    reveal_strlit("code");
    reveal_strlit("message");
    reveal_strlit("retryable");
    reveal_strlit("error");
    reveal_strlit("schema");
    assert("code"@.len() == 4);
    assert("message"@.len() == 7);
    assert("retryable"@.len() == 9);
    assert("error"@.len() == 5);
    assert("schema"@.len() == 6);
}

/// What an endpoint can do is told as it is set up: its adapters and tools, all of them and in the
/// order of their names, the credentials that the adapters take, and which ways out there are.
pub proof fn capabilities_are_told(
    kinds: Seq<Seq<char>>,
    tools: Seq<CapabilityToolView>,
    callbacks: bool,
)
    ensures
        ({
            let told = capabilities_of(kinds, tools, callbacks);
            let ways = told.outbound_capabilities;
            &&& told.provider_adapter_kinds.to_multiset() == kinds.to_multiset()
            &&& is_in_order::<String>(told.provider_adapter_kinds)
            &&& told.credential_schemas.contains("openai-compatible.api-key.v1"@)
                <==> kinds.contains("openai_compatible"@)
            &&& told.credential_schemas.contains("anthropic.api-key.v1"@) <==> kinds.contains(
                "anthropic"@,
            )
            &&& ways.contains(OutboundCapability::ProviderHttp) <==> kinds.len() > 0
            &&& ways.contains(OutboundCapability::ToolHttp) <==> told.tools.len() > 0
            &&& is_in_order::<CapabilityTool>(told.tools)
            &&& callbacks ==> told.tools.to_multiset() == tools.to_multiset()
        }),
{
    reveal_strlit("openai-compatible.api-key.v1");
    reveal_strlit("anthropic.api-key.v1");
    reveal_strlit("openai_compatible");
    reveal_strlit("anthropic");
    assert("openai-compatible.api-key.v1"@.len() == 28);
    assert("anthropic.api-key.v1"@.len() == 20);
    assert("openai_compatible"@.len() == 17);
    assert("anthropic"@.len() == 9);
    sorting_orders_all::<String>(kinds);
    sorting_orders_all::<CapabilityTool>(tools);
    let chosen = if callbacks {
        tools
    } else {
        tools.filter(answers_at_once())
    };
    sorting_orders_all::<CapabilityTool>(chosen);
    let told = capabilities_of(kinds, tools, callbacks);
    let schemas = told.credential_schemas;
    if kinds.contains("openai_compatible"@) {
        assert(schemas[0] == "openai-compatible.api-key.v1"@);
    }
    if kinds.contains("anthropic"@) {
        assert(schemas[schemas.len() - 1] == "anthropic.api-key.v1"@);
    }
    let ways = told.outbound_capabilities;
    let offered = told.tools;
    let first: int = if kinds.len() > 0 {
        1
    } else {
        0
    };
    if kinds.len() > 0 {
        assert(ways[0] == OutboundCapability::ProviderHttp);
    }
    if offered.len() > 0 {
        assert(ways[first] == OutboundCapability::ToolHttp);
    }
}

/// What a request is about belongs to its subject within its authority, if both can name something,
/// and to all where no subject is given.
pub proof fn requests_have_their_owner(authority_id: Seq<char>, subject: Option<Seq<char>>)
    ensures
        subject is None ==> (owner_for(authority_id, subject) matches Ok(owner) && owner
            == shared_owner()),
        subject matches Some(name) ==> match owner_for(authority_id, subject) {
            Ok(owner) => owner.authority_id == authority_id && owner.subject == name
                && is_identifier(authority_id) && is_identifier(name),
            Err(answer) => answer == malformed_answer() && !(is_identifier(authority_id)
                && is_identifier(name)),
        },
{
    if let Some(name) = subject {
        owners_are_sound(SessionOwnerView { authority_id, subject: name });
    }
}

/// A session is seen by its owner and by no other, to whom it is not there.
pub proof fn sessions_are_seen_by_their_owner(
    found: Option<SessionStateView>,
    owner: SessionOwnerView,
)
    ensures
        match seen_by(found, owner) {
            Ok(state) => found == Some(state) && state.owner == Some(owner),
            Err(error) => error is SessionNotFound && (found matches Some(state) ==> state.owner
                != Some(owner)),
        },
{
}

/// The answers whose words are not those of the failure have words of their own.
pub proof fn answers_have_their_words()
    ensures
        malformed_answer().message == "malformed request"@,
        unauthenticated_answer().message == "authentication required"@,
        session_not_found_answer().message == "session was not found"@,
        tool_not_found_answer().message == "tool call was not found"@,
        callback_not_found_answer().message == "callback was not found"@,
        replica_not_found_answer().message == "credential replica was not found"@,
        receipt_not_found_answer().message == "idempotency receipt was not found"@,
        payload_too_large_answer().message == "request payload is too large"@,
        internal_answer().message == "internal server error"@,
        replica_unavailable_answer().message == "credential replica is unavailable"@,
{
}

/// Where tools cannot call back, those that would are not offered, and all others are; where they
/// can, the way back is open exactly if a tool takes it.
pub proof fn tools_that_call_back_are_offered_where_they_can(
    kinds: Seq<Seq<char>>,
    tools: Seq<CapabilityToolView>,
    callbacks: bool,
)
    ensures
        ({
            let told = capabilities_of(kinds, tools, callbacks);
            let ways = told.outbound_capabilities;
            let kept = tools.filter(
                |tool: CapabilityToolView|
                    tool.completion_mode != ToolCompletion::ExternalCallback,
            );
            &&& !callbacks ==> told.tools.to_multiset() == kept.to_multiset()
            &&& ways.contains(OutboundCapability::ExternalCallback) <==> callbacks && exists|
                i: int,
            |
                0 <= i < told.tools.len() && #[trigger] told.tools[i].completion_mode
                    == ToolCompletion::ExternalCallback
            &&& ways.len() <= 3
        }),
{
    let kept = tools.filter(
        |tool: CapabilityToolView| tool.completion_mode != ToolCompletion::ExternalCallback,
    );
    assert(answers_at_once() =~= |tool: CapabilityToolView|
        tool.completion_mode != ToolCompletion::ExternalCallback);
    sorting_orders_all::<CapabilityTool>(kept);
    let told = capabilities_of(kinds, tools, callbacks);
    let ways = told.outbound_capabilities;
    if callbacks && (exists|i: int|
        0 <= i < told.tools.len() && #[trigger] told.tools[i].completion_mode
            == ToolCompletion::ExternalCallback) {
        assert(ways[ways.len() - 1] == OutboundCapability::ExternalCallback);
    }
}

} // verus!
