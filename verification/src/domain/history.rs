//! What a history of messages holds.

use super::transcript::{
    declares, ToolCall, ToolCallView, TranscriptMessage, TranscriptMessageView,
    TranscriptRole,
};
use crate::checks::{first_index, first_match, lemma_first_index_is, lemma_no_first_index};
use crate::text::same_text;
use vstd::prelude::*;

verus! {

/// Accepts the message with the given id.
pub open spec fn named(id: Seq<char>) -> spec_fn(TranscriptMessageView) -> bool {
    |message: TranscriptMessageView| message.message_id == id
}

/// Accepts the call with the given id.
pub open spec fn call_named(id: Seq<char>) -> spec_fn(ToolCallView) -> bool {
    |call: ToolCallView| call.tool_call_id == id
}

/// Accepts a message that declares the call with the given id.
pub open spec fn declaring(id: Seq<char>) -> spec_fn(TranscriptMessageView) -> bool {
    |message: TranscriptMessageView| declares(message.tool_calls, id)
}

/// Whether a message has the given id.
pub open spec fn has_message(history: Seq<TranscriptMessageView>, id: Seq<char>) -> bool {
    exists|i: int| 0 <= i < history.len() && (#[trigger] history[i]).message_id == id
}

/// Whether a message of a user has the given id.
pub open spec fn has_user_message(history: Seq<TranscriptMessageView>, id: Seq<char>) -> bool {
    exists|i: int|
        0 <= i < history.len() && (#[trigger] history[i]).message_id == id && history[i].role
            == TranscriptRole::User
}

/// Whether a message declares the call with the given id.
pub open spec fn is_declared(history: Seq<TranscriptMessageView>, id: Seq<char>) -> bool {
    exists|i: int| 0 <= i < history.len() && declares((#[trigger] history[i]).tool_calls, id)
}

/// The first call with the given id.
pub open spec fn declared_call(history: Seq<TranscriptMessageView>, id: Seq<char>) -> Option<
    ToolCallView,
> {
    match first_match(history, declaring(id)) {
        Some(message) => first_match(message.tool_calls, call_named(id)),
        None => None,
    }
}

/// The position of the first message with the given id.
pub(crate) fn find_message(history: &Vec<TranscriptMessage>, id: &str) -> (found: Option<usize>)
    ensures
        match found {
            Some(index) => index < history.len() && first_index(history.deep_view(), named(id@))
                == Some(index as int) && has_message(history.deep_view(), id@),
            None => first_index(history.deep_view(), named(id@)) is None && !has_message(
                history.deep_view(),
                id@,
            ),
        },
{
    let ghost view = history.deep_view();
    let mut index: usize = 0;
    while index < history.len()
        invariant
            view == history.deep_view(),
            index <= history.len(),
            forall|i: int| 0 <= i < index ==> (#[trigger] view[i]).message_id != id@,
        decreases history.len() - index,
    {
        if same_text(&history[index].message_id, id) {
            proof {
                assert(view[index as int].message_id == id@);
                lemma_first_index_is(view, named(id@), index as int);
            }
            return Some(index);
        }
        index += 1;
    }
    proof {
        lemma_no_first_index(view, named(id@));
    }
    None
}

/// The first call with the given id.
pub(crate) fn find_declared_call<'a>(history: &'a Vec<TranscriptMessage>, id: &str) -> (found:
    Option<&'a ToolCall>)
    ensures
        found.deep_view() == declared_call(history.deep_view(), id@),
        found is Some == is_declared(history.deep_view(), id@),
{
    let ghost view = history.deep_view();
    let mut index: usize = 0;
    while index < history.len()
        invariant
            view == history.deep_view(),
            index <= history.len(),
            forall|i: int| 0 <= i < index ==> !declares((#[trigger] view[i]).tool_calls, id@),
        decreases history.len() - index,
    {
        if let Some(position) = find_call(&history[index].tool_calls, id) {
            proof {
                assert(declares(view[index as int].tool_calls, id@));
                lemma_first_index_is(view, declaring(id@), index as int);
            }
            return Some(&history[index].tool_calls[position]);
        }
        index += 1;
    }
    proof {
        lemma_no_first_index(view, declaring(id@));
    }
    None
}

fn find_call(calls: &Vec<ToolCall>, id: &str) -> (found: Option<usize>)
    ensures
        match found {
            Some(index) => index < calls.len() && first_match(calls.deep_view(), call_named(id@))
                == Some(calls.deep_view()[index as int]) && declares(calls.deep_view(), id@),
            None => !declares(calls.deep_view(), id@),
        },
{
    let ghost view = calls.deep_view();
    let mut index: usize = 0;
    while index < calls.len()
        invariant
            view == calls.deep_view(),
            index <= calls.len(),
            forall|i: int| 0 <= i < index ==> (#[trigger] view[i]).tool_call_id != id@,
        decreases calls.len() - index,
    {
        if same_text(&calls[index].tool_call_id, id) {
            proof {
                assert(view[index as int].tool_call_id == id@);
                lemma_first_index_is(view, call_named(id@), index as int);
            }
            return Some(index);
        }
        index += 1;
    }
    None
}

} // verus!
