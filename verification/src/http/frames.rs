//! What is sent over a stream of events: a comment first, and then a frame for each event that is
//! told.

use crate::domain::event::EventRecordView;
use crate::http::events::{
    event_body, failure_body, internal_error_body, text_body, told_event, PublicEventView,
    TransientModelEventView,
};
use crate::http::stream::{
    all_are, drained, hands_over, is_sound, lemma_step_source, passed,
    stream_never_goes_back, stream_step, tells_owned, text_is_told_in_its_turn, with_batch,
    EventStreamView, Ownership, StreamAction, StreamActionView, StreamInputView,
};
use crate::json::{json_view, JsonView};
use crate::number::decimal;
use serde_json::Value;
use vstd::prelude::*;

verus! {

/// A frame of a stream.
#[derive(Clone, Debug, PartialEq)]
pub enum StreamFrame {
    /// A comment, which clients pass over.
    Comment(&'static str),
    /// An event. One that was stored has an id, by which a client comes back to it.
    Event { id: Option<String>, kind: &'static str, data: Value },
}

/// The content of a [`StreamFrame`].
pub enum StreamFrameView {
    Comment(Seq<char>),
    Event { id: Option<Seq<char>>, kind: Seq<char>, data: JsonView },
}

impl DeepView for StreamFrame {
    type V = StreamFrameView;

    open spec fn deep_view(&self) -> StreamFrameView {
        match self {
            StreamFrame::Comment(text) => StreamFrameView::Comment(text@),
            StreamFrame::Event { id, kind, data } => StreamFrameView::Event {
                id: id.deep_view(),
                kind: kind@,
                data: json_view(*data),
            },
        }
    }
}

/// The frame that opens a stream.
pub open spec fn opening() -> StreamFrameView {
    StreamFrameView::Comment("stream-open"@)
}

/// The frame that opens a stream.
pub fn opening_frame() -> (frame: StreamFrame)
    ensures
        frame.deep_view() == opening(),
{
    StreamFrame::Comment("stream-open")
}

/// The frame of a stored event.
pub open spec fn event_frame(event: PublicEventView) -> StreamFrameView {
    StreamFrameView::Event { id: Some(event.id), kind: event.kind, data: event_body(event) }
}

/// The frame of text of a model. It has no id: it is not stored.
pub open spec fn text_frame(event: TransientModelEventView) -> StreamFrameView {
    StreamFrameView::Event {
        id: None,
        kind: "assistant_message_delta"@,
        data: text_body(event),
    }
}

/// The frame of a failure.
pub open spec fn failure_frame() -> StreamFrameView {
    StreamFrameView::Event { id: None, kind: "error"@, data: failure_body() }
}

/// The frame that is sent for an action, if one is.
pub open spec fn frame_for(action: StreamActionView) -> Option<StreamFrameView> {
    match action {
        StreamActionView::TellDurable(event) => Some(event_frame(event)),
        StreamActionView::TellTransient(event) => Some(text_frame(event)),
        StreamActionView::Fail => Some(failure_frame()),
        _ => None,
    }
}

/// The frame that is sent for an action, if one is.
pub fn frame_of(action: &StreamAction) -> (frame: Option<StreamFrame>)
    ensures
        frame.deep_view() == frame_for(action.deep_view()),
{
    match action {
        StreamAction::TellDurable(event) => Some(
            StreamFrame::Event {
                id: Some(event.id.clone()),
                kind: event.kind,
                data: event.body(),
            },
        ),
        StreamAction::TellTransient(event) => Some(
            StreamFrame::Event {
                id: None,
                kind: "assistant_message_delta",
                data: event.body(),
            },
        ),
        StreamAction::Fail => Some(
            StreamFrame::Event { id: None, kind: "error", data: internal_error_body() },
        ),
        _ => None,
    }
}

/// What was sent after a number of inputs, each frame with the position that the stream had come to
/// with it, and the state that it has come to.
pub open spec fn sent(start: EventStreamView, inputs: Seq<StreamInputView>) -> (
    EventStreamView,
    Seq<(u64, StreamFrameView)>,
)
    decreases inputs.len(),
{
    if inputs.len() == 0 {
        (start, seq![(start.last_position, opening())])
    } else {
        let (before, frames) = sent(start, inputs.drop_last());
        let (next, action) = stream_step(before, inputs.last());
        match frame_for(action) {
            Some(frame) => (next, frames.push((next.last_position, frame))),
            None => (next, frames),
        }
    }
}

/// Whether a record is of one of the sessions.
pub open spec fn of_sessions(sessions: Set<Seq<char>>) -> spec_fn(EventRecordView) -> bool {
    |record: EventRecordView| sessions.contains(record.stream_id)
}

/// Whether what is handed to a stream is of the sessions of its client: the records that were read
/// are of them, and text is said to be owned only if it is.
pub open spec fn is_own(input: StreamInputView, sessions: Set<Seq<char>>) -> bool {
    &&& hands_over(input, of_sessions(sessions))
    &&& input matches StreamInputView::OwnerChecked(event, ownership) ==> ownership
        == Ownership::Owned ==> sessions.contains(event.session_id)
}

/// Whether a frame with an id tells a stored event of the sessions, at its position and under it as
/// its id, after the position at which the stream began.
pub open spec fn tells_stored(
    sent: (u64, StreamFrameView),
    after: u64,
    sessions: Set<Seq<char>>,
) -> bool {
    &&& sent.0 > after
    &&& sent.1->id == Some(decimal(sent.0 as nat))
    &&& exists|event: PublicEventView| #[trigger]
        tells_owned((sent.0, event), of_sessions(sessions)) && sent.1 == event_frame(event)
}

/// Whether a frame tells text of one of the sessions.
pub open spec fn tells_text(frame: StreamFrameView, sessions: Set<Seq<char>>) -> bool {
    exists|event: TransientModelEventView|
        sessions.contains(event.session_id) && frame == #[trigger] text_frame(event)
}

/// Whether a frame is one that may follow on the opening.
pub open spec fn is_due(
    sent: (u64, StreamFrameView),
    after: u64,
    sessions: Set<Seq<char>>,
) -> bool {
    &&& sent.1 is Event
    &&& sent.1->id is Some ==> tells_stored(sent, after, sessions)
    &&& sent.1->id is None ==> sent.1 == failure_frame() || tells_text(sent.1, sessions)
}

/// Whether a frame has an id.
pub open spec fn has_id(sent: (u64, StreamFrameView)) -> bool {
    sent.1 is Event && sent.1->id is Some
}

proof fn lemma_drained_sessions(stream: EventStreamView, sessions: Set<Seq<char>>)
    requires
        all_are(stream.batch, of_sessions(sessions)),
        stream.owned_sessions.subset_of(sessions),
    ensures
        drained(stream).0.owned_sessions.subset_of(sessions),
    decreases stream.batch.len(),
{
    if stream.batch.len() > 0 {
        let record = stream.batch[0];
        let rest = stream.batch.skip(1);
        assert(of_sessions(sessions)(record));
        assert(all_are(rest, of_sessions(sessions))) by {
            assert forall|i: int| 0 <= i < rest.len() implies of_sessions(sessions)(
                #[trigger] rest[i],
            ) by {
                assert(rest[i] == stream.batch[i + 1]);
            }
        }
        if record.global_position > stream.catch_up_through {
        } else if record.global_position <= stream.last_position {
            lemma_drained_sessions(EventStreamView { batch: rest, ..stream }, sessions);
        } else {
            let next = passed(stream, record);
            assert(all_are(next.batch, of_sessions(sessions)));
            if told_event(record) is None && next.catch_up_pending {
                lemma_drained_sessions(next, sessions);
            }
        }
    }
}

proof fn lemma_step_sessions(
    stream: EventStreamView,
    input: StreamInputView,
    sessions: Set<Seq<char>>,
)
    requires
        all_are(stream.batch, of_sessions(sessions)),
        stream.owned_sessions.subset_of(sessions),
        is_own(input, sessions),
    ensures
        stream_step(stream, input).0.owned_sessions.subset_of(sessions),
{
    lemma_drained_sessions(with_batch(stream, input), sessions);
}

/// Over a whole run, the first frame is the opening comment. The ids of the frames that have one
/// rise strictly, lie above the position after which the stream began, and each is the position of
/// a stored event of the client that is told. The other frames have no id: they tell text of
/// sessions of the client, or a failure.
pub proof fn frames_are_sent_in_order(
    start: EventStreamView,
    inputs: Seq<StreamInputView>,
    sessions: Set<Seq<char>>,
)
    requires
        is_sound(start),
        all_are(start.batch, of_sessions(sessions)),
        start.owned_sessions.subset_of(sessions),
        forall|i: int| 0 <= i < inputs.len() ==> is_own(#[trigger] inputs[i], sessions),
    ensures
        ({
            let (now, frames) = sent(start, inputs);
            &&& is_sound(now)
            &&& all_are(now.batch, of_sessions(sessions))
            &&& now.owned_sessions.subset_of(sessions)
            &&& now.last_position >= start.last_position
            &&& frames.len() > 0 && frames[0].1 == opening()
            &&& forall|i: int|
                0 <= i < frames.len() ==> (#[trigger] frames[i]).0 <= now.last_position
            &&& forall|i: int|
                0 < i < frames.len() ==> is_due(
                    #[trigger] frames[i],
                    start.last_position,
                    sessions,
                )
            &&& forall|i: int, j: int|
                0 <= i < j < frames.len() && has_id(#[trigger] frames[i]) && has_id(
                    #[trigger] frames[j],
                ) ==> frames[i].0 < frames[j].0
        }),
    decreases inputs.len(),
{
    if inputs.len() > 0 {
        let earlier = inputs.drop_last();
        assert forall|i: int| 0 <= i < earlier.len() implies is_own(
            #[trigger] earlier[i],
            sessions,
        ) by {
            assert(earlier[i] == inputs[i]);
        }
        frames_are_sent_in_order(start, earlier, sessions);
        let (before, frames) = sent(start, earlier);
        let input = inputs.last();
        assert(is_own(inputs[inputs.len() - 1], sessions));
        stream_never_goes_back(before, input);
        text_is_told_in_its_turn(before, input);
        lemma_step_source(before, input, of_sessions(sessions));
        lemma_step_sessions(before, input, sessions);
        let (now, action) = stream_step(before, input);
        let (_, all) = sent(start, inputs);
        if let Some(frame) = frame_for(action) {
            let added = (now.last_position, frame);
            assert(all == frames.push(added));
            match action {
                StreamActionView::TellDurable(event) => {
                    assert(tells_owned((now.last_position, event), of_sessions(sessions)));
                    assert(tells_stored(added, start.last_position, sessions));
                },
                StreamActionView::TellTransient(event) => {
                    assert(frame == text_frame(event));
                    assert(tells_text(frame, sessions));
                },
                _ => {},
            }
            assert(is_due(added, start.last_position, sessions));
        } else {
            assert(all == frames);
        }
    }
}

} // verus!
