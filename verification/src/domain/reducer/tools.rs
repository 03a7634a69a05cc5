//! Tool calls and callbacks.

use super::step::{changed, kept, one_more, outcome, refused, Step};
use crate::datum::{Datum, Same};
use crate::domain::error::{invalid, invalid_state, DomainError, DomainErrorView};
use crate::domain::history::{declared_call, find_declared_call};
use crate::domain::payload::{payload_agrees, DurablePayload, DurablePayloadView};
use crate::domain::state::{is_bound, SessionState, SessionStateView};
use crate::domain::tools::{
    record_agrees, terminal, AsyncCallbackBinding, AsyncCallbackBindingView, AsyncToolCallRecord,
    AsyncToolCallRecordView, AsyncToolStatus, CompletionMode, ToolError, ToolErrorView,
};
use crate::domain::MAX_ASYNC_TOOL_CALLS;
use crate::text::same_text;
use crate::text_map::{lookup, stored, TextMap};
use vstd::prelude::*;

verus! {

/// The state with a tool call record in place.
pub open spec fn with_call(
    state: SessionStateView,
    id: Seq<char>,
    record: AsyncToolCallRecordView,
) -> SessionStateView {
    SessionStateView { async_tool_calls: stored(state.async_tool_calls, id, record), ..state }
}

/// The state with a callback binding in place.
pub open spec fn with_binding(
    state: SessionStateView,
    id: Seq<char>,
    binding: AsyncCallbackBindingView,
) -> SessionStateView {
    SessionStateView { callback_bindings: stored(state.callback_bindings, id, binding), ..state }
}

/// A declared tool call starts. The same start again changes nothing.
#[verifier::opaque]
pub open spec fn call_started_step(
    state: SessionStateView,
    record: AsyncToolCallRecordView,
) -> Step {
    let id = record.tool_call_id;
    if let Some(existing) = lookup(state.async_tool_calls, id) {
        if record_agrees(existing, record) {
            kept(state)
        } else {
            refused(DomainErrorView::ConflictingAsyncToolCallStart(id))
        }
    } else {
        match declared_call(state.transcript, id) {
            None => refused(DomainErrorView::UnknownToolCall(id)),
            Some(declared) => if declared.tool_name != record.tool_name || !payload_agrees(
                declared.input,
                record.input,
            ) {
                refused(DomainErrorView::ConflictingToolCallIdentity(id))
            } else if state.async_tool_calls.len() >= MAX_ASYNC_TOOL_CALLS {
                refused(
                    DomainErrorView::CollectionTooLarge {
                        field: "async tool calls"@,
                        items: one_more(state.async_tool_calls.len()),
                        max: MAX_ASYNC_TOOL_CALLS,
                    },
                )
            } else {
                changed(with_call(state, id, record))
            },
        }
    }
}

/// A planned call runs, or one of unknown outcome that may safely be sent again. A call that an
/// external callback completes must be bound first.
#[verifier::opaque]
pub open spec fn call_running_step(state: SessionStateView, id: Seq<char>) -> Step {
    match lookup(state.async_tool_calls, id) {
        None => refused(DomainErrorView::UnknownAsyncToolCall(id)),
        Some(record) => if record.completion_mode == CompletionMode::ExternalCallback && !is_bound(
            state.callback_bindings,
            id,
        ) {
            refused(
                invalid("external callback tool must be bound before it becomes running"@),
            )
        } else if record.status == AsyncToolStatus::Running {
            kept(state)
        } else if record.status == AsyncToolStatus::Planned || (record.status
            == AsyncToolStatus::UnknownOutcome && record.retry_dispatch_deduplicated) {
            changed(
                with_call(
                    state,
                    id,
                    AsyncToolCallRecordView { status: AsyncToolStatus::Running, ..record },
                ),
            )
        } else {
            refused(
                invalid("only a planned or safely reconcilable tool call can become running"@),
            )
        },
    }
}

/// The outcome of a running call is lost.
#[verifier::opaque]
pub open spec fn outcome_unknown_step(state: SessionStateView, id: Seq<char>) -> Step {
    match lookup(state.async_tool_calls, id) {
        None => refused(DomainErrorView::UnknownAsyncToolCall(id)),
        Some(record) => if record.status == AsyncToolStatus::UnknownOutcome {
            kept(state)
        } else if record.status == AsyncToolStatus::Running {
            changed(
                with_call(
                    state,
                    id,
                    AsyncToolCallRecordView { status: AsyncToolStatus::UnknownOutcome, ..record },
                ),
            )
        } else {
            refused(invalid("only a running tool call can become unknown outcome"@))
        },
    }
}

/// How a tool call ended.
pub enum CallEnd {
    Completed(DurablePayload),
    Failed(ToolError),
    Cancelled(String),
    RuntimeRestarted(ToolError),
}

/// The content of a [`CallEnd`].
pub enum CallEndView {
    Completed(DurablePayloadView),
    Failed(ToolErrorView),
    Cancelled(Seq<char>),
    RuntimeRestarted(ToolErrorView),
}

impl DeepView for CallEnd {
    type V = CallEndView;

    open spec fn deep_view(&self) -> CallEndView {
        match self {
            CallEnd::Completed(result) => CallEndView::Completed(result.deep_view()),
            CallEnd::Failed(error) => CallEndView::Failed(error.deep_view()),
            CallEnd::Cancelled(reason) => CallEndView::Cancelled(reason.deep_view()),
            CallEnd::RuntimeRestarted(error) => CallEndView::RuntimeRestarted(error.deep_view()),
        }
    }
}

/// A record of a call that has ended: the status, the one field that goes with it, and the time.
pub open spec fn ended_record(
    record: AsyncToolCallRecordView,
    end: CallEndView,
    completed_at_ms: i64,
) -> AsyncToolCallRecordView {
    let ended = AsyncToolCallRecordView {
        result: None,
        error: None,
        cancel_reason: None,
        completed_at_ms: Some(completed_at_ms),
        ..record
    };
    match end {
        CallEndView::Completed(result) => AsyncToolCallRecordView {
            status: AsyncToolStatus::Completed,
            result: Some(result),
            ..ended
        },
        CallEndView::Failed(error) => AsyncToolCallRecordView {
            status: AsyncToolStatus::Failed,
            error: Some(error),
            ..ended
        },
        CallEndView::Cancelled(reason) => AsyncToolCallRecordView {
            status: AsyncToolStatus::Cancelled,
            cancel_reason: Some(reason),
            ..ended
        },
        CallEndView::RuntimeRestarted(error) => AsyncToolCallRecordView {
            status: AsyncToolStatus::RuntimeRestarted,
            error: Some(error),
            ..ended
        },
    }
}

/// The end of a call, if it does not come before the start.
pub open spec fn end_call(
    state: SessionStateView,
    id: Seq<char>,
    record: AsyncToolCallRecordView,
    end: CallEndView,
    completed_at_ms: i64,
) -> Result<SessionStateView, DomainErrorView> {
    if completed_at_ms < record.started_at_ms {
        Err(
            DomainErrorView::InvalidTimestampOrder {
                start: record.started_at_ms,
                end: completed_at_ms,
            },
        )
    } else {
        Ok(with_call(state, id, ended_record(record, end, completed_at_ms)))
    }
}

/// A call ends with a restart of the runtime. A call that has ended, or whose outcome is unknown,
/// stays as it is.
#[verifier::opaque]
pub open spec fn restarted_step(
    state: SessionStateView,
    id: Seq<char>,
    reason: Seq<char>,
    completed_at_ms: i64,
) -> Step {
    match lookup(state.async_tool_calls, id) {
        None => refused(DomainErrorView::UnknownAsyncToolCall(id)),
        Some(record) => if record.status == AsyncToolStatus::UnknownOutcome || terminal(
            record.status,
        ) {
            kept(state)
        } else {
            match end_call(
                state,
                id,
                record,
                CallEndView::RuntimeRestarted(
                    ToolErrorView { class: "runtime_restarted"@, message: reason },
                ),
                completed_at_ms,
            ) {
                Ok(next) => changed(next),
                Err(fault) => refused(fault),
            }
        },
    }
}

/// A call ends. The first end counts: a call that has ended stays as it is. The outcome of a call
/// that was lost cannot be rewritten.
#[verifier::opaque]
pub open spec fn call_ended_step(
    state: SessionStateView,
    id: Seq<char>,
    end: CallEndView,
    completed_at_ms: i64,
) -> Step {
    match lookup(state.async_tool_calls, id) {
        None => refused(DomainErrorView::UnknownAsyncToolCall(id)),
        Some(record) => if record.status == AsyncToolStatus::UnknownOutcome {
            refused(DomainErrorView::UnknownOutcomeTerminalConflict(id))
        } else if terminal(record.status) {
            kept(state)
        } else {
            match end_call(state, id, record, end, completed_at_ms) {
                Ok(next) => changed(next),
                Err(fault) => refused(fault),
            }
        },
    }
}

/// A callback is bound to a call that has not ended. A callback has one binding and a call one
/// callback.
#[verifier::opaque]
pub open spec fn callback_planned_step(
    state: SessionStateView,
    binding: AsyncCallbackBindingView,
) -> Step {
    match lookup(state.async_tool_calls, binding.tool_call_id) {
        None => refused(DomainErrorView::UnknownAsyncToolCall(binding.tool_call_id)),
        Some(record) => if record.completion_mode != CompletionMode::ExternalCallback {
            refused(invalid("callback binding requires external-callback tool mode"@))
        } else if record.status != AsyncToolStatus::Planned && record.status
            != AsyncToolStatus::Running {
            refused(invalid("callback binding requires a nonterminal tool call"@))
        } else if let Some(existing) = lookup(state.callback_bindings, binding.callback_id) {
            if existing == binding {
                kept(state)
            } else {
                refused(invalid("callback id has conflicting binding"@))
            }
        } else if is_bound(state.callback_bindings, binding.tool_call_id) {
            refused(invalid("tool call already has a callback binding"@))
        } else {
            changed(with_binding(state, binding.callback_id, binding))
        },
    }
}

/// A callback ends its call. The same payload again changes nothing, and another is refused, as is
/// a callback for a call that has ended otherwise.
#[verifier::opaque]
pub open spec fn callback_ended_step(
    state: SessionStateView,
    callback_id: Seq<char>,
    id: Seq<char>,
    payload_fingerprint: Seq<char>,
    end: CallEndView,
    completed_at_ms: i64,
) -> Step {
    match lookup(state.callback_bindings, callback_id) {
        None => refused(DomainErrorView::UnknownCallback(callback_id)),
        Some(binding) => if binding.tool_call_id != id {
            refused(invalid("callback completion belongs to another tool call"@))
        } else if binding.payload_fingerprint == Some(payload_fingerprint) {
            kept(state)
        } else if binding.payload_fingerprint is Some {
            refused(DomainErrorView::CallbackPayloadConflict(callback_id))
        } else {
            match lookup(state.async_tool_calls, id) {
                None => refused(DomainErrorView::UnknownAsyncToolCall(id)),
                Some(record) => if terminal(record.status) {
                    refused(DomainErrorView::CallbackTerminalConflict(id))
                } else {
                    match end_call(state, id, record, end, completed_at_ms) {
                        Ok(next) => changed(
                            with_binding(
                                next,
                                callback_id,
                                AsyncCallbackBindingView {
                                    payload_fingerprint: Some(payload_fingerprint),
                                    ..binding
                                },
                            ),
                        ),
                        Err(fault) => refused(fault),
                    }
                },
            }
        },
    }
}

/// A call reports progress. A call that has ended, or the same progress again, changes nothing.
#[verifier::opaque]
pub open spec fn progress_step(
    state: SessionStateView,
    id: Seq<char>,
    progress: DurablePayloadView,
) -> Step {
    match lookup(state.async_tool_calls, id) {
        None => refused(DomainErrorView::UnknownAsyncToolCall(id)),
        Some(record) => if terminal(record.status) || (record.progress matches Some(known)
            && payload_agrees(known, progress)) {
            kept(state)
        } else {
            changed(
                with_call(
                    state,
                    id,
                    AsyncToolCallRecordView { progress: Some(progress), ..record },
                ),
            )
        },
    }
}

fn has_binding(bindings: &TextMap<AsyncCallbackBinding>, tool_call_id: &str) -> (found: bool)
    ensures
        found == is_bound(bindings.deep_view(), tool_call_id@),
{
    let ghost view = bindings.deep_view();
    let mut index: usize = 0;
    while index < bindings.len()
        invariant
            view == bindings.deep_view(),
            index <= view.len(),
            forall|i: int|
                0 <= i < index ==> (#[trigger] view[i]).1.tool_call_id != tool_call_id@,
        decreases view.len() - index,
    {
        if same_text(&bindings.value_at(index).tool_call_id, tool_call_id) {
            assert(view[index as int].1.tool_call_id == tool_call_id@);
            return true;
        }
        index += 1;
    }
    false
}

impl SessionState {
    fn call_record(&self, id: &String) -> (result: Result<AsyncToolCallRecord, DomainError>)
        ensures
            match lookup(self.deep_view().async_tool_calls, id@) {
                Some(record) => result matches Ok(found) && found.deep_view() == record,
                None => result matches Err(error) && error.deep_view()
                    == DomainErrorView::UnknownAsyncToolCall(id@),
            },
    {
        match self.async_tool_calls.get(id) {
            Some(record) => Ok(record.replica()),
            None => Err(DomainError::UnknownAsyncToolCall(id.clone())),
        }
    }

    fn store_call(&mut self, id: &String, record: AsyncToolCallRecord)
        ensures
            final(self).deep_view() == with_call(
                old(self).deep_view(),
                id@,
                record.deep_view(),
            ),
    {
        self.async_tool_calls.insert(id.clone(), record);
    }

    pub(crate) fn start_call(&mut self, record: &AsyncToolCallRecord) -> (result: Result<
        bool,
        DomainError,
    >)
        ensures
            outcome(result, *final(self)) == call_started_step(
                old(self).deep_view(),
                record.deep_view(),
            ),
            result is Err ==> final(self).deep_view() == old(self).deep_view(),
    {
        proof {
            reveal(call_started_step);
        }
        let id = &record.tool_call_id;
        if let Some(existing) = self.async_tool_calls.get(id) {
            if existing.agrees(record) {
                return Ok(false);
            }
            return Err(DomainError::ConflictingAsyncToolCallStart(id.clone()));
        }
        match find_declared_call(&self.transcript, id) {
            None => {
                return Err(DomainError::UnknownToolCall(id.clone()));
            },
            Some(declared) => {
                if !declared.tool_name.same(&record.tool_name) || !declared.input.agrees(
                    &record.input,
                ) {
                    return Err(DomainError::ConflictingToolCallIdentity(id.clone()));
                }
            },
        }
        if self.async_tool_calls.len() >= MAX_ASYNC_TOOL_CALLS {
            return Err(
                DomainError::CollectionTooLarge {
                    field: "async tool calls",
                    items: self.async_tool_calls.len().saturating_add(1),
                    max: MAX_ASYNC_TOOL_CALLS,
                },
            );
        }
        self.store_call(id, record.replica());
        Ok(true)
    }

    pub(crate) fn run_call(&mut self, id: &String) -> (result: Result<bool, DomainError>)
        ensures
            outcome(result, *final(self)) == call_running_step(old(self).deep_view(), id@),
            result is Err ==> final(self).deep_view() == old(self).deep_view(),
    {
        proof {
            reveal(call_running_step);
        }
        let mut record = self.call_record(id)?;
        if record.completion_mode == CompletionMode::ExternalCallback && !has_binding(
            &self.callback_bindings,
            id,
        ) {
            return Err(
                invalid_state("external callback tool must be bound before it becomes running"),
            );
        }
        if record.status == AsyncToolStatus::Running {
            return Ok(false);
        }
        if record.status != AsyncToolStatus::Planned && !(record.status
            == AsyncToolStatus::UnknownOutcome && record.retry_dispatch_deduplicated) {
            return Err(
                invalid_state(
                    "only a planned or safely reconcilable tool call can become running",
                ),
            );
        }
        record.status = AsyncToolStatus::Running;
        self.store_call(id, record);
        Ok(true)
    }

    pub(crate) fn lose_call_outcome(&mut self, id: &String) -> (result: Result<bool, DomainError>)
        ensures
            outcome(result, *final(self)) == outcome_unknown_step(old(self).deep_view(), id@),
            result is Err ==> final(self).deep_view() == old(self).deep_view(),
    {
        proof {
            reveal(outcome_unknown_step);
        }
        let mut record = self.call_record(id)?;
        match record.status {
            AsyncToolStatus::Running => {},
            AsyncToolStatus::UnknownOutcome => {
                return Ok(false);
            },
            _ => {
                return Err(invalid_state("only a running tool call can become unknown outcome"));
            },
        }
        record.status = AsyncToolStatus::UnknownOutcome;
        self.store_call(id, record);
        Ok(true)
    }

    fn finish_call(
        &mut self,
        id: &String,
        record: AsyncToolCallRecord,
        end: CallEnd,
        completed_at_ms: i64,
    ) -> (result: Result<bool, DomainError>)
        ensures
            outcome(result, *final(self)) == match end_call(
                old(self).deep_view(),
                id@,
                record.deep_view(),
                end.deep_view(),
                completed_at_ms,
            ) {
                Ok(next) => changed(next),
                Err(fault) => refused(fault),
            },
            result is Err ==> final(self).deep_view() == old(self).deep_view(),
    {
        if completed_at_ms < record.started_at_ms {
            return Err(
                DomainError::InvalidTimestampOrder {
                    start: record.started_at_ms,
                    end: completed_at_ms,
                },
            );
        }
        let mut ended = record;
        ended.result = None;
        ended.error = None;
        ended.cancel_reason = None;
        ended.completed_at_ms = Some(completed_at_ms);
        match end {
            CallEnd::Completed(payload) => {
                ended.status = AsyncToolStatus::Completed;
                ended.result = Some(payload);
            },
            CallEnd::Failed(error) => {
                ended.status = AsyncToolStatus::Failed;
                ended.error = Some(error);
            },
            CallEnd::Cancelled(reason) => {
                ended.status = AsyncToolStatus::Cancelled;
                ended.cancel_reason = Some(reason);
            },
            CallEnd::RuntimeRestarted(error) => {
                ended.status = AsyncToolStatus::RuntimeRestarted;
                ended.error = Some(error);
            },
        }
        self.store_call(id, ended);
        Ok(true)
    }

    pub(crate) fn restart_call(
        &mut self,
        id: &String,
        reason: &String,
        completed_at_ms: i64,
    ) -> (result: Result<bool, DomainError>)
        ensures
            outcome(result, *final(self)) == restarted_step(
                old(self).deep_view(),
                id@,
                reason@,
                completed_at_ms,
            ),
            result is Err ==> final(self).deep_view() == old(self).deep_view(),
    {
        proof {
            reveal(restarted_step);
        }
        let record = self.call_record(id)?;
        if record.status == AsyncToolStatus::UnknownOutcome || record.status.is_terminal() {
            return Ok(false);
        }
        let error = ToolError { class: "runtime_restarted".to_string(), message: reason.clone() };
        self.finish_call(id, record, CallEnd::RuntimeRestarted(error), completed_at_ms)
    }

    pub(crate) fn end_tool_call(
        &mut self,
        id: &String,
        end: CallEnd,
        completed_at_ms: i64,
    ) -> (result: Result<bool, DomainError>)
        ensures
            outcome(result, *final(self)) == call_ended_step(
                old(self).deep_view(),
                id@,
                end.deep_view(),
                completed_at_ms,
            ),
            result is Err ==> final(self).deep_view() == old(self).deep_view(),
    {
        proof {
            reveal(call_ended_step);
        }
        let record = self.call_record(id)?;
        if record.status == AsyncToolStatus::UnknownOutcome {
            return Err(DomainError::UnknownOutcomeTerminalConflict(id.clone()));
        }
        if record.status.is_terminal() {
            return Ok(false);
        }
        self.finish_call(id, record, end, completed_at_ms)
    }

    pub(crate) fn plan_callback(&mut self, binding: &AsyncCallbackBinding) -> (result: Result<
        bool,
        DomainError,
    >)
        ensures
            outcome(result, *final(self)) == callback_planned_step(
                old(self).deep_view(),
                binding.deep_view(),
            ),
            result is Err ==> final(self).deep_view() == old(self).deep_view(),
    {
        proof {
            reveal(callback_planned_step);
        }
        let record = self.call_record(&binding.tool_call_id)?;
        if record.completion_mode != CompletionMode::ExternalCallback {
            return Err(invalid_state("callback binding requires external-callback tool mode"));
        }
        if !matches!(record.status, AsyncToolStatus::Planned | AsyncToolStatus::Running) {
            return Err(invalid_state("callback binding requires a nonterminal tool call"));
        }
        if let Some(existing) = self.callback_bindings.get(&binding.callback_id) {
            if existing.same(binding) {
                return Ok(false);
            }
            return Err(invalid_state("callback id has conflicting binding"));
        }
        if has_binding(&self.callback_bindings, &binding.tool_call_id) {
            return Err(invalid_state("tool call already has a callback binding"));
        }
        self.callback_bindings.insert(binding.callback_id.clone(), binding.replica());
        Ok(true)
    }

    pub(crate) fn end_callback(
        &mut self,
        callback_id: &String,
        id: &String,
        payload_fingerprint: &String,
        end: CallEnd,
        completed_at_ms: i64,
    ) -> (result: Result<bool, DomainError>)
        ensures
            outcome(result, *final(self)) == callback_ended_step(
                old(self).deep_view(),
                callback_id@,
                id@,
                payload_fingerprint@,
                end.deep_view(),
                completed_at_ms,
            ),
            result is Err ==> final(self).deep_view() == old(self).deep_view(),
    {
        proof {
            reveal(callback_ended_step);
        }
        let mut binding = match self.callback_bindings.get(callback_id) {
            Some(binding) => binding.replica(),
            None => {
                return Err(DomainError::UnknownCallback(callback_id.clone()));
            },
        };
        if !same_text(&binding.tool_call_id, id) {
            return Err(invalid_state("callback completion belongs to another tool call"));
        }
        if let Some(existing) = &binding.payload_fingerprint {
            if same_text(existing, payload_fingerprint) {
                return Ok(false);
            }
            return Err(DomainError::CallbackPayloadConflict(callback_id.clone()));
        }
        let record = self.call_record(id)?;
        if record.status.is_terminal() {
            return Err(DomainError::CallbackTerminalConflict(id.clone()));
        }
        let effective = self.finish_call(id, record, end, completed_at_ms)?;
        binding.payload_fingerprint = Some(payload_fingerprint.clone());
        self.callback_bindings.insert(callback_id.clone(), binding);
        Ok(effective)
    }

    pub(crate) fn report_progress(&mut self, id: &String, progress: &DurablePayload) -> (result:
        Result<bool, DomainError>)
        ensures
            outcome(result, *final(self)) == progress_step(
                old(self).deep_view(),
                id@,
                progress.deep_view(),
            ),
            result is Err ==> final(self).deep_view() == old(self).deep_view(),
    {
        proof {
            reveal(progress_step);
        }
        let mut record = self.call_record(id)?;
        if record.status.is_terminal() {
            return Ok(false);
        }
        if let Some(known) = &record.progress {
            if known.agrees(progress) {
                return Ok(false);
            }
        }
        record.progress = Some(progress.replica());
        self.store_call(id, record);
        Ok(true)
    }
}

} // verus!
