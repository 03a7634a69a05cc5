//! What a configuration hands to the parts of the endpoint.

use crate::config::{
    runtime_fault, ProviderExecutionConfig, RetryDispatch, RunningRestart, RuntimeConfig,
    ToolCompletion, ToolConfig, ToolConfigView,
};
use crate::datum::Datum;
use crate::domain::tools::CompletionMode;
use crate::http::capabilities::{CapabilityTool, CapabilityToolView};
use crate::json::{Json, JsonView};
use crate::text::contains_text;
use vstd::prelude::*;

verus! {

/// The limits that the runtime works with.
#[derive(Clone, Copy, Debug, Eq, PartialEq, Structural)]
pub struct RuntimeOptions {
    pub snapshot_every: Option<u64>,
    pub tool_foreground_ms: u64,
    pub max_rounds_per_activation: u32,
    pub model_step_max_attempts: u32,
    pub model_retry_base_ms: u64,
    pub model_retry_max_ms: u64,
    pub model_stream_idle_timeout_ms: u64,
}

/// The limits that the runtime works with.
pub open spec fn options_of(runtime: RuntimeConfig) -> RuntimeOptions {
    RuntimeOptions {
        snapshot_every: runtime.snapshot_every_events,
        tool_foreground_ms: runtime.tool_foreground_ms,
        max_rounds_per_activation: runtime.max_rounds_per_activation as u32,
        model_step_max_attempts: runtime.model_step_max_attempts as u32,
        model_retry_base_ms: runtime.model_retry_base_ms,
        model_retry_max_ms: runtime.model_retry_max_ms,
        model_stream_idle_timeout_ms: runtime.model_stream_idle_timeout_ms,
    }
}

/// The limits that the runtime works with.
pub fn runtime_options(runtime: RuntimeConfig) -> (options: RuntimeOptions)
    ensures
        options == options_of(runtime),
{
    RuntimeOptions {
        snapshot_every: runtime.snapshot_every_events,
        tool_foreground_ms: runtime.tool_foreground_ms,
        max_rounds_per_activation: #[verifier::truncate] (
        runtime.max_rounds_per_activation as u32),
        model_step_max_attempts: #[verifier::truncate] (runtime.model_step_max_attempts as u32),
        model_retry_base_ms: runtime.model_retry_base_ms,
        model_retry_max_ms: runtime.model_retry_max_ms,
        model_stream_idle_timeout_ms: runtime.model_stream_idle_timeout_ms,
    }
}

/// Limits that were accepted reach the runtime unchanged.
pub proof fn accepted_limits_are_kept(runtime: RuntimeConfig)
    requires
        runtime_fault(runtime) is None,
    ensures
        options_of(runtime).max_rounds_per_activation == runtime.max_rounds_per_activation,
        options_of(runtime).model_step_max_attempts == runtime.model_step_max_attempts,
        options_of(runtime).max_rounds_per_activation > 0,
        options_of(runtime).model_step_max_attempts > 0,
        options_of(runtime).model_retry_base_ms <= options_of(runtime).model_retry_max_ms,
{
}

/// The adapters and the origins that may be used: none, where nothing is said of them.
pub fn provider_execution_policy(execution: &Option<ProviderExecutionConfig>) -> (policy: (
    Vec<String>,
    Vec<String>,
))
    ensures
        match execution {
            Some(execution) => policy.0.deep_view() == execution.adapter_kinds.deep_view()
                && policy.1.deep_view() == execution.allowed_base_url_origins.deep_view(),
            None => policy.0.len() == 0 && policy.1.len() == 0,
        },
{
    match execution {
        Some(execution) => (
            execution.adapter_kinds.replica(),
            execution.allowed_base_url_origins.replica(),
        ),
        None => (Vec::new(), Vec::new()),
    }
}

/// A tool that is called over HTTP.
#[derive(Clone, Debug, PartialEq)]
pub struct HttpToolSpec {
    pub name: String,
    pub description: String,
    pub input_schema: Json,
    pub adapter_url: String,
    pub completion_mode: CompletionMode,
    pub auto_wait_seconds: Option<u32>,
    pub running_restart: RunningRestart,
    pub retry_dispatch: RetryDispatch,
}

/// The content of a [`HttpToolSpec`].
pub struct HttpToolSpecView {
    pub name: Seq<char>,
    pub description: Seq<char>,
    pub input_schema: JsonView,
    pub adapter_url: Seq<char>,
    pub completion_mode: CompletionMode,
    pub auto_wait_seconds: Option<u32>,
    pub running_restart: RunningRestart,
    pub retry_dispatch: RetryDispatch,
}

impl DeepView for HttpToolSpec {
    type V = HttpToolSpecView;

    open spec fn deep_view(&self) -> HttpToolSpecView {
        HttpToolSpecView {
            name: self.name@,
            description: self.description@,
            input_schema: self.input_schema.deep_view(),
            adapter_url: self.adapter_url@,
            completion_mode: self.completion_mode,
            auto_wait_seconds: self.auto_wait_seconds,
            running_restart: self.running_restart,
            retry_dispatch: self.retry_dispatch,
        }
    }
}

impl Datum for HttpToolSpec {
    fn replica(&self) -> (copy: Self) {
        HttpToolSpec {
            name: self.name.clone(),
            description: self.description.clone(),
            input_schema: self.input_schema.replica(),
            adapter_url: self.adapter_url.clone(),
            completion_mode: self.completion_mode,
            auto_wait_seconds: self.auto_wait_seconds,
            running_restart: self.running_restart,
            retry_dispatch: self.retry_dispatch,
        }
    }
}

/// A tool as it is called: one that answers at once lives in this process.
pub open spec fn spec_of(tool: ToolConfigView) -> HttpToolSpecView {
    HttpToolSpecView {
        name: tool.name,
        description: tool.description,
        input_schema: tool.input_schema,
        adapter_url: tool.adapter.url,
        completion_mode: match tool.completion_mode {
            ToolCompletion::Response => CompletionMode::ProcessLocal,
            ToolCompletion::ExternalCallback => CompletionMode::ExternalCallback,
        },
        auto_wait_seconds: Some(tool.auto_wait_timeout_seconds as u32),
        running_restart: tool.recovery.on_running_restart,
        retry_dispatch: tool.recovery.retry_dispatch,
    }
}

fn tool_spec(tool: &ToolConfig) -> (made: HttpToolSpec)
    ensures
        made.deep_view() == spec_of(tool.deep_view()),
{
    HttpToolSpec {
        name: tool.name.clone(),
        description: tool.description.clone(),
        input_schema: tool.input_schema.replica(),
        adapter_url: tool.adapter.url.clone(),
        completion_mode: match tool.completion_mode {
            ToolCompletion::Response => CompletionMode::ProcessLocal,
            ToolCompletion::ExternalCallback => CompletionMode::ExternalCallback,
        },
        auto_wait_seconds: Some(#[verifier::truncate] (tool.auto_wait_timeout_seconds as u32)),
        running_restart: tool.recovery.on_running_restart,
        retry_dispatch: tool.recovery.retry_dispatch,
    }
}

/// The tools as they are called.
pub open spec fn specs_of(tools: Seq<ToolConfigView>) -> Seq<HttpToolSpecView> {
    tools.map_values(|tool: ToolConfigView| spec_of(tool))
}

/// The tools as they are called.
pub fn tool_specs(tools: &Vec<ToolConfig>) -> (specs: Vec<HttpToolSpec>)
    ensures
        specs.deep_view() == specs_of(tools.deep_view()),
{
    let ghost view = tools.deep_view();
    let mut specs: Vec<HttpToolSpec> = Vec::with_capacity(tools.len());
    let mut index: usize = 0;
    assert(specs.deep_view() =~= specs_of(view.take(0)));
    while index < tools.len()
        invariant
            view == tools.deep_view(),
            index <= tools.len(),
            specs.deep_view() == specs_of(view.take(index as int)),
        decreases tools.len() - index,
    {
        let ghost before = specs.deep_view();
        let made = tool_spec(&tools[index]);
        let ghost added = made.deep_view();
        specs.push(made);
        assert(specs.deep_view() =~= before.push(added));
        assert(specs.deep_view() =~= specs_of(view.take(index + 1)));
        index += 1;
    }
    assert(view.take(index as int) =~= view);
    specs
}

/// The tools that a configuration offers, by name and way of ending.
pub open spec fn configured_tools(tools: Seq<ToolConfigView>) -> Seq<CapabilityToolView> {
    tools.map_values(
        |tool: ToolConfigView|
            CapabilityToolView { name: tool.name, completion_mode: tool.completion_mode },
    )
}

/// The tools that a configuration offers, by name and way of ending.
pub fn capability_tools(tools: &Vec<ToolConfig>) -> (offered: Vec<CapabilityTool>)
    ensures
        offered.deep_view() == configured_tools(tools.deep_view()),
{
    let ghost view = tools.deep_view();
    let mut offered: Vec<CapabilityTool> = Vec::with_capacity(tools.len());
    let mut index: usize = 0;
    assert(offered.deep_view() =~= configured_tools(view.take(0)));
    while index < tools.len()
        invariant
            view == tools.deep_view(),
            index <= tools.len(),
            offered.deep_view() == configured_tools(view.take(index as int)),
        decreases tools.len() - index,
    {
        let ghost before = offered.deep_view();
        let tool = CapabilityTool {
            name: tools[index].name.clone(),
            completion_mode: tools[index].completion_mode,
        };
        let ghost added = tool.deep_view();
        offered.push(tool);
        assert(offered.deep_view() =~= before.push(added));
        assert(offered.deep_view() =~= configured_tools(view.take(index + 1)));
        index += 1;
    }
    assert(view.take(index as int) =~= view);
    offered
}

/// The tools of a session: those of the offered ones that it selected, in the order in which they
/// are offered.
pub open spec fn selected_of(
    selected: Seq<Seq<char>>,
    tools: Seq<HttpToolSpecView>,
) -> Seq<HttpToolSpecView> {
    tools.filter(|tool: HttpToolSpecView| selected.contains(tool.name))
}

/// The tools of a session.
pub fn selected_tools(selected: &Vec<String>, tools: &Vec<HttpToolSpec>) -> (chosen: Vec<
    HttpToolSpec,
>)
    ensures
        chosen.deep_view() == selected_of(selected.deep_view(), tools.deep_view()),
{
    let ghost view = tools.deep_view();
    let ghost keep = |tool: HttpToolSpecView| selected.deep_view().contains(tool.name);
    let mut chosen: Vec<HttpToolSpec> = Vec::new();
    let mut index: usize = 0;
    proof {
        reveal(Seq::filter);
        assert(view.take(0) =~= Seq::empty());
        assert(chosen.deep_view() =~= Seq::empty());
    }
    while index < tools.len()
        invariant
            view == tools.deep_view(),
            keep == (|tool: HttpToolSpecView| selected.deep_view().contains(tool.name)),
            index <= tools.len(),
            chosen.deep_view() == view.take(index as int).filter(keep),
        decreases tools.len() - index,
    {
        proof {
            reveal(Seq::filter);
            assert(view.take(index + 1).drop_last() =~= view.take(index as int));
        }
        assert(view[index as int] == tools[index as int].deep_view());
        if contains_text(selected, &tools[index].name) {
            let ghost before = chosen.deep_view();
            chosen.push(tools[index].replica());
            assert(chosen.deep_view() =~= before.push(view[index as int]));
        }
        index += 1;
    }
    assert(view.take(index as int) =~= view);
    chosen
}

} // verus!
