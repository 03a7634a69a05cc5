//! What the endpoint says that it can do.

use crate::config::ToolCompletion;
use crate::datum::Datum;
use crate::provider::{credential_schema, credential_schema_for_adapter};
use crate::sorting::{in_name_order, sort_by_name, sorting_orders_all, Named};
use crate::text::contains_text;
use vstd::prelude::*;

verus! {

/// A tool that the endpoint offers.
#[derive(Clone, Debug, PartialEq)]
pub struct CapabilityTool {
    pub name: String,
    pub completion_mode: ToolCompletion,
}

/// The content of a [`CapabilityTool`].
pub struct CapabilityToolView {
    pub name: Seq<char>,
    pub completion_mode: ToolCompletion,
}

impl DeepView for CapabilityTool {
    type V = CapabilityToolView;

    open spec fn deep_view(&self) -> CapabilityToolView {
        CapabilityToolView { name: self.name@, completion_mode: self.completion_mode }
    }
}

impl Datum for CapabilityTool {
    fn replica(&self) -> (copy: Self) {
        CapabilityTool { name: self.name.clone(), completion_mode: self.completion_mode }
    }
}

impl Named for CapabilityTool {
    open spec fn name_of(content: CapabilityToolView) -> Seq<char> {
        content.name
    }

    fn name(&self) -> (name: &String) {
        &self.name
    }
}

/// A way in which the endpoint reaches out.
#[derive(Clone, Copy, Debug, PartialEq, Eq, Structural)]
pub enum OutboundCapability {
    /// It calls providers.
    ProviderHttp,
    /// It calls tools.
    ToolHttp,
    /// It waits for tools to call back.
    ExternalCallback,
}

/// What the endpoint can do.
#[derive(Clone, Debug, PartialEq)]
pub struct Capabilities {
    pub provider_adapter_kinds: Vec<String>,
    pub credential_schemas: Vec<&'static str>,
    pub outbound_capabilities: Vec<OutboundCapability>,
    pub tools: Vec<CapabilityTool>,
}

/// The content of [`Capabilities`].
pub struct CapabilitiesView {
    pub provider_adapter_kinds: Seq<Seq<char>>,
    pub credential_schemas: Seq<Seq<char>>,
    pub outbound_capabilities: Seq<OutboundCapability>,
    pub tools: Seq<CapabilityToolView>,
}

impl DeepView for Capabilities {
    type V = CapabilitiesView;

    open spec fn deep_view(&self) -> CapabilitiesView {
        CapabilitiesView {
            provider_adapter_kinds: self.provider_adapter_kinds.deep_view(),
            credential_schemas: self.credential_schemas.deep_view(),
            outbound_capabilities: self.outbound_capabilities@,
            tools: self.tools.deep_view(),
        }
    }
}

/// Accepts the tools that end with their answer.
pub open spec fn answers_at_once() -> spec_fn(CapabilityToolView) -> bool {
    |tool: CapabilityToolView| tool.completion_mode != ToolCompletion::ExternalCallback
}

/// The schema of the credential that an adapter takes, if the adapter is there.
pub open spec fn schema_if_there(kinds: Seq<Seq<char>>, kind: Seq<char>) -> Seq<Seq<char>> {
    match credential_schema(kind) {
        Some(schema) if kinds.contains(kind) => seq![schema],
        _ => Seq::empty(),
    }
}


/// The tools that are offered: those that call back only where they can.
pub open spec fn offered_tools(tools: Seq<CapabilityToolView>, callbacks: bool) -> Seq<
    CapabilityToolView,
> {
    in_name_order::<CapabilityTool>(
        if callbacks {
            tools
        } else {
            tools.filter(answers_at_once())
        },
    )
}

/// The ways in which the endpoint reaches out.
pub open spec fn outbound(
    kinds: Seq<Seq<char>>,
    offered: Seq<CapabilityToolView>,
    callbacks: bool,
) -> Seq<OutboundCapability> {
    let calling_back = exists|i: int|
        0 <= i < offered.len() && #[trigger] offered[i].completion_mode
            == ToolCompletion::ExternalCallback;
    let with_providers = if kinds.len() > 0 {
        seq![OutboundCapability::ProviderHttp]
    } else {
        Seq::empty()
    };
    let with_tools = if offered.len() > 0 {
        with_providers.push(OutboundCapability::ToolHttp)
    } else {
        with_providers
    };
    if callbacks && calling_back {
        with_tools.push(OutboundCapability::ExternalCallback)
    } else {
        with_tools
    }
}

/// What the endpoint can do with some adapters and tools.
pub open spec fn capabilities_of(
    kinds: Seq<Seq<char>>,
    tools: Seq<CapabilityToolView>,
    callbacks: bool,
) -> CapabilitiesView {
    CapabilitiesView {
        provider_adapter_kinds: in_name_order::<String>(kinds),
        credential_schemas: schema_if_there(kinds, "openai_compatible"@) + schema_if_there(
            kinds,
            "anthropic"@,
        ),
        outbound_capabilities: outbound(kinds, offered_tools(tools, callbacks), callbacks),
        tools: offered_tools(tools, callbacks),
    }
}

fn tools_that_answer(tools: &Vec<CapabilityTool>) -> (kept: Vec<CapabilityTool>)
    ensures
        kept.deep_view() == tools.deep_view().filter(answers_at_once()),
{
    let ghost view = tools.deep_view();
    let mut kept: Vec<CapabilityTool> = Vec::new();
    let mut index: usize = 0;
    proof {
        reveal(Seq::filter);
        assert(view.take(0) =~= Seq::empty());
        assert(kept.deep_view() =~= Seq::empty());
    }
    while index < tools.len()
        invariant
            view == tools.deep_view(),
            index <= tools.len(),
            kept.deep_view() == view.take(index as int).filter(answers_at_once()),
        decreases tools.len() - index,
    {
        proof {
            reveal(Seq::filter);
            assert(view.take(index + 1).drop_last() =~= view.take(index as int));
        }
        if tools[index].completion_mode != ToolCompletion::ExternalCallback {
            let ghost before = kept.deep_view();
            kept.push(tools[index].replica());
            assert(kept.deep_view() =~= before.push(view[index as int]));
        }
        index += 1;
    }
    assert(view.take(index as int) =~= view);
    kept
}

fn any_calls_back(tools: &Vec<CapabilityTool>) -> (any: bool)
    ensures
        any == exists|i: int|
            0 <= i < tools.deep_view().len() && #[trigger] tools.deep_view()[i].completion_mode
                == ToolCompletion::ExternalCallback,
{
    let ghost view = tools.deep_view();
    let mut index: usize = 0;
    while index < tools.len()
        invariant
            view == tools.deep_view(),
            index <= tools.len(),
            forall|i: int|
                0 <= i < index ==> #[trigger] view[i].completion_mode
                    != ToolCompletion::ExternalCallback,
        decreases tools.len() - index,
    {
        if tools[index].completion_mode == ToolCompletion::ExternalCallback {
            assert(view[index as int].completion_mode == ToolCompletion::ExternalCallback);
            return true;
        }
        index += 1;
    }
    false
}

fn push_schema(schemas: &mut Vec<&'static str>, kinds: &Vec<String>, kind: &str)
    ensures
        final(schemas).deep_view() == old(schemas).deep_view() + schema_if_there(
            kinds.deep_view(),
            kind@,
        ),
{
    let ghost before = schemas.deep_view();
    if contains_text(kinds, kind) {
        if let Some(schema) = credential_schema_for_adapter(kind) {
            schemas.push(schema);
        }
    }
    assert(schemas.deep_view() =~= before + schema_if_there(kinds.deep_view(), kind@));
}

/// What the endpoint can do with some adapters and tools, where tools may call back or not.
pub fn build_capabilities_with_callback(
    provider_adapter_kinds: &Vec<String>,
    tools: &Vec<CapabilityTool>,
    callback_lifecycle_enabled: bool,
) -> (capabilities: Capabilities)
    ensures
        capabilities.deep_view() == capabilities_of(
            provider_adapter_kinds.deep_view(),
            tools.deep_view(),
            callback_lifecycle_enabled,
        ),
{
    let offered = if callback_lifecycle_enabled {
        sort_by_name(tools)
    } else {
        sort_by_name(&tools_that_answer(tools))
    };
    let mut credential_schemas: Vec<&'static str> = Vec::new();
    assert(credential_schemas.deep_view() =~= Seq::empty());
    push_schema(&mut credential_schemas, provider_adapter_kinds, "openai_compatible");
    push_schema(&mut credential_schemas, provider_adapter_kinds, "anthropic");
    assert(credential_schemas.deep_view() =~= schema_if_there(
        provider_adapter_kinds.deep_view(),
        "openai_compatible"@,
    ) + schema_if_there(provider_adapter_kinds.deep_view(), "anthropic"@));
    let mut outbound_capabilities: Vec<OutboundCapability> = Vec::new();
    if provider_adapter_kinds.len() > 0 {
        outbound_capabilities.push(OutboundCapability::ProviderHttp);
    }
    if offered.len() > 0 {
        outbound_capabilities.push(OutboundCapability::ToolHttp);
    }
    if callback_lifecycle_enabled && any_calls_back(&offered) {
        outbound_capabilities.push(OutboundCapability::ExternalCallback);
    }
    assert(outbound_capabilities@ =~= outbound(
        provider_adapter_kinds.deep_view(),
        offered.deep_view(),
        callback_lifecycle_enabled,
    ));
    Capabilities {
        provider_adapter_kinds: sort_by_name(provider_adapter_kinds),
        credential_schemas,
        outbound_capabilities,
        tools: offered,
    }
}

/// What the endpoint can do with some adapters and tools that cannot call back.
pub fn build_capabilities(
    provider_adapter_kinds: &Vec<String>,
    tools: &Vec<CapabilityTool>,
) -> (capabilities: Capabilities)
    ensures
        capabilities.deep_view() == capabilities_of(
            provider_adapter_kinds.deep_view(),
            tools.deep_view(),
            false,
        ),
{
    build_capabilities_with_callback(provider_adapter_kinds, tools, false)
}

/// Tools that call back, and the way that they take, are kept to itself where they cannot call
/// back; what is offered is always among what was configured.
pub proof fn dormant_callbacks_are_hidden(
    kinds: Seq<Seq<char>>,
    tools: Seq<CapabilityToolView>,
    callbacks: bool,
    tool: CapabilityToolView,
)
    ensures
        capabilities_of(kinds, tools, callbacks).tools.contains(tool) <==> tools.contains(tool) && (
        callbacks || tool.completion_mode != ToolCompletion::ExternalCallback),
        capabilities_of(kinds, tools, callbacks).outbound_capabilities.contains(
            OutboundCapability::ExternalCallback,
        ) <==> callbacks && exists|i: int|
            0 <= i < tools.len() && #[trigger] tools[i].completion_mode
                == ToolCompletion::ExternalCallback,
{
    let chosen = if callbacks {
        tools
    } else {
        tools.filter(answers_at_once())
    };
    let offered = offered_tools(tools, callbacks);
    let outbound = capabilities_of(kinds, tools, callbacks).outbound_capabilities;
    let last = OutboundCapability::ExternalCallback;
    sorting_orders_all::<CapabilityTool>(chosen);
    assert forall|any: CapabilityToolView| offered.contains(any) <==> #[trigger] chosen.contains(
        any,
    ) by {
        offered.to_multiset_ensures();
        chosen.to_multiset_ensures();
        assert(offered.contains(any) <==> offered.to_multiset().count(any) > 0);
    }
    assert(chosen.contains(tool) <==> tools.contains(tool) && (callbacks || answers_at_once()(
        tool,
    ))) by {
        broadcast use vstd::seq_lib::group_filter_ensures;

        if !callbacks && chosen.contains(tool) {
            tools.lemma_filter_contains_rev(answers_at_once(), tool);
        }
    }
    if callbacks {
        if exists|i: int| 0 <= i < tools.len() && #[trigger] tools[i].completion_mode
            == ToolCompletion::ExternalCallback {
            let i = choose|i: int|
                0 <= i < tools.len() && #[trigger] tools[i].completion_mode
                    == ToolCompletion::ExternalCallback;
            assert(chosen.contains(tools[i]));
            let at = choose|at: int| 0 <= at < offered.len() && offered[at] == tools[i];
            assert(offered[at].completion_mode == ToolCompletion::ExternalCallback);
            assert(outbound.last() == last);
        } else {
            assert forall|at: int| 0 <= at < offered.len() implies (
            #[trigger] offered[at]).completion_mode != ToolCompletion::ExternalCallback by {
                assert(chosen.contains(offered[at]));
            }
        }
    }
}

} // verus!
