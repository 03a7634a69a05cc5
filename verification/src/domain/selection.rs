//! Who owns a session, and which model, tools and callback address it uses.

use super::error::{fault_of, invalid, invalid_state, DomainError, DomainErrorView};
use super::rules::{
    bounded_text_fault, identifier_fault, validate_bounded_text, validate_identifier,
};
use super::{MAX_PROVIDER_EXECUTION_OPTIONS_BYTES, MAX_SELECTED_TOOLS};
use crate::checks::{
    fault_if, first_fault, lemma_first_fault_prefix, lemma_first_fault_step,
    lemma_first_fault_whole, optional_fault, Checks,
};
use crate::datum::{Datum, Same};
use crate::json::{
    encoded_len, equal_values, json_equal, json_equal_reflexive, json_size, object_of,
    object_value, Json, JsonView,
};
use crate::text::same_text;
use crate::text_map::TextMap;
use vstd::prelude::*;

verus! {

/// The subject of an authority to which a session belongs.
#[derive(Clone, Debug, PartialEq)]
pub struct SessionOwner {
    pub authority_id: String,
    pub subject: String,
}

/// The content of a [`SessionOwner`].
pub struct SessionOwnerView {
    pub authority_id: Seq<char>,
    pub subject: Seq<char>,
}

impl DeepView for SessionOwner {
    type V = SessionOwnerView;

    open spec fn deep_view(&self) -> SessionOwnerView {
        SessionOwnerView {
            authority_id: self.authority_id.deep_view(),
            subject: self.subject.deep_view(),
        }
    }
}

impl Datum for SessionOwner {
    fn replica(&self) -> (copy: Self) {
        SessionOwner {
            authority_id: self.authority_id.replica(),
            subject: self.subject.replica(),
        }
    }
}

impl Same for SessionOwner {
    fn same(&self, other: &Self) -> (same: bool) {
        self.authority_id.same(&other.authority_id)
            && self.subject.same(&other.subject)
    }
}

/// What is wrong with an owner.
pub open spec fn owner_fault(owner: SessionOwnerView) -> Option<DomainErrorView> {
    identifier_fault("authority_id"@, owner.authority_id).before(
        identifier_fault("subject"@, owner.subject),
    )
}

impl SessionOwner {
    /// An owner, unchecked.
    pub fn new(authority_id: String, subject: String) -> (owner: Self)
        ensures
            owner.deep_view() == (SessionOwnerView {
                authority_id: authority_id@,
                subject: subject@,
            }),
    {
        SessionOwner { authority_id, subject }
    }

    /// Checks that both parts are identifiers.
    pub fn validate(&self) -> (result: Result<(), DomainError>)
        ensures
            fault_of(result) == owner_fault(self.deep_view()),
    {
        validate_identifier("authority_id", &self.authority_id)?;
        validate_identifier("subject", &self.subject)
    }

    /// An owner, if both parts are identifiers.
    pub fn try_new(authority_id: String, subject: String) -> (result: Result<Self, DomainError>)
        ensures
            ({
                let wanted = SessionOwnerView { authority_id: authority_id@, subject: subject@ };
                &&& fault_of(result) == owner_fault(wanted)
                &&& result matches Ok(owner) ==> owner.deep_view() == wanted
            }),
    {
        let owner = SessionOwner::new(authority_id, subject);
        owner.validate()?;
        Ok(owner)
    }
}

/// How a provider is reached, with its adapter options.
#[derive(Clone, Debug, PartialEq)]
pub struct ProviderExecutionSelection {
    pub schema: String,
    pub revision: u64,
    pub kind: String,
    pub base_url: String,
    pub options: TextMap<Json>,
}

/// The content of a [`ProviderExecutionSelection`].
pub struct ProviderExecutionSelectionView {
    pub schema: Seq<char>,
    pub revision: u64,
    pub kind: Seq<char>,
    pub base_url: Seq<char>,
    pub options: Seq<(Seq<char>, JsonView)>,
}

impl DeepView for ProviderExecutionSelection {
    type V = ProviderExecutionSelectionView;

    open spec fn deep_view(&self) -> ProviderExecutionSelectionView {
        ProviderExecutionSelectionView {
            schema: self.schema.deep_view(),
            revision: self.revision,
            kind: self.kind.deep_view(),
            base_url: self.base_url.deep_view(),
            options: self.options.deep_view(),
        }
    }
}

impl Datum for ProviderExecutionSelection {
    fn replica(&self) -> (copy: Self) {
        ProviderExecutionSelection {
            schema: self.schema.replica(),
            revision: self.revision,
            kind: self.kind.replica(),
            base_url: self.base_url.replica(),
            options: self.options.replica(),
        }
    }
}

/// The token limits of a model.
#[derive(Clone, Copy, Debug, Eq, PartialEq, Structural)]
pub struct ModelLimits {
    pub context_window_tokens: u64,
    pub max_output_tokens: u32,
}

/// The model of a session, its provider and its credential.
#[derive(Clone, Debug, PartialEq)]
pub struct SessionModelSelection {
    pub provider: String,
    pub provider_execution: ProviderExecutionSelection,
    pub model: String,
    pub limits: Option<ModelLimits>,
    pub auth_authority_id: String,
    pub auth_profile_id: String,
    pub auth_revision: u64,
}

/// The content of a [`SessionModelSelection`].
pub struct SessionModelSelectionView {
    pub provider: Seq<char>,
    pub provider_execution: ProviderExecutionSelectionView,
    pub model: Seq<char>,
    pub limits: Option<ModelLimits>,
    pub auth_authority_id: Seq<char>,
    pub auth_profile_id: Seq<char>,
    pub auth_revision: u64,
}

impl DeepView for SessionModelSelection {
    type V = SessionModelSelectionView;

    open spec fn deep_view(&self) -> SessionModelSelectionView {
        SessionModelSelectionView {
            provider: self.provider.deep_view(),
            provider_execution: self.provider_execution.deep_view(),
            model: self.model.deep_view(),
            limits: self.limits,
            auth_authority_id: self.auth_authority_id.deep_view(),
            auth_profile_id: self.auth_profile_id.deep_view(),
            auth_revision: self.auth_revision,
        }
    }
}

impl Datum for SessionModelSelection {
    fn replica(&self) -> (copy: Self) {
        SessionModelSelection {
            provider: self.provider.replica(),
            provider_execution: self.provider_execution.replica(),
            model: self.model.replica(),
            limits: self.limits,
            auth_authority_id: self.auth_authority_id.replica(),
            auth_profile_id: self.auth_profile_id.replica(),
            auth_revision: self.auth_revision,
        }
    }
}

/// The model, the tools and the callback address that a session uses.
#[derive(Clone, Debug, PartialEq)]
pub struct SessionSelection {
    pub model: Option<SessionModelSelection>,
    pub tools: Vec<String>,
    pub callback_base_url: Option<String>,
}

/// The content of a [`SessionSelection`].
pub struct SessionSelectionView {
    pub model: Option<SessionModelSelectionView>,
    pub tools: Seq<Seq<char>>,
    pub callback_base_url: Option<Seq<char>>,
}

impl DeepView for SessionSelection {
    type V = SessionSelectionView;

    open spec fn deep_view(&self) -> SessionSelectionView {
        SessionSelectionView {
            model: self.model.deep_view(),
            tools: self.tools.deep_view(),
            callback_base_url: self.callback_base_url.deep_view(),
        }
    }
}

impl Datum for SessionSelection {
    fn replica(&self) -> (copy: Self) {
        SessionSelection {
            model: self.model.replica(),
            tools: self.tools.replica(),
            callback_base_url: self.callback_base_url.replica(),
        }
    }
}

/// Equality of option entries: the same keys in the same order, with equal JSON values.
pub open spec fn options_agree(
    left: Seq<(Seq<char>, JsonView)>,
    right: Seq<(Seq<char>, JsonView)>,
) -> bool {
    &&& left.len() == right.len()
    &&& forall|i: int|
        0 <= i < left.len() ==> (#[trigger] left[i]).0 == right[i].0 && json_equal(
            left[i].1,
            right[i].1,
        )
}

/// Equality of provider executions.
pub open spec fn execution_agrees(
    left: ProviderExecutionSelectionView,
    right: ProviderExecutionSelectionView,
) -> bool {
    &&& options_agree(left.options, right.options)
    &&& left == (ProviderExecutionSelectionView { options: left.options, ..right })
}

/// Equality of model selections.
pub open spec fn model_agrees(
    left: SessionModelSelectionView,
    right: SessionModelSelectionView,
) -> bool {
    &&& execution_agrees(left.provider_execution, right.provider_execution)
    &&& left == (SessionModelSelectionView {
        provider_execution: left.provider_execution,
        ..right
    })
}

/// A model selection agrees with itself.
pub proof fn model_agrees_reflexive(model: SessionModelSelectionView)
    ensures
        model_agrees(model, model),
{
    let options = model.provider_execution.options;
    assert forall|i: int| 0 <= i < options.len() implies (#[trigger] options[i]).0 == options[i].0
        && json_equal(options[i].1, options[i].1) by {
        json_equal_reflexive(options[i].1);
    }
}

fn same_options(left: &TextMap<Json>, right: &TextMap<Json>) -> (agree: bool)
    ensures
        agree == options_agree(left.deep_view(), right.deep_view()),
{
    if left.len() != right.len() {
        return false;
    }
    let mut index: usize = 0;
    while index < left.len()
        invariant
            left.deep_view().len() == right.deep_view().len(),
            index <= left.deep_view().len(),
            forall|i: int|
                0 <= i < index ==> (#[trigger] left.deep_view()[i]).0 == right.deep_view()[i].0
                    && json_equal(left.deep_view()[i].1, right.deep_view()[i].1),
        decreases left.deep_view().len() - index,
    {
        if !same_text(left.key_at(index), right.key_at(index)) || !equal_values(
            &left.value_at(index).value,
            &right.value_at(index).value,
        ) {
            return false;
        }
        index += 1;
    }
    true
}

impl SessionModelSelection {
    /// Whether both selections are equal.
    pub fn agrees(&self, other: &Self) -> (agrees: bool)
        ensures
            agrees == model_agrees(self.deep_view(), other.deep_view()),
    {
        let left = &self.provider_execution;
        let right = &other.provider_execution;
        self.provider.same(&other.provider)
            && left.schema.same(&right.schema)
            && left.revision == right.revision
            && left.kind.same(&right.kind)
            && left.base_url.same(&right.base_url)
            && same_options(&left.options, &right.options)
            && self.model.same(&other.model)
            && same_limits(&self.limits, &other.limits)
            && self.auth_authority_id.same(&other.auth_authority_id)
            && self.auth_profile_id.same(&other.auth_profile_id)
            && self.auth_revision == other.auth_revision
    }
}

fn same_limits(left: &Option<ModelLimits>, right: &Option<ModelLimits>) -> (same: bool)
    ensures
        same == (*left == *right),
{
    match (left, right) {
        (Some(left), Some(right)) => *left == *right,
        (None, None) => true,
        _ => false,
    }
}

/// Equality of two optional model selections.
pub open spec fn chosen_model_agrees(
    left: Option<SessionModelSelectionView>,
    right: SessionModelSelectionView,
) -> bool {
    left matches Some(model) && model_agrees(model, right)
}

/// The options must encode, and the encoding stay in the bound.
pub open spec fn options_fault(options: Seq<(Seq<char>, JsonView)>) -> Option<DomainErrorView> {
    match json_size(JsonView::Object(object_of(options))) {
        Err(_) => Some(invalid("provider execution options are invalid"@)),
        Ok(bytes) => fault_if(
            bytes > MAX_PROVIDER_EXECUTION_OPTIONS_BYTES,
            DomainErrorView::TextTooLarge {
                field: "provider execution options"@,
                bytes: bytes as usize,
                max: MAX_PROVIDER_EXECUTION_OPTIONS_BYTES,
            },
        ),
    }
}

/// The limits must be positive and leave room for the input.
pub open spec fn limits_fault(limits: ModelLimits) -> Option<DomainErrorView> {
    fault_if(
        limits.context_window_tokens == 0 || limits.max_output_tokens == 0
            || limits.max_output_tokens >= limits.context_window_tokens,
        invalid("model limits must leave a positive input window"@),
    )
}

/// What is wrong with a model selection.
pub open spec fn model_fault(model: SessionModelSelectionView) -> Option<DomainErrorView> {
    identifier_fault("provider"@, model.provider).before(
        identifier_fault("provider execution schema"@, model.provider_execution.schema),
    ).before(
        fault_if(
            model.provider_execution.revision == 0,
            invalid("provider execution revision must be positive"@),
        ),
    ).before(
        identifier_fault("provider execution kind"@, model.provider_execution.kind),
    ).before(
        bounded_text_fault("provider execution base_url"@, model.provider_execution.base_url),
    ).before(options_fault(model.provider_execution.options)).before(
        identifier_fault("model"@, model.model),
    ).before(
        optional_fault(model.limits, |limits: ModelLimits| limits_fault(limits)),
    ).before(identifier_fault("auth_authority_id"@, model.auth_authority_id)).before(
        identifier_fault("auth_profile_id"@, model.auth_profile_id),
    ).before(
        fault_if(model.auth_revision == 0, invalid("auth revision must be positive"@)),
    )
}

/// A selected tool: an identifier that was not selected before.
pub open spec fn selected_tool_check() -> spec_fn(Seq<Seq<char>>, Seq<char>) -> Option<
    DomainErrorView,
> {
    |before: Seq<Seq<char>>, tool: Seq<char>|
        identifier_fault("tool"@, tool).before(
            fault_if(
                before.contains(tool),
                invalid("session tool selection contains duplicates"@),
            ),
        )
}

/// What is wrong with a selection.
pub open spec fn selection_fault(selection: SessionSelectionView) -> Option<DomainErrorView> {
    optional_fault(
        selection.model,
        |model: SessionModelSelectionView| model_fault(model),
    ).before(
        fault_if(
            selection.tools.len() > MAX_SELECTED_TOOLS,
            DomainErrorView::CollectionTooLarge {
                field: "selected tools"@,
                items: selection.tools.len() as usize,
                max: MAX_SELECTED_TOOLS,
            },
        ),
    ).before(first_fault(selection.tools, selected_tool_check())).before(
        optional_fault(
            selection.callback_base_url,
            |url: Seq<char>| bounded_text_fault("callback_base_url"@, url),
        ),
    )
}

/// The selection of a session that was not created yet.
pub open spec fn empty_selection() -> SessionSelectionView {
    SessionSelectionView { model: None, tools: Seq::empty(), callback_base_url: None }
}

/// Checks the options of a provider execution.
fn validate_options(options: &TextMap<Json>) -> (result: Result<(), DomainError>)
    ensures
        fault_of(result) == options_fault(options.deep_view()),
{
    match encoded_len(&object_value(options)) {
        Ok(bytes) => if bytes > MAX_PROVIDER_EXECUTION_OPTIONS_BYTES {
            Err(
                DomainError::TextTooLarge {
                    field: "provider execution options",
                    bytes,
                    max: MAX_PROVIDER_EXECUTION_OPTIONS_BYTES,
                },
            )
        } else {
            Ok(())
        },
        Err(_) => Err(invalid_state("provider execution options are invalid")),
    }
}

/// Checks a model selection.
pub(crate) fn validate_model(model: &SessionModelSelection) -> (result: Result<(), DomainError>)
    ensures
        fault_of(result) == model_fault(model.deep_view()),
{
    validate_identifier("provider", &model.provider)?;
    validate_identifier("provider execution schema", &model.provider_execution.schema)?;
    if model.provider_execution.revision == 0 {
        return Err(invalid_state("provider execution revision must be positive"));
    }
    validate_identifier("provider execution kind", &model.provider_execution.kind)?;
    validate_bounded_text("provider execution base_url", &model.provider_execution.base_url)?;
    validate_options(&model.provider_execution.options)?;
    validate_identifier("model", &model.model)?;
    if let Some(limits) = &model.limits {
        if limits.context_window_tokens == 0 || limits.max_output_tokens == 0
            || limits.max_output_tokens as u64 >= limits.context_window_tokens {
            return Err(invalid_state("model limits must leave a positive input window"));
        }
    }
    validate_identifier("auth_authority_id", &model.auth_authority_id)?;
    validate_identifier("auth_profile_id", &model.auth_profile_id)?;
    if model.auth_revision == 0 {
        return Err(invalid_state("auth revision must be positive"));
    }
    Ok(())
}

fn validate_tools(tools: &Vec<String>) -> (result: Result<(), DomainError>)
    ensures
        fault_of(result) == first_fault(tools.deep_view(), selected_tool_check()),
{
    let ghost view = tools.deep_view();
    let ghost check = selected_tool_check();
    proof {
        lemma_first_fault_whole(view, check);
    }
    let mut index: usize = 0;
    while index < tools.len()
        invariant
            view == tools.deep_view(),
            check == selected_tool_check(),
            index <= tools.len(),
            first_fault(view.take(index as int), check) is None,
        decreases tools.len() - index,
    {
        proof {
            lemma_first_fault_step(view, check, index as int);
            if first_fault(view.take(index + 1), check) is Some {
                lemma_first_fault_prefix(view, check, index + 1);
            }
        }
        validate_identifier("tool", &tools[index])?;
        if selected_before(tools, index) {
            return Err(invalid_state("session tool selection contains duplicates"));
        }
        index += 1;
    }
    proof {
        lemma_first_fault_whole(view, check);
    }
    Ok(())
}

fn selected_before(tools: &Vec<String>, index: usize) -> (found: bool)
    requires
        index < tools.len(),
    ensures
        found == tools.deep_view().take(index as int).contains(tools.deep_view()[index as int]),
{
    let ghost view = tools.deep_view();
    let mut position: usize = 0;
    while position < index
        invariant
            view == tools.deep_view(),
            position <= index,
            index < tools.len(),
            forall|i: int| 0 <= i < position ==> view[i] != view[index as int],
        decreases index - position,
    {
        if same_text(&tools[position], &tools[index]) {
            assert(view.take(index as int)[position as int] == view[index as int]);
            return true;
        }
        position += 1;
    }
    false
}

impl SessionSelection {
    /// Checks the model, the tools and the callback address.
    pub fn validate(&self) -> (result: Result<(), DomainError>)
        ensures
            fault_of(result) == selection_fault(self.deep_view()),
    {
        if let Some(model) = &self.model {
            validate_model(model)?;
        }
        if self.tools.len() > MAX_SELECTED_TOOLS {
            return Err(
                DomainError::CollectionTooLarge {
                    field: "selected tools",
                    items: self.tools.len(),
                    max: MAX_SELECTED_TOOLS,
                },
            );
        }
        validate_tools(&self.tools)?;
        if let Some(callback_base_url) = &self.callback_base_url {
            validate_bounded_text("callback_base_url", callback_base_url)?;
        }
        Ok(())
    }

    /// Whether this is the selection of a session that was not created yet.
    pub(crate) fn is_empty(&self) -> (empty: bool)
        ensures
            empty == (self.deep_view() == empty_selection()),
    {
        let empty = self.model.is_none() && self.tools.len() == 0
            && self.callback_base_url.is_none();
        assert(self.tools.len() == 0 ==> self.deep_view().tools =~= Seq::empty());
        assert(self.tools.len() > 0 ==> self.deep_view().tools.len() > 0);
        empty
    }
}

impl Default for SessionSelection {
    fn default() -> (selection: Self)
        ensures
            selection.deep_view() == empty_selection(),
    {
        let selection = SessionSelection {
            model: None,
            tools: Vec::new(),
            callback_base_url: None,
        };
        assert(selection.deep_view().tools =~= Seq::empty());
        selection
    }
}

} // verus!
