//! The configuration of an endpoint: what it may hold, and what it means.

use crate::checks::{
    fault_if, first_fault, lemma_first_fault_prefix, lemma_first_fault_step,
    lemma_first_fault_whole, lemma_no_fault_at, optional_fault, Checks,
};
use crate::datum::Datum;
use crate::json::{
    body_content, content_of, empty_object, encoded_len, entry_of, insert_entry, json_size,
    json_text, json_view, node, string_value, unsigned_value, Json, JsonNode, JsonView,
};
use crate::paths::{
    overlap, path_text, path_with_suffix, paths_overlap, reach, reached, suffixed, StorePath,
};
use crate::sorting::{in_name_order, inserted, sort_by_name, Named};
use crate::text::{
    byte_len, characters, contains_char, contains_control, contains_text, has_control, is_white,
    is_white_space, same_text, text_bytes,
};
use crate::web::{address_of, parse_address, WebAddress, WebAddressView};
use serde_json::Value;
use vstd::prelude::*;
use vstd::string::*;

verus! {

pub const MAX_CONFIG_BYTES: usize = 4 * 1024 * 1024;

pub const MAX_SCHEMA_BYTES: usize = 64;

pub const MAX_LISTEN_BYTES: usize = 256;

pub const MAX_PATH_BYTES: usize = 4 * 1024;

pub const MAX_KIND_BYTES: usize = 64;

pub const MAX_URL_BYTES: usize = 4 * 1024;

pub const MAX_TOOL_FOREGROUND_MS: u64 = 86_400_000;

pub const MAX_SNAPSHOT_EVENTS: u64 = 1_000_000_000;

pub const MAX_ROUNDS_PER_ACTIVATION: u64 = 10_000;

pub const MAX_MODEL_STEP_ATTEMPTS: u64 = 64;

pub const MAX_MODEL_RETRY_MS: u64 = 3_600_000;

pub const MAX_MODEL_STREAM_IDLE_TIMEOUT_MS: u64 = 86_400_000;

pub const MAX_AUTO_WAIT_TIMEOUT_SECONDS: u64 = 600;

pub const MAX_NAME_BYTES: usize = 128;

pub const MAX_AUTHORITY_ID_BYTES: usize = 64;

pub const MAX_DESCRIPTION_BYTES: usize = 8 * 1024;

pub const MAX_INPUT_SCHEMA_BYTES: usize = 64 * 1024;

pub const MAX_LIST_ITEMS: usize = 1_024;

pub const DEFAULT_LISTEN_ADDR: &'static str = "127.0.0.1:3000";

pub const DEFAULT_RUNTIME_STORE: &'static str = "zode.sqlite3";

/// Why a configuration is refused.
#[derive(Debug, PartialEq)]
pub enum ConfigError {
    Json,
    Invalid(&'static str),
}

/// The reason of a refusal, if a result is one.
pub open spec fn refusal<T>(result: Result<T, ConfigError>) -> Option<Seq<char>> {
    match result {
        Ok(_) => None,
        Err(ConfigError::Json) => Some("configuration JSON is invalid"@),
        Err(ConfigError::Invalid(reason)) => Some(reason@),
    }
}

/// Reads the JSON in the bytes of a configuration file. A file that is too large is not read.
pub fn config_value(bytes: &Vec<u8>) -> (result: Result<Value, ConfigError>)
    ensures
        match result {
            Ok(value) => bytes@.len() <= MAX_CONFIG_BYTES && body_content(bytes@) == Some(
                json_view(value),
            ),
            Err(error) => if bytes@.len() > MAX_CONFIG_BYTES {
                refusal(result) == Some("configuration file is too large"@)
            } else {
                body_content(bytes@) is None && error is Json
            },
        },
{
    if bytes.len() > MAX_CONFIG_BYTES {
        return Err(ConfigError::Invalid("configuration file is too large"));
    }
    match content_of(bytes) {
        Some(value) => Ok(value),
        None => Err(ConfigError::Json),
    }
}

/// How a tool tells that it has ended.
#[derive(Clone, Copy, Debug, Eq, PartialEq, Structural)]
pub enum ToolCompletion {
    Response,
    ExternalCallback,
}

/// What becomes of a running tool call when the runtime restarts.
#[derive(Clone, Copy, Debug, Eq, PartialEq, Structural)]
pub enum RunningRestart {
    UnknownOutcome,
    RuntimeRestarted,
    AwaitCallback,
}

/// Whether a tool call may be sent again.
#[derive(Clone, Copy, Debug, Eq, PartialEq, Structural)]
pub enum RetryDispatch {
    Never,
    SameInvocationKeyDeduplicated,
}

/// How a tool call is recovered.
#[derive(Clone, Copy, Debug, Eq, PartialEq, Structural)]
pub struct RecoveryConfig {
    pub on_running_restart: RunningRestart,
    pub retry_dispatch: RetryDispatch,
}

/// The limits of the runtime.
#[derive(Clone, Copy, Debug, Eq, PartialEq, Structural)]
pub struct RuntimeConfig {
    pub tool_foreground_ms: u64,
    pub snapshot_every_events: Option<u64>,
    pub max_rounds_per_activation: u64,
    pub model_step_max_attempts: u64,
    pub model_retry_base_ms: u64,
    pub model_retry_max_ms: u64,
    pub model_stream_idle_timeout_ms: u64,
}

/// A store, by its kind and the text of its path.
#[derive(Clone, Debug, PartialEq)]
pub struct StoreConfig {
    pub kind: String,
    pub path: String,
}

/// The content of a [`StoreConfig`].
pub struct StoreConfigView {
    pub kind: Seq<char>,
    pub path: Seq<char>,
}

impl DeepView for StoreConfig {
    type V = StoreConfigView;

    open spec fn deep_view(&self) -> StoreConfigView {
        StoreConfigView {
            kind: self.kind.deep_view(),
            path: self.path.deep_view(),
        }
    }
}

impl Datum for StoreConfig {
    fn replica(&self) -> (copy: Self) {
        StoreConfig {
            kind: self.kind.replica(),
            path: self.path.replica(),
        }
    }
}

/// An authority that may control the endpoint.
#[derive(Clone, Debug, PartialEq)]
pub struct ControllerAuthConfig {
    pub authority_id: String,
    pub revision: u64,
    pub kind: String,
    pub secret_file: String,
}

/// The content of a [`ControllerAuthConfig`].
pub struct ControllerAuthConfigView {
    pub authority_id: Seq<char>,
    pub revision: u64,
    pub kind: Seq<char>,
    pub secret_file: Seq<char>,
}

impl DeepView for ControllerAuthConfig {
    type V = ControllerAuthConfigView;

    open spec fn deep_view(&self) -> ControllerAuthConfigView {
        ControllerAuthConfigView {
            authority_id: self.authority_id.deep_view(),
            revision: self.revision,
            kind: self.kind.deep_view(),
            secret_file: self.secret_file.deep_view(),
        }
    }
}

impl Datum for ControllerAuthConfig {
    fn replica(&self) -> (copy: Self) {
        ControllerAuthConfig {
            authority_id: self.authority_id.replica(),
            revision: self.revision,
            kind: self.kind.replica(),
            secret_file: self.secret_file.replica(),
        }
    }
}

/// The adapters and the origins that may be used.
#[derive(Clone, Debug, PartialEq)]
pub struct ProviderExecutionConfig {
    pub adapter_kinds: Vec<String>,
    pub allowed_base_url_origins: Vec<String>,
}

/// The content of a [`ProviderExecutionConfig`].
pub struct ProviderExecutionConfigView {
    pub adapter_kinds: Seq<Seq<char>>,
    pub allowed_base_url_origins: Seq<Seq<char>>,
}

impl DeepView for ProviderExecutionConfig {
    type V = ProviderExecutionConfigView;

    open spec fn deep_view(&self) -> ProviderExecutionConfigView {
        ProviderExecutionConfigView {
            adapter_kinds: self.adapter_kinds.deep_view(),
            allowed_base_url_origins: self.allowed_base_url_origins.deep_view(),
        }
    }
}

impl Datum for ProviderExecutionConfig {
    fn replica(&self) -> (copy: Self) {
        ProviderExecutionConfig {
            adapter_kinds: self.adapter_kinds.replica(),
            allowed_base_url_origins: self.allowed_base_url_origins.replica(),
        }
    }
}

/// The origins that callbacks may name.
#[derive(Clone, Debug, PartialEq)]
pub struct CallbackConfig {
    pub allowed_public_origins: Vec<String>,
}

/// The content of a [`CallbackConfig`].
pub struct CallbackConfigView {
    pub allowed_public_origins: Seq<Seq<char>>,
}

impl DeepView for CallbackConfig {
    type V = CallbackConfigView;

    open spec fn deep_view(&self) -> CallbackConfigView {
        CallbackConfigView {
            allowed_public_origins: self.allowed_public_origins.deep_view(),
        }
    }
}

impl Datum for CallbackConfig {
    fn replica(&self) -> (copy: Self) {
        CallbackConfig {
            allowed_public_origins: self.allowed_public_origins.replica(),
        }
    }
}

/// How a tool is reached.
#[derive(Clone, Debug, PartialEq)]
pub struct ToolAdapterConfig {
    pub kind: String,
    pub url: String,
}

/// The content of a [`ToolAdapterConfig`].
pub struct ToolAdapterConfigView {
    pub kind: Seq<char>,
    pub url: Seq<char>,
}

impl DeepView for ToolAdapterConfig {
    type V = ToolAdapterConfigView;

    open spec fn deep_view(&self) -> ToolAdapterConfigView {
        ToolAdapterConfigView {
            kind: self.kind.deep_view(),
            url: self.url.deep_view(),
        }
    }
}

impl Datum for ToolAdapterConfig {
    fn replica(&self) -> (copy: Self) {
        ToolAdapterConfig {
            kind: self.kind.replica(),
            url: self.url.replica(),
        }
    }
}

/// A tool.
#[derive(Clone, Debug, PartialEq)]
pub struct ToolConfig {
    pub name: String,
    pub description: String,
    pub input_schema: Json,
    pub completion_mode: ToolCompletion,
    pub auto_wait_timeout_seconds: u64,
    pub recovery: RecoveryConfig,
    pub adapter: ToolAdapterConfig,
}

/// The content of a [`ToolConfig`].
pub struct ToolConfigView {
    pub name: Seq<char>,
    pub description: Seq<char>,
    pub input_schema: JsonView,
    /// The schema as it is written, with the order of its entries.
    pub schema_text: Seq<u8>,
    pub completion_mode: ToolCompletion,
    pub auto_wait_timeout_seconds: u64,
    pub recovery: RecoveryConfig,
    pub adapter: ToolAdapterConfigView,
}

impl DeepView for ToolConfig {
    type V = ToolConfigView;

    open spec fn deep_view(&self) -> ToolConfigView {
        ToolConfigView {
            name: self.name.deep_view(),
            description: self.description.deep_view(),
            input_schema: self.input_schema.deep_view(),
            schema_text: json_text(self.input_schema.value),
            completion_mode: self.completion_mode,
            auto_wait_timeout_seconds: self.auto_wait_timeout_seconds,
            recovery: self.recovery,
            adapter: self.adapter.deep_view(),
        }
    }
}

impl Datum for ToolConfig {
    fn replica(&self) -> (copy: Self) {
        ToolConfig {
            name: self.name.replica(),
            description: self.description.replica(),
            input_schema: Json { value: self.input_schema.value.clone() },
            completion_mode: self.completion_mode,
            auto_wait_timeout_seconds: self.auto_wait_timeout_seconds,
            recovery: self.recovery,
            adapter: self.adapter.replica(),
        }
    }
}

/// A configuration as it is read.
#[derive(Clone, Debug, PartialEq)]
pub struct EndpointConfig {
    pub schema: String,
    pub listen: Option<String>,
    pub runtime_store: StoreConfig,
    pub credential_replica_store: Option<StoreConfig>,
    pub blob_store: Option<StoreConfig>,
    pub controller_auth: Vec<ControllerAuthConfig>,
    pub runtime: RuntimeConfig,
    pub provider_execution: Option<ProviderExecutionConfig>,
    pub callback: Option<CallbackConfig>,
    pub tools: Vec<ToolConfig>,
}

/// The content of a [`EndpointConfig`].
pub struct EndpointConfigView {
    pub schema: Seq<char>,
    pub listen: Option<Seq<char>>,
    pub runtime_store: StoreConfigView,
    pub credential_replica_store: Option<StoreConfigView>,
    pub blob_store: Option<StoreConfigView>,
    pub controller_auth: Seq<ControllerAuthConfigView>,
    pub runtime: RuntimeConfig,
    pub provider_execution: Option<ProviderExecutionConfigView>,
    pub callback: Option<CallbackConfigView>,
    pub tools: Seq<ToolConfigView>,
}

impl DeepView for EndpointConfig {
    type V = EndpointConfigView;

    open spec fn deep_view(&self) -> EndpointConfigView {
        EndpointConfigView {
            schema: self.schema.deep_view(),
            listen: self.listen.deep_view(),
            runtime_store: self.runtime_store.deep_view(),
            credential_replica_store: self.credential_replica_store.deep_view(),
            blob_store: self.blob_store.deep_view(),
            controller_auth: self.controller_auth.deep_view(),
            runtime: self.runtime,
            provider_execution: self.provider_execution.deep_view(),
            callback: self.callback.deep_view(),
            tools: self.tools.deep_view(),
        }
    }
}

impl Datum for EndpointConfig {
    fn replica(&self) -> (copy: Self) {
        EndpointConfig {
            schema: self.schema.replica(),
            listen: self.listen.replica(),
            runtime_store: self.runtime_store.replica(),
            credential_replica_store: self.credential_replica_store.replica(),
            blob_store: self.blob_store.replica(),
            controller_auth: self.controller_auth.replica(),
            runtime: self.runtime,
            provider_execution: self.provider_execution.replica(),
            callback: self.callback.replica(),
            tools: self.tools.replica(),
        }
    }
}

/// An authority, with the path of its secret.
#[derive(Clone, Debug, PartialEq)]
pub struct ResolvedAuthority {
    pub authority_id: String,
    pub revision: u64,
    pub secret_file: StorePath,
}

/// The content of a [`ResolvedAuthority`].
pub struct ResolvedAuthorityView {
    pub authority_id: Seq<char>,
    pub revision: u64,
    pub secret_file: Seq<Seq<char>>,
}

impl DeepView for ResolvedAuthority {
    type V = ResolvedAuthorityView;

    open spec fn deep_view(&self) -> ResolvedAuthorityView {
        ResolvedAuthorityView {
            authority_id: self.authority_id.deep_view(),
            revision: self.revision,
            secret_file: self.secret_file.deep_view(),
        }
    }
}

impl Datum for ResolvedAuthority {
    fn replica(&self) -> (copy: Self) {
        ResolvedAuthority {
            authority_id: self.authority_id.replica(),
            revision: self.revision,
            secret_file: self.secret_file.replica(),
        }
    }
}

/// A configuration that was checked, with absolute paths and with lists in order.
#[derive(Clone, Debug, PartialEq)]
pub struct ResolvedConfig {
    pub listen: Option<String>,
    pub runtime_store: StorePath,
    pub credential_replica_store: Option<StorePath>,
    pub blob_store: Option<StorePath>,
    pub controller_auth: Vec<ResolvedAuthority>,
    pub runtime: RuntimeConfig,
    pub provider_execution: Option<ProviderExecutionConfig>,
    pub callback: Option<CallbackConfig>,
    pub tools: Vec<ToolConfig>,
}

/// The content of a [`ResolvedConfig`].
pub struct ResolvedConfigView {
    pub listen: Option<Seq<char>>,
    pub runtime_store: Seq<Seq<char>>,
    pub credential_replica_store: Option<Seq<Seq<char>>>,
    pub blob_store: Option<Seq<Seq<char>>>,
    pub controller_auth: Seq<ResolvedAuthorityView>,
    pub runtime: RuntimeConfig,
    pub provider_execution: Option<ProviderExecutionConfigView>,
    pub callback: Option<CallbackConfigView>,
    pub tools: Seq<ToolConfigView>,
}

impl DeepView for ResolvedConfig {
    type V = ResolvedConfigView;

    open spec fn deep_view(&self) -> ResolvedConfigView {
        ResolvedConfigView {
            listen: self.listen.deep_view(),
            runtime_store: self.runtime_store.deep_view(),
            credential_replica_store: self.credential_replica_store.deep_view(),
            blob_store: self.blob_store.deep_view(),
            controller_auth: self.controller_auth.deep_view(),
            runtime: self.runtime,
            provider_execution: self.provider_execution.deep_view(),
            callback: self.callback.deep_view(),
            tools: self.tools.deep_view(),
        }
    }
}

impl Named for ToolConfig {
    open spec fn name_of(content: ToolConfigView) -> Seq<char> {
        content.name
    }

    fn name(&self) -> (name: &String) {
        &self.name
    }
}

impl Default for RuntimeConfig {
    fn default() -> (config: Self)
        ensures
            config == (RuntimeConfig {
                tool_foreground_ms: 3_000,
                snapshot_every_events: None,
                max_rounds_per_activation: 32,
                model_step_max_attempts: 3,
                model_retry_base_ms: 500,
                model_retry_max_ms: 5_000,
                model_stream_idle_timeout_ms: 30_000,
            }),
    {
        RuntimeConfig {
            tool_foreground_ms: 3_000,
            snapshot_every_events: None,
            max_rounds_per_activation: 32,
            model_step_max_attempts: 3,
            model_retry_base_ms: 500,
            model_retry_max_ms: 5_000,
            model_stream_idle_timeout_ms: 30_000,
        }
    }
}

/// Whether a JSON schema that is written like this can be compiled. The order in which entries are
/// written counts: of two parts with one identifier the later is found.
pub uninterp spec fn schema_compiles(text: Seq<u8>) -> bool;

/// `jsonschema::validator_for`, built without its resolvers for files and addresses: whether a
/// schema can be compiled. The answer follows from the schema with the order of its entries, which
/// its compact encoding tells.
#[verifier::external_body]
fn compiles(schema: &Value) -> (does: bool)
    ensures
        does == schema_compiles(json_text(*schema)),
{
    jsonschema::validator_for(schema).is_ok()
}

/// A text of at most `max` bytes, without NUL.
pub open spec fn text_fault(text: Seq<char>, max: usize) -> Option<Seq<char>> {
    fault_if(
        byte_len(text) > max || text.contains('\0'),
        "configuration text is invalid"@,
    )
}

/// A name: present, without white space at its ends, short, and free of control characters.
pub open spec fn is_name(text: Seq<char>) -> bool {
    &&& text.len() > 0
    &&& !is_white(text[0])
    &&& !is_white(text.last())
    &&& byte_len(text) <= MAX_NAME_BYTES
    &&& !has_control(text)
}

/// What is wrong with a name.
pub open spec fn name_fault(text: Seq<char>) -> Option<Seq<char>> {
    fault_if(!is_name(text), "configuration name is invalid"@)
}

/// A number from one to `max`.
pub open spec fn positive_fault(value: u64, max: u64) -> Option<Seq<char>> {
    fault_if(value == 0 || value > max, "numeric configuration is out of bounds"@)
}

/// What is wrong with the limits of the runtime.
pub open spec fn runtime_fault(runtime: RuntimeConfig) -> Option<Seq<char>> {
    positive_fault(runtime.tool_foreground_ms, MAX_TOOL_FOREGROUND_MS).before(
        optional_fault(
            runtime.snapshot_every_events,
            |events: u64| positive_fault(events, MAX_SNAPSHOT_EVENTS),
        ),
    ).before(
        positive_fault(runtime.max_rounds_per_activation, MAX_ROUNDS_PER_ACTIVATION),
    ).before(positive_fault(runtime.model_step_max_attempts, MAX_MODEL_STEP_ATTEMPTS)).before(
        fault_if(
            runtime.model_retry_base_ms > MAX_MODEL_RETRY_MS,
            "numeric configuration is out of bounds"@,
        ),
    ).before(positive_fault(runtime.model_retry_max_ms, MAX_MODEL_RETRY_MS)).before(
        positive_fault(runtime.model_stream_idle_timeout_ms, MAX_MODEL_STREAM_IDLE_TIMEOUT_MS),
    ).before(
        fault_if(
            runtime.model_retry_base_ms > runtime.model_retry_max_ms,
            "runtime.model_retry_base_ms must not exceed model_retry_max_ms"@,
        ),
    )
}

fn validate_bounded_string(text: &str, max: usize) -> (result: Result<(), ConfigError>)
    ensures
        refusal(result) == text_fault(text@, max),
{
    if text_bytes(text) > max || contains_char(text, '\0') {
        Err(ConfigError::Invalid("configuration text is invalid"))
    } else {
        Ok(())
    }
}

fn validate_name(text: &str) -> (result: Result<(), ConfigError>)
    ensures
        refusal(result) == name_fault(text@),
{
    let all = characters(text);
    if all.len() == 0 || is_white_space(all[0]) || is_white_space(all[all.len() - 1])
        || text_bytes(text) > MAX_NAME_BYTES || contains_control(text) {
        Err(ConfigError::Invalid("configuration name is invalid"))
    } else {
        Ok(())
    }
}

fn validate_positive(value: u64, max: u64) -> (result: Result<(), ConfigError>)
    ensures
        refusal(result) == positive_fault(value, max),
{
    if value == 0 || value > max {
        Err(ConfigError::Invalid("numeric configuration is out of bounds"))
    } else {
        Ok(())
    }
}

fn validate_runtime(runtime: &RuntimeConfig) -> (result: Result<(), ConfigError>)
    ensures
        refusal(result) == runtime_fault(*runtime),
{
    validate_positive(runtime.tool_foreground_ms, MAX_TOOL_FOREGROUND_MS)?;
    if let Some(events) = runtime.snapshot_every_events {
        validate_positive(events, MAX_SNAPSHOT_EVENTS)?;
    }
    validate_positive(runtime.max_rounds_per_activation, MAX_ROUNDS_PER_ACTIVATION)?;
    validate_positive(runtime.model_step_max_attempts, MAX_MODEL_STEP_ATTEMPTS)?;
    if runtime.model_retry_base_ms > MAX_MODEL_RETRY_MS {
        return Err(ConfigError::Invalid("numeric configuration is out of bounds"));
    }
    validate_positive(runtime.model_retry_max_ms, MAX_MODEL_RETRY_MS)?;
    validate_positive(runtime.model_stream_idle_timeout_ms, MAX_MODEL_STREAM_IDLE_TIMEOUT_MS)?;
    if runtime.model_retry_base_ms > runtime.model_retry_max_ms {
        return Err(
            ConfigError::Invalid("runtime.model_retry_base_ms must not exceed model_retry_max_ms"),
        );
    }
    Ok(())
}

/// Where paths are resolved from: the directory of the configuration, and the working directory
/// where it is known.
pub struct PathBase {
    pub directory: String,
    pub working_directory: Option<String>,
}

/// The content of a [`PathBase`].
pub struct PathBaseView {
    pub directory: Seq<char>,
    pub working_directory: Option<Seq<char>>,
}

impl DeepView for PathBase {
    type V = PathBaseView;

    open spec fn deep_view(&self) -> PathBaseView {
        PathBaseView {
            directory: self.directory@,
            working_directory: self.working_directory.deep_view(),
        }
    }
}

/// Whether a path text can be one.
pub open spec fn is_path_text(raw: Seq<char>) -> bool {
    raw.len() > 0 && !raw.contains('\0') && byte_len(raw) <= MAX_PATH_BYTES
}

/// What is wrong with a path; `reason` tells of a text that can be none.
pub open spec fn path_fault(base: PathBaseView, raw: Seq<char>, reason: Seq<char>) -> Option<
    Seq<char>,
> {
    fault_if(!is_path_text(raw), reason).before(
        fault_if(
            reached(base.working_directory, base.directory, raw) is None,
            "cannot determine process working directory"@,
        ),
    )
}

/// The path that a path text denotes.
pub open spec fn path_at(base: PathBaseView, raw: Seq<char>) -> Seq<Seq<char>> {
    reached(base.working_directory, base.directory, raw)->0
}

fn resolve_path(base: &PathBase, raw: &str, reason: &'static str) -> (result: Result<
    StorePath,
    ConfigError,
>)
    ensures
        refusal(result) == path_fault(base.deep_view(), raw@, reason@),
        result matches Ok(path) ==> path.deep_view() == path_at(base.deep_view(), raw@),
{
    if raw.is_empty() || contains_char(raw, '\0') || text_bytes(raw) > MAX_PATH_BYTES {
        return Err(ConfigError::Invalid(reason));
    }
    let working_directory = match &base.working_directory {
        Some(directory) => Some(directory.as_str()),
        None => None,
    };
    match reach(working_directory, &base.directory, raw) {
        Some(path) => Ok(path),
        None => Err(ConfigError::Invalid("cannot determine process working directory")),
    }
}

/// Resolves a database path that was given beside the configuration, from the working directory.
pub fn resolve_cli_path(raw: &str, working_directory: Option<String>) -> (result: Result<
    StorePath,
    ConfigError,
>)
    ensures
        ({
            let base = PathBaseView {
                directory: "."@,
                working_directory: working_directory.deep_view(),
            };
            &&& refusal(result) == path_fault(base, raw@, "--database path is invalid"@)
            &&& result matches Ok(path) ==> path.deep_view() == path_at(base, raw@)
        }),
{
    let base = PathBase { directory: ".".to_string(), working_directory };
    resolve_path(&base, raw, "--database path is invalid")
}

/// What is wrong with a store of files.
pub open spec fn file_store_fault(
    base: PathBaseView,
    store: StoreConfigView,
    wrong_kind: Seq<char>,
) -> Option<Seq<char>> {
    text_fault(store.kind, MAX_KIND_BYTES).before(
        fault_if(store.kind != "files"@, wrong_kind),
    ).before(path_fault(base, store.path, "store path is invalid"@))
}

fn validate_file_store(base: &PathBase, store: &StoreConfig, wrong_kind: &'static str) -> (result:
    Result<StorePath, ConfigError>)
    ensures
        refusal(result) == file_store_fault(
            base.deep_view(),
            store.deep_view(),
            wrong_kind@,
        ),
        result matches Ok(path) ==> path.deep_view() == path_at(base.deep_view(), store.path@),
{
    validate_bounded_string(&store.kind, MAX_KIND_BYTES)?;
    if !same_text(&store.kind, "files") {
        return Err(ConfigError::Invalid(wrong_kind));
    }
    resolve_path(base, &store.path, "store path is invalid")
}

/// Whether an authority has the given name.
pub open spec fn has_authority(
    authorities: Seq<ControllerAuthConfigView>,
    authority_id: Seq<char>,
) -> bool {
    exists|i: int|
        0 <= i < authorities.len() && (#[trigger] authorities[i]).authority_id == authority_id
}

/// An authority in the light of those before it.
pub open spec fn authority_check(base: PathBaseView) -> spec_fn(
    Seq<ControllerAuthConfigView>,
    ControllerAuthConfigView,
) -> Option<Seq<char>> {
    |before: Seq<ControllerAuthConfigView>, authority: ControllerAuthConfigView|
        name_fault(authority.authority_id).before(
            fault_if(
                byte_len(authority.authority_id) > MAX_AUTHORITY_ID_BYTES,
                "controller_auth.authority_id is too long"@,
            ),
        ).before(text_fault(authority.kind, MAX_KIND_BYTES)).before(
            fault_if(
                authority.kind != "bearer_secret_file"@,
                "controller_auth.kind must be bearer_secret_file"@,
            ),
        ).before(
            fault_if(
                authority.revision == 0,
                "controller_auth.revision must be positive"@,
            ),
        ).before(
            fault_if(
                has_authority(before, authority.authority_id),
                "controller_auth has duplicate authority_id"@,
            ),
        ).before(path_fault(base, authority.secret_file, "store path is invalid"@))
}

/// What is wrong with the authorities.
pub open spec fn authorities_fault(
    base: PathBaseView,
    authorities: Seq<ControllerAuthConfigView>,
) -> Option<Seq<char>> {
    fault_if(
        authorities.len() > MAX_LIST_ITEMS,
        "controller_auth has too many entries"@,
    ).before(first_fault(authorities, authority_check(base)))
}

/// The authorities, with the paths of their secrets.
pub open spec fn resolved_authorities(
    base: PathBaseView,
    authorities: Seq<ControllerAuthConfigView>,
) -> Seq<ResolvedAuthorityView> {
    Seq::new(
        authorities.len(),
        |i: int|
            ResolvedAuthorityView {
                authority_id: authorities[i].authority_id,
                revision: authorities[i].revision,
                secret_file: path_at(base, authorities[i].secret_file),
            },
    )
}

fn authority_named_before(authorities: &Vec<ControllerAuthConfig>, index: usize) -> (found: bool)
    requires
        index < authorities.len(),
    ensures
        found == has_authority(
            authorities.deep_view().take(index as int),
            authorities.deep_view()[index as int].authority_id,
        ),
{
    let ghost view = authorities.deep_view();
    let mut position: usize = 0;
    while position < index
        invariant
            view == authorities.deep_view(),
            position <= index < authorities.len(),
            forall|i: int|
                0 <= i < position ==> (#[trigger] view[i]).authority_id
                    != view[index as int].authority_id,
        decreases index - position,
    {
        if same_text(&authorities[position].authority_id, &authorities[index].authority_id) {
            assert(view.take(index as int)[position as int].authority_id
                == view[index as int].authority_id);
            return true;
        }
        position += 1;
    }
    false
}

fn validate_controller_auth(base: &PathBase, authorities: &Vec<ControllerAuthConfig>) -> (result:
    Result<Vec<ResolvedAuthority>, ConfigError>)
    ensures
        refusal(result) == authorities_fault(base.deep_view(), authorities.deep_view()),
        result matches Ok(resolved) ==> resolved.deep_view() == resolved_authorities(
            base.deep_view(),
            authorities.deep_view(),
        ),
{
    if authorities.len() > MAX_LIST_ITEMS {
        return Err(ConfigError::Invalid("controller_auth has too many entries"));
    }
    let ghost view = authorities.deep_view();
    let ghost check = authority_check(base.deep_view());
    proof {
        lemma_first_fault_whole(view, check);
    }
    let mut resolved: Vec<ResolvedAuthority> = Vec::with_capacity(authorities.len());
    let mut index: usize = 0;
    while index < authorities.len()
        invariant
            view == authorities.deep_view(),
            authorities.len() <= MAX_LIST_ITEMS,
            check == authority_check(base.deep_view()),
            index <= authorities.len(),
            resolved.len() == index,
            first_fault(view.take(index as int), check) is None,
            forall|i: int|
                0 <= i < index ==> (#[trigger] resolved[i]).deep_view() == resolved_authorities(
                    base.deep_view(),
                    view,
                )[i],
        decreases authorities.len() - index,
    {
        proof {
            lemma_first_fault_step(view, check, index as int);
            if first_fault(view.take(index + 1), check) is Some {
                lemma_first_fault_prefix(view, check, index + 1);
            }
        }
        let authority = &authorities[index];
        validate_name(&authority.authority_id)?;
        if text_bytes(&authority.authority_id) > MAX_AUTHORITY_ID_BYTES {
            return Err(ConfigError::Invalid("controller_auth.authority_id is too long"));
        }
        validate_bounded_string(&authority.kind, MAX_KIND_BYTES)?;
        if !same_text(&authority.kind, "bearer_secret_file") {
            return Err(ConfigError::Invalid("controller_auth.kind must be bearer_secret_file"));
        }
        if authority.revision == 0 {
            return Err(ConfigError::Invalid("controller_auth.revision must be positive"));
        }
        if authority_named_before(authorities, index) {
            return Err(ConfigError::Invalid("controller_auth has duplicate authority_id"));
        }
        let secret_file = resolve_path(base, &authority.secret_file, "store path is invalid")?;
        resolved.push(
            ResolvedAuthority {
                authority_id: authority.authority_id.clone(),
                revision: authority.revision,
                secret_file,
            },
        );
        index += 1;
    }
    proof {
        lemma_first_fault_whole(view, check);
        assert(resolved.deep_view() =~= resolved_authorities(base.deep_view(), view));
    }
    Ok(resolved)
}

/// Whether an address is one of a server, and nothing more.
pub open spec fn is_server_address(address: WebAddressView, allow_path: bool) -> bool {
    &&& address.scheme == "http"@ || address.scheme == "https"@
    &&& address.host is Some
    &&& address.username.len() == 0
    &&& address.password is None
    &&& address.query is None
    &&& address.fragment is None
    &&& address.port != Some(0u16)
    &&& allow_path || address.path.len() == 0 || address.path == "/"@
}

/// What is wrong with the address of a server.
pub open spec fn address_fault(raw: Seq<char>, allow_path: bool) -> Option<Seq<char>> {
    text_fault(raw, MAX_URL_BYTES).before(
        match address_of(raw) {
            None => Some("URL is invalid"@),
            Some(address) => fault_if(
                !is_server_address(address, allow_path),
                "URL or origin is invalid"@,
            ),
        },
    )
}

fn parse_http_url(raw: &str, allow_path: bool) -> (result: Result<WebAddress, ConfigError>)
    ensures
        refusal(result) == address_fault(raw@, allow_path),
        result matches Ok(address) ==> address_of(raw@) == Some(address.deep_view()),
{
    validate_bounded_string(raw, MAX_URL_BYTES)?;
    let address = match parse_address(raw) {
        Some(address) => address,
        None => {
            return Err(ConfigError::Invalid("URL is invalid"));
        },
    };
    let zero_port = match address.port {
        Some(port) => port == 0,
        None => false,
    };
    if !(same_text(&address.scheme, "http") || same_text(&address.scheme, "https"))
        || address.host.is_none() || !address.username.as_str().is_empty()
        || address.password.is_some() || address.query.is_some() || address.fragment.is_some()
        || zero_port || !(allow_path || address.path.as_str().is_empty() || same_text(
        &address.path,
        "/",
    )) {
        return Err(ConfigError::Invalid("URL or origin is invalid"));
    }
    Ok(address)
}

/// The origin of an address as text.
pub open spec fn origin_text(raw: Seq<char>) -> Seq<char> {
    match address_of(raw)->0.origin {
        Some(origin) => origin.name,
        None => "null"@,
    }
}

/// The origins of addresses as text.
pub open spec fn origin_texts(values: Seq<Seq<char>>) -> Seq<Seq<char>> {
    Seq::new(values.len(), |i: int| origin_text(values[i]))
}

/// An origin in the light of those before it.
pub open spec fn origin_check() -> spec_fn(Seq<Seq<char>>, Seq<char>) -> Option<Seq<char>> {
    |before: Seq<Seq<char>>, value: Seq<char>|
        address_fault(value, false).before(
            fault_if(
                origin_texts(before).contains(origin_text(value)),
                "origin list contains duplicates"@,
            ),
        )
}

/// What is wrong with a list of origins.
pub open spec fn origins_fault(values: Seq<Seq<char>>) -> Option<Seq<char>> {
    fault_if(values.len() > MAX_LIST_ITEMS, "origin list is too large"@).before(
        first_fault(values, origin_check()),
    )
}

fn parse_origins(values: &Vec<String>) -> (result: Result<Vec<String>, ConfigError>)
    ensures
        refusal(result) == origins_fault(values.deep_view()),
        result matches Ok(origins) ==> origins.deep_view() == in_name_order::<String>(
            origin_texts(values.deep_view()),
        ),
{
    if values.len() > MAX_LIST_ITEMS {
        return Err(ConfigError::Invalid("origin list is too large"));
    }
    let ghost view = values.deep_view();
    let ghost check = origin_check();
    proof {
        lemma_first_fault_whole(view, check);
    }
    let mut origins: Vec<String> = Vec::with_capacity(values.len());
    let mut index: usize = 0;
    assert(origins.deep_view() =~= origin_texts(view.take(0)));
    while index < values.len()
        invariant
            view == values.deep_view(),
            values.len() <= MAX_LIST_ITEMS,
            check == origin_check(),
            index <= values.len(),
            first_fault(view.take(index as int), check) is None,
            origins.deep_view() == origin_texts(view.take(index as int)),
        decreases values.len() - index,
    {
        proof {
            lemma_first_fault_step(view, check, index as int);
            if first_fault(view.take(index + 1), check) is Some {
                lemma_first_fault_prefix(view, check, index + 1);
            }
        }
        let address = parse_http_url(&values[index], false)?;
        let origin = match address.origin {
            Some(origin) => origin.name,
            None => "null".to_string(),
        };
        assert(origin@ == origin_text(view[index as int]));
        if contains_text(&origins, &origin) {
            return Err(ConfigError::Invalid("origin list contains duplicates"));
        }
        let ghost earlier = origins.deep_view();
        let ghost added = origin@;
        origins.push(origin);
        assert(origins.deep_view() =~= earlier.push(added));
        assert(origin_texts(view.take(index + 1)) =~= earlier.push(added));
        index += 1;
    }
    proof {
        lemma_first_fault_whole(view, check);
        assert(view.take(index as int) =~= view);
    }
    Ok(sort_by_name(&origins))
}

/// A name in the light of those before it.
pub open spec fn unique_name_check() -> spec_fn(Seq<Seq<char>>, Seq<char>) -> Option<Seq<char>> {
    |before: Seq<Seq<char>>, name: Seq<char>|
        name_fault(name).before(fault_if(before.contains(name), "name list contains duplicates"@))
}

/// Whether an adapter is one of those that there are.
pub open spec fn adapter_known(kind: Seq<char>) -> bool {
    kind == "openai_compatible"@ || kind == "anthropic"@
}

/// What is wrong with the adapters and origins.
pub open spec fn execution_config_fault(config: ProviderExecutionConfigView) -> Option<Seq<char>> {
    fault_if(config.adapter_kinds.len() > MAX_LIST_ITEMS, "name list is too large"@).before(
        first_fault(config.adapter_kinds, unique_name_check()),
    ).before(
        fault_if(
            exists|i: int|
                0 <= i < config.adapter_kinds.len() && !adapter_known(
                    #[trigger] config.adapter_kinds[i],
                ),
            "provider_execution contains an unsupported adapter kind"@,
        ),
    ).before(origins_fault(config.allowed_base_url_origins))
}

/// The adapters and origins in order.
pub open spec fn resolved_execution(
    config: ProviderExecutionConfigView,
) -> ProviderExecutionConfigView {
    ProviderExecutionConfigView {
        adapter_kinds: in_name_order::<String>(config.adapter_kinds),
        allowed_base_url_origins: in_name_order::<String>(
            origin_texts(config.allowed_base_url_origins),
        ),
    }
}

fn text_named_before(texts: &Vec<String>, index: usize) -> (found: bool)
    requires
        index < texts.len(),
    ensures
        found == texts.deep_view().take(index as int).contains(texts.deep_view()[index as int]),
{
    let ghost view = texts.deep_view();
    let mut position: usize = 0;
    while position < index
        invariant
            view == texts.deep_view(),
            position <= index < texts.len(),
            forall|i: int| 0 <= i < position ==> view[i] != view[index as int],
        decreases index - position,
    {
        if same_text(&texts[position], &texts[index]) {
            assert(view.take(index as int)[position as int] == view[index as int]);
            return true;
        }
        position += 1;
    }
    false
}

fn parse_unique_names(names: &Vec<String>) -> (result: Result<(), ConfigError>)
    ensures
        refusal(result) == fault_if(
            names.deep_view().len() > MAX_LIST_ITEMS,
            "name list is too large"@,
        ).before(first_fault(names.deep_view(), unique_name_check())),
{
    if names.len() > MAX_LIST_ITEMS {
        return Err(ConfigError::Invalid("name list is too large"));
    }
    let ghost view = names.deep_view();
    let ghost check = unique_name_check();
    proof {
        lemma_first_fault_whole(view, check);
    }
    let mut index: usize = 0;
    while index < names.len()
        invariant
            view == names.deep_view(),
            names.len() <= MAX_LIST_ITEMS,
            check == unique_name_check(),
            index <= names.len(),
            first_fault(view.take(index as int), check) is None,
        decreases names.len() - index,
    {
        proof {
            lemma_first_fault_step(view, check, index as int);
            if first_fault(view.take(index + 1), check) is Some {
                lemma_first_fault_prefix(view, check, index + 1);
            }
        }
        validate_name(&names[index])?;
        if text_named_before(names, index) {
            return Err(ConfigError::Invalid("name list contains duplicates"));
        }
        index += 1;
    }
    proof {
        lemma_first_fault_whole(view, check);
    }
    Ok(())
}

fn any_unknown_adapter(kinds: &Vec<String>) -> (found: bool)
    ensures
        found == exists|i: int|
            0 <= i < kinds.deep_view().len() && !adapter_known(#[trigger] kinds.deep_view()[i]),
{
    let ghost view = kinds.deep_view();
    let mut index: usize = 0;
    while index < kinds.len()
        invariant
            view == kinds.deep_view(),
            index <= kinds.len(),
            forall|i: int| 0 <= i < index ==> adapter_known(#[trigger] view[i]),
        decreases kinds.len() - index,
    {
        if !same_text(&kinds[index], "openai_compatible") && !same_text(
            &kinds[index],
            "anthropic",
        ) {
            assert(!adapter_known(view[index as int]));
            return true;
        }
        index += 1;
    }
    false
}

fn validate_provider_execution(config: &ProviderExecutionConfig) -> (result: Result<
    ProviderExecutionConfig,
    ConfigError,
>)
    ensures
        refusal(result) == execution_config_fault(config.deep_view()),
        result matches Ok(resolved) ==> resolved.deep_view() == resolved_execution(
            config.deep_view(),
        ),
{
    parse_unique_names(&config.adapter_kinds)?;
    if any_unknown_adapter(&config.adapter_kinds) {
        return Err(
            ConfigError::Invalid("provider_execution contains an unsupported adapter kind"),
        );
    }
    let allowed_base_url_origins = parse_origins(&config.allowed_base_url_origins)?;
    Ok(
        ProviderExecutionConfig {
            adapter_kinds: sort_by_name(&config.adapter_kinds),
            allowed_base_url_origins,
        },
    )
}

/// Whether a tool has the given name.
pub open spec fn has_tool(tools: Seq<ToolConfigView>, name: Seq<char>) -> bool {
    exists|i: int| 0 <= i < tools.len() && (#[trigger] tools[i]).name == name
}

/// What is wrong with the schema of a tool's input, given whether it can be compiled.
pub open spec fn input_schema_fault(schema: JsonView, compiles: bool) -> Option<Seq<char>> {
    if !(schema is Object) {
        Some("tools.input_schema must be a bounded object"@)
    } else {
        match json_size(schema) {
            Err(_) => Some("tools.input_schema is invalid"@),
            Ok(bytes) => fault_if(
                bytes > MAX_INPUT_SCHEMA_BYTES,
                "tools.input_schema must be a bounded object"@,
            ).before(fault_if(!compiles, "tools.input_schema is invalid"@)),
        }
    }
}

/// What is wrong with the way in which a tool ends and is recovered.
pub open spec fn recovery_fault(tool: ToolConfigView, callback_enabled: bool) -> Option<Seq<char>> {
    let external = tool.completion_mode == ToolCompletion::ExternalCallback;
    let restart = tool.recovery.on_running_restart;
    fault_if(
        !external && restart == RunningRestart::AwaitCallback,
        "response tools cannot await an external callback after restart"@,
    ).before(
        fault_if(
            external && restart != RunningRestart::AwaitCallback,
            "external_callback tools must await callback after restart"@,
        ),
    ).before(
        fault_if(
            external && !callback_enabled,
            "external_callback tools require a callback outbound policy"@,
        ),
    ).before(
        fault_if(
            tool.recovery.retry_dispatch == RetryDispatch::SameInvocationKeyDeduplicated,
            "HTTP tools cannot claim deduplicated retry dispatch"@,
        ),
    ).before(
        fault_if(
            !external && restart == RunningRestart::RuntimeRestarted,
            "HTTP response tools cannot use runtime_restarted recovery"@,
        ),
    )
}

/// A tool in the light of those before it.
pub open spec fn tool_check(callback_enabled: bool) -> spec_fn(
    Seq<ToolConfigView>,
    ToolConfigView,
) -> Option<Seq<char>> {
    |before: Seq<ToolConfigView>, tool: ToolConfigView|
        name_fault(tool.name).before(text_fault(tool.description, MAX_DESCRIPTION_BYTES)).before(
            fault_if(tool.name == "wait_for"@, "tools contains the reserved wait_for name"@),
        ).before(fault_if(has_tool(before, tool.name), "tools has duplicate name"@)).before(
            input_schema_fault(tool.input_schema, schema_compiles(tool.schema_text)),
        ).before(
            positive_fault(tool.auto_wait_timeout_seconds, MAX_AUTO_WAIT_TIMEOUT_SECONDS),
        ).before(recovery_fault(tool, callback_enabled)).before(
            text_fault(tool.adapter.kind, MAX_KIND_BYTES),
        ).before(
            fault_if(tool.adapter.kind != "http"@, "tools.adapter.kind must be http"@),
        ).before(address_fault(tool.adapter.url, true))
}

/// What is wrong with the tools.
pub open spec fn tools_fault(tools: Seq<ToolConfigView>, callback_enabled: bool) -> Option<
    Seq<char>,
> {
    fault_if(tools.len() > MAX_LIST_ITEMS, "tools has too many entries"@).before(
        first_fault(tools, tool_check(callback_enabled)),
    )
}

/// A tool with the normalised address of its adapter.
pub open spec fn resolved_tool(tool: ToolConfigView) -> ToolConfigView {
    ToolConfigView {
        adapter: ToolAdapterConfigView {
            url: address_of(tool.adapter.url)->0.text,
            ..tool.adapter
        },
        ..tool
    }
}

/// The tools with normalised addresses, in the order of their names.
pub open spec fn resolved_tools(tools: Seq<ToolConfigView>) -> Seq<ToolConfigView> {
    in_name_order::<ToolConfig>(Seq::new(tools.len(), |i: int| resolved_tool(tools[i])))
}

fn tool_named_before(tools: &Vec<ToolConfig>, index: usize) -> (found: bool)
    requires
        index < tools.len(),
    ensures
        found == has_tool(
            tools.deep_view().take(index as int),
            tools.deep_view()[index as int].name,
        ),
{
    let ghost view = tools.deep_view();
    let mut position: usize = 0;
    while position < index
        invariant
            view == tools.deep_view(),
            position <= index < tools.len(),
            forall|i: int|
                0 <= i < position ==> (#[trigger] view[i]).name != view[index as int].name,
        decreases index - position,
    {
        if same_text(&tools[position].name, &tools[index].name) {
            assert(view.take(index as int)[position as int].name == view[index as int].name);
            return true;
        }
        position += 1;
    }
    false
}

/// Checks the schema of a tool's input, given whether it can be compiled.
pub fn check_input_schema(schema: &Value, compiles: bool) -> (result: Result<(), ConfigError>)
    ensures
        refusal(result) == input_schema_fault(json_view(*schema), compiles),
{
    if !matches!(node(schema), JsonNode::Object(_)) {
        return Err(ConfigError::Invalid("tools.input_schema must be a bounded object"));
    }
    match encoded_len(schema) {
        Ok(bytes) => {
            if bytes > MAX_INPUT_SCHEMA_BYTES {
                return Err(ConfigError::Invalid("tools.input_schema must be a bounded object"));
            }
        },
        Err(_) => {
            return Err(ConfigError::Invalid("tools.input_schema is invalid"));
        },
    }
    if !compiles {
        return Err(ConfigError::Invalid("tools.input_schema is invalid"));
    }
    Ok(())
}

/// Checks the schema of a tool's input. Only one that is bounded is compiled.
fn validate_input_schema(schema: &Value) -> (result: Result<(), ConfigError>)
    ensures
        refusal(result) == input_schema_fault(
            json_view(*schema),
            schema_compiles(json_text(*schema)),
        ),
{
    check_input_schema(schema, true)?;
    check_input_schema(schema, compiles(schema))
}

fn validate_recovery(tool: &ToolConfig, callback_enabled: bool) -> (result: Result<
    (),
    ConfigError,
>)
    ensures
        refusal(result) == recovery_fault(tool.deep_view(), callback_enabled),
{
    let external = tool.completion_mode == ToolCompletion::ExternalCallback;
    let restart = tool.recovery.on_running_restart;
    if !external && restart == RunningRestart::AwaitCallback {
        return Err(
            ConfigError::Invalid("response tools cannot await an external callback after restart"),
        );
    }
    if external && restart != RunningRestart::AwaitCallback {
        return Err(
            ConfigError::Invalid("external_callback tools must await callback after restart"),
        );
    }
    if external && !callback_enabled {
        return Err(
            ConfigError::Invalid("external_callback tools require a callback outbound policy"),
        );
    }
    if tool.recovery.retry_dispatch == RetryDispatch::SameInvocationKeyDeduplicated {
        return Err(ConfigError::Invalid("HTTP tools cannot claim deduplicated retry dispatch"));
    }
    if !external && restart == RunningRestart::RuntimeRestarted {
        return Err(
            ConfigError::Invalid("HTTP response tools cannot use runtime_restarted recovery"),
        );
    }
    Ok(())
}

fn validate_tools(tools: &Vec<ToolConfig>, callback_enabled: bool) -> (result: Result<
    Vec<ToolConfig>,
    ConfigError,
>)
    ensures
        refusal(result) == tools_fault(tools.deep_view(), callback_enabled),
        result matches Ok(resolved) ==> resolved.deep_view() == resolved_tools(tools.deep_view()),
{
    if tools.len() > MAX_LIST_ITEMS {
        return Err(ConfigError::Invalid("tools has too many entries"));
    }
    let ghost view = tools.deep_view();
    let ghost check = tool_check(callback_enabled);
    proof {
        lemma_first_fault_whole(view, check);
    }
    let mut resolved: Vec<ToolConfig> = Vec::with_capacity(tools.len());
    let mut index: usize = 0;
    while index < tools.len()
        invariant
            view == tools.deep_view(),
            tools.len() <= MAX_LIST_ITEMS,
            check == tool_check(callback_enabled),
            index <= tools.len(),
            resolved.len() == index,
            first_fault(view.take(index as int), check) is None,
            forall|i: int|
                0 <= i < index ==> (#[trigger] resolved[i]).deep_view() == resolved_tool(view[i]),
        decreases tools.len() - index,
    {
        proof {
            lemma_first_fault_step(view, check, index as int);
            if first_fault(view.take(index + 1), check) is Some {
                lemma_first_fault_prefix(view, check, index + 1);
            }
        }
        let tool = &tools[index];
        validate_name(&tool.name)?;
        validate_bounded_string(&tool.description, MAX_DESCRIPTION_BYTES)?;
        if same_text(&tool.name, "wait_for") {
            return Err(ConfigError::Invalid("tools contains the reserved wait_for name"));
        }
        if tool_named_before(tools, index) {
            return Err(ConfigError::Invalid("tools has duplicate name"));
        }
        validate_input_schema(&tool.input_schema.value)?;
        validate_positive(tool.auto_wait_timeout_seconds, MAX_AUTO_WAIT_TIMEOUT_SECONDS)?;
        validate_recovery(tool, callback_enabled)?;
        validate_bounded_string(&tool.adapter.kind, MAX_KIND_BYTES)?;
        if !same_text(&tool.adapter.kind, "http") {
            return Err(ConfigError::Invalid("tools.adapter.kind must be http"));
        }
        let address = parse_http_url(&tool.adapter.url, true)?;
        let mut normalised = tool.replica();
        normalised.adapter.url = address.text;
        resolved.push(normalised);
        index += 1;
    }
    proof {
        lemma_first_fault_whole(view, check);
        assert(resolved.deep_view() =~= Seq::new(view.len(), |i: int| resolved_tool(view[i])));
    }
    Ok(sort_by_name(&resolved))
}

/// Whether a path overlaps one of several.
pub open spec fn overlaps_any(path: Seq<Seq<char>>, others: Seq<Seq<Seq<char>>>) -> bool {
    exists|i: int| 0 <= i < others.len() && overlap(path, #[trigger] others[i])
}

/// The paths of the stores of files.
pub open spec fn store_paths(
    credential_store: Option<Seq<Seq<char>>>,
    blob_store: Option<Seq<Seq<char>>>,
) -> Seq<Seq<Seq<char>>> {
    match (credential_store, blob_store) {
        (Some(credentials), Some(blobs)) => seq![credentials, blobs],
        (Some(credentials), None) => seq![credentials],
        (None, Some(blobs)) => seq![blobs],
        (None, None) => Seq::empty(),
    }
}

/// The paths of the files that control puts beside the runtime store.
pub open spec fn sidecar_paths(runtime_store: Seq<Seq<char>>) -> Seq<Seq<Seq<char>>> {
    seq![
        suffixed(runtime_store, ".endpoint.lock"@),
        suffixed(runtime_store, ".endpoint-id"@),
        suffixed(runtime_store, ".controller-auth"@),
    ]
}

/// Whether two of the stores overlap.
pub open spec fn stores_overlap(
    runtime_store: Seq<Seq<char>>,
    stores: Seq<Seq<Seq<char>>>,
) -> bool {
    ||| overlaps_any(runtime_store, stores)
    ||| stores.len() == 2 && overlap(stores[0], stores[1])
}

/// A secret in the light of those before it, and of all stores and sidecars.
pub open spec fn secret_check(
    runtime_store: Seq<Seq<char>>,
    stores: Seq<Seq<Seq<char>>>,
) -> spec_fn(Seq<ResolvedAuthorityView>, ResolvedAuthorityView) -> Option<Seq<char>> {
    |before: Seq<ResolvedAuthorityView>, authority: ResolvedAuthorityView|
        fault_if(
            overlap(authority.secret_file, runtime_store) || overlaps_any(
                authority.secret_file,
                stores,
            ) || overlaps_any(authority.secret_file, sidecar_paths(runtime_store))
                || exists|i: int|
                0 <= i < before.len() && overlap(
                    authority.secret_file,
                    (#[trigger] before[i]).secret_file,
                ),
            "controller auth secret files must have distinct identities"@,
        )
}

/// What is wrong with the places of stores and secrets: none may be, or lie below, another.
pub open spec fn identity_fault(
    runtime_store: Seq<Seq<char>>,
    stores: Seq<Seq<Seq<char>>>,
    authorities: Seq<ResolvedAuthorityView>,
) -> Option<Seq<char>> {
    fault_if(
        stores_overlap(runtime_store, stores),
        "configured stores must have distinct identities"@,
    ).before(first_fault(authorities, secret_check(runtime_store, stores))).before(
        fault_if(
            exists|i: int|
                0 <= i < stores.len() && overlaps_any(
                    #[trigger] stores[i],
                    sidecar_paths(runtime_store),
                ),
            "configured store overlaps a controller sidecar"@,
        ),
    )
}

fn overlaps_one(path: &StorePath, others: &Vec<StorePath>) -> (found: bool)
    ensures
        found == overlaps_any(path.deep_view(), others.deep_view()),
{
    let ghost view = others.deep_view();
    let mut index: usize = 0;
    while index < others.len()
        invariant
            view == others.deep_view(),
            index <= others.len(),
            forall|i: int| 0 <= i < index ==> !overlap(path.deep_view(), #[trigger] view[i]),
        decreases others.len() - index,
    {
        if paths_overlap(path, &others[index]) {
            assert(overlap(path.deep_view(), view[index as int]));
            return true;
        }
        index += 1;
    }
    false
}

fn secret_overlaps_before(authorities: &Vec<ResolvedAuthority>, index: usize) -> (found: bool)
    requires
        index < authorities.len(),
    ensures
        found == exists|i: int|
            0 <= i < index && overlap(
                authorities.deep_view()[index as int].secret_file,
                (#[trigger] authorities.deep_view()[i]).secret_file,
            ),
{
    let ghost view = authorities.deep_view();
    let mut position: usize = 0;
    while position < index
        invariant
            view == authorities.deep_view(),
            position <= index < authorities.len(),
            forall|i: int|
                0 <= i < position ==> !overlap(
                    view[index as int].secret_file,
                    (#[trigger] view[i]).secret_file,
                ),
        decreases index - position,
    {
        assert(view[index as int] == authorities[index as int].deep_view());
        assert(view[position as int] == authorities[position as int].deep_view());
        if paths_overlap(&authorities[index].secret_file, &authorities[position].secret_file) {
            return true;
        }
        position += 1;
    }
    false
}

fn validate_secrets(
    runtime_store: &StorePath,
    stores: &Vec<StorePath>,
    sidecars: &Vec<StorePath>,
    authorities: &Vec<ResolvedAuthority>,
) -> (result: Result<(), ConfigError>)
    requires
        sidecars.deep_view() == sidecar_paths(runtime_store.deep_view()),
    ensures
        refusal(result) == first_fault(
            authorities.deep_view(),
            secret_check(runtime_store.deep_view(), stores.deep_view()),
        ),
{
    let ghost view = authorities.deep_view();
    let ghost check = secret_check(runtime_store.deep_view(), stores.deep_view());
    proof {
        lemma_first_fault_whole(view, check);
    }
    let mut index: usize = 0;
    while index < authorities.len()
        invariant
            view == authorities.deep_view(),
            check == secret_check(runtime_store.deep_view(), stores.deep_view()),
            sidecars.deep_view() == sidecar_paths(runtime_store.deep_view()),
            index <= authorities.len(),
            first_fault(view.take(index as int), check) is None,
        decreases authorities.len() - index,
    {
        proof {
            lemma_first_fault_step(view, check, index as int);
            if first_fault(view.take(index + 1), check) is Some {
                lemma_first_fault_prefix(view, check, index + 1);
            }
        }
        let path = &authorities[index].secret_file;
        assert(view[index as int].secret_file == path.deep_view());
        let before = secret_overlaps_before(authorities, index);
        proof {
            let earlier = view.take(index as int);
            let mine = view[index as int].secret_file;
            if before {
                let i = choose|i: int|
                    0 <= i < index && overlap(mine, (#[trigger] view[i]).secret_file);
                assert(overlap(mine, earlier[i].secret_file));
            } else {
                assert forall|i: int| 0 <= i < earlier.len() implies !overlap(
                    mine,
                    (#[trigger] earlier[i]).secret_file,
                ) by {
                    assert(earlier[i] == view[i]);
                }
            }
        }
        if paths_overlap(path, runtime_store) || overlaps_one(path, stores) || overlaps_one(
            path,
            sidecars,
        ) || before {
            return Err(
                ConfigError::Invalid("controller auth secret files must have distinct identities"),
            );
        }
        index += 1;
    }
    proof {
        lemma_first_fault_whole(view, check);
    }
    Ok(())
}

fn validate_store_identity(
    runtime_store: &StorePath,
    credential_store: &Option<StorePath>,
    blob_store: &Option<StorePath>,
    authorities: &Vec<ResolvedAuthority>,
) -> (result: Result<(), ConfigError>)
    ensures
        refusal(result) == identity_fault(
            runtime_store.deep_view(),
            store_paths(credential_store.deep_view(), blob_store.deep_view()),
            authorities.deep_view(),
        ),
{
    let mut stores: Vec<StorePath> = Vec::new();
    if let Some(path) = credential_store {
        stores.push(path.replica());
    }
    if let Some(path) = blob_store {
        stores.push(path.replica());
    }
    assert(stores.deep_view() =~= store_paths(
        credential_store.deep_view(),
        blob_store.deep_view(),
    ));
    if overlaps_one(runtime_store, &stores) || (stores.len() == 2 && paths_overlap(
        &stores[0],
        &stores[1],
    )) {
        return Err(ConfigError::Invalid("configured stores must have distinct identities"));
    }
    let mut sidecars: Vec<StorePath> = Vec::new();
    sidecars.push(path_with_suffix(runtime_store, ".endpoint.lock"));
    sidecars.push(path_with_suffix(runtime_store, ".endpoint-id"));
    sidecars.push(path_with_suffix(runtime_store, ".controller-auth"));
    assert(sidecars.deep_view() =~= sidecar_paths(runtime_store.deep_view()));
    validate_secrets(runtime_store, &stores, &sidecars, authorities)?;
    let ghost view = stores.deep_view();
    let mut index: usize = 0;
    while index < stores.len()
        invariant
            view == stores.deep_view(),
            view == store_paths(credential_store.deep_view(), blob_store.deep_view()),
            sidecars.deep_view() == sidecar_paths(runtime_store.deep_view()),
            !stores_overlap(runtime_store.deep_view(), view),
            first_fault(
                authorities.deep_view(),
                secret_check(runtime_store.deep_view(), view),
            ) is None,
            index <= stores.len(),
            forall|i: int|
                0 <= i < index ==> !overlaps_any(
                    #[trigger] view[i],
                    sidecar_paths(runtime_store.deep_view()),
                ),
        decreases stores.len() - index,
    {
        assert(view[index as int] == stores[index as int].deep_view());
        if overlaps_one(&stores[index], &sidecars) {
            return Err(ConfigError::Invalid("configured store overlaps a controller sidecar"));
        }
        index += 1;
    }
    Ok(())
}

/// The paths that a configuration resolves to.
pub open spec fn optional_path(base: PathBaseView, store: Option<StoreConfigView>) -> Option<
    Seq<Seq<char>>,
> {
    match store {
        Some(store) => Some(path_at(base, store.path)),
        None => None,
    }
}

/// Whether callbacks may go anywhere.
pub open spec fn callback_enabled(config: EndpointConfigView) -> bool {
    config.callback matches Some(callback) && callback.allowed_public_origins.len() > 0
}

/// What is wrong with a configuration. `listen_parses` tells whether the address to listen on, or
/// the default one, is a socket address.
pub open spec fn config_fault(
    config: EndpointConfigView,
    base: PathBaseView,
    require_controller_auth: bool,
    listen_parses: bool,
) -> Option<Seq<char>> {
    text_fault(config.schema, MAX_SCHEMA_BYTES).before(
        fault_if(config.schema != "zode.config.v1"@, "schema must be zode.config.v1"@),
    ).before(
        optional_fault(config.listen, |listen: Seq<char>| text_fault(listen, MAX_LISTEN_BYTES)),
    ).before(fault_if(!listen_parses, "listen must be a valid socket address"@)).before(
        text_fault(config.runtime_store.kind, MAX_KIND_BYTES),
    ).before(
        fault_if(
            config.runtime_store.kind != "sqlite"@,
            "runtime_store.kind must be sqlite"@,
        ),
    ).before(
        path_fault(base, config.runtime_store.path, "runtime_store.path is invalid"@),
    ).before(
        optional_fault(
            config.credential_replica_store,
            |store: StoreConfigView|
                file_store_fault(base, store, "credential_replica_store.kind must be files"@),
        ),
    ).before(
        optional_fault(
            config.blob_store,
            |store: StoreConfigView|
                file_store_fault(base, store, "blob_store.kind must be files"@),
        ),
    ).before(authorities_fault(base, config.controller_auth)).before(
        fault_if(
            require_controller_auth && config.controller_auth.len() == 0,
            "controller_auth must contain at least one authority"@,
        ),
    ).before(runtime_fault(config.runtime)).before(
        optional_fault(
            config.provider_execution,
            |execution: ProviderExecutionConfigView| execution_config_fault(execution),
        ),
    ).before(
        optional_fault(
            config.callback,
            |callback: CallbackConfigView| origins_fault(callback.allowed_public_origins),
        ),
    ).before(tools_fault(config.tools, callback_enabled(config))).before(
        identity_fault(
            path_at(base, config.runtime_store.path),
            store_paths(
                optional_path(base, config.credential_replica_store),
                optional_path(base, config.blob_store),
            ),
            resolved_authorities(base, config.controller_auth),
        ),
    )
}

/// What a configuration means.
pub open spec fn resolved_config(
    config: EndpointConfigView,
    base: PathBaseView,
) -> ResolvedConfigView {
    ResolvedConfigView {
        listen: config.listen,
        runtime_store: path_at(base, config.runtime_store.path),
        credential_replica_store: optional_path(base, config.credential_replica_store),
        blob_store: optional_path(base, config.blob_store),
        controller_auth: resolved_authorities(base, config.controller_auth),
        runtime: config.runtime,
        provider_execution: match config.provider_execution {
            Some(execution) => Some(resolved_execution(execution)),
            None => None,
        },
        callback: match config.callback {
            Some(callback) => Some(
                CallbackConfigView {
                    allowed_public_origins: in_name_order::<String>(
                        origin_texts(callback.allowed_public_origins),
                    ),
                },
            ),
            None => None,
        },
        tools: resolved_tools(config.tools),
    }
}

proof fn lemma_sorted_len<T: Named>(items: Seq<T::V>)
    ensures
        in_name_order::<T>(items).len() == items.len(),
    decreases items.len(),
{
    if items.len() > 0 {
        lemma_sorted_len::<T>(items.drop_last());
        lemma_inserted_len::<T>(in_name_order::<T>(items.drop_last()), items.last());
    }
}

proof fn lemma_inserted_len<T: Named>(items: Seq<T::V>, item: T::V)
    ensures
        inserted::<T>(items, item).len() == items.len() + 1,
    decreases items.len(),
{
    if items.len() > 0 {
        lemma_inserted_len::<T>(items.drop_last(), item);
    }
}

impl EndpointConfig {
    /// The configuration of an endpoint that was given none.
    pub fn development_defaults() -> (config: Self)
        ensures
            config.deep_view() == (EndpointConfigView {
                schema: "zode.config.v1"@,
                listen: Some("127.0.0.1:3000"@),
                runtime_store: StoreConfigView { kind: "sqlite"@, path: "zode.sqlite3"@ },
                credential_replica_store: None,
                blob_store: None,
                controller_auth: Seq::empty(),
                runtime: RuntimeConfig {
                    tool_foreground_ms: 3_000,
                    snapshot_every_events: None,
                    max_rounds_per_activation: 32,
                    model_step_max_attempts: 3,
                    model_retry_base_ms: 500,
                    model_retry_max_ms: 5_000,
                    model_stream_idle_timeout_ms: 30_000,
                },
                provider_execution: None,
                callback: None,
                tools: Seq::empty(),
            }),
    {
        let config = EndpointConfig {
            schema: "zode.config.v1".to_string(),
            listen: Some("127.0.0.1:3000".to_string()),
            runtime_store: StoreConfig {
                kind: "sqlite".to_string(),
                path: "zode.sqlite3".to_string(),
            },
            credential_replica_store: None,
            blob_store: None,
            controller_auth: Vec::new(),
            runtime: RuntimeConfig::default(),
            provider_execution: None,
            callback: None,
            tools: Vec::new(),
        };
        assert(config.deep_view().controller_auth =~= Seq::empty());
        assert(config.deep_view().tools =~= Seq::empty());
        config
    }

    /// Checks a configuration, and gives what it means.
    pub fn validate_and_resolve(
        &self,
        base: &PathBase,
        require_controller_auth: bool,
        listen_parses: bool,
    ) -> (result: Result<ResolvedConfig, ConfigError>)
        ensures
            refusal(result) == config_fault(
                self.deep_view(),
                base.deep_view(),
                require_controller_auth,
                listen_parses,
            ),
            result matches Ok(resolved) ==> resolved.deep_view() == resolved_config(
                self.deep_view(),
                base.deep_view(),
            ),
    {
        validate_bounded_string(&self.schema, MAX_SCHEMA_BYTES)?;
        if !same_text(&self.schema, "zode.config.v1") {
            return Err(ConfigError::Invalid("schema must be zode.config.v1"));
        }
        if let Some(listen) = &self.listen {
            validate_bounded_string(listen, MAX_LISTEN_BYTES)?;
        }
        if !listen_parses {
            return Err(ConfigError::Invalid("listen must be a valid socket address"));
        }
        validate_bounded_string(&self.runtime_store.kind, MAX_KIND_BYTES)?;
        if !same_text(&self.runtime_store.kind, "sqlite") {
            return Err(ConfigError::Invalid("runtime_store.kind must be sqlite"));
        }
        let runtime_store = resolve_path(
            base,
            &self.runtime_store.path,
            "runtime_store.path is invalid",
        )?;
        let credential_replica_store = match &self.credential_replica_store {
            Some(store) => Some(
                validate_file_store(base, store, "credential_replica_store.kind must be files")?,
            ),
            None => None,
        };
        let blob_store = match &self.blob_store {
            Some(store) => Some(
                validate_file_store(base, store, "blob_store.kind must be files")?,
            ),
            None => None,
        };
        let controller_auth = validate_controller_auth(base, &self.controller_auth)?;
        if require_controller_auth && self.controller_auth.len() == 0 {
            return Err(
                ConfigError::Invalid("controller_auth must contain at least one authority"),
            );
        }
        validate_runtime(&self.runtime)?;
        let provider_execution = match &self.provider_execution {
            Some(execution) => Some(validate_provider_execution(execution)?),
            None => None,
        };
        let callback = match &self.callback {
            Some(callback) => {
                let origins = parse_origins(&callback.allowed_public_origins)?;
                Some(CallbackConfig { allowed_public_origins: origins })
            },
            None => None,
        };
        let enabled = match &callback {
            Some(callback) => callback.allowed_public_origins.len() > 0,
            None => false,
        };
        proof {
            if let Some(callback) = self.deep_view().callback {
                lemma_sorted_len::<String>(origin_texts(callback.allowed_public_origins));
            }
        }
        let tools = validate_tools(&self.tools, enabled)?;
        validate_store_identity(
            &runtime_store,
            &credential_replica_store,
            &blob_store,
            &controller_auth,
        )?;
        Ok(
            ResolvedConfig {
                listen: match &self.listen {
                    Some(listen) => Some(listen.clone()),
                    None => None,
                },
                runtime_store,
                credential_replica_store,
                blob_store,
                controller_auth,
                runtime: self.runtime,
                provider_execution,
                callback,
                tools,
            },
        )
    }

    /// Puts what was given beside the configuration in the place of what it holds. A path of a
    /// database is resolved from the working directory; where it cannot be, what comes after it is
    /// left as it is.
    pub fn apply_overrides(
        &mut self,
        listen_override: Option<String>,
        database_override: Option<String>,
        snapshot_override: Option<u64>,
        working_directory: Option<String>,
    ) -> (result: Result<(), ConfigError>)
        ensures
            refusal(result) == database_override_fault(
                database_override.deep_view(),
                working_directory.deep_view(),
            ),
            final(self).deep_view() == overridden(
                old(self).deep_view(),
                listen_override.deep_view(),
                database_override.deep_view(),
                snapshot_override,
                working_directory.deep_view(),
            ),
    {
        if let Some(listen) = listen_override {
            self.listen = Some(listen);
        }
        if let Some(raw) = database_override {
            match resolve_cli_path(&raw, working_directory) {
                Ok(path) => {
                    self.runtime_store.path = path.text();
                },
                Err(error) => {
                    return Err(error);
                },
            }
        }
        if let Some(events) = snapshot_override {
            self.runtime.snapshot_every_events = Some(events);
        }
        Ok(())
    }
}

/// What is wrong with the path of a database that was given beside a configuration.
pub open spec fn database_override_fault(
    database: Option<Seq<char>>,
    working_directory: Option<Seq<char>>,
) -> Option<Seq<char>> {
    match database {
        Some(raw) => path_fault(
            PathBaseView { directory: "."@, working_directory },
            raw,
            "--database path is invalid"@,
        ),
        None => None,
    }
}

/// A configuration with what was given beside it.
pub open spec fn overridden(
    config: EndpointConfigView,
    listen: Option<Seq<char>>,
    database: Option<Seq<char>>,
    snapshot: Option<u64>,
    working_directory: Option<Seq<char>>,
) -> EndpointConfigView {
    let listening = EndpointConfigView {
        listen: match listen {
            Some(listen) => Some(listen),
            None => config.listen,
        },
        ..config
    };
    if database_override_fault(database, working_directory) is Some {
        listening
    } else {
        EndpointConfigView {
            runtime_store: match database {
                Some(raw) => StoreConfigView {
                    path: path_text(
                        path_at(PathBaseView { directory: "."@, working_directory }, raw),
                    ),
                    ..config.runtime_store
                },
                None => config.runtime_store,
            },
            runtime: match snapshot {
                Some(events) => RuntimeConfig {
                    snapshot_every_events: Some(events),
                    ..config.runtime
                },
                None => config.runtime,
            },
            ..listening
        }
    }
}

/// The entries of a JSON object.
pub type Entries = Map<Seq<char>, JsonView>;

/// The object with an entry in the nested object of the given name. The nested object is made
/// where there is none, from `fresh`.
pub open spec fn with_nested(
    object: Entries,
    name: Seq<char>,
    fresh: Entries,
    key: Seq<char>,
    value: JsonView,
) -> Option<Entries> {
    if object.dom().contains(name) {
        match object[name] {
            JsonView::Object(nested) => Some(
                object.insert(name, JsonView::Object(nested.insert(key, value))),
            ),
            _ => None,
        }
    } else {
        Some(object.insert(name, JsonView::Object(fresh.insert(key, value))))
    }
}

/// The configuration with the address to listen on.
pub open spec fn with_listen(object: Entries, listen: Option<Seq<char>>) -> Entries {
    match listen {
        Some(listen) => object.insert("listen"@, JsonView::Text(listen)),
        None => object,
    }
}

/// The configuration with the path of the database, in a store that is made where there is none.
pub open spec fn with_database(object: Entries, database: Option<Seq<char>>) -> Option<Entries> {
    match database {
        Some(database) => with_nested(
            object,
            "runtime_store"@,
            Map::empty().insert("kind"@, JsonView::Text("sqlite"@)),
            "path"@,
            JsonView::Text(database),
        ),
        None => Some(object),
    }
}

/// The configuration with the number of events between snapshots.
pub open spec fn with_snapshot(object: Entries, events: Option<u64>) -> Option<Entries> {
    match events {
        Some(events) => with_nested(
            object,
            "runtime"@,
            Map::empty(),
            "snapshot_every_events"@,
            JsonView::Integer(events as int),
        ),
        None => Some(object),
    }
}

fn put_nested(
    object: &mut Value,
    name: &str,
    fresh: Value,
    key: &str,
    value: Value,
) -> (done: bool)
    requires
        json_view(*old(object)) is Object,
        json_view(fresh) is Object,
    ensures
        match with_nested(
            json_view(*old(object))->Object_0,
            name@,
            json_view(fresh)->Object_0,
            key@,
            json_view(value),
        ) {
            Some(entries) => done && json_view(*final(object)) == JsonView::Object(entries),
            None => !done && json_view(*final(object)) == json_view(*old(object)),
        },
{
    let nested = match entry_of(object, name) {
        Some(held) => {
            if !matches!(node(held), JsonNode::Object(_)) {
                return false;
            }
            held.clone()
        },
        None => fresh,
    };
    let mut nested = nested;
    insert_entry(&mut nested, key.to_string(), value);
    insert_entry(object, name.to_string(), nested);
    true
}

/// Puts what was given beside a configuration file in the place of what the file holds.
pub fn apply_json_overrides(
    value: &mut Value,
    listen_override: Option<String>,
    database_override: Option<String>,
    snapshot_override: Option<u64>,
) -> (result: Result<(), ConfigError>)
    ensures
        match json_view(*old(value)) {
            JsonView::Object(entries) => match with_database(
                with_listen(entries, listen_override.deep_view()),
                database_override.deep_view(),
            ) {
                None => refusal(result) == Some("runtime_store must be an object"@),
                Some(stored) => match with_snapshot(stored, snapshot_override) {
                    None => refusal(result) == Some("runtime must be an object"@),
                    Some(complete) => result is Ok && json_view(*final(value))
                        == JsonView::Object(complete),
                },
            },
            _ => refusal(result) == Some("configuration root must be an object"@),
        },
{
    if !matches!(node(value), JsonNode::Object(_)) {
        return Err(ConfigError::Invalid("configuration root must be an object"));
    }
    if let Some(listen) = listen_override {
        insert_entry(value, "listen".to_string(), string_value(listen));
    }
    if let Some(database) = database_override {
        let mut fresh = empty_object();
        insert_entry(&mut fresh, "kind".to_string(), string_value("sqlite".to_string()));
        if !put_nested(value, "runtime_store", fresh, "path", string_value(database)) {
            return Err(ConfigError::Invalid("runtime_store must be an object"));
        }
    }
    if let Some(events) = snapshot_override {
        if !put_nested(
            value,
            "runtime",
            empty_object(),
            "snapshot_every_events",
            unsigned_value(events),
        ) {
            return Err(ConfigError::Invalid("runtime must be an object"));
        }
    }
    Ok(())
}

/// No two places that an accepted configuration names overlap: not two stores, and no secret with
/// a store, a sidecar or another secret.
pub proof fn accepted_places_are_apart(
    config: EndpointConfigView,
    base: PathBaseView,
    require_controller_auth: bool,
    listen_parses: bool,
    i: int,
    j: int,
)
    requires
        config_fault(config, base, require_controller_auth, listen_parses) is None,
        0 <= i < j < config.controller_auth.len(),
    ensures
        ({
            let resolved = resolved_config(config, base);
            let stores = store_paths(resolved.credential_replica_store, resolved.blob_store);
            &&& !stores_overlap(resolved.runtime_store, stores)
            &&& !overlap(
                resolved.controller_auth[j].secret_file,
                resolved.controller_auth[i].secret_file,
            )
            &&& !overlap(resolved.controller_auth[j].secret_file, resolved.runtime_store)
            &&& !overlaps_any(resolved.controller_auth[j].secret_file, stores)
        }),
{
    let resolved = resolved_config(config, base);
    let stores = store_paths(resolved.credential_replica_store, resolved.blob_store);
    let authorities = resolved.controller_auth;
    let check = secret_check(resolved.runtime_store, stores);
    lemma_no_fault_at(authorities, check, j);
    assert(authorities.take(j)[i] == authorities[i]);
}

/// The tools of an accepted configuration have names of their own, none of which is the one that
/// the endpoint keeps for itself; one that calls back is only accepted where it can.
pub proof fn accepted_tools_are_distinct(
    config: EndpointConfigView,
    base: PathBaseView,
    require_controller_auth: bool,
    listen_parses: bool,
    i: int,
    j: int,
)
    requires
        config_fault(config, base, require_controller_auth, listen_parses) is None,
        0 <= i < j < config.tools.len(),
    ensures
        config.tools[i].name != config.tools[j].name,
        config.tools[j].name != "wait_for"@,
        config.tools[j].completion_mode == ToolCompletion::ExternalCallback ==> callback_enabled(
            config,
        ) && config.tools[j].recovery.on_running_restart == RunningRestart::AwaitCallback,
{
    let check = tool_check(callback_enabled(config));
    lemma_no_fault_at(config.tools, check, j);
    assert(config.tools.take(j)[i] == config.tools[i]);
}

} // verus!
