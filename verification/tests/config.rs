//! The configuration of the endpoint and its command line.

use serde_json::Value;
use zode::cli::Cli;
use zode::config::{
    apply_json_overrides, check_input_schema, config_value, resolve_cli_path, CallbackConfig,
    ConfigError, ControllerAuthConfig, EndpointConfig, PathBase, ProviderExecutionConfig,
    RecoveryConfig, ResolvedConfig, RetryDispatch, RunningRestart, RuntimeConfig, StoreConfig,
    ToolAdapterConfig, ToolCompletion, ToolConfig, MAX_CONFIG_BYTES, MAX_INPUT_SCHEMA_BYTES,
};
use zode::domain::CompletionMode;
use zode::json::Json;
use zode::paths::{path_with_suffix, paths_overlap, reach};
use zode::wiring::{
    capability_tools, provider_execution_policy, runtime_options, tool_specs,
};

fn words(list: &[&str]) -> Vec<String> {
    list.iter().map(|word| word.to_string()).collect()
}

fn object(text: &str) -> Json {
    Json { value: serde_json::from_str(text).unwrap() }
}

fn base() -> PathBase {
    PathBase { directory: "/etc/zode".to_string(), working_directory: None }
}

fn config() -> EndpointConfig {
    EndpointConfig::development_defaults()
}

fn resolve(config: &EndpointConfig) -> Result<ResolvedConfig, ConfigError> {
    config.validate_and_resolve(&base(), false, true)
}

fn refused(config: &EndpointConfig) -> &'static str {
    match resolve(config) {
        Err(ConfigError::Invalid(reason)) => reason,
        Err(ConfigError::Json) => panic!("no JSON"),
        Ok(_) => panic!("not refused"),
    }
}

fn authority(id: &str, file: &str) -> ControllerAuthConfig {
    ControllerAuthConfig {
        authority_id: id.to_string(),
        revision: 1,
        kind: "bearer_secret_file".to_string(),
        secret_file: file.to_string(),
    }
}

fn store(path: &str) -> Option<StoreConfig> {
    Some(StoreConfig { kind: "files".to_string(), path: path.to_string() })
}

fn tool(name: &str) -> ToolConfig {
    ToolConfig {
        name: name.to_string(),
        description: "looks".to_string(),
        input_schema: object("{\"type\":\"object\"}"),
        completion_mode: ToolCompletion::Response,
        auto_wait_timeout_seconds: 30,
        recovery: RecoveryConfig {
            on_running_restart: RunningRestart::UnknownOutcome,
            retry_dispatch: RetryDispatch::Never,
        },
        adapter: ToolAdapterConfig {
            kind: "http".to_string(),
            url: "https://tools.test/look".to_string(),
        },
    }
}

fn with_tool(change: impl Fn(&mut ToolConfig)) -> EndpointConfig {
    let mut changed = tool("look");
    change(&mut changed);
    let mut config = config();
    config.tools = vec![changed];
    config
}

#[test]
fn the_defaults_are_accepted() {
    let resolved = resolve(&config()).unwrap();
    assert_eq!(resolved.listen, Some("127.0.0.1:3000".to_string()));
    assert_eq!(resolved.runtime_store.text(), "/etc/zode/zode.sqlite3");
    assert_eq!(resolved.runtime.model_step_max_attempts, 3);
    assert_eq!(
        config().validate_and_resolve(&base(), true, true),
        Err(ConfigError::Invalid("controller_auth must contain at least one authority"))
    );
    assert_eq!(
        config().validate_and_resolve(&base(), false, false),
        Err(ConfigError::Invalid("listen must be a valid socket address"))
    );
}

#[test]
fn simple_fields_are_checked() {
    let mut changed = config();
    changed.schema = "zode.config.v2".to_string();
    assert_eq!(refused(&changed), "schema must be zode.config.v1");
    let mut changed = config();
    changed.runtime_store.kind = "files".to_string();
    assert_eq!(refused(&changed), "runtime_store.kind must be sqlite");
    let mut changed = config();
    changed.listen = Some("a\0b".to_string());
    assert_eq!(refused(&changed), "configuration text is invalid");
    let mut changed = config();
    changed.blob_store = Some(StoreConfig { kind: "sqlite".to_string(), path: "b".to_string() });
    assert_eq!(refused(&changed), "blob_store.kind must be files");
}

#[test]
fn limits_are_checked() {
    let changed = |runtime: RuntimeConfig| {
        let mut config = config();
        config.runtime = runtime;
        config
    };
    let bounds = "numeric configuration is out of bounds";
    assert_eq!(refused(&changed(RuntimeConfig { tool_foreground_ms: 0, ..Default::default() })), bounds);
    assert_eq!(
        refused(&changed(RuntimeConfig { snapshot_every_events: Some(0), ..Default::default() })),
        bounds
    );
    assert_eq!(
        refused(&changed(RuntimeConfig {
            max_rounds_per_activation: 10_001,
            ..Default::default()
        })),
        bounds
    );
    assert_eq!(
        refused(&changed(RuntimeConfig {
            model_retry_base_ms: 10,
            model_retry_max_ms: 9,
            ..Default::default()
        })),
        "runtime.model_retry_base_ms must not exceed model_retry_max_ms"
    );
}

#[test]
fn places_are_kept_apart() {
    let mut changed = config();
    changed.blob_store = store("zode.sqlite3");
    assert_eq!(refused(&changed), "configured stores must have distinct identities");
    let mut changed = config();
    changed.credential_replica_store = store("credentials");
    changed.blob_store = store("credentials/blobs");
    assert_eq!(refused(&changed), "configured stores must have distinct identities");
    let mut changed = config();
    changed.controller_auth = vec![authority("a", "secret"), authority("b", "./secret")];
    assert_eq!(refused(&changed), "controller auth secret files must have distinct identities");
    let mut changed = config();
    changed.controller_auth = vec![authority("a", "secret-a"), authority("b", "secret-b")];
    changed.credential_replica_store = store("credentials");
    changed.blob_store = store("blobs");
    let resolved = resolve(&changed).unwrap();
    assert_eq!(resolved.controller_auth[1].secret_file.text(), "/etc/zode/secret-b");
}

#[test]
fn authorities_are_checked() {
    let mut changed = config();
    changed.controller_auth = vec![authority("a", "x"), authority("a", "y")];
    assert_eq!(refused(&changed), "controller_auth has duplicate authority_id");
    let mut bad = authority("a", "x");
    bad.revision = 0;
    changed.controller_auth = vec![bad];
    assert_eq!(refused(&changed), "controller_auth.revision must be positive");
    let mut bad = authority("a", "x");
    bad.kind = "password".to_string();
    changed.controller_auth = vec![bad];
    assert_eq!(refused(&changed), "controller_auth.kind must be bearer_secret_file");
    changed.controller_auth = vec![authority(" a", "x")];
    assert_eq!(refused(&changed), "configuration name is invalid");
}

#[test]
fn providers_are_checked() {
    let execution = |kinds: &[&str], origins: &[&str]| {
        let mut config = config();
        config.provider_execution = Some(ProviderExecutionConfig {
            adapter_kinds: words(kinds),
            allowed_base_url_origins: words(origins),
        });
        config
    };
    let resolved =
        resolve(&execution(&["openai_compatible"], &["https://MODELS.test:443"])).unwrap();
    let (kinds, origins) = provider_execution_policy(&resolved.provider_execution);
    assert_eq!(kinds, words(&["openai_compatible"]));
    assert_eq!(origins.len(), 1);
    assert!(origins[0].starts_with("https://models.test"));
    assert_eq!(
        refused(&execution(&["other"], &[])),
        "provider_execution contains an unsupported adapter kind"
    );
    assert_eq!(
        refused(&execution(&["anthropic", "anthropic"], &[])),
        "name list contains duplicates"
    );
    assert_eq!(
        refused(&execution(&["anthropic"], &["https://a.test", "https://A.test"])),
        "origin list contains duplicates"
    );
    assert!(resolve(&execution(&["anthropic"], &["not an address"])).is_err());
    assert_eq!(provider_execution_policy(&None), (vec![], vec![]));
}

#[test]
fn tools_are_checked() {
    assert!(resolve(&with_tool(|_| {})).is_ok());
    assert_eq!(
        refused(&with_tool(|tool| tool.name = "wait_for".to_string())),
        "tools contains the reserved wait_for name"
    );
    assert_eq!(
        refused(&with_tool(|tool| tool.input_schema = object("[]"))),
        "tools.input_schema must be a bounded object"
    );
    assert_eq!(
        refused(&with_tool(|tool| tool.input_schema = object("{\"type\":12}"))),
        "tools.input_schema is invalid"
    );
    assert_eq!(
        refused(&with_tool(|tool| tool.auto_wait_timeout_seconds = 601)),
        "numeric configuration is out of bounds"
    );
    assert_eq!(
        refused(&with_tool(|tool| tool.adapter.kind = "pipe".to_string())),
        "tools.adapter.kind must be http"
    );
    assert_eq!(
        refused(&with_tool(|tool| tool.recovery.on_running_restart = RunningRestart::AwaitCallback)),
        "response tools cannot await an external callback after restart"
    );
    assert_eq!(
        refused(&with_tool(|tool| tool.completion_mode = ToolCompletion::ExternalCallback)),
        "external_callback tools must await callback after restart"
    );
    assert_eq!(
        refused(&with_tool(|tool| tool.recovery.retry_dispatch =
            RetryDispatch::SameInvocationKeyDeduplicated)),
        "HTTP tools cannot claim deduplicated retry dispatch"
    );
    let mut twice = config();
    twice.tools = vec![tool("look"), tool("look")];
    assert_eq!(refused(&twice), "tools has duplicate name");
}

#[test]
fn a_tool_that_calls_back_needs_a_way() {
    let external = with_tool(|tool| {
        tool.completion_mode = ToolCompletion::ExternalCallback;
        tool.recovery.on_running_restart = RunningRestart::AwaitCallback;
    });
    assert_eq!(refused(&external), "external_callback tools require a callback outbound policy");
    let mut allowed = external;
    allowed.callback =
        Some(CallbackConfig { allowed_public_origins: words(&["https://endpoint.test"]) });
    let resolved = resolve(&allowed).unwrap();
    let offered = capability_tools(&resolved.tools);
    assert_eq!(offered[0].completion_mode, ToolCompletion::ExternalCallback);
    let specs = tool_specs(&resolved.tools);
    assert_eq!(specs[0].completion_mode, CompletionMode::ExternalCallback);
    assert_eq!(specs[0].auto_wait_seconds, Some(30));
    assert_eq!(specs[0].running_restart, RunningRestart::AwaitCallback);
}

#[test]
fn tools_are_put_in_order_with_their_addresses() {
    let mut changed = config();
    let mut far = tool("zoom");
    far.adapter.url = "HTTPS://Tools.Test:443/zoom".to_string();
    changed.tools = vec![far, tool("look")];
    let resolved = resolve(&changed).unwrap();
    assert_eq!(resolved.tools[0].name, "look");
    assert_eq!(resolved.tools[1].adapter.url, "https://tools.test/zoom");
}

#[test]
fn limits_reach_the_runtime() {
    let options = runtime_options(RuntimeConfig {
        max_rounds_per_activation: 7,
        snapshot_every_events: Some(5),
        ..Default::default()
    });
    assert_eq!(options.max_rounds_per_activation, 7);
    assert_eq!(options.model_step_max_attempts, 3);
    assert_eq!(options.snapshot_every, Some(5));
    assert_eq!(options.model_retry_max_ms, 5_000);
}

#[test]
fn overrides_take_the_place_of_what_was_configured() {
    let mut changed = config();
    let listen = Some("[::1]:80".to_string());
    let home = Some("/home".to_string());
    let done = changed.apply_overrides(listen, Some("/db".to_string()), Some(9), home.clone());
    assert_eq!(done, Ok(()));
    assert_eq!(changed.listen, Some("[::1]:80".to_string()));
    assert_eq!(changed.runtime_store.path, "/db");
    assert_eq!(changed.runtime.snapshot_every_events, Some(9));
    let mut untouched = config();
    assert_eq!(untouched.apply_overrides(None, None, None, None), Ok(()));
    assert_eq!(untouched, config());
    let mut relative = config();
    relative.apply_overrides(None, Some("a/../db".to_string()), None, home).unwrap();
    assert_eq!(relative.runtime_store.path, "/home/db");
    let mut lost = config();
    assert_eq!(
        lost.apply_overrides(None, Some("db".to_string()), Some(9), None),
        Err(ConfigError::Invalid("cannot determine process working directory"))
    );
    assert_eq!(
        lost.apply_overrides(None, Some("".to_string()), Some(9), None),
        Err(ConfigError::Invalid("--database path is invalid"))
    );
    assert_eq!(lost, config());
}

#[test]
fn overrides_apply_to_the_file_too() {
    let mut value = Value::Object(serde_json::Map::new());
    apply_json_overrides(&mut value, Some("l".to_string()), Some("/db".to_string()), Some(9))
        .unwrap();
    assert_eq!(value["listen"], Value::from("l"));
    assert_eq!(value["runtime_store"]["path"], Value::from("/db"));
    assert_eq!(value["runtime"]["snapshot_every_events"], Value::from(9));
    let mut list = Value::Array(vec![]);
    assert_eq!(
        apply_json_overrides(&mut list, None, None, None),
        Err(ConfigError::Invalid("configuration root must be an object"))
    );
    let mut odd: Value = serde_json::from_str("{\"runtime\":1}").unwrap();
    assert_eq!(
        apply_json_overrides(&mut odd, None, None, Some(9)),
        Err(ConfigError::Invalid("runtime must be an object"))
    );
}

#[test]
fn paths_lose_their_detours() {
    assert_eq!(reach(None, "/a/b", "./c/../d").unwrap().text(), "/a/b/d");
    assert_eq!(reach(None, "/a/b", "/x//y/").unwrap().text(), "/x/y");
    assert_eq!(reach(Some("/w"), "rel", "c").unwrap().text(), "/w/rel/c");
    assert_eq!(reach(None, "rel", "c"), None);
    let outer = reach(None, "/", "/a").unwrap();
    let inner = reach(None, "/", "/a/b").unwrap();
    let beside = reach(None, "/", "/ab").unwrap();
    assert!(paths_overlap(&outer, &inner));
    assert!(paths_overlap(&inner, &outer));
    assert!(!paths_overlap(&outer, &beside));
    assert_eq!(path_with_suffix(&inner, ".id").text(), "/a/b.id");
}

#[test]
fn a_path_of_the_command_line_starts_where_the_process_is() {
    assert_eq!(
        resolve_cli_path("db", Some("/w".to_string())).unwrap().text(),
        "/w/db"
    );
    assert_eq!(resolve_cli_path("/db", None).unwrap().text(), "/db");
    assert_eq!(
        resolve_cli_path("db", None),
        Err(ConfigError::Invalid("cannot determine process working directory"))
    );
}

#[test]
fn arguments_are_read_in_pairs() {
    let cli = Cli::parse(&words(&[
        "--config", "c.json", "--db", "d", "--listen", "l", "--snapshot-every", "12",
    ]))
    .unwrap();
    assert_eq!(cli.config_path, Some("c.json".to_string()));
    assert_eq!(cli.database_path, Some("d".to_string()));
    assert_eq!(cli.listen_addr, Some("l".to_string()));
    assert_eq!(cli.snapshot_every, Some(12));
    assert_eq!(Cli::parse(&vec![]).unwrap().config_path, None);
    for (arguments, message) in [
        (&["--config"][..], "--config requires a JSON path"),
        (&["--db"][..], "--db requires a path"),
        (&["--listen"][..], "--listen requires an address"),
        (&["--snapshot-every"][..], "--snapshot-every requires a positive integer"),
        (&["--snapshot-every", "-1"][..], "invalid snapshot interval -1"),
        (&["--db", "a", "--database", "b"][..], "--database may only be supplied once"),
        (&["--what"][..], "unknown argument: --what"),
        (
            &["-h"][..],
            "usage: zode [--config JSON] [--database PATH] [--listen ADDR] [--snapshot-every N]",
        ),
    ] {
        assert_eq!(Cli::parse(&words(arguments)).unwrap_err(), message);
    }
}

#[test]
fn a_configuration_file_is_json() {
    let bytes = b"{\"schema\":\"zode.config.v1\"}".to_vec();
    assert_eq!(config_value(&bytes).unwrap()["schema"], Value::from("zode.config.v1"));
    for bad in [b"".to_vec(), b"{".to_vec(), b"{} x".to_vec(), vec![b'"', 0xff, b'"']] {
        assert_eq!(config_value(&bad), Err(ConfigError::Json));
    }
}

#[test]
fn a_configuration_file_has_a_largest_size() {
    let mut bytes = vec![b' '; MAX_CONFIG_BYTES - 1];
    bytes.push(b'1');
    assert_eq!(config_value(&bytes), Ok(Value::from(1)));
    bytes.push(b' ');
    assert_eq!(
        config_value(&bytes),
        Err(ConfigError::Invalid("configuration file is too large"))
    );
}

#[test]
fn the_order_of_a_schema_counts() {
    let first = "{\"$ref\":\"urn:x#/$defs/k\",\"$defs\":{\
        \"a\":{\"$id\":\"urn:x\",\"$defs\":{\"k\":{}}},\"b\":{\"$id\":\"urn:x\"}}}";
    let second = "{\"$ref\":\"urn:x#/$defs/k\",\"$defs\":{\
        \"b\":{\"$id\":\"urn:x\"},\"a\":{\"$id\":\"urn:x\",\"$defs\":{\"k\":{}}}}}";
    assert_eq!(object(first).value, object(second).value);
    assert_eq!(
        refused(&with_tool(|tool| tool.input_schema = object(first))),
        "tools.input_schema is invalid"
    );
    assert!(resolve(&with_tool(|tool| tool.input_schema = object(second))).is_ok());
}

#[test]
fn a_schema_is_a_bounded_object_that_compiles() {
    let schema = object("{\"type\":\"object\"}").value;
    assert_eq!(check_input_schema(&schema, true), Ok(()));
    assert_eq!(
        check_input_schema(&schema, false),
        Err(ConfigError::Invalid("tools.input_schema is invalid"))
    );
    let bounded = Err(ConfigError::Invalid("tools.input_schema must be a bounded object"));
    assert_eq!(check_input_schema(&Value::Null, true), bounded);
    let mut large = object("{}").value;
    large["title"] = Value::from("x".repeat(MAX_INPUT_SCHEMA_BYTES));
    assert_eq!(check_input_schema(&large, true), bounded);
}
