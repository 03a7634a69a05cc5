//! What holds of a configuration that is accepted, and what it is turned into.

use crate::checks::{first_fault, lemma_faultless};
use crate::config::{
    address_fault, authorities_fault, authority_check, config_fault, execution_config_fault,
    file_store_fault, has_authority, has_tool, identity_fault, input_schema_fault, is_name,
    is_server_address, name_fault, optional_path, origin_check, origin_text, origin_texts,
    origins_fault, overlaps_any, overridden, database_override_fault, path_at, path_fault,
    recovery_fault, resolved_authorities, resolved_config, resolved_tool, runtime_fault,
    schema_compiles, secret_check, sidecar_paths, store_paths, stores_overlap, text_fault,
    tool_check, tools_fault, unique_name_check, with_database, with_listen, with_snapshot,
    ControllerAuthConfigView, EndpointConfigView, Entries, PathBaseView,
    ProviderExecutionConfigView, ResolvedAuthorityView, RetryDispatch, RunningRestart,
    RuntimeConfig, StoreConfigView, ToolCompletion, ToolConfig, ToolConfigView,
};
use crate::json::{json_size, JsonView};
use crate::paths::{overlap, path_text, reached, suffixed};
use crate::sorting::{is_in_order, sorting_orders_all, Named};
use crate::text::{byte_len, has_control, is_white};
use crate::web::{address_of, WebAddressView};
use vstd::prelude::*;
use vstd::string::*;

verus! {

/// A text of a configuration is accepted exactly if it is short enough and without a zero.
pub proof fn texts_are_bounded(text: Seq<char>, most: usize)
    ensures
        text_fault(text, most) is None <==> byte_len(text) <= most && !text.contains('\0'),
        text_fault(text, most) matches Some(reason) ==> reason
            == "configuration text is invalid"@,
{
}

/// A name is accepted exactly if it is there, at most a hundred and twenty-eight bytes long,
/// without white space at its ends and without control characters.
pub proof fn names_are_bounded(text: Seq<char>)
    ensures
        name_fault(text) is None <==> {
            &&& text.len() > 0
            &&& byte_len(text) <= 128
            &&& !is_white(text[0])
            &&& !is_white(text[text.len() - 1])
            &&& !has_control(text)
        },
        name_fault(text) matches Some(reason) ==> reason == "configuration name is invalid"@,
{
}

/// The limits of the runtime are accepted exactly if each is in its bounds, and the first delay of
/// a retry is not above the last.
pub proof fn limits_are_bounded(runtime: RuntimeConfig)
    ensures
        runtime_fault(runtime) is None <==> {
            &&& 1 <= runtime.tool_foreground_ms <= 86_400_000
            &&& runtime.snapshot_every_events matches Some(events) ==> 1 <= events <= 1_000_000_000
            &&& 1 <= runtime.max_rounds_per_activation <= 10_000
            &&& 1 <= runtime.model_step_max_attempts <= 64
            &&& runtime.model_retry_base_ms <= runtime.model_retry_max_ms
            &&& 1 <= runtime.model_retry_max_ms <= 3_600_000
            &&& 1 <= runtime.model_stream_idle_timeout_ms <= 86_400_000
        },
{
}

/// A path is accepted exactly if it is there, short enough and without a zero, and can be reached.
pub proof fn paths_are_bounded(base: PathBaseView, raw: Seq<char>, reason: Seq<char>)
    ensures
        path_fault(base, raw, reason) is None <==> {
            &&& raw.len() > 0
            &&& byte_len(raw) <= 4096
            &&& !raw.contains('\0')
            &&& reached(base.working_directory, base.directory, raw) is Some
        },
        raw.len() == 0 || byte_len(raw) > 4096 || raw.contains('\0') ==> path_fault(
            base,
            raw,
            reason,
        ) == Some(reason),
{
}

/// A store of files is accepted exactly if it is one and its path can be reached.
pub proof fn file_stores_are_files(
    base: PathBaseView,
    store: StoreConfigView,
    wrong_kind: Seq<char>,
)
    ensures
        file_store_fault(base, store, wrong_kind) is None <==> store.kind == "files"@ && path_fault(
            base,
            store.path,
            "store path is invalid"@,
        ) is None,
{
    reveal_strlit("files");
    let kind = "files"@;
    assert(kind.len() == 5);
    if store.kind == kind {
        assert(vstd::utf8::is_ascii_chars(kind));
        vstd::utf8::is_ascii_chars_encode_utf8(kind);
        assert(!kind.contains('\0')) by {
            assert forall|i: int| 0 <= i < kind.len() implies kind[i] != '\0' by {}
        }
    }
}

/// An address of a server is accepted exactly if it is one of the web, with a host and a port that
/// can be, without a user, a password, a query and a fragment; and without a path, unless it may
/// have one.
pub proof fn server_addresses_are_plain(address: WebAddressView, allow_path: bool)
    ensures
        is_server_address(address, allow_path) <==> {
            &&& address.scheme == "http"@ || address.scheme == "https"@
            &&& address.host is Some
            &&& address.username.len() == 0
            &&& address.password is None
            &&& address.query is None
            &&& address.fragment is None
            &&& address.port matches Some(port) ==> port > 0
            &&& !allow_path ==> address.path.len() == 0 || address.path == "/"@
        },
{
}

/// A text is accepted as an address exactly if it is short enough and denotes such an address.
pub proof fn addresses_are_those_of_servers(raw: Seq<char>, allow_path: bool)
    ensures
        address_fault(raw, allow_path) is None <==> {
            &&& byte_len(raw) <= 4096
            &&& !raw.contains('\0')
            &&& address_of(raw) matches Some(address) && is_server_address(address, allow_path)
        },
{
}

/// Origins are accepted exactly if there are not too many, each is the address of a server without
/// a path, and no two are the same origin.
pub proof fn origins_are_distinct(values: Seq<Seq<char>>)
    ensures
        origins_fault(values) is None <==> {
            &&& values.len() <= 1024
            &&& forall|i: int|
                0 <= i < values.len() ==> address_fault(#[trigger] values[i], false) is None
            &&& forall|i: int, j: int|
                0 <= i < j < values.len() ==> origin_text(#[trigger] values[i]) != origin_text(
                    #[trigger] values[j],
                )
        },
{
    let check = origin_check();
    lemma_faultless(values, check);
    if first_fault(values, check) is None {
        assert forall|i: int| 0 <= i < values.len() implies address_fault(
            #[trigger] values[i],
            false,
        ) is None by {
            assert(check(values.take(i), values[i]) is None);
        }
        assert forall|i: int, j: int| 0 <= i < j < values.len() implies origin_text(
            #[trigger] values[i],
        ) != origin_text(#[trigger] values[j]) by {
            assert(check(values.take(j), values[j]) is None);
            let known = origin_texts(values.take(j));
            assert(known[i] == origin_text(values[i]));
        }
    }
    if (forall|i: int|
        0 <= i < values.len() ==> address_fault(#[trigger] values[i], false) is None) && (forall|
        i: int,
        j: int,
    |
        0 <= i < j < values.len() ==> origin_text(#[trigger] values[i]) != origin_text(
            #[trigger] values[j],
        )) {
        assert forall|j: int| 0 <= j < values.len() implies check(
            #[trigger] values.take(j),
            values[j],
        ) is None by {
            let known = origin_texts(values.take(j));
            assert(address_fault(values[j], false) is None);
            assert forall|i: int| 0 <= i < known.len() implies known[i] != origin_text(
                values[j],
            ) by {
                assert(known[i] == origin_text(values[i]));
            }
        }
    }
}

/// Controllers are accepted exactly if there are not too many, each has a short name of its own, is
/// of the kind that is known, has a revision and a file for its secret.
pub proof fn controllers_are_distinct(
    base: PathBaseView,
    authorities: Seq<ControllerAuthConfigView>,
)
    ensures
        authorities_fault(base, authorities) is None ==> {
            &&& authorities.len() <= 1024
            &&& forall|i: int|
                0 <= i < authorities.len() ==> {
                    &&& is_name((#[trigger] authorities[i]).authority_id)
                    &&& byte_len(authorities[i].authority_id) <= 64
                    &&& authorities[i].kind == "bearer_secret_file"@
                    &&& authorities[i].revision > 0
                    &&& path_fault(base, authorities[i].secret_file, "store path is invalid"@)
                        is None
                }
            &&& forall|i: int, j: int|
                0 <= i < j < authorities.len() ==> (#[trigger] authorities[i]).authority_id != (
                #[trigger] authorities[j]).authority_id
        },
{
    let check = authority_check(base);
    lemma_faultless(authorities, check);
    if authorities_fault(base, authorities) is None {
        assert forall|i: int| 0 <= i < authorities.len() implies {
            &&& is_name((#[trigger] authorities[i]).authority_id)
            &&& byte_len(authorities[i].authority_id) <= 64
            &&& authorities[i].kind == "bearer_secret_file"@
            &&& authorities[i].revision > 0
            &&& path_fault(base, authorities[i].secret_file, "store path is invalid"@) is None
        } by {
            assert(check(authorities.take(i), authorities[i]) is None);
        }
        assert forall|i: int, j: int| 0 <= i < j < authorities.len() implies (
        #[trigger] authorities[i]).authority_id != (#[trigger] authorities[j]).authority_id by {
            assert(check(authorities.take(j), authorities[j]) is None);
            let before = authorities.take(j);
            assert(before[i] == authorities[i]);
            assert(!has_authority(before, authorities[j].authority_id));
        }
    }
}

/// Adapters and origins are accepted exactly if there are not too many, the adapters are known and
/// no two are the same, and the origins are accepted.
pub proof fn adapters_are_known(config: ProviderExecutionConfigView)
    ensures
        execution_config_fault(config) is None ==> {
            &&& config.adapter_kinds.len() <= 1024
            &&& forall|i: int|
                0 <= i < config.adapter_kinds.len() ==> #[trigger] config.adapter_kinds[i]
                    == "openai_compatible"@ || config.adapter_kinds[i] == "anthropic"@
            &&& forall|i: int, j: int|
                0 <= i < j < config.adapter_kinds.len() ==> #[trigger] config.adapter_kinds[i]
                    != #[trigger] config.adapter_kinds[j]
            &&& origins_fault(config.allowed_base_url_origins) is None
        },
        config.adapter_kinds.len() == 0 ==> (execution_config_fault(config) is None
            <==> origins_fault(config.allowed_base_url_origins) is None),
{
    let kinds = config.adapter_kinds;
    let check = unique_name_check();
    lemma_faultless(kinds, check);
    if execution_config_fault(config) is None {
        assert forall|i: int, j: int| 0 <= i < j < kinds.len() implies #[trigger] kinds[i]
            != #[trigger] kinds[j] by {
            assert(check(kinds.take(j), kinds[j]) is None);
            assert(kinds.take(j)[i] == kinds[i]);
        }
    }
}

/// The schema of an input is accepted exactly if it is an object, small enough, and can be
/// compiled.
pub proof fn schemas_are_objects(schema: JsonView, compiles: bool)
    ensures
        input_schema_fault(schema, compiles) is None <==> schema is Object && (
        json_size(schema) matches Ok(bytes) && bytes <= 65536) && compiles,
        !(schema is Object) ==> input_schema_fault(schema, compiles) == Some(
            "tools.input_schema must be a bounded object"@,
        ),
{
}

/// What becomes of a tool after a restart is accepted exactly if one that calls back awaits its
/// callback, where callbacks can come, and another is told as of unknown outcome; no tool that is
/// called over the web may claim that it can safely be called again.
pub proof fn recoveries_are_honest(tool: ToolConfigView, callbacks: bool)
    ensures
        recovery_fault(tool, callbacks) is None <==> {
            &&& tool.recovery.retry_dispatch == RetryDispatch::Never
            &&& tool.completion_mode == ToolCompletion::ExternalCallback
                ==> tool.recovery.on_running_restart == RunningRestart::AwaitCallback && callbacks
            &&& tool.completion_mode == ToolCompletion::Response
                ==> tool.recovery.on_running_restart == RunningRestart::UnknownOutcome
        },
{
}

/// Tools that are accepted are not too many; each has a name of its own, a description that is
/// short enough, an accepted schema, a wait in its bounds, an honest recovery, and the address of a
/// server over the web.
pub proof fn tools_are_sound(tools: Seq<ToolConfigView>, callbacks: bool)
    ensures
        tools_fault(tools, callbacks) is None ==> {
            &&& tools.len() <= 1024
            &&& forall|i: int|
                0 <= i < tools.len() ==> {
                    &&& is_name((#[trigger] tools[i]).name)
                    &&& tools[i].name != "wait_for"@
                    &&& byte_len(tools[i].description) <= 8192
                    &&& input_schema_fault(
                        tools[i].input_schema,
                        schema_compiles(tools[i].schema_text),
                    ) is None
                    &&& 1 <= tools[i].auto_wait_timeout_seconds <= 600
                    &&& recovery_fault(tools[i], callbacks) is None
                    &&& tools[i].adapter.kind == "http"@
                    &&& address_fault(tools[i].adapter.url, true) is None
                }
            &&& forall|i: int, j: int|
                0 <= i < j < tools.len() ==> (#[trigger] tools[i]).name != (
                #[trigger] tools[j]).name
        },
        tools.len() == 0 ==> tools_fault(tools, callbacks) is None,
        tools.len() > 1024 ==> tools_fault(tools, callbacks) == Some(
            "tools has too many entries"@,
        ),
{
    let check = tool_check(callbacks);
    lemma_faultless(tools, check);
    if tools_fault(tools, callbacks) is None {
        assert forall|i: int| 0 <= i < tools.len() implies {
            &&& is_name((#[trigger] tools[i]).name)
            &&& tools[i].name != "wait_for"@
            &&& byte_len(tools[i].description) <= 8192
            &&& input_schema_fault(
                tools[i].input_schema,
                schema_compiles(tools[i].schema_text),
            ) is None
            &&& 1 <= tools[i].auto_wait_timeout_seconds <= 600
            &&& recovery_fault(tools[i], callbacks) is None
            &&& tools[i].adapter.kind == "http"@
            &&& address_fault(tools[i].adapter.url, true) is None
        } by {
            assert(check(tools.take(i), tools[i]) is None);
        }
        assert forall|i: int, j: int| 0 <= i < j < tools.len() implies (#[trigger] tools[i]).name
            != (#[trigger] tools[j]).name by {
            assert(check(tools.take(j), tools[j]) is None);
            let before = tools.take(j);
            assert(before[i] == tools[i]);
            assert(!has_tool(before, tools[j].name));
        }
    }
}

/// The places of a configuration are apart exactly if no store lies in another or around it, no
/// secret lies with a store, with what stands beside the runtime store, or with another secret, and
/// no store lies with what stands beside the runtime store.
pub proof fn places_are_apart(
    runtime_store: Seq<Seq<char>>,
    stores: Seq<Seq<Seq<char>>>,
    authorities: Seq<ResolvedAuthorityView>,
)
    requires
        stores.len() <= 2,
    ensures
        identity_fault(runtime_store, stores, authorities) is None ==> {
            &&& forall|i: int|
                0 <= i < stores.len() ==> !overlap(runtime_store, #[trigger] stores[i])
            &&& forall|i: int, j: int|
                0 <= i < j < stores.len() ==> !overlap(#[trigger] stores[i], #[trigger] stores[j])
            &&& forall|i: int|
                0 <= i < authorities.len() ==> {
                    &&& !overlap((#[trigger] authorities[i]).secret_file, runtime_store)
                    &&& !overlaps_any(authorities[i].secret_file, stores)
                    &&& !overlaps_any(authorities[i].secret_file, sidecar_paths(runtime_store))
                }
            &&& forall|i: int|
                0 <= i < stores.len() ==> !overlaps_any(
                    #[trigger] stores[i],
                    sidecar_paths(runtime_store),
                )
        },
        (exists|i: int| 0 <= i < stores.len() && overlap(runtime_store, #[trigger] stores[i]))
            ==> identity_fault(runtime_store, stores, authorities) == Some(
            "configured stores must have distinct identities"@,
        ),
{
    let check = secret_check(runtime_store, stores);
    lemma_faultless(authorities, check);
    if identity_fault(runtime_store, stores, authorities) is None {
        assert(!stores_overlap(runtime_store, stores));
        assert forall|i: int| 0 <= i < authorities.len() implies {
            &&& !overlap((#[trigger] authorities[i]).secret_file, runtime_store)
            &&& !overlaps_any(authorities[i].secret_file, stores)
            &&& !overlaps_any(authorities[i].secret_file, sidecar_paths(runtime_store))
        } by {
            assert(check(authorities.take(i), authorities[i]) is None);
        }
        assert forall|i: int, j: int| 0 <= i < j < stores.len() implies !overlap(
            #[trigger] stores[i],
            #[trigger] stores[j],
        ) by {
            assert(i == 0 && j == 1);
        }
    }
    if exists|i: int| 0 <= i < stores.len() && overlap(runtime_store, #[trigger] stores[i]) {
        assert(overlaps_any(runtime_store, stores));
    }
}

/// What stands beside the runtime store is its lock, its identity and the secrets of controllers;
/// and the stores are those that are configured.
pub proof fn sidecars_stand_beside_the_store(
    runtime_store: Seq<Seq<char>>,
    credentials: Option<Seq<Seq<char>>>,
    blobs: Option<Seq<Seq<char>>>,
)
    ensures
        sidecar_paths(runtime_store).contains(suffixed(runtime_store, ".endpoint.lock"@)),
        sidecar_paths(runtime_store).contains(suffixed(runtime_store, ".endpoint-id"@)),
        sidecar_paths(runtime_store).contains(suffixed(runtime_store, ".controller-auth"@)),
        sidecar_paths(runtime_store).len() == 3,
        credentials matches Some(path) ==> store_paths(credentials, blobs).contains(path),
        blobs matches Some(path) ==> store_paths(credentials, blobs).contains(path),
        credentials is None && blobs is None ==> store_paths(credentials, blobs).len() == 0,
        store_paths(credentials, blobs).len() <= 2,
{
    let sidecars = sidecar_paths(runtime_store);
    assert(sidecars[0] == suffixed(runtime_store, ".endpoint.lock"@));
    assert(sidecars[1] == suffixed(runtime_store, ".endpoint-id"@));
    assert(sidecars[2] == suffixed(runtime_store, ".controller-auth"@));
    let stores = store_paths(credentials, blobs);
    if let Some(path) = credentials {
        assert(stores[0] == path);
    }
    if let Some(path) = blobs {
        assert(stores[stores.len() - 1] == path);
    }
}

/// A configuration is accepted exactly if it is of this version, it listens at an address, its
/// stores are of their kinds and can be reached, and all its parts are accepted and apart.
/// Controllers are required where they have to be.
pub proof fn accepted_configuration_is_whole(
    config: EndpointConfigView,
    base: PathBaseView,
    require_controller_auth: bool,
    listen_parses: bool,
)
    ensures
        config_fault(config, base, require_controller_auth, listen_parses) is None ==> {
            &&& config.schema == "zode.config.v1"@
            &&& listen_parses
            &&& config.listen matches Some(listen) ==> byte_len(listen) <= 256
            &&& config.runtime_store.kind == "sqlite"@
            &&& path_fault(base, config.runtime_store.path, "runtime_store.path is invalid"@)
                is None
            &&& config.credential_replica_store matches Some(store) ==> store.kind == "files"@
                && path_fault(base, store.path, "store path is invalid"@) is None
            &&& config.blob_store matches Some(store) ==> store.kind == "files"@ && path_fault(
                base,
                store.path,
                "store path is invalid"@,
            ) is None
            &&& authorities_fault(base, config.controller_auth) is None
            &&& require_controller_auth ==> config.controller_auth.len() > 0
            &&& runtime_fault(config.runtime) is None
            &&& config.provider_execution matches Some(execution) ==> execution_config_fault(
                execution,
            ) is None
            &&& config.callback matches Some(callback) ==> origins_fault(
                callback.allowed_public_origins,
            ) is None
            &&& tools_fault(
                config.tools,
                config.callback matches Some(callback) && callback.allowed_public_origins.len() > 0,
            ) is None
            &&& identity_fault(
                path_at(base, config.runtime_store.path),
                store_paths(
                    optional_path(base, config.credential_replica_store),
                    optional_path(base, config.blob_store),
                ),
                resolved_authorities(base, config.controller_auth),
            ) is None
        },
        require_controller_auth && config.controller_auth.len() == 0 ==> config_fault(
            config,
            base,
            require_controller_auth,
            listen_parses,
        ) is Some,
        !listen_parses ==> config_fault(config, base, require_controller_auth, listen_parses)
            is Some,
{
}

/// A configuration is turned into the places that its paths lead to, the limits and the addresses
/// as they are written out, and everything else as it stands; the names of adapters, origins and
/// tools come in their order, and none is lost or added.
pub proof fn configuration_is_resolved(config: EndpointConfigView, base: PathBaseView)
    ensures
        ({
            let resolved = resolved_config(config, base);
            &&& resolved.listen == config.listen
            &&& reached(base.working_directory, base.directory, config.runtime_store.path)
                matches Some(path) ==> resolved.runtime_store == path
            &&& config.credential_replica_store is Some
                == resolved.credential_replica_store is Some
            &&& config.credential_replica_store matches Some(store) ==> (reached(
                base.working_directory,
                base.directory,
                store.path,
            ) matches Some(path) ==> resolved.credential_replica_store == Some(path))
            &&& config.blob_store is Some == resolved.blob_store is Some
            &&& config.blob_store matches Some(store) ==> (reached(
                base.working_directory,
                base.directory,
                store.path,
            ) matches Some(path) ==> resolved.blob_store == Some(path))
            &&& resolved.runtime == config.runtime
            &&& resolved.controller_auth.len() == config.controller_auth.len()
            &&& forall|i: int|
                0 <= i < config.controller_auth.len() ==> {
                    &&& (#[trigger] resolved.controller_auth[i]).authority_id
                        == config.controller_auth[i].authority_id
                    &&& resolved.controller_auth[i].revision == config.controller_auth[i].revision
                    &&& reached(
                        base.working_directory,
                        base.directory,
                        config.controller_auth[i].secret_file,
                    ) matches Some(path) ==> resolved.controller_auth[i].secret_file == path
                }
            &&& resolved.provider_execution is Some == config.provider_execution is Some
            &&& config.provider_execution matches Some(execution) ==> {
                let held = resolved.provider_execution->0;
                &&& held.adapter_kinds.to_multiset() == execution.adapter_kinds.to_multiset()
                &&& is_in_order::<String>(held.adapter_kinds)
                &&& held.allowed_base_url_origins.to_multiset() == origin_texts(
                    execution.allowed_base_url_origins,
                ).to_multiset()
                &&& is_in_order::<String>(held.allowed_base_url_origins)
            }
            &&& resolved.callback is Some == config.callback is Some
            &&& config.callback matches Some(callback) ==> {
                let held = resolved.callback->0;
                &&& held.allowed_public_origins.to_multiset() == origin_texts(
                    callback.allowed_public_origins,
                ).to_multiset()
                &&& is_in_order::<String>(held.allowed_public_origins)
            }
            &&& resolved.tools.to_multiset() == Seq::new(
                config.tools.len(),
                |i: int| resolved_tool(config.tools[i]),
            ).to_multiset()
            &&& is_in_order::<ToolConfig>(resolved.tools)
        }),
{
    if let Some(execution) = config.provider_execution {
        sorting_orders_all::<String>(execution.adapter_kinds);
        sorting_orders_all::<String>(origin_texts(execution.allowed_base_url_origins));
    }
    if let Some(callback) = config.callback {
        sorting_orders_all::<String>(origin_texts(callback.allowed_public_origins));
    }
    sorting_orders_all::<ToolConfig>(
        Seq::new(config.tools.len(), |i: int| resolved_tool(config.tools[i])),
    );
}

/// A tool keeps all that is configured of it, but for its address, which is written out.
pub proof fn tool_is_resolved(tool: ToolConfigView)
    ensures
        ({
            let resolved = resolved_tool(tool);
            &&& resolved.name == tool.name
            &&& resolved.description == tool.description
            &&& resolved.input_schema == tool.input_schema
            &&& resolved.completion_mode == tool.completion_mode
            &&& resolved.auto_wait_timeout_seconds == tool.auto_wait_timeout_seconds
            &&& resolved.recovery == tool.recovery
            &&& resolved.adapter.kind == tool.adapter.kind
            &&& address_of(tool.adapter.url) matches Some(address) ==> resolved.adapter.url
                == address.text
        }),
        <ToolConfig as Named>::name_of(tool) == tool.name,
{
}

/// What is given beside a configuration takes the place of what it holds, and what is not given
/// leaves it as it is.
pub proof fn overrides_take_their_places(
    config: EndpointConfigView,
    listen: Option<Seq<char>>,
    database: Option<Seq<char>>,
    snapshot: Option<u64>,
    working_directory: Option<Seq<char>>,
)
    ensures
        database_override_fault(database, working_directory) is None ==> {
            let next = overridden(config, listen, database, snapshot, working_directory);
            &&& listen is Some ==> next.listen == listen
            &&& listen is None ==> next.listen == config.listen
            &&& snapshot is Some ==> next.runtime.snapshot_every_events == snapshot
            &&& snapshot is None ==> next.runtime == config.runtime
            &&& database is None ==> next.runtime_store == config.runtime_store
            &&& database matches Some(raw) ==> {
                &&& next.runtime_store.kind == config.runtime_store.kind
                &&& reached(working_directory, "."@, raw) matches Some(path)
                    ==> next.runtime_store.path == path_text(path)
            }
            &&& next == (EndpointConfigView {
                listen: next.listen,
                runtime_store: next.runtime_store,
                runtime: RuntimeConfig {
                    snapshot_every_events: next.runtime.snapshot_every_events,
                    ..config.runtime
                },
                ..config
            })
        },
{
}

/// The nested entry of an object, if there is one.
pub open spec fn nested_entry(object: Entries, name: Seq<char>, key: Seq<char>) -> Option<
    JsonView,
> {
    if object.dom().contains(name) {
        match object[name] {
            JsonView::Object(nested) if nested.dom().contains(key) => Some(nested[key]),
            _ => None,
        }
    } else {
        None
    }
}

/// What is given beside a configuration file takes its place in the file, and all other entries
/// stay. A part of the file that should hold it and is no object is a fault.
pub proof fn file_overrides_take_their_places(
    object: Entries,
    listen: Seq<char>,
    database: Seq<char>,
    events: u64,
    other: Seq<char>,
)
    ensures
        with_listen(object, None) == object,
        with_database(object, None) == Some(object),
        with_snapshot(object, None) == Some(object),
        with_listen(object, Some(listen))["listen"@] == JsonView::Text(listen),
        other != "listen"@ && object.dom().contains(other) ==> with_listen(
            object,
            Some(listen),
        )[other] == object[other],
        with_database(object, Some(database)) is None <==> object.dom().contains(
            "runtime_store"@,
        ) && !(object["runtime_store"@] is Object),
        with_database(object, Some(database)) matches Some(next) ==> {
            &&& nested_entry(next, "runtime_store"@, "path"@) == Some(JsonView::Text(database))
            &&& !object.dom().contains("runtime_store"@) ==> nested_entry(
                next,
                "runtime_store"@,
                "kind"@,
            ) == Some(JsonView::Text("sqlite"@))
            &&& object.dom().contains("runtime_store"@) ==> nested_entry(
                next,
                "runtime_store"@,
                "kind"@,
            ) == nested_entry(object, "runtime_store"@, "kind"@)
            &&& other != "runtime_store"@ && object.dom().contains(other) ==> next[other]
                == object[other]
        },
        with_snapshot(object, Some(events)) is None <==> object.dom().contains("runtime"@) && !(
        object["runtime"@] is Object),
        with_snapshot(object, Some(events)) matches Some(next) ==> {
            &&& nested_entry(next, "runtime"@, "snapshot_every_events"@) == Some(
                JsonView::Integer(events as int),
            )
            &&& other != "runtime"@ && object.dom().contains(other) ==> next[other]
                == object[other]
        },
{
    reveal_strlit("path");
    reveal_strlit("kind");
    assert("path"@[0] != "kind"@[0]);
}

} // verus!
