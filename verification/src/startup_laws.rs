//! What holds of the start of an endpoint: where paths lead, what a command line asks for, and what
//! a configuration hands to the parts of the endpoint.

use crate::cli::{empty_cli, flag_of, read_from, with_option, CliView, Flag};
use crate::config::{
    RuntimeConfig, ToolCompletion, ToolConfigView, DEFAULT_LISTEN_ADDR, DEFAULT_RUNTIME_STORE,
    MAX_CONFIG_BYTES,
};
use crate::control::rotation::{ROTATION_KEY_BYTES, ROTATION_MARKER};
use crate::control::MAX_ENDPOINT_ID_BYTES;
use crate::domain::tools::CompletionMode;
use crate::http::commands::READ_BATCH_SIZE;
use crate::http::requests::{MAX_CALLBACK_ID_BYTES, MAX_SESSION_REQUEST_BYTES};
use crate::number::unsigned_number;
use crate::paths::{is_absolute, overlap, path_text, reached, segments, straightened, suffixed};
use crate::replicas::REPLICA_KEY_BYTES;
use crate::wiring::{configured_tools, options_of, selected_of, specs_of, HttpToolSpecView};
use vstd::prelude::*;
use vstd::string::*;

verus! {

/// Whether a text can be a segment of a path: it is there and has no slash.
pub open spec fn is_segment(text: Seq<char>) -> bool {
    text.len() > 0 && !text.contains('/')
}

proof fn lemma_segments_after_slash(text: Seq<char>, more: Seq<char>)
    requires
        text.len() > 0,
        text.last() == '/',
        is_segment(more),
    ensures
        segments(text + more) == segments(text).push(more),
    decreases more.len(),
{
    let whole = text + more;
    assert(more[more.len() - 1] != '/') by {
        assert(more.contains(more[more.len() - 1]));
    }
    assert(whole.drop_last() =~= text + more.drop_last());
    assert(whole.last() == more.last());
    if more.len() == 1 {
        assert(more.drop_last() =~= Seq::empty());
        assert(text + more.drop_last() =~= text);
        assert(whole[whole.len() - 2] == '/');
        assert(seq![more.last()] =~= more);
    } else {
        let front = more.drop_last();
        assert(is_segment(front)) by {
            assert forall|i: int| 0 <= i < front.len() implies front[i] != '/' by {
                assert(more.contains(more[i]));
            }
        }
        lemma_segments_after_slash(text, front);
        assert(whole[whole.len() - 2] == more[more.len() - 2]);
        assert(more.contains(more[more.len() - 2]));
        let earlier = segments(text + front);
        assert(earlier.last() == front);
        assert(earlier.drop_last() =~= segments(text));
        assert(front.push(more.last()) =~= more);
    }
}

proof fn lemma_slash_ends(text: Seq<char>)
    ensures
        segments(text.push('/')) == segments(text),
{
    assert(text.push('/').drop_last() =~= text);
}

/// A path that is written out is read as the path that it is.
pub proof fn written_path_reads_back(parts: Seq<Seq<char>>)
    requires
        forall|i: int| 0 <= i < parts.len() ==> is_segment(#[trigger] parts[i]),
    ensures
        segments(path_text(parts)) == parts,
        is_absolute(path_text(parts)),
    decreases parts.len(),
{
    reveal_strlit("/");
    assert("/"@.len() == 1);
    assert("/"@[0] == '/');
    let slash = Seq::<char>::empty().push('/');
    assert("/"@ =~= slash);
    lemma_slash_ends(Seq::empty());
    if parts.len() == 0 {
        assert(segments(path_text(parts)) =~= parts);
    } else if parts.len() == 1 {
        lemma_segments_after_slash(slash, parts[0]);
        assert(segments(slash) =~= Seq::empty());
        assert(segments(path_text(parts)) =~= parts);
    } else {
        let front = parts.drop_last();
        assert forall|i: int| 0 <= i < front.len() implies is_segment(#[trigger] front[i]) by {
            assert(is_segment(parts[i]));
        }
        written_path_reads_back(front);
        let head = path_text(front);
        assert(head + "/"@ =~= head.push('/'));
        lemma_slash_ends(head);
        assert(is_segment(parts[parts.len() - 1]));
        lemma_segments_after_slash(head.push('/'), parts.last());
        assert(path_text(parts) =~= head.push('/') + parts.last());
        assert(front.push(parts.last()) =~= parts);
    }
}

/// A text without a slash is one segment, and slashes that follow one another count as one.
pub proof fn slashes_part_segments(text: Seq<char>, more: Seq<char>)
    requires
        is_segment(more),
    ensures
        segments(text.push('/') + more) == segments(text).push(more),
        segments(text.push('/')) == segments(text),
        segments(text.push('/').push('/') + more) == segments(text.push('/') + more),
{
    lemma_slash_ends(text);
    lemma_slash_ends(text.push('/'));
    lemma_segments_after_slash(text.push('/'), more);
    lemma_segments_after_slash(text.push('/').push('/'), more);
}

/// A path is straightened by leaving out each dot, and each pair of dots with the segment before
/// it; it never goes above the root, and a path without dots stays as it is.
pub proof fn dots_are_taken_out(parts: Seq<Seq<char>>, name: Seq<char>)
    requires
        name != "."@,
        name != ".."@,
    ensures
        straightened(parts.push("."@)) == straightened(parts),
        straightened(parts.push(name)) == straightened(parts).push(name),
        straightened(parts.push(name).push(".."@)) == straightened(parts),
        straightened(seq![".."@]) == Seq::<Seq<char>>::empty(),
        straightened(Seq::<Seq<char>>::empty()) == Seq::<Seq<char>>::empty(),
{
    reveal_strlit(".");
    reveal_strlit("..");
    assert("."@.len() == 1);
    assert(".."@.len() == 2);
    assert(parts.push("."@).drop_last() =~= parts);
    assert(parts.push(name).drop_last() =~= parts);
    assert(parts.push(name).push(".."@).drop_last() =~= parts.push(name));
    assert(straightened(parts).push(name).drop_last() =~= straightened(parts));
    assert(seq![".."@].drop_last() =~= Seq::<Seq<char>>::empty());
    assert(straightened(Seq::<Seq<char>>::empty()) =~= Seq::<Seq<char>>::empty());
}

/// An absolute path leads to itself, from wherever it is taken; a relative one leads on from its
/// base, and where that is relative too, from the working directory, without which it leads
/// nowhere.
pub proof fn paths_lead_on_from_their_base(
    working_directory: Option<Seq<char>>,
    base: Seq<char>,
    raw: Seq<char>,
)
    ensures
        raw.len() > 0 && raw[0] == '/' ==> reached(working_directory, base, raw) == Some(
            straightened(segments(raw)),
        ),
        !(raw.len() > 0 && raw[0] == '/') && base.len() > 0 && base[0] == '/' ==> reached(
            working_directory,
            base,
            raw,
        ) == Some(straightened(segments(base) + segments(raw))),
        !(raw.len() > 0 && raw[0] == '/') && !(base.len() > 0 && base[0] == '/') ==> {
            &&& reached(working_directory, base, raw) is Some <==> working_directory is Some
            &&& working_directory matches Some(directory) ==> reached(working_directory, base, raw)
                == Some(straightened(segments(directory) + segments(base) + segments(raw)))
        },
{
}

/// Two paths overlap exactly if one is the other or leads into it; which is named first does not
/// matter. A path with a suffix lies beside the one without.
pub proof fn overlap_goes_both_ways(
    left: Seq<Seq<char>>,
    right: Seq<Seq<char>>,
    name: Seq<char>,
    suffix: Seq<char>,
)
    ensures
        overlap(left, right) == overlap(right, left),
        overlap(left, left),
        overlap(left, left + right),
        overlap(left, right) && left.len() == right.len() ==> left == right,
        suffix.len() > 0 ==> !overlap(left.push(name), suffixed(left.push(name), suffix)),
        suffixed(left.push(name), suffix) == left.push(name + suffix),
{
    assert(left.is_prefix_of(left + right)) by {
        assert(left =~= (left + right).subrange(0, left.len() as int));
    }
    assert(left =~= left.subrange(0, left.len() as int));
    if overlap(left, right) && left.len() == right.len() {
        assert(left =~= right);
    }
    assert(left.push(name).drop_last() =~= left);
    let one = left.push(name);
    let other = left.push(name + suffix);
    assert(suffixed(one, suffix) =~= other);
    if suffix.len() > 0 {
        assert((name + suffix).len() > name.len());
        assert(one[left.len() as int] == name);
        assert(other[left.len() as int] == name + suffix);
        if one.is_prefix_of(other) {
            assert(one =~= other.subrange(0, one.len() as int));
            assert(one[left.len() as int] == other[left.len() as int]);
        }
        if other.is_prefix_of(one) {
            assert(other =~= one.subrange(0, other.len() as int));
            assert(one[left.len() as int] == other[left.len() as int]);
        }
    }
}

/// Whether two command lines ask for the same but for one thing.
pub open spec fn asks_the_same_otherwise(
    cli: CliView,
    next: CliView,
    flag: Flag,
) -> bool {
    &&& !(flag is Config) ==> next.config_path == cli.config_path
    &&& !(flag is Database) ==> next.database_path == cli.database_path
    &&& !(flag is Listen) ==> next.listen_addr == cli.listen_addr
    &&& !(flag is SnapshotEvery) ==> next.snapshot_every == cli.snapshot_every
}

/// Arguments name their options, in the ways that are known.
pub proof fn arguments_name_options(argument: Seq<char>)
    ensures
        flag_of(argument) == Some(Flag::Config) <==> argument == "--config"@,
        flag_of(argument) == Some(Flag::Database) <==> argument == "--database"@ || argument
            == "--db"@,
        flag_of(argument) == Some(Flag::Listen) <==> argument == "--listen"@,
        flag_of(argument) == Some(Flag::SnapshotEvery) <==> argument == "--snapshot-every"@,
        flag_of(argument) == Some(Flag::Help) <==> argument == "--help"@ || argument == "-h"@,
        flag_of(argument) is None <==> argument != "--config"@ && argument != "--database"@
            && argument != "--db"@ && argument != "--listen"@ && argument != "--snapshot-every"@
            && argument != "--help"@ && argument != "-h"@,
{
    reveal_strlit("--config");
    reveal_strlit("--database");
    reveal_strlit("--db");
    reveal_strlit("--listen");
    reveal_strlit("--snapshot-every");
    reveal_strlit("--help");
    reveal_strlit("-h");
    assert("--config"@.len() == 8);
    assert("--database"@.len() == 10);
    assert("--db"@.len() == 4);
    assert("--listen"@.len() == 8);
    assert("--snapshot-every"@.len() == 16);
    assert("--help"@.len() == 6);
    assert("-h"@.len() == 2);
    assert("--config"@[2] != "--listen"@[2]);
}

/// An option sets what it is for to the value after it, and nothing else. It needs a value, and may
/// be given once. What is not known, and the question for help, ends the reading with words.
pub proof fn options_set_their_values(
    cli: CliView,
    argument: Seq<char>,
    value: Option<Seq<char>>,
)
    ensures
        ({
            let read = with_option(cli, argument, value);
            &&& flag_of(argument) is None ==> read == Err::<CliView, Seq<char>>(
                "unknown argument: "@ + argument,
            )
            &&& flag_of(argument) == Some(Flag::Help) ==> read == Err::<CliView, Seq<char>>(
                "usage: zode [--config JSON] [--database PATH] [--listen ADDR] [--snapshot-every N]"@,
            )
            &&& flag_of(argument) == Some(Flag::Config) ==> {
                &&& read is Ok <==> cli.config_path is None && value is Some
                &&& read matches Ok(next) ==> next.config_path == value && asks_the_same_otherwise(
                    cli,
                    next,
                    Flag::Config,
                )
            }
            &&& flag_of(argument) == Some(Flag::Database) ==> {
                &&& read is Ok <==> cli.database_path is None && value is Some
                &&& read matches Ok(next) ==> next.database_path == value
                    && asks_the_same_otherwise(cli, next, Flag::Database)
            }
            &&& flag_of(argument) == Some(Flag::Listen) ==> {
                &&& read is Ok <==> cli.listen_addr is None && value is Some
                &&& read matches Ok(next) ==> next.listen_addr == value && asks_the_same_otherwise(
                    cli,
                    next,
                    Flag::Listen,
                )
            }
            &&& flag_of(argument) == Some(Flag::SnapshotEvery) ==> {
                &&& read is Ok <==> cli.snapshot_every is None && (value matches Some(text)
                    && unsigned_number(text) is Some)
                &&& read matches Ok(next) ==> next.snapshot_every == unsigned_number(value->0)
                    && asks_the_same_otherwise(cli, next, Flag::SnapshotEvery)
            }
        }),
{
}

/// A command line is read two words at a time, an option and its value, until it ends or something
/// is wrong. Without words it asks for nothing.
pub proof fn command_line_is_read_in_pairs(
    cli: CliView,
    arguments: Seq<Seq<char>>,
    at: int,
)
    requires
        0 <= at,
    ensures
        at >= arguments.len() ==> read_from(cli, arguments, at) == Ok::<CliView, Seq<char>>(cli),
        at + 1 < arguments.len() ==> read_from(cli, arguments, at) == match with_option(
            cli,
            arguments[at],
            Some(arguments[at + 1]),
        ) {
            Ok(next) => read_from(next, arguments, at + 2),
            Err(words) => Err::<CliView, Seq<char>>(words),
        },
        at + 1 == arguments.len() ==> read_from(cli, arguments, at) is Err,
        empty_cli().config_path is None && empty_cli().database_path is None
            && empty_cli().listen_addr is None && empty_cli().snapshot_every is None,
{
    if at + 1 == arguments.len() {
        options_set_their_values(cli, arguments[at], None);
        arguments_name_options(arguments[at]);
    }
}

/// The runtime works with the limits that are configured.
pub proof fn limits_are_handed_on(runtime: RuntimeConfig)
    ensures
        ({
            let options = options_of(runtime);
            &&& options.snapshot_every == runtime.snapshot_every_events
            &&& options.tool_foreground_ms == runtime.tool_foreground_ms
            &&& options.model_retry_base_ms == runtime.model_retry_base_ms
            &&& options.model_retry_max_ms == runtime.model_retry_max_ms
            &&& options.model_stream_idle_timeout_ms == runtime.model_stream_idle_timeout_ms
            &&& runtime.max_rounds_per_activation <= u32::MAX ==> options.max_rounds_per_activation
                == runtime.max_rounds_per_activation
            &&& runtime.model_step_max_attempts <= u32::MAX ==> options.model_step_max_attempts
                == runtime.model_step_max_attempts
        }),
{
}

/// A tool is called as it is configured: at its address, with its schema and its recovery. One that
/// answers at once is of this process, and one that calls back is not.
pub proof fn tools_are_handed_on(tools: Seq<ToolConfigView>, i: int)
    requires
        0 <= i < tools.len(),
        tools[i].auto_wait_timeout_seconds <= u32::MAX,
    ensures
        specs_of(tools).len() == tools.len(),
        configured_tools(tools).len() == tools.len(),
        configured_tools(tools)[i].name == tools[i].name,
        configured_tools(tools)[i].completion_mode == tools[i].completion_mode,
        ({
            let made = specs_of(tools)[i];
            &&& made.name == tools[i].name
            &&& made.description == tools[i].description
            &&& made.input_schema == tools[i].input_schema
            &&& made.adapter_url == tools[i].adapter.url
            &&& made.completion_mode == CompletionMode::ProcessLocal <==> tools[i].completion_mode
                == ToolCompletion::Response
            &&& made.completion_mode == CompletionMode::ExternalCallback
                <==> tools[i].completion_mode == ToolCompletion::ExternalCallback
            &&& made.auto_wait_seconds matches Some(seconds) && seconds
                == tools[i].auto_wait_timeout_seconds
            &&& made.running_restart == tools[i].recovery.on_running_restart
            &&& made.retry_dispatch == tools[i].recovery.retry_dispatch
        }),
{
}

/// A session has, of the tools that are offered, exactly those that it selected.
pub proof fn selected_tools_are_the_sessions(
    selected: Seq<Seq<char>>,
    tools: Seq<HttpToolSpecView>,
    tool: HttpToolSpecView,
)
    ensures
        selected_of(selected, tools).contains(tool) <==> tools.contains(tool) && selected.contains(
            tool.name,
        ),
{
    broadcast use vstd::seq_lib::group_filter_ensures;

    let keep = |held: HttpToolSpecView| selected.contains(held.name);
    let chosen = selected_of(selected, tools);
    assert(chosen == tools.filter(keep));
    if chosen.contains(tool) {
        let i = choose|i: int| 0 <= i < chosen.len() && chosen[i] == tool;
        assert(keep(chosen[i]));
        tools.lemma_filter_contains_rev(keep, tool);
    }
    if tools.contains(tool) && keep(tool) {
        let i = choose|i: int| 0 <= i < tools.len() && tools[i] == tool;
        assert(tools.filter(keep).contains(tools[i]));
    }
}

/// An option that is given twice, or without its value, is refused with words that name it.
pub proof fn wrong_options_are_named(cli: CliView, argument: Seq<char>, value: Option<Seq<char>>)
    ensures
        with_option(cli, argument, value) matches Err(words) ==> match flag_of(argument) {
            Some(Flag::Config) => words == if cli.config_path is Some {
                "--config may only be supplied once"@
            } else {
                "--config requires a JSON path"@
            },
            Some(Flag::Database) => words == if cli.database_path is Some {
                "--database may only be supplied once"@
            } else {
                argument + " requires a path"@
            },
            Some(Flag::Listen) => words == if cli.listen_addr is Some {
                "--listen may only be supplied once"@
            } else {
                argument + " requires an address"@
            },
            Some(Flag::SnapshotEvery) => words == if cli.snapshot_every is Some {
                "--snapshot-every may only be supplied once"@
            } else if value is None {
                argument + " requires a positive integer"@
            } else {
                "invalid snapshot interval "@ + value->0
            },
            _ => true,
        },
{
}

/// A configuration has at most four megabytes, a body that asks something of a session a quarter of
/// one, and a key of digests thirty-two bytes; and what is not configured has its place.
pub proof fn sizes_and_places_are_fixed()
    ensures
        MAX_CONFIG_BYTES == 4194304,
        MAX_SESSION_REQUEST_BYTES == 262144,
        MAX_CALLBACK_ID_BYTES == 256,
        MAX_ENDPOINT_ID_BYTES == 64,
        READ_BATCH_SIZE == 256,
        REPLICA_KEY_BYTES == 32,
        ROTATION_KEY_BYTES == 32,
        ROTATION_MARKER@ == "zode.controller-auth.rotated.v1\n"@,
        DEFAULT_LISTEN_ADDR@ == "127.0.0.1:3000"@,
        DEFAULT_RUNTIME_STORE@ == "zode.sqlite3"@,
{
}

} // verus!
