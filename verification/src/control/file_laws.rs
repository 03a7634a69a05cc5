//! What the files of rotations are named, and how their journal is read, mended and compacted.

use super::lines::{ended_lines, mended, next_line_end, open_line_start, tail_of};
use super::rotation::{
    compacted, current_secret_name, is_pointer_name, latest_entry, marker_name, operation_source,
    pointer_name, purpose_digest, rotation_receipt_name, secret_name, stays, JournalPhase,
    JournalRecordView,
};
use super::is_ulid;
use crate::digest::{hex, hmac_sha256_of, sha256_of};
use crate::json::{body_content, json_parse};
use crate::number::decimal;
use vstd::prelude::*;
use vstd::string::*;
use vstd::utf8::{decode_utf8, encode_utf8, valid_utf8};

verus! {

/// Whether a span of a file is a line: it is ended, not empty, and stands behind a line end or at
/// the front.
pub open spec fn is_line(bytes: Seq<u8>, from: int, end: int) -> bool {
    &&& 0 <= from < end < bytes.len()
    &&& bytes[end] == 10
    &&& from == 0 || bytes[from - 1] == 10
    &&& forall|k: int| from <= k < end ==> #[trigger] bytes[k] != 10
}

proof fn lemma_next_end(bytes: Seq<u8>, from: int)
    requires
        0 <= from <= bytes.len(),
    ensures
        match next_line_end(bytes, from) {
            None => forall|k: int| from <= k < bytes.len() ==> #[trigger] bytes[k] != 10,
            Some(end) => {
                &&& from <= end < bytes.len()
                &&& bytes[end] == 10
                &&& forall|k: int| from <= k < end ==> #[trigger] bytes[k] != 10
            },
        },
    decreases bytes.len() - from,
{
    if from < bytes.len() && bytes[from] != 10 {
        lemma_next_end(bytes, from + 1);
    }
}

proof fn lemma_lines(bytes: Seq<u8>, from: int)
    requires
        0 <= from <= bytes.len(),
        from == 0 || bytes[from - 1] == 10,
    ensures
        ({
            let lines = ended_lines(bytes, from);
            &&& forall|i: int|
                0 <= i < lines.len() ==> from <= (#[trigger] lines[i]).0 && is_line(
                    bytes,
                    lines[i].0,
                    lines[i].1,
                )
            &&& forall|i: int, j: int|
                0 <= i < j < lines.len() ==> (#[trigger] lines[i]).1 < (#[trigger] lines[j]).0
            &&& forall|a: int, b: int|
                from <= a && #[trigger] is_line(bytes, a, b) ==> lines.contains((a, b))
        }),
    decreases bytes.len() - from,
{
    let lines = ended_lines(bytes, from);
    lemma_next_end(bytes, from);
    if let Some(end) = next_line_end(bytes, from) {
        lemma_lines(bytes, end + 1);
        let rest = ended_lines(bytes, end + 1);
        if end == from {
            assert forall|a: int, b: int| from <= a && #[trigger] is_line(
                bytes,
                a,
                b,
            ) implies lines.contains((a, b)) by {
                assert(bytes[a] != 10);
            }
        } else {
            assert(lines =~= seq![(from, end)] + rest);
            assert(is_line(bytes, from, end));
            assert forall|i: int| 0 <= i < lines.len() implies from <= (#[trigger] lines[i]).0
                && is_line(bytes, lines[i].0, lines[i].1) by {
                if i > 0 {
                    assert(lines[i] == rest[i - 1]);
                }
            }
            assert forall|i: int, j: int| 0 <= i < j < lines.len() implies (#[trigger] lines[i]).1
                < (#[trigger] lines[j]).0 by {
                assert(lines[j] == rest[j - 1]);
                if i > 0 {
                    assert(lines[i] == rest[i - 1]);
                }
            }
            assert forall|a: int, b: int| from <= a && #[trigger] is_line(
                bytes,
                a,
                b,
            ) implies lines.contains((a, b)) by {
                if a == from {
                    if b < end {
                        assert(bytes[b] != 10);
                    }
                    if end < b {
                        assert(bytes[end] != 10);
                    }
                    assert(lines[0] == (a, b));
                } else {
                    if a <= end {
                        assert(bytes[a - 1] != 10);
                    }
                    assert(rest.contains((a, b)));
                    let i = choose|i: int| 0 <= i < rest.len() && rest[i] == (a, b);
                    assert(lines[i + 1] == (a, b));
                }
            }
        }
    } else {
        assert forall|a: int, b: int| from <= a && #[trigger] is_line(
            bytes,
            a,
            b,
        ) implies lines.contains((a, b)) by {
            assert(bytes[b] != 10);
        }
    }
}

proof fn lemma_open_line_start(bytes: Seq<u8>, from: int)
    requires
        0 <= from <= bytes.len(),
        from == 0 || bytes[from - 1] == 10,
    ensures
        ({
            let start = open_line_start(bytes, from);
            &&& from <= start <= bytes.len()
            &&& start == 0 || bytes[start - 1] == 10
            &&& forall|k: int| start <= k < bytes.len() ==> #[trigger] bytes[k] != 10
        }),
    decreases bytes.len() - from,
{
    lemma_next_end(bytes, from);
    if let Some(end) = next_line_end(bytes, from) {
        lemma_open_line_start(bytes, end + 1);
    }
}

/// The lines of a journal are its ended lines that are not empty, all of them, in their order.
pub proof fn journals_are_read_line_by_line(bytes: Seq<u8>, from: int, end: int)
    ensures
        ended_lines(bytes, 0).contains((from, end)) <==> is_line(bytes, from, end),
        forall|i: int, j: int|
            0 <= i < j < ended_lines(bytes, 0).len() ==> (#[trigger] ended_lines(bytes, 0)[i]).1 < (
            #[trigger] ended_lines(bytes, 0)[j]).0,
{
    lemma_lines(bytes, 0);
    let lines = ended_lines(bytes, 0);
    if lines.contains((from, end)) {
        let i = choose|i: int| 0 <= i < lines.len() && lines[i] == (from, end);
        assert(is_line(bytes, lines[i].0, lines[i].1));
    }
}

/// The line that is not ended begins behind the last line end. A journal is closed exactly if there
/// is nothing behind that; what is there is whole exactly if it is JSON, and else torn. A whole
/// line gets its line end, a torn one goes, and a closed journal stays.
pub proof fn journals_are_mended_at_their_end(bytes: Seq<u8>)
    ensures
        ({
            let start = open_line_start(bytes, 0);
            &&& 0 <= start <= bytes.len()
            &&& start == 0 || bytes[start - 1] == 10
            &&& forall|k: int| start <= k < bytes.len() ==> #[trigger] bytes[k] != 10
            &&& tail_of(bytes) is Closed <==> bytes.len() == 0 || bytes.last() == 10
            &&& tail_of(bytes) is Whole <==> start < bytes.len() && body_content(bytes.skip(start))
                is Some
            &&& tail_of(bytes) is Torn <==> start < bytes.len() && body_content(bytes.skip(start))
                is None
            &&& tail_of(bytes) is Closed ==> mended(bytes) == bytes
            &&& tail_of(bytes) is Whole ==> mended(bytes) == bytes + seq![10u8]
            &&& tail_of(bytes) is Torn ==> mended(bytes) == bytes.take(start)
        }),
{
    lemma_open_line_start(bytes, 0);
    let start = open_line_start(bytes, 0);
    if start < bytes.len() {
        assert(bytes[bytes.len() - 1] != 10);
    }
    assert(bytes.push(10) =~= bytes + seq![10u8]);
}

/// Bytes hold a content exactly if they are text that encodes one, and hold that one.
pub proof fn bodies_hold_what_their_text_encodes(body: Seq<u8>)
    ensures
        body_content(body) is Some <==> valid_utf8(body) && json_parse(decode_utf8(body)) is Some,
        body_content(body) matches Some(content) ==> json_parse(decode_utf8(body)) == Some(content),
{
}

/// The files of an authority and of an operation have names of their own kind, with the digest of
/// the id and, for a secret, its revision. The pointers are told by their names.
pub proof fn files_have_names_of_their_kind(
    authority_id: Seq<char>,
    operation_id: Seq<char>,
    revision: u64,
)
    ensures
        ({
            let authority = hex(sha256_of(encode_utf8(authority_id)));
            let operation = hex(sha256_of(encode_utf8(operation_id)));
            &&& pointer_name(authority_id) == "active-"@ + authority + ".manifest"@
            &&& marker_name(authority_id) == "rotated-"@ + authority + ".marker"@
            &&& rotation_receipt_name(operation_id) == "receipt-"@ + operation + ".json"@
            &&& current_secret_name(authority_id, revision) == "current-"@ + authority + "-"@
                + decimal(revision as nat) + ".secret"@
            &&& secret_name(authority_id, revision, operation_id) == "secret-"@ + authority + "-"@
                + decimal(revision as nat) + "-"@ + operation + ".secret"@
        }),
        is_pointer_name(pointer_name(authority_id)),
        !is_pointer_name(marker_name(authority_id)),
        !is_pointer_name(rotation_receipt_name(operation_id)),
        !is_pointer_name(current_secret_name(authority_id, revision)),
        !is_pointer_name(secret_name(authority_id, revision, operation_id)),
{
    reveal_strlit("active-");
    reveal_strlit(".manifest");
    reveal_strlit("rotated-");
    reveal_strlit("receipt-");
    reveal_strlit("current-");
    reveal_strlit("secret-");
    let pointer = pointer_name(authority_id);
    assert("active-"@ =~= pointer.subrange(0, "active-"@.len() as int));
    assert(".manifest"@ =~= pointer.subrange(
        pointer.len() - ".manifest"@.len(),
        pointer.len() as int,
    ));
    let marker = marker_name(authority_id);
    assert(marker[0] == 'r');
    assert(rotation_receipt_name(operation_id)[0] == 'r');
    assert(current_secret_name(authority_id, revision)[0] == 'c');
    assert(secret_name(authority_id, revision, operation_id)[0] == 's');
    assert("active-"@[0] == 'a');
    assert forall|name: Seq<char>| name.len() > 0 && name[0] != 'a' implies
        !#[trigger] is_pointer_name(name) by {
        if is_pointer_name(name) {
            assert("active-"@ == name.subrange(0, "active-"@.len() as int));
            assert(name.subrange(0, "active-"@.len() as int)[0] == name[0]);
        }
    }
}

/// A file name is that of a pointer exactly if it has the front and the end of one.
pub proof fn pointers_are_told_by_their_names(name: Seq<char>)
    ensures
        is_pointer_name(name) <==> "active-"@.is_prefix_of(name) && ".manifest"@.is_suffix_of(name),
{
}

/// The id of an operation is a code under the key of the purpose, a zero byte, and what names it,
/// each part behind a zero byte.
pub proof fn operations_are_named_by_all_their_parts(
    key: Seq<u8>,
    purpose: Seq<char>,
    authority_id: Seq<char>,
    subject: Seq<char>,
    idempotency_key: Seq<char>,
)
    ensures
        purpose_digest(key, purpose, operation_source(authority_id, subject, idempotency_key))
            == "hmac-sha256:v1:"@ + hex(
            hmac_sha256_of(
                key,
                encode_utf8(purpose) + seq![0u8] + (encode_utf8("zode.controller-auth.rotate.v1"@)
                    + seq![0u8] + encode_utf8(authority_id) + seq![0u8] + encode_utf8(subject)
                    + seq![0u8] + encode_utf8(idempotency_key)),
            ),
        ),
{
}

/// A compacted journal keeps an entry exactly if its operation has no receipt yet, or is the
/// current one and has one.
pub proof fn compaction_keeps_entries_that_count(
    records: Seq<JournalRecordView>,
    current: Option<Seq<char>>,
    record: JournalRecordView,
)
    ensures
        compacted(records, current).contains(record) <==> records.contains(record) && {
            &&& latest_entry(records, record.operation_id) matches Some(latest) && {
                ||| latest.phase == JournalPhase::Intent && record.phase == JournalPhase::Intent
                ||| latest.phase == JournalPhase::Receipt && current == Some(record.operation_id)
            }
        },
        compacted(records, current).len() <= records.len(),
{
    broadcast use vstd::seq_lib::group_filter_ensures;

    let keep = |record: JournalRecordView| stays(records, current, record);
    if compacted(records, current).contains(record) {
        records.lemma_filter_contains_rev(keep, record);
        let i = choose|i: int|
            0 <= i < compacted(records, current).len() && compacted(records, current)[i] == record;
        assert(keep(compacted(records, current)[i]));
    }
    if records.contains(record) && keep(record) {
        let i = choose|i: int| 0 <= i < records.len() && records[i] == record;
        assert(compacted(records, current).contains(records[i]));
    }
}

/// An identity has twenty-six characters, each a digit or a letter but those that look like digits.
pub proof fn identities_have_their_form(text: Seq<char>, i: int)
    ensures
        is_ulid(text) ==> text.len() == 26,
        is_ulid(text) && 0 <= i < text.len() ==> {
            &&& '0' <= text[i] <= '9' || 'A' <= text[i] <= 'Z' || 'a' <= text[i] <= 'z'
            &&& text[i] != 'I' && text[i] != 'L' && text[i] != 'O' && text[i] != 'U'
            &&& text[i] != 'i' && text[i] != 'l' && text[i] != 'o' && text[i] != 'u'
        },
        text.len() == 26 && (forall|k: int|
            0 <= k < text.len() ==> '0' <= #[trigger] text[k] <= '9' || 'A' <= text[k] <= 'H'
                || 'a' <= text[k] <= 'h') ==> is_ulid(text),
{
}

} // verus!
