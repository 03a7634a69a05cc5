//! What texts, numbers, digests and JSON contents come to.

use crate::digest::{big_endian, hex, hex_digit, length_prefixed, sha256_of};
use crate::domain::selection::SessionOwnerView;
use crate::http::commands::{command_id_of, message_command_of};
use crate::json::{json_encoding, json_equal, json_size, number_or_null, JsonView};
use crate::number::{decimal, digits_value, is_digit, signed_decimal, unsigned_number};
use crate::text::{byte_len, bytes_before, has_control, is_control, is_white, text_before};
use vstd::prelude::*;
use vstd::string::*;
use vstd::utf8::encode_utf8;

verus! {

/// The number that a lower-case hexadecimal digit stands for.
pub open spec fn hex_value(c: char) -> int {
    if '0' <= c <= '9' {
        c as int - '0' as int
    } else {
        c as int - 'a' as int + 10
    }
}

proof fn lemma_hex_digit(value: int)
    requires
        0 <= value < 16,
    ensures
        hex_value(hex_digit(value)) == value,
        '0' <= hex_digit(value) <= '9' || 'a' <= hex_digit(value) <= 'f',
{
    reveal_strlit("0123456789abcdef");
}

/// Hexadecimal text has two lower-case digits for each byte, the high one first, and reads back as
/// the bytes.
pub proof fn hex_reads_back(bytes: Seq<u8>, i: int)
    requires
        0 <= i < bytes.len(),
    ensures
        hex(bytes).len() == 2 * bytes.len(),
        16 * hex_value(hex(bytes)[2 * i]) + hex_value(hex(bytes)[2 * i + 1]) == bytes[i],
        forall|k: int|
            0 <= k < 2 * bytes.len() ==> '0' <= #[trigger] hex(bytes)[k] <= '9' || 'a' <= hex(
                bytes,
            )[k] <= 'f',
{
    let byte = bytes[i] as int;
    lemma_hex_digit(byte / 16);
    lemma_hex_digit(byte % 16);
    assert((2 * i) / 2 == i && (2 * i) % 2 == 0 && (2 * i + 1) / 2 == i && (2 * i + 1) % 2 == 1);
    assert forall|k: int| 0 <= k < 2 * bytes.len() implies '0' <= #[trigger] hex(bytes)[k] <= '9'
        || 'a' <= hex(bytes)[k] <= 'f' by {
        lemma_hex_digit(bytes[k / 2] as int / 16);
        lemma_hex_digit(bytes[k / 2] as int % 16);
    }
}

/// The eight bytes of a number add up to it, the first weighing most.
pub proof fn bytes_add_up(value: u64)
    ensures
        big_endian(value).len() == 8,
        ({
            let bytes = big_endian(value);
            value == bytes[7] + 256 * (bytes[6] + 256 * (bytes[5] + 256 * (bytes[4] + 256 * (
            bytes[3] + 256 * (bytes[2] + 256 * (bytes[1] + 256 * bytes[0]))))))
        }),
{
    let v1 = value / 0x100;
    let v2 = value / 0x10000;
    let v3 = value / 0x1000000;
    let v4 = value / 0x100000000;
    let v5 = value / 0x10000000000;
    let v6 = value / 0x1000000000000;
    let v7 = value / 0x100000000000000;
    assert(value == 0x100 * v1 + value % 0x100);
    assert(v1 == 0x100 * v2 + v1 % 0x100);
    assert(v2 == 0x100 * v3 + v2 % 0x100);
    assert(v3 == 0x100 * v4 + v3 % 0x100);
    assert(v4 == 0x100 * v5 + v4 % 0x100);
    assert(v5 == 0x100 * v6 + v5 % 0x100);
    assert(v6 == 0x100 * v7 + v6 % 0x100);
    assert(v7 < 0x100);
}

/// The digest of two texts under a kind: the kind, a zero byte, and each text behind its length.
pub open spec fn pair_digest(kind: Seq<char>, first: Seq<char>, second: Seq<char>) -> Seq<char> {
    "sha256:v1:"@ + hex(
        sha256_of(
            encode_utf8(kind) + seq![0u8] + big_endian(byte_len(first) as u64) + encode_utf8(first)
                + big_endian(byte_len(second) as u64) + encode_utf8(second),
        ),
    )
}

proof fn lemma_pair_digest(kind: Seq<char>, first: Seq<char>, second: Seq<char>)
    ensures
        "sha256:v1:"@ + hex(
            sha256_of(encode_utf8(kind) + seq![0u8] + length_prefixed(seq![first, second])),
        ) == pair_digest(kind, first, second),
{
    let texts = seq![first, second];
    assert(texts.drop_first() =~= seq![second]);
    assert(seq![second].drop_first() =~= Seq::<Seq<char>>::empty());
    assert(length_prefixed(Seq::<Seq<char>>::empty()) =~= Seq::<u8>::empty());
    assert(length_prefixed(seq![second]) =~= big_endian(byte_len(second) as u64) + encode_utf8(
        second,
    ));
    assert(encode_utf8(kind) + seq![0u8] + length_prefixed(texts) =~= encode_utf8(kind) + seq![0u8]
        + big_endian(byte_len(first) as u64) + encode_utf8(first) + big_endian(
        byte_len(second) as u64,
    ) + encode_utf8(second));
}

/// The ids of a message are digests of its owner, its session and its key, each of a kind of its
/// own, and those of what it leads to are digests of its command and its id.
pub proof fn message_ids_are_digests(
    owner: SessionOwnerView,
    session_id: Seq<char>,
    key: Seq<char>,
    message_id: Option<Seq<char>>,
    content: Seq<char>,
    now: i64,
)
    ensures
        ({
            let command = message_command_of(owner, session_id, key, message_id, content, now);
            let scope = pair_digest("zode.session-owner.v1"@, owner.authority_id, owner.subject)
                + ":"@ + session_id;
            &&& command.command_id == "message-"@ + pair_digest(
                "session.message.key"@,
                scope,
                key,
            )
            &&& message_id is None ==> command.message_id == "message-"@ + pair_digest(
                "session.message.id"@,
                scope,
                key,
            )
            &&& command.event_id == "message-appended-"@ + pair_digest(
                "session.message.event"@,
                command.command_id,
                command.message_id,
            )
            &&& command.delivery_id == "delivery-"@ + pair_digest(
                "session.message.delivery"@,
                command.command_id,
                command.message_id,
            )
            &&& command.delivery_event_id == "delivery-queued-"@ + pair_digest(
                "session.message.delivery-event"@,
                command.command_id,
                command.message_id,
            )
        }),
{
    let command = message_command_of(owner, session_id, key, message_id, content, now);
    lemma_pair_digest("zode.session-owner.v1"@, owner.authority_id, owner.subject);
    let scope = pair_digest("zode.session-owner.v1"@, owner.authority_id, owner.subject) + ":"@
        + session_id;
    lemma_pair_digest("session.message.key"@, scope, key);
    lemma_pair_digest("session.message.id"@, scope, key);
    lemma_pair_digest("session.message.event"@, command.command_id, command.message_id);
    lemma_pair_digest("session.message.delivery"@, command.command_id, command.message_id);
    lemma_pair_digest("session.message.delivery-event"@, command.command_id, command.message_id);
}

/// The id of a command is a digest of its owner, its session and its key, of the kind of the
/// command.
pub proof fn command_ids_are_digests(
    kind: Seq<char>,
    owner: SessionOwnerView,
    session_id: Seq<char>,
    key: Seq<char>,
)
    ensures
        command_id_of(kind, owner, session_id, key) == pair_digest(
            "session."@ + kind + ".command"@,
            pair_digest("zode.session-owner.v1"@, owner.authority_id, owner.subject) + ":"@
                + session_id + ":"@ + key,
            key,
        ),
{
    lemma_pair_digest("zode.session-owner.v1"@, owner.authority_id, owner.subject);
    lemma_pair_digest(
        "session."@ + kind + ".command"@,
        pair_digest("zode.session-owner.v1"@, owner.authority_id, owner.subject) + ":"@ + session_id
            + ":"@ + key,
        key,
    );
}

/// A number is written in digits that count as much as it, the first of them not zero unless it is
/// the only one; below zero with a sign before.
pub proof fn numbers_are_written_in_digits(value: nat)
    ensures
        decimal(value).len() > 0,
        forall|i: int|
            0 <= i < decimal(value).len() ==> '0' <= #[trigger] decimal(value)[i] <= '9',
        digits_value(decimal(value)) == value,
        decimal(value)[0] == '0' ==> value == 0,
        signed_decimal(value as int) == decimal(value),
        value > 0 ==> signed_decimal(-value) == "-"@ + decimal(value),
    decreases value,
{
    reveal_strlit("0123456789");
    let text = decimal(value);
    if value < 10 {
        reveal_with_fuel(digits_value, 2);
        assert(text.drop_last() =~= Seq::<char>::empty());
    } else {
        numbers_are_written_in_digits(value / 10);
        assert(text.drop_last() =~= decimal(value / 10));
        assert(text[0] == decimal(value / 10)[0]);
        assert(value == 10 * (value / 10) + value % 10);
    }
}

/// Each digit weighs ten times as much as the one behind it, and no digits count nothing.
pub proof fn digits_weigh_by_their_place(digits: Seq<char>, last: char)
    ensures
        digits_value(Seq::<char>::empty()) == 0,
        is_digit(last) ==> digits_value(digits.push(last)) == 10 * digits_value(digits) + (
        last as int - '0' as int),
        is_digit(last) <==> '0' <= last <= '9',
{
    assert(digits.push(last).drop_last() =~= digits);
}

/// A text is read as a number exactly if it is of digits, with or without a plus sign before them,
/// and is not too large; a sign alone, or another character, is refused.
pub proof fn numbers_are_read_from_digits(digits: Seq<char>)
    requires
        digits.len() > 0,
    ensures
        digits[0] != '+' ==> unsigned_number("+"@ + digits) == unsigned_number(digits),
        unsigned_number(digits) matches Some(value) ==> value == digits_value(
            if digits[0] == '+' {
                digits.drop_first()
            } else {
                digits
            },
        ),
        (forall|i: int| 0 <= i < digits.len() ==> '0' <= #[trigger] digits[i] <= '9') ==> (
        unsigned_number(digits) is Some <==> digits_value(digits) <= u64::MAX),
        (exists|i: int|
            1 <= i < digits.len() && !('0' <= #[trigger] digits[i] <= '9')) ==> unsigned_number(
            digits,
        ) is None,
        digits == "+"@ ==> unsigned_number(digits) is None,
        unsigned_number(Seq::<char>::empty()) is None,
{
    reveal_strlit("+");
    let signed = "+"@ + digits;
    assert(signed.drop_first() =~= digits);
    if exists|i: int| 1 <= i < digits.len() && !('0' <= #[trigger] digits[i] <= '9') {
        let i = choose|i: int| 1 <= i < digits.len() && !('0' <= #[trigger] digits[i] <= '9');
        if digits[0] == '+' {
            assert(!is_digit(digits.drop_first()[i - 1]));
        } else {
            assert(!is_digit(digits[i]));
        }
    }
    if forall|i: int| 0 <= i < digits.len() ==> '0' <= #[trigger] digits[i] <= '9' {
        assert('0' <= digits[0] <= '9');
        assert(forall|i: int| 0 <= i < digits.len() ==> is_digit(#[trigger] digits[i]));
    }
}

/// The control characters are those below the space and those from delete to the end of the second
/// block; a text has one exactly if a character of it is one.
pub proof fn control_characters_are_found(text: Seq<char>)
    ensures
        has_control(text) <==> exists|i: int|
            0 <= i < text.len() && ((#[trigger] text[i] as u32) < 0x20 || 0x7f <= text[i] as u32
                <= 0x9f),
{
    if has_control(text) {
        let i = choose|i: int| 0 <= i < text.len() && is_control(#[trigger] text[i]);
        assert((text[i] as u32) < 0x20 || 0x7f <= text[i] as u32 <= 0x9f);
    }
    if exists|i: int|
        0 <= i < text.len() && ((#[trigger] text[i] as u32) < 0x20 || 0x7f <= text[i] as u32
            <= 0x9f) {
        let i = choose|i: int|
            0 <= i < text.len() && ((#[trigger] text[i] as u32) < 0x20 || 0x7f <= text[i] as u32
                <= 0x9f);
        assert(is_control(text[i]));
    }
}

/// Among the first two hundred and fifty-six characters, the space, tab, the line ends and the two
/// wide blanks are white, and no other.
pub proof fn blanks_are_white(c: char)
    ensures
        (c as u32) < 0x100 ==> (is_white(c) <==> c as u32 == 0x20 || c as u32 == 0x9 || c as u32
            == 0xa || c as u32 == 0xb || c as u32 == 0xc || c as u32 == 0xd || c as u32 == 0x85
            || c as u32 == 0xa0),
        c as u32 > 0x3000 ==> !is_white(c),
{
}

/// Bytes come before others exactly if they are the front of them, or the first that differs is
/// less.
pub proof fn bytes_are_ordered_by_the_first_that_differs(left: Seq<u8>, right: Seq<u8>, at: int)
    requires
        0 <= at <= left.len(),
        at <= right.len(),
        forall|i: int| 0 <= i < at ==> left[i] == right[i],
    ensures
        at == left.len() ==> (bytes_before(left, right) <==> at < right.len()),
        at == right.len() ==> !bytes_before(left, right),
        at < left.len() && at < right.len() && left[at] != right[at] ==> (bytes_before(left, right)
            <==> left[at] < right[at]),
    decreases at,
{
    if at > 0 {
        let l = left.drop_first();
        let r = right.drop_first();
        assert(left[0] == right[0]);
        assert forall|i: int| 0 <= i < at - 1 implies l[i] == r[i] by {
            assert(left[i + 1] == right[i + 1]);
        }
        bytes_are_ordered_by_the_first_that_differs(l, r, at - 1);
    }
}

/// Texts are ordered and counted by their bytes.
pub proof fn texts_are_ordered_by_their_bytes(left: Seq<char>, right: Seq<char>)
    ensures
        text_before(left, right) <==> bytes_before(encode_utf8(left), encode_utf8(right)),
        byte_len(left) == encode_utf8(left).len(),
{
}

/// JSON contents are equal only if they are of a kind, and then part by part; the two zeros are
/// equal, and no other numbers that differ.
pub proof fn contents_are_equal_by_parts(left: JsonView, right: JsonView)
    ensures
        match (left, right) {
            (JsonView::Null, JsonView::Null) => json_equal(left, right),
            (JsonView::Bool(a), JsonView::Bool(b)) => json_equal(left, right) <==> a == b,
            (JsonView::Integer(a), JsonView::Integer(b)) => json_equal(left, right) <==> a == b,
            (JsonView::Text(a), JsonView::Text(b)) => json_equal(left, right) <==> a == b,
            (JsonView::Real(a), JsonView::Real(b)) => json_equal(left, right) <==> a == b || (a
                & 0x7fff_ffff_ffff_ffff == 0 && b & 0x7fff_ffff_ffff_ffff == 0),
            (JsonView::Array(a), JsonView::Array(b)) => json_equal(left, right) <==> a.len()
                == b.len() && forall|i: int|
                0 <= i < a.len() ==> json_equal(#[trigger] a[i], b[i]),
            (JsonView::Object(a), JsonView::Object(b)) => a.dom().finite() ==> (json_equal(
                left,
                right,
            ) <==> a.dom() == b.dom() && forall|key: Seq<char>| #[trigger]
                a.dom().contains(key) ==> json_equal(a[key], b[key])),
            _ => !json_equal(left, right),
        },
{
    if let (JsonView::Real(a), JsonView::Real(b)) = (left, right) {
        assert(a & 0x7fff_ffff_ffff_ffff == 0 <==> a == 0 || a == 0x8000_0000_0000_0000)
            by (bit_vector);
        assert(b & 0x7fff_ffff_ffff_ffff == 0 <==> b == 0 || b == 0x8000_0000_0000_0000)
            by (bit_vector);
    }
}

/// The size of a content is the length of its encoding, where it has one; a number that is not
/// there is null.
pub proof fn contents_have_the_size_of_their_encoding(content: JsonView, number: Option<i64>)
    ensures
        json_encoding(content) matches Ok(bytes) ==> (json_size(content) matches Ok(size) && size
            == bytes.len()),
        json_encoding(content) matches Err(message) ==> (json_size(content) matches Err(told)
            && told == message),
        number_or_null(number) is Null <==> number is None,
        number matches Some(value) ==> number_or_null(number) == JsonView::Integer(value as int),
{
}

} // verus!
