//! What the headers of a request say.
//!
//! The values of one header come as bytes, in the order in which they stand in the request.

use crate::http::errors::{
    invalid_answer, malformed_answer, payload_too_large_answer, ApiError, ApiErrorView,
    ServiceError, ServiceErrorView,
};
use crate::number::{parse_unsigned, unsigned_number};
use crate::text::{characters, decoded, is_white, is_white_space, same_text};
use vstd::prelude::*;
use vstd::string::*;
use vstd::utf8::{decode_utf8, valid_utf8};

verus! {

pub const MAX_IDEMPOTENCY_KEY_BYTES: usize = 1_024;

/// The values of a header.
pub open spec fn raw_values(values: Seq<Vec<u8>>) -> Seq<Seq<u8>> {
    Seq::new(values.len(), |i: int| values[i]@)
}

/// Whether a byte of a header value is a visible ASCII character, a space or a tab.
pub open spec fn is_visible(byte: u8) -> bool {
    32 <= byte < 127 || byte == 9
}

/// The text of a header value, if all of it is visible.
pub open spec fn value_text(bytes: Seq<u8>) -> Option<Seq<char>> {
    if forall|i: int| 0 <= i < bytes.len() ==> is_visible(#[trigger] bytes[i]) {
        Some(Seq::new(bytes.len(), |i: int| bytes[i] as char))
    } else {
        None
    }
}

/// The text of a header value, if all of it is visible.
pub fn header_text(bytes: &Vec<u8>) -> (text: Option<String>)
    ensures
        text.deep_view() == value_text(bytes@),
{
    let mut text = String::new();
    let mut index: usize = 0;
    while index < bytes.len()
        invariant
            index <= bytes.len(),
            text@ == Seq::new(index as nat, |i: int| bytes@[i] as char),
            forall|i: int| 0 <= i < index ==> is_visible(#[trigger] bytes@[i]),
        decreases bytes.len() - index,
    {
        let byte: u8 = bytes[index];
        if !((32 <= byte && byte < 127) || byte == 9) {
            assert(!is_visible(bytes@[index as int]));
            return None;
        }
        text.push(byte as char);
        assert(text@ =~= Seq::new((index + 1) as nat, |i: int| bytes@[i] as char));
        index += 1;
    }
    Some(text)
}

/// A text without the white space at its front.
pub open spec fn without_front(text: Seq<char>) -> Seq<char>
    decreases text.len(),
{
    if text.len() > 0 && is_white(text[0]) {
        without_front(text.drop_first())
    } else {
        text
    }
}

/// A text without the white space at its back.
pub open spec fn without_back(text: Seq<char>) -> Seq<char>
    decreases text.len(),
{
    if text.len() > 0 && is_white(text.last()) {
        without_back(text.drop_last())
    } else {
        text
    }
}

/// A text without the white space at its ends.
pub open spec fn trimmed(text: Seq<char>) -> Seq<char> {
    without_back(without_front(text))
}

fn trim_bounds(all: &Vec<char>, start: usize, end: usize) -> (bounds: (usize, usize))
    requires
        start <= end <= all.len(),
    ensures
        start <= bounds.0 <= bounds.1 <= end,
        all@.subrange(bounds.0 as int, bounds.1 as int) == trimmed(
            all@.subrange(start as int, end as int),
        ),
{
    let mut low: usize = start;
    while low < end && is_white_space(all[low])
        invariant
            start <= low <= end <= all.len(),
            without_front(all@.subrange(start as int, end as int)) == without_front(
                all@.subrange(low as int, end as int),
            ),
        decreases end - low,
    {
        assert(all@.subrange(low as int, end as int).drop_first() =~= all@.subrange(
            low + 1,
            end as int,
        ));
        low += 1;
    }
    let mut high: usize = end;
    let ghost rest = all@.subrange(low as int, end as int);
    while high > low && is_white_space(all[high - 1])
        invariant
            start <= low <= high <= end <= all.len(),
            rest == all@.subrange(low as int, end as int),
            without_back(rest) == without_back(all@.subrange(low as int, high as int)),
        decreases high,
    {
        assert(all@.subrange(low as int, high as int).drop_last() =~= all@.subrange(
            low as int,
            high - 1,
        ));
        high -= 1;
    }
    (low, high)
}

fn text_between(all: &Vec<char>, start: usize, end: usize) -> (text: String)
    requires
        start <= end <= all.len(),
    ensures
        text@ == all@.subrange(start as int, end as int),
{
    let mut text = String::new();
    let mut index: usize = start;
    assert(text@ =~= all@.subrange(start as int, start as int));
    while index < end
        invariant
            start <= index <= end <= all.len(),
            text@ == all@.subrange(start as int, index as int),
        decreases end - index,
    {
        text.push(all[index]);
        assert(text@ =~= all@.subrange(start as int, index + 1));
        index += 1;
    }
    text
}

/// The code of a character, where ASCII capitals count as small letters.
pub open spec fn lower_code(c: char) -> u32 {
    if 'A' <= c <= 'Z' {
        (c as u32 + 32) as u32
    } else {
        c as u32
    }
}

/// Whether two texts are the same but for the case of ASCII letters.
pub open spec fn same_but_for_case(left: Seq<char>, right: Seq<char>) -> bool {
    &&& left.len() == right.len()
    &&& forall|i: int|
        0 <= i < left.len() ==> lower_code(#[trigger] left[i]) == lower_code(right[i])
}

fn lower(c: char) -> (code: u32)
    ensures
        code == lower_code(c),
{
    let code: u32 = c as u32;
    if 'A' <= c && c <= 'Z' {
        code + 32
    } else {
        code
    }
}

fn equals_ignoring_case(left: &str, right: &str) -> (equal: bool)
    ensures
        equal == same_but_for_case(left@, right@),
{
    let a = characters(left);
    let b = characters(right);
    if a.len() != b.len() {
        return false;
    }
    let mut index: usize = 0;
    while index < a.len()
        invariant
            a@ == left@,
            b@ == right@,
            a.len() == b.len(),
            index <= a.len(),
            forall|i: int| 0 <= i < index ==> lower_code(#[trigger] left@[i]) == lower_code(
                right@[i],
            ),
        decreases a.len() - index,
    {
        if lower(a[index]) != lower(b[index]) {
            assert(lower_code(left@[index as int]) != lower_code(right@[index as int]));
            return false;
        }
        index += 1;
    }
    true
}

/// The part of a text before the first character that `pick` accepts, or all of it.
pub open spec fn part_before(text: Seq<char>, pick: spec_fn(char) -> bool) -> Seq<char>
    decreases text.len(),
{
    if text.len() == 0 || pick(text[0]) {
        Seq::empty()
    } else {
        seq![text[0]] + part_before(text.drop_first(), pick)
    }
}

proof fn lemma_part_before(text: Seq<char>, pick: spec_fn(char) -> bool, n: int)
    requires
        0 <= n <= text.len(),
        forall|i: int| 0 <= i < n ==> !pick(text[i]),
        n < text.len() ==> pick(text[n]),
    ensures
        part_before(text, pick) == text.take(n),
    decreases n,
{
    if n > 0 {
        lemma_part_before(text.drop_first(), pick, n - 1);
        assert(text.take(n) =~= seq![text[0]] + text.drop_first().take(n - 1));
    } else {
        assert(text.take(0) =~= Seq::empty());
    }
}

/// The media type of a content type: what stands before its parameters.
pub open spec fn media_type(text: Seq<char>) -> Seq<char> {
    trimmed(part_before(text, |c: char| c == ';'))
}

/// Why the content type of a request is refused: there must be one, and its media type be that of
/// JSON.
pub open spec fn content_type_fault(values: Seq<Seq<u8>>) -> Option<ApiErrorView> {
    let wrong = invalid_answer("content type must be application/json"@);
    if values.len() == 0 {
        Some(wrong)
    } else if values.len() > 1 {
        Some(malformed_answer())
    } else {
        match value_text(values[0]) {
            Some(text) if same_but_for_case(media_type(text), "application/json"@) => None,
            _ => Some(wrong),
        }
    }
}

/// The answer that a result holds, if it failed.
pub open spec fn answer_of<T>(result: Result<T, ApiError>) -> Option<ApiErrorView> {
    match result {
        Ok(_) => None,
        Err(error) => Some(error.deep_view()),
    }
}

/// Checks the content type of a request.
pub fn require_json_content_type(values: &Vec<Vec<u8>>) -> (result: Result<(), ApiError>)
    ensures
        answer_of(result) == content_type_fault(raw_values(values@)),
{
    if values.len() == 0 {
        return Err(ApiError::invalid("content type must be application/json"));
    }
    if values.len() > 1 {
        return Err(ApiError::malformed());
    }
    assert(raw_values(values@)[0] == values@[0]@);
    let text = match header_text(&values[0]) {
        Some(text) => text,
        None => {
            return Err(ApiError::invalid("content type must be application/json"));
        },
    };
    let all = characters(&text);
    let mut end: usize = 0;
    while end < all.len() && all[end] != ';'
        invariant
            end <= all.len(),
            forall|i: int| 0 <= i < end ==> all@[i] != ';',
        decreases all.len() - end,
    {
        end += 1;
    }
    proof {
        lemma_part_before(all@, |c: char| c == ';', end as int);
        assert(all@.subrange(0, end as int) =~= all@.take(end as int));
    }
    let bounds = trim_bounds(&all, 0, end);
    let media = text_between(&all, bounds.0, bounds.1);
    if equals_ignoring_case(&media, "application/json") {
        Ok(())
    } else {
        Err(ApiError::invalid("content type must be application/json"))
    }
}

/// The failure that a result holds, if it failed.
pub open spec fn failure_of<T>(result: Result<T, ServiceError>) -> Option<ServiceErrorView> {
    match result {
        Ok(_) => None,
        Err(error) => Some(error.deep_view()),
    }
}

/// The idempotency key of a request, if it has one.
pub open spec fn optional_key(values: Seq<Seq<u8>>) -> Result<
    Option<Seq<char>>,
    ServiceErrorView,
> {
    if values.len() == 0 {
        Ok(None)
    } else if values.len() > 1 {
        Err(ServiceErrorView::Invalid("duplicate Idempotency-Key"@))
    } else if values[0].len() > MAX_IDEMPOTENCY_KEY_BYTES {
        Err(ServiceErrorView::PayloadTooLarge)
    } else {
        match value_text(values[0]) {
            None => Err(
                ServiceErrorView::Invalid(
                    "invalid Idempotency-Key: failed to convert header to a str"@,
                ),
            ),
            Some(text) => if text.len() == 0 {
                Err(ServiceErrorView::Invalid("Idempotency-Key must not be empty"@))
            } else {
                Ok(Some(text))
            },
        }
    }
}

/// The idempotency key of a request, which must have one.
pub open spec fn required_key(values: Seq<Seq<u8>>) -> Result<Seq<char>, ServiceErrorView> {
    match optional_key(values) {
        Ok(Some(key)) => Ok(key),
        Ok(None) => Err(ServiceErrorView::Invalid("Idempotency-Key header is required"@)),
        Err(error) => Err(error),
    }
}

/// The idempotency key of a request, if it has one.
pub fn optional_idempotency_key(values: &Vec<Vec<u8>>) -> (result: Result<
    Option<String>,
    ServiceError,
>)
    ensures
        match result {
            Ok(key) => optional_key(raw_values(values@)) == Ok::<
                Option<Seq<char>>,
                ServiceErrorView,
            >(key.deep_view()),
            Err(error) => optional_key(raw_values(values@)) == Err::<
                Option<Seq<char>>,
                ServiceErrorView,
            >(error.deep_view()),
        },
{
    if values.len() == 0 {
        return Ok(None);
    }
    if values.len() > 1 {
        return Err(ServiceError::Invalid("duplicate Idempotency-Key".to_string()));
    }
    assert(raw_values(values@)[0] == values@[0]@);
    if values[0].len() > MAX_IDEMPOTENCY_KEY_BYTES {
        return Err(ServiceError::PayloadTooLarge);
    }
    match header_text(&values[0]) {
        None => Err(
            ServiceError::Invalid(
                "invalid Idempotency-Key: failed to convert header to a str".to_string(),
            ),
        ),
        Some(text) => {
            if text.as_str().is_empty() {
                return Err(ServiceError::Invalid("Idempotency-Key must not be empty".to_string()));
            }
            Ok(Some(text))
        },
    }
}

/// The idempotency key of a request, which must have one.
pub fn required_idempotency_key(values: &Vec<Vec<u8>>) -> (result: Result<String, ServiceError>)
    ensures
        match result {
            Ok(key) => required_key(raw_values(values@)) == Ok::<Seq<char>, ServiceErrorView>(
                key@,
            ),
            Err(error) => required_key(raw_values(values@)) == Err::<Seq<char>, ServiceErrorView>(
                error.deep_view(),
            ),
        },
{
    match optional_idempotency_key(values)? {
        Some(key) => Ok(key),
        None => Err(ServiceError::Invalid("Idempotency-Key header is required".to_string())),
    }
}

/// Whether a request asks only for what was answered before.
pub open spec fn replay_only(values: Seq<Seq<u8>>) -> Result<bool, ServiceErrorView> {
    if values.len() == 0 {
        Ok(false)
    } else if values.len() > 1 {
        Err(ServiceErrorView::Malformed)
    } else {
        match value_text(values[0]) {
            None => Err(ServiceErrorView::Malformed),
            Some(text) => if text == "replay-only"@ {
                Ok(true)
            } else {
                Err(ServiceErrorView::Invalid("unsupported idempotency mode"@))
            },
        }
    }
}

/// Whether a request asks only for what was answered before.
pub fn replay_only_mode(values: &Vec<Vec<u8>>) -> (result: Result<bool, ServiceError>)
    ensures
        match result {
            Ok(only) => replay_only(raw_values(values@)) == Ok::<bool, ServiceErrorView>(only),
            Err(error) => replay_only(raw_values(values@)) == Err::<bool, ServiceErrorView>(
                error.deep_view(),
            ),
        },
{
    if values.len() == 0 {
        return Ok(false);
    }
    if values.len() > 1 {
        return Err(ServiceError::Malformed);
    }
    assert(raw_values(values@)[0] == values@[0]@);
    match header_text(&values[0]) {
        None => Err(ServiceError::Malformed),
        Some(text) => {
            if same_text(&text, "replay-only") {
                Ok(true)
            } else {
                Err(ServiceError::Invalid("unsupported idempotency mode".to_string()))
            }
        },
    }
}

/// The position after which a caller wants events, if it names one.
pub open spec fn last_event_position(values: Seq<Seq<u8>>) -> Result<
    Option<u64>,
    ServiceErrorView,
> {
    if values.len() == 0 {
        Ok(None)
    } else if values.len() > 1 {
        Err(ServiceErrorView::Malformed)
    } else {
        match value_text(values[0]) {
            None => Err(ServiceErrorView::Malformed),
            Some(text) => match unsigned_number(text) {
                Some(position) => Ok(Some(position)),
                None => Err(ServiceErrorView::Malformed),
            },
        }
    }
}

/// The position after which a caller wants events, if it names one.
pub fn parse_last_event_id(values: &Vec<Vec<u8>>) -> (result: Result<Option<u64>, ServiceError>)
    ensures
        match result {
            Ok(position) => last_event_position(raw_values(values@)) == Ok::<
                Option<u64>,
                ServiceErrorView,
            >(position),
            Err(error) => last_event_position(raw_values(values@)) == Err::<
                Option<u64>,
                ServiceErrorView,
            >(error.deep_view()),
        },
{
    if values.len() == 0 {
        return Ok(None);
    }
    if values.len() > 1 {
        return Err(ServiceError::Malformed);
    }
    assert(raw_values(values@)[0] == values@[0]@);
    match header_text(&values[0]) {
        None => Err(ServiceError::Malformed),
        Some(text) => match parse_unsigned(&text) {
            Some(position) => Ok(Some(position)),
            None => Err(ServiceError::Malformed),
        },
    }
}

/// The idempotency key of a rotation, which may hold any text.
pub open spec fn rotation_key(values: Seq<Seq<u8>>) -> Result<Seq<char>, ApiErrorView> {
    if values.len() != 1 {
        Err(malformed_answer())
    } else if values[0].len() > 1_024 {
        Err(payload_too_large_answer())
    } else if !valid_utf8(values[0]) || values[0].len() == 0 {
        Err(malformed_answer())
    } else {
        Ok(decode_utf8(values[0]))
    }
}

/// The idempotency key of a rotation.
pub fn rotation_idempotency_key(values: &Vec<Vec<u8>>) -> (result: Result<String, ApiError>)
    ensures
        match result {
            Ok(key) => rotation_key(raw_values(values@)) == Ok::<Seq<char>, ApiErrorView>(key@),
            Err(error) => rotation_key(raw_values(values@)) == Err::<Seq<char>, ApiErrorView>(
                error.deep_view(),
            ),
        },
{
    if values.len() != 1 {
        return Err(ApiError::malformed());
    }
    assert(raw_values(values@)[0] == values@[0]@);
    if values[0].len() > 1_024 {
        return Err(ApiError::payload_too_large());
    }
    match decoded(&values[0]) {
        Some(text) => {
            if values[0].len() == 0 {
                return Err(ApiError::malformed());
            }
            Ok(text.to_string())
        },
        None => Err(ApiError::malformed()),
    }
}

/// Whether a text holds white space.
pub open spec fn has_white(text: Seq<char>) -> bool {
    exists|i: int| 0 <= i < text.len() && is_white(#[trigger] text[i])
}

/// The token in the text of an authorization: behind the word "bearer" and white space.
pub open spec fn bearer_in(text: Seq<char>) -> Option<Seq<char>> {
    let whole = trimmed(text);
    let scheme = part_before(whole, |c: char| is_white(c));
    if scheme.len() == whole.len() || !same_but_for_case(scheme, "bearer"@) {
        None
    } else {
        let token = trimmed(whole.skip(scheme.len() as int + 1));
        if token.len() > 0 && !has_white(token) {
            Some(token)
        } else {
            None
        }
    }
}

/// The token with which a callback authenticates: that of the only authorization.
pub open spec fn callback_token(values: Seq<Seq<u8>>) -> Option<Seq<char>> {
    if values.len() != 1 {
        None
    } else {
        match value_text(values[0]) {
            Some(text) => bearer_in(text),
            None => None,
        }
    }
}

fn any_white(all: &Vec<char>, start: usize, end: usize) -> (found: bool)
    requires
        start <= end <= all.len(),
    ensures
        found == has_white(all@.subrange(start as int, end as int)),
{
    let ghost part = all@.subrange(start as int, end as int);
    let mut index: usize = start;
    while index < end
        invariant
            part == all@.subrange(start as int, end as int),
            start <= index <= end <= all.len(),
            forall|i: int| 0 <= i < index - start ==> !is_white(#[trigger] part[i]),
        decreases end - index,
    {
        if is_white_space(all[index]) {
            assert(is_white(part[index - start]));
            return true;
        }
        index += 1;
    }
    false
}

/// The token with which a callback authenticates.
pub fn callback_bearer(values: &Vec<Vec<u8>>) -> (token: Option<String>)
    ensures
        token.deep_view() == callback_token(raw_values(values@)),
{
    if values.len() != 1 {
        return None;
    }
    assert(raw_values(values@)[0] == values@[0]@);
    let text = match header_text(&values[0]) {
        Some(text) => text,
        None => {
            return None;
        },
    };
    let all = characters(&text);
    assert(all@.subrange(0, all@.len() as int) =~= all@);
    let whole = trim_bounds(&all, 0, all.len());
    let ghost body = all@.subrange(whole.0 as int, whole.1 as int);
    let mut end: usize = whole.0;
    while end < whole.1 && !is_white_space(all[end])
        invariant
            whole.0 <= end <= whole.1 <= all.len(),
            body == all@.subrange(whole.0 as int, whole.1 as int),
            forall|i: int| 0 <= i < end - whole.0 ==> !is_white(#[trigger] body[i]),
        decreases whole.1 - end,
    {
        assert(body[end - whole.0] == all@[end as int]);
        end += 1;
    }
    proof {
        if end < whole.1 {
            assert(body[end - whole.0] == all@[end as int]);
        }
        lemma_part_before(body, |c: char| is_white(c), end - whole.0);
        assert(body.take(end - whole.0) =~= all@.subrange(whole.0 as int, end as int));
    }
    if end == whole.1 {
        return None;
    }
    let scheme = text_between(&all, whole.0, end);
    if !equals_ignoring_case(&scheme, "bearer") {
        return None;
    }
    assert(body.skip(end - whole.0 + 1) =~= all@.subrange(end + 1, whole.1 as int));
    let token = trim_bounds(&all, end + 1, whole.1);
    if token.0 == token.1 || any_white(&all, token.0, token.1) {
        return None;
    }
    Some(text_between(&all, token.0, token.1))
}

} // verus!
