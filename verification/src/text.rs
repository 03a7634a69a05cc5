//! Facts about text: equality, byte length, byte order and character classes.

use vstd::prelude::*;
use vstd::string::*;
use vstd::utf8::*;

verus! {

/// How many bytes a text takes in UTF-8.
pub open spec fn byte_len(text: Seq<char>) -> nat {
    encode_utf8(text).len()
}

/// The number of bytes of `text` in UTF-8.
pub fn text_bytes(text: &str) -> (bytes: usize)
    ensures
        bytes == byte_len(text@),
{
    text.as_bytes().len()
}

/// Two texts with the same bytes are the same text.
pub proof fn lemma_same_bytes(left: Seq<char>, right: Seq<char>)
    requires
        encode_utf8(left) == encode_utf8(right),
    ensures
        left == right,
{
    encode_utf8_decode_utf8(left);
    encode_utf8_decode_utf8(right);
}

/// Whether two texts are the same.
pub fn same_text(left: &str, right: &str) -> (same: bool)
    ensures
        same == (left@ == right@),
{
    let a = left.as_bytes();
    let b = right.as_bytes();
    if a.len() != b.len() {
        return false;
    }
    let mut index: usize = 0;
    while index < a.len()
        invariant
            a.len() == b.len(),
            index <= a.len(),
            a@ == encode_utf8(left@),
            b@ == encode_utf8(right@),
            forall|i: int| 0 <= i < index ==> a[i] == b[i],
        decreases a.len() - index,
    {
        if a[index] != b[index] {
            return false;
        }
        index += 1;
    }
    proof {
        assert(a@ =~= b@);
        lemma_same_bytes(left@, right@);
    }
    true
}

/// Whether an optional text is present and equal to `text`.
pub fn holds_text(optional: &Option<String>, text: &str) -> (holds: bool)
    ensures
        holds == (optional.deep_view() == Some(text@)),
{
    match optional {
        Some(present) => same_text(present, text),
        None => false,
    }
}

/// Whether one of `texts` is `text`.
pub fn contains_text(texts: &Vec<String>, text: &str) -> (found: bool)
    ensures
        found == texts.deep_view().contains(text@),
{
    let mut index: usize = 0;
    while index < texts.len()
        invariant
            index <= texts.len(),
            forall|i: int| 0 <= i < index ==> texts.deep_view()[i] != text@,
        decreases texts.len() - index,
    {
        if same_text(&texts[index], text) {
            assert(texts.deep_view()[index as int] == text@);
            return true;
        }
        index += 1;
    }
    false
}

/// The Unicode control characters.
pub open spec fn is_control(c: char) -> bool {
    c as u32 <= 0x1f || 0x7f <= c as u32 <= 0x9f
}

/// Whether some character of `text` is a control character.
pub open spec fn has_control(text: Seq<char>) -> bool {
    exists|i: int| 0 <= i < text.len() && is_control(#[trigger] text[i])
}

/// Whether `text` holds a control character.
pub fn contains_control(text: &str) -> (found: bool)
    ensures
        found == has_control(text@),
{
    for c in characters: text.chars()
        invariant
            forall|i: int|
                0 <= i < characters.index() ==> !is_control(#[trigger] characters.seq()[i]),
            characters.seq() == text@,
    {
        let code: u32 = c as u32;
        if code <= 0x1f || (0x7f <= code && code <= 0x9f) {
            assert(is_control(characters.seq()[characters.index() as int]));
            return true;
        }
    }
    false
}

/// The strict lexicographic order of byte strings.
pub open spec fn bytes_before(left: Seq<u8>, right: Seq<u8>) -> bool
    decreases left.len(),
{
    if right.len() == 0 {
        false
    } else if left.len() == 0 {
        true
    } else if left[0] != right[0] {
        left[0] < right[0]
    } else {
        bytes_before(left.drop_first(), right.drop_first())
    }
}

/// The order of texts by their bytes, which is the order of `String`.
pub open spec fn text_before(left: Seq<char>, right: Seq<char>) -> bool {
    bytes_before(encode_utf8(left), encode_utf8(right))
}

proof fn lemma_bytes_before_transitive(a: Seq<u8>, b: Seq<u8>, c: Seq<u8>)
    requires
        bytes_before(a, b),
        bytes_before(b, c),
    ensures
        bytes_before(a, c),
    decreases a.len(),
{
    if a.len() > 0 && a[0] == b[0] && b[0] == c[0] {
        lemma_bytes_before_transitive(a.drop_first(), b.drop_first(), c.drop_first());
    }
}

proof fn lemma_bytes_before_total(a: Seq<u8>, b: Seq<u8>)
    ensures
        bytes_before(a, b) || bytes_before(b, a) || a == b,
        !(bytes_before(a, b) && bytes_before(b, a)),
        !bytes_before(a, a),
    decreases a.len(),
{
    if a.len() > 0 {
        lemma_bytes_before_total(a.drop_first(), a.drop_first());
    }
    if a.len() > 0 && b.len() > 0 && a[0] == b[0] {
        lemma_bytes_before_total(a.drop_first(), b.drop_first());
        if a.drop_first() == b.drop_first() {
            assert(a =~= seq![a[0]] + a.drop_first());
            assert(b =~= seq![b[0]] + b.drop_first());
        }
    }
    if a.len() == 0 && b.len() == 0 {
        assert(a =~= b);
    }
}

/// The order of texts is transitive.
pub proof fn lemma_text_before_transitive(a: Seq<char>, b: Seq<char>, c: Seq<char>)
    requires
        text_before(a, b),
        text_before(b, c),
    ensures
        text_before(a, c),
{
    lemma_bytes_before_transitive(encode_utf8(a), encode_utf8(b), encode_utf8(c));
}

/// Of two texts exactly one comes first, unless they are the same.
pub proof fn lemma_text_before_total(a: Seq<char>, b: Seq<char>)
    ensures
        text_before(a, b) || text_before(b, a) || a == b,
        !(text_before(a, b) && text_before(b, a)),
        !text_before(a, a),
{
    lemma_bytes_before_total(encode_utf8(a), encode_utf8(b));
    if encode_utf8(a) == encode_utf8(b) {
        lemma_same_bytes(a, b);
    }
}

proof fn lemma_bytes_before_skip(a: Seq<u8>, b: Seq<u8>, n: int)
    requires
        0 <= n <= a.len(),
        n <= b.len(),
        forall|i: int| 0 <= i < n ==> a[i] == b[i],
    ensures
        bytes_before(a, b) == bytes_before(a.skip(n), b.skip(n)),
    decreases n,
{
    if n > 0 {
        assert(a.drop_first().skip(n - 1) =~= a.skip(n));
        assert(b.drop_first().skip(n - 1) =~= b.skip(n));
        lemma_bytes_before_skip(a.drop_first(), b.drop_first(), n - 1);
    } else {
        assert(a.skip(0) =~= a);
        assert(b.skip(0) =~= b);
    }
}

/// Whether `left` comes strictly before `right` in the order of their bytes.
pub fn comes_before(left: &str, right: &str) -> (before: bool)
    ensures
        before == text_before(left@, right@),
{
    let a = left.as_bytes();
    let b = right.as_bytes();
    let mut index: usize = 0;
    while index < a.len() && index < b.len()
        invariant
            index <= a.len(),
            index <= b.len(),
            a@ == encode_utf8(left@),
            b@ == encode_utf8(right@),
            forall|i: int| 0 <= i < index ==> a[i] == b[i],
        decreases a.len() - index,
    {
        if a[index] != b[index] {
            proof {
                lemma_bytes_before_skip(a@, b@, index as int);
            }
            return a[index] < b[index];
        }
        index += 1;
    }
    proof {
        lemma_bytes_before_skip(a@, b@, index as int);
    }
    index < b.len()
}

/// The Unicode white space characters.
pub open spec fn is_white(c: char) -> bool {
    let code = c as u32;
    ||| 0x9 <= code <= 0xd
    ||| code == 0x20
    ||| code == 0x85
    ||| code == 0xa0
    ||| code == 0x1680
    ||| 0x2000 <= code <= 0x200a
    ||| code == 0x2028
    ||| code == 0x2029
    ||| code == 0x202f
    ||| code == 0x205f
    ||| code == 0x3000
}

/// Whether a character is white space.
pub fn is_white_space(c: char) -> (is: bool)
    ensures
        is == is_white(c),
{
    let code: u32 = c as u32;
    (0x9 <= code && code <= 0xd) || code == 0x20 || code == 0x85 || code == 0xa0 || code == 0x1680
        || (0x2000 <= code && code <= 0x200a) || code == 0x2028 || code == 0x2029 || code == 0x202f
        || code == 0x205f || code == 0x3000
}

/// Whether `text` holds the character `wanted`.
pub fn contains_char(text: &str, wanted: char) -> (found: bool)
    ensures
        found == text@.contains(wanted),
{
    for c in iter: text.chars()
        invariant
            iter.seq() == text@,
            forall|i: int| 0 <= i < iter.index() ==> iter.seq()[i] != wanted,
    {
        if c == wanted {
            assert(text@[iter.index() as int] == wanted);
            return true;
        }
    }
    false
}

/// Whether `text` begins with `prefix`.
pub fn has_prefix(text: &str, prefix: &str) -> (has: bool)
    ensures
        has == prefix@.is_prefix_of(text@),
{
    let whole = characters(text);
    let part = characters(prefix);
    if part.len() > whole.len() {
        return false;
    }
    stands_at(&whole, &part, 0)
}

/// Whether `text` ends with `suffix`.
pub fn has_suffix(text: &str, suffix: &str) -> (has: bool)
    ensures
        has == suffix@.is_suffix_of(text@),
{
    let whole = characters(text);
    let part = characters(suffix);
    if part.len() > whole.len() {
        return false;
    }
    let start: usize = whole.len() - part.len();
    let has = stands_at(&whole, &part, start);
    assert(whole@.subrange(start as int, start + part@.len()) =~= whole@.subrange(
        start as int,
        whole@.len() as int,
    ));
    has
}

fn stands_at(whole: &Vec<char>, part: &Vec<char>, at: usize) -> (stands: bool)
    requires
        at + part.len() <= whole.len(),
    ensures
        stands == (part@ == whole@.subrange(at as int, at + part@.len())),
{
    let ghost window = whole@.subrange(at as int, at + part@.len());
    let mut index: usize = 0;
    while index < part.len()
        invariant
            window == whole@.subrange(at as int, at + part@.len()),
            at + part.len() <= whole.len(),
            index <= part.len(),
            forall|i: int| 0 <= i < index ==> part@[i] == window[i],
        decreases part.len() - index,
    {
        assert(window[index as int] == whole@[at + index]);
        if part[index] != whole[at + index] {
            return false;
        }
        index += 1;
    }
    assert(part@ =~= window);
    true
}

/// The characters of a text.
pub fn characters(text: &str) -> (list: Vec<char>)
    ensures
        list@ == text@,
{
    let mut list: Vec<char> = Vec::new();
    for c in iter: text.chars()
        invariant
            iter.seq() == text@,
            list@ == iter.seq().take(iter.index() as int),
    {
        list.push(c);
        assert(list@ =~= iter.seq().take(iter.index() + 1));
    }
    assert(text@.take(text@.len() as int) =~= text@);
    list
}

/// `String::push`: the character is appended.
pub assume_specification[ String::push ](text: &mut String, c: char)
    ensures
        final(text)@ == old(text)@.push(c),
;

/// `str::from_utf8`: the text that bytes encode, if they encode one.
#[verifier::external_body]
pub(crate) fn decoded(bytes: &Vec<u8>) -> (text: Option<&str>)
    ensures
        match text {
            Some(text) => valid_utf8(bytes@) && text@ == decode_utf8(bytes@),
            None => !valid_utf8(bytes@),
        },
{
    std::str::from_utf8(bytes).ok()
}

/// `prefix` followed by `rest`.
pub fn joined(prefix: &str, rest: &str) -> (text: String)
    ensures
        text@ == prefix@ + rest@,
{
    let mut text = prefix.to_string();
    text.append(rest);
    text
}

} // verus!
