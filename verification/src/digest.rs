//! Digests, and texts made from them.

use crate::text::lemma_same_bytes;
use hmac::{Hmac, Mac};
use sha2::{Digest, Sha256};
use subtle::ConstantTimeEq;
use vstd::prelude::*;
use vstd::string::*;
use vstd::utf8::*;

verus! {

/// The SHA-256 digest of a message.
pub uninterp spec fn sha256_of(message: Seq<u8>) -> Seq<u8>;

/// The HMAC-SHA-256 code of a message under a key.
pub uninterp spec fn hmac_sha256_of(key: Seq<u8>, message: Seq<u8>) -> Seq<u8>;

/// `Sha256::digest`: the digest of a message, which has 32 bytes.
#[verifier::external_body]
pub(crate) fn sha256(message: &[u8]) -> (digest: Vec<u8>)
    ensures
        digest@ == sha256_of(message@),
        digest@.len() == 32,
{
    Sha256::digest(message).to_vec()
}

/// `Hmac::<Sha256>::new_from_slice`, which takes a key of any length, then `update` and
/// `finalize`: the code of a message under a key, which has 32 bytes.
#[verifier::external_body]
pub(crate) fn hmac_sha256(key: &[u8], message: &[u8]) -> (code: Vec<u8>)
    ensures
        code@ == hmac_sha256_of(key@, message@),
        code@.len() == 32,
{
    let mut mac = Hmac::<Sha256>::new_from_slice(key).expect("a key of any length");
    mac.update(message);
    mac.finalize().into_bytes().to_vec()
}

/// `ConstantTimeEq::ct_eq` on byte slices: whether they are equal, in a time that depends on their
/// lengths alone.
#[verifier::external_body]
pub(crate) fn same_secret(left: &[u8], right: &[u8]) -> (same: bool)
    ensures
        same == (left@ == right@),
{
    left.ct_eq(right).into()
}

/// The hexadecimal digit of a number below sixteen.
pub open spec fn hex_digit(value: int) -> char {
    "0123456789abcdef"@[value]
}

/// The bytes in lower-case hexadecimal, two digits each.
pub open spec fn hex(bytes: Seq<u8>) -> Seq<char> {
    Seq::new(
        2 * bytes.len(),
        |i: int|
            if i % 2 == 0 {
                hex_digit(bytes[i / 2] as int / 16)
            } else {
                hex_digit(bytes[i / 2] as int % 16)
            },
    )
}

/// The bytes in lower-case hexadecimal, two digits each.
pub fn hex_text(bytes: &[u8]) -> (text: String)
    ensures
        text@ == hex(bytes@),
{
    proof {
        reveal_strlit("0123456789abcdef");
    }
    let digits = "0123456789abcdef";
    let mut text = String::new();
    let mut index: usize = 0;
    assert(text@ =~= hex(bytes@).take(0));
    while index < bytes.len()
        invariant
            digits@ == "0123456789abcdef"@,
            digits@.len() == 16,
            index <= bytes.len(),
            text@ == hex(bytes@).take(2 * index),
        decreases bytes.len() - index,
    {
        let byte: u8 = bytes[index];
        let high: usize = byte as usize / 16;
        let low: usize = byte as usize % 16;
        text.push(digits.get_char(high));
        text.push(digits.get_char(low));
        proof {
            let whole = hex(bytes@);
            let next = 2 * index;
            assert(next % 2 == 0 && next / 2 == index && (next + 1) % 2 == 1 && (next + 1) / 2
                == index);
            assert(whole[next] == hex_digit(high as int));
            assert(whole[next + 1] == hex_digit(low as int));
            assert(text@ =~= whole.take(next).push(whole[next]).push(whole[next + 1]));
            assert(text@ =~= whole.take(2 * (index + 1)));
        }
        index += 1;
    }
    assert(hex(bytes@).take(2 * index as int) =~= hex(bytes@));
    text
}

/// The eight bytes of a number, the highest first.
pub open spec fn big_endian(value: u64) -> Seq<u8> {
    seq![
        (value / 0x100000000000000) as u8,
        (value / 0x1000000000000 % 0x100) as u8,
        (value / 0x10000000000 % 0x100) as u8,
        (value / 0x100000000 % 0x100) as u8,
        (value / 0x1000000 % 0x100) as u8,
        (value / 0x10000 % 0x100) as u8,
        (value / 0x100 % 0x100) as u8,
        (value % 0x100) as u8,
    ]
}

/// Texts one after the other, each behind its length, so that no two lists read the same.
pub open spec fn length_prefixed(texts: Seq<Seq<char>>) -> Seq<u8>
    decreases texts.len(),
{
    if texts.len() == 0 {
        Seq::empty()
    } else {
        big_endian(encode_utf8(texts[0]).len() as u64) + encode_utf8(texts[0]) + length_prefixed(
            texts.drop_first(),
        )
    }
}

fn push_big_endian(bytes: &mut Vec<u8>, value: u64)
    ensures
        final(bytes)@ == old(bytes)@ + big_endian(value),
{
    bytes.push((value / 0x100000000000000) as u8);
    bytes.push((value / 0x1000000000000 % 0x100) as u8);
    bytes.push((value / 0x10000000000 % 0x100) as u8);
    bytes.push((value / 0x100000000 % 0x100) as u8);
    bytes.push((value / 0x1000000 % 0x100) as u8);
    bytes.push((value / 0x10000 % 0x100) as u8);
    bytes.push((value / 0x100 % 0x100) as u8);
    bytes.push((value % 0x100) as u8);
    assert(bytes@ =~= old(bytes)@ + big_endian(value));
}

/// The views of a list of texts.
pub open spec fn texts_view(texts: Seq<&str>) -> Seq<Seq<char>> {
    Seq::new(texts.len(), |i: int| texts[i]@)
}

/// Appends texts, each behind its length.
pub(crate) fn push_length_prefixed(bytes: &mut Vec<u8>, texts: &[&str])
    ensures
        final(bytes)@ == old(bytes)@ + length_prefixed(texts_view(texts@)),
{
    let ghost first = bytes@;
    let ghost all = texts_view(texts@);
    let mut index: usize = 0;
    assert(all.skip(0) =~= all);
    while index < texts.len()
        invariant
            all == texts_view(texts@),
            index <= texts.len(),
            bytes@ + length_prefixed(all.skip(index as int)) == first + length_prefixed(all),
        decreases texts.len() - index,
    {
        let ghost before = bytes@;
        let text = texts[index].as_bytes();
        push_big_endian(bytes, text.len() as u64);
        bytes.extend_from_slice(text);
        proof {
            let rest = all.skip(index as int);
            assert(rest[0] == all[index as int]);
            assert(rest.drop_first() =~= all.skip(index + 1));
            let size = big_endian(text@.len() as u64);
            assert(bytes@ =~= before + size + text@);
            assert(bytes@ + length_prefixed(all.skip(index + 1)) =~= before + (size + text@
                + length_prefixed(all.skip(index + 1))));
        }
        index += 1;
    }
    assert(all.skip(index as int) =~= Seq::empty());
    assert(bytes@ =~= first + length_prefixed(all));
}

proof fn lemma_big_endian_injective(a: u64, b: u64)
    requires
        big_endian(a) == big_endian(b),
    ensures
        a == b,
{
    let x = big_endian(a);
    let y = big_endian(b);
    assert(x[0] == y[0] && x[1] == y[1] && x[2] == y[2] && x[3] == y[3] && x[4] == y[4] && x[5]
        == y[5] && x[6] == y[6] && x[7] == y[7]);
    assert(a / 0x100000000000000 <= 0xff && b / 0x100000000000000 <= 0xff) by (bit_vector);
    assert(a == b) by (bit_vector)
        requires
            a / 0x100000000000000 == b / 0x100000000000000,
            a / 0x1000000000000 % 0x100 == b / 0x1000000000000 % 0x100,
            a / 0x10000000000 % 0x100 == b / 0x10000000000 % 0x100,
            a / 0x100000000 % 0x100 == b / 0x100000000 % 0x100,
            a / 0x1000000 % 0x100 == b / 0x1000000 % 0x100,
            a / 0x10000 % 0x100 == b / 0x10000 % 0x100,
            a / 0x100 % 0x100 == b / 0x100 % 0x100,
            a % 0x100 == b % 0x100,
    ;
}

/// Two lists of texts that are written out the same, each text behind its length, are the same.
pub proof fn length_prefixed_is_injective(left: Seq<Seq<char>>, right: Seq<Seq<char>>)
    requires
        left.len() == right.len(),
        forall|i: int| 0 <= i < left.len() ==> encode_utf8(#[trigger] left[i]).len() <= u64::MAX,
        forall|i: int| 0 <= i < right.len() ==> encode_utf8(#[trigger] right[i]).len() <= u64::MAX,
        length_prefixed(left) == length_prefixed(right),
    ensures
        left == right,
    decreases left.len(),
{
    if left.len() > 0 {
        let a = length_prefixed(left);
        let b = length_prefixed(right);
        let m = encode_utf8(left[0]).len() as int;
        let n = encode_utf8(right[0]).len() as int;
        assert(a.take(8) =~= big_endian(m as u64));
        assert(b.take(8) =~= big_endian(n as u64));
        lemma_big_endian_injective(m as u64, n as u64);
        assert(a.subrange(8, 8 + m) =~= encode_utf8(left[0]));
        assert(b.subrange(8, 8 + n) =~= encode_utf8(right[0]));
        lemma_same_bytes(left[0], right[0]);
        assert(a.skip(8 + m) =~= length_prefixed(left.drop_first()));
        assert(b.skip(8 + n) =~= length_prefixed(right.drop_first()));
        assert forall|i: int| 0 <= i < left.drop_first().len() implies encode_utf8(
            #[trigger] left.drop_first()[i],
        ).len() <= u64::MAX by {
            assert(left.drop_first()[i] == left[i + 1]);
        }
        assert forall|i: int| 0 <= i < right.drop_first().len() implies encode_utf8(
            #[trigger] right.drop_first()[i],
        ).len() <= u64::MAX by {
            assert(right.drop_first()[i] == right[i + 1]);
        }
        length_prefixed_is_injective(left.drop_first(), right.drop_first());
        assert(left =~= seq![left[0]] + left.drop_first());
        assert(right =~= seq![right[0]] + right.drop_first());
    } else {
        assert(left =~= right);
    }
}

} // verus!
