//! Control of an endpoint: its identity, and the secrets of those who control it.

use crate::text::decoded;
use ulid::Ulid;
use vstd::prelude::*;
use vstd::string::*;
use vstd::utf8::{decode_utf8, valid_utf8};

pub mod file_laws;
pub mod flow;
pub mod laws;
pub mod lines;
pub mod rotation;

verus! {

pub const MAX_ENDPOINT_ID_BYTES: usize = 64;

/// Why the control of an endpoint cannot be set up.
#[derive(Clone, Copy, Debug, Eq, PartialEq, Structural)]
pub enum ControlInitError {
    Storage,
    AlreadyOwned,
    Invalid,
}

/// Whether a character is one of the digits and letters of a ULID.
pub open spec fn is_ulid_char(c: char) -> bool {
    &&& '0' <= c <= '9' || 'A' <= c <= 'Z' || 'a' <= c <= 'z'
    &&& c != 'I' && c != 'L' && c != 'O' && c != 'U'
    &&& c != 'i' && c != 'l' && c != 'o' && c != 'u'
}

/// Whether a text is a ULID: 26 of its characters.
pub open spec fn is_ulid(text: Seq<char>) -> bool {
    text.len() == 26 && forall|i: int| 0 <= i < text.len() ==> is_ulid_char(#[trigger] text[i])
}

/// `Ulid::from_string`: it reads a text of 26 bytes, each a digit or letter of Crockford's base 32
/// in either case, and refuses every other.
#[verifier::external_body]
fn reads_as_ulid(text: &str) -> (reads: bool)
    ensures
        reads == is_ulid(text@),
{
    Ulid::from_string(text).is_ok()
}

/// The identity of an endpoint, as it was read back: a ULID in text.
pub fn accept_identity(bytes: Vec<u8>) -> (result: Result<String, ControlInitError>)
    ensures
        if valid_utf8(bytes@) && is_ulid(decode_utf8(bytes@)) {
            result matches Ok(identity) && identity@ == decode_utf8(bytes@)
        } else {
            result == Err::<String, ControlInitError>(ControlInitError::Invalid)
        },
{
    match decoded(&bytes) {
        Some(identity) => if reads_as_ulid(identity) {
            Ok(identity.to_string())
        } else {
            Err(ControlInitError::Invalid)
        },
        None => Err(ControlInitError::Invalid),
    }
}

/// Where the identity of an endpoint comes from.
#[derive(Clone, Debug, PartialEq)]
pub enum IdentitySource {
    /// It was read.
    Known(String),
    /// It is to be made, written and read back.
    Created,
}

/// Decides where the identity of an endpoint comes from. A new one is made for a new store only.
pub fn identity_source(known: Option<String>, allow_create: bool) -> (result: Result<
    IdentitySource,
    ControlInitError,
>)
    ensures
        match known {
            Some(identity) => result == Ok::<IdentitySource, ControlInitError>(
                IdentitySource::Known(identity),
            ),
            None => result == if allow_create {
                Ok::<IdentitySource, ControlInitError>(IdentitySource::Created)
            } else {
                Err::<IdentitySource, ControlInitError>(ControlInitError::Invalid)
            },
        },
{
    match known {
        Some(identity) => Ok(IdentitySource::Known(identity)),
        None => if allow_create {
            Ok(IdentitySource::Created)
        } else {
            Err(ControlInitError::Invalid)
        },
    }
}

/// Which directory a path names: the device that it is on, and its number there.
#[derive(Clone, Copy, Debug, Eq, PartialEq, Structural)]
pub struct DirectoryIdentity {
    pub device: u64,
    pub inode: u64,
}

impl DeepView for DirectoryIdentity {
    type V = DirectoryIdentity;

    open spec fn deep_view(&self) -> DirectoryIdentity {
        *self
    }
}

/// Checks that a path still names the directory that was admitted at the start. State that is
/// split over two directories is never acknowledged.
pub fn check_root(admitted: &DirectoryIdentity, current: &DirectoryIdentity) -> (result: Result<
    (),
    ControlInitError,
>)
    ensures
        result == if admitted.deep_view() == current.deep_view() {
            Ok::<(), ControlInitError>(())
        } else {
            Err::<(), ControlInitError>(ControlInitError::Invalid)
        },
{
    if *admitted == *current {
        Ok(())
    } else {
        Err(ControlInitError::Invalid)
    }
}

} // verus!
