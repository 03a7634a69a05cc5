//! Web addresses.
//!
//! An address is parsed by [`url::Url`]. [`WebAddress`] holds, as plain values, the parts of it on
//! which decisions rest.

use crate::datum::Same;
use url::{Origin, Url};
use vstd::prelude::*;

verus! {

/// The scheme, the host and the port of an address: what two addresses share that belong
/// together.
#[derive(Clone, Debug, PartialEq)]
pub struct WebOrigin {
    pub scheme: String,
    pub host: String,
    pub port: u16,
    /// The origin as one text, without a port that the scheme implies.
    pub name: String,
}

/// The content of a [`WebOrigin`].
pub struct WebOriginView {
    pub scheme: Seq<char>,
    pub host: Seq<char>,
    pub port: u16,
    pub name: Seq<char>,
}

impl DeepView for WebOrigin {
    type V = WebOriginView;

    open spec fn deep_view(&self) -> WebOriginView {
        WebOriginView {
            scheme: self.scheme@,
            host: self.host@,
            port: self.port,
            name: self.name@,
        }
    }
}

/// An address in its parts.
#[derive(Clone, Debug, PartialEq)]
pub struct WebAddress {
    /// The whole address, normalised.
    pub text: String,
    pub scheme: String,
    pub username: String,
    pub password: Option<String>,
    pub host: Option<String>,
    /// The port, where it is not the one that the scheme implies.
    pub port: Option<u16>,
    pub path: String,
    pub query: Option<String>,
    pub fragment: Option<String>,
    /// Absent where the scheme has no notion of an origin.
    pub origin: Option<WebOrigin>,
}

/// The content of a [`WebAddress`].
pub struct WebAddressView {
    pub text: Seq<char>,
    pub scheme: Seq<char>,
    pub username: Seq<char>,
    pub password: Option<Seq<char>>,
    pub host: Option<Seq<char>>,
    pub port: Option<u16>,
    pub path: Seq<char>,
    pub query: Option<Seq<char>>,
    pub fragment: Option<Seq<char>>,
    pub origin: Option<WebOriginView>,
}

impl DeepView for WebAddress {
    type V = WebAddressView;

    open spec fn deep_view(&self) -> WebAddressView {
        WebAddressView {
            text: self.text@,
            scheme: self.scheme@,
            username: self.username@,
            password: self.password.deep_view(),
            host: self.host.deep_view(),
            port: self.port,
            path: self.path@,
            query: self.query.deep_view(),
            fragment: self.fragment.deep_view(),
            origin: self.origin.deep_view(),
        }
    }
}

#[verifier::external_type_specification]
#[verifier::external_body]
pub struct ExUrl(url::Url);

/// The address that a text denotes, if it denotes one.
pub uninterp spec fn address_of(text: Seq<char>) -> Option<WebAddressView>;

/// What a parsed address holds.
pub uninterp spec fn url_view(url: Url) -> WebAddressView;

/// `Url::parse`: the address that a text denotes, if it denotes one.
#[verifier::external_body]
fn parse_url(text: &str) -> (url: Option<Url>)
    ensures
        match url {
            Some(url) => address_of(text@) == Some(url_view(url)),
            None => address_of(text@) is None,
        },
{
    Url::parse(text).ok()
}

/// `Url::origin`: the scheme, host and port of an address whose scheme has them, and its ASCII
/// serialisation. An opaque origin equals no other and is absent here.
#[verifier::external_body]
fn origin_of(url: &Url) -> (origin: Option<WebOrigin>)
    ensures
        origin.deep_view() == url_view(*url).origin,
{
    let origin = url.origin();
    let name = origin.ascii_serialization();
    match origin {
        Origin::Tuple(scheme, host, port) => {
            Some(WebOrigin { scheme, host: host.to_string(), port, name })
        },
        Origin::Opaque(_) => None,
    }
}

/// The parts of a `Url` by its accessors: `as_str`, `scheme`, `username`, `password`, `host_str`,
/// `port`, `path`, `query` and `fragment`.
#[verifier::external_body]
fn parts_of(url: &Url, origin: Option<WebOrigin>) -> (address: WebAddress)
    ensures
        address.deep_view() == (WebAddressView { origin: origin.deep_view(), ..url_view(*url) }),
{
    WebAddress {
        text: url.as_str().to_string(),
        scheme: url.scheme().to_string(),
        username: url.username().to_string(),
        password: url.password().map(str::to_string),
        host: url.host_str().map(str::to_string),
        port: url.port(),
        path: url.path().to_string(),
        query: url.query().map(str::to_string),
        fragment: url.fragment().map(str::to_string),
        origin,
    }
}

/// The address that a text denotes, if it denotes one.
pub fn parse_address(text: &str) -> (address: Option<WebAddress>)
    ensures
        address.deep_view() == address_of(text@),
{
    match parse_url(text) {
        Some(url) => Some(parts_of(&url, origin_of(&url))),
        None => None,
    }
}

/// Whether two addresses share an origin. An address without one shares none.
pub open spec fn same_origin(left: WebAddressView, right: WebAddressView) -> bool {
    match (left.origin, right.origin) {
        (Some(a), Some(b)) => a.scheme == b.scheme && a.host == b.host && a.port == b.port,
        _ => false,
    }
}

/// Whether two addresses share an origin.
pub fn shares_origin(left: &WebAddress, right: &WebAddress) -> (shares: bool)
    ensures
        shares == same_origin(left.deep_view(), right.deep_view()),
{
    match (&left.origin, &right.origin) {
        (Some(a), Some(b)) => a.scheme.same(&b.scheme) && a.host.same(&b.host) && a.port == b.port,
        _ => false,
    }
}

} // verus!
