//! Per-zone configuration: search rules, credentials and discovery endpoints.
use vstd::prelude::*;
use crate::bounded::{MaxLenString, MinMaxValueU16};

verus! {

/// A string matcher of the provider's list filter; absent parts are not sent.
#[derive(Debug, Clone, Default)]
pub struct StringMatch {
    pub exact: Option<String>,
    pub absent: Option<bool>,
    pub contains: Option<String>,
    pub endswith: Option<String>,
    pub present: Option<bool>,
    pub startswith: Option<String>,
}

#[allow(non_camel_case_types)]
#[derive(Debug, Clone, Copy, PartialEq, Eq, Structural)]
pub enum Direction {
    asc,
    desc,
}

#[allow(non_camel_case_types)]
#[derive(Debug, Clone, Copy, PartialEq, Eq, Structural)]
pub enum Match {
    any,
    all,
}

/// Field to order a listing by; `type_` is the token `type` on the wire.
#[allow(non_camel_case_types)]
#[derive(Debug, Clone, Copy, PartialEq, Eq, Structural)]
pub enum Order {
    type_,
    name,
    content,
    ttl,
    proxied,
}

#[derive(Debug, Clone, Copy, PartialEq, Eq, Structural)]
pub enum RecordType {
    A,
    AAAA,
    CAA,
    CERT,
    CNAME,
    DNSKEY,
    DS,
    HTTPS,
    LOC,
    MX,
    NAPTR,
    NS,
    PTR,
    SMIMEA,
    SRV,
    SSHFP,
    SVCB,
    TLSA,
    TXT,
    URI,
}

/// One search rule: a provider-side filter over a zone's records.
/// `match_` and `type_` are the query keys `match` and `type`.
#[derive(Debug, Clone, Default)]
pub struct SearchCriteria {
    pub comment: Option<StringMatch>,
    pub content: Option<String>,
    pub direction: Option<Direction>,
    pub match_: Option<Match>,
    pub name: Option<MaxLenString<255>>,
    pub order: Option<Order>,
    pub page: Option<MinMaxValueU16<1, 65535>>,
    pub per_page: Option<MinMaxValueU16<5, 50000>>,
    pub proxied: Option<bool>,
    pub search: Option<String>,
    pub tag: Option<StringMatch>,
    pub tag_match: Option<String>,
    pub type_: Option<RecordType>,
}

/// A zone to keep in step: its provider id, credential and search rules.
#[derive(Debug, Clone)]
pub struct Zone {
    pub identifier: MaxLenString<32>,
    pub auth: Authorization,
    pub search: Vec<SearchCriteria>,
}

/// One of the provider's legacy key-based credentials.
#[derive(Debug, Clone)]
pub enum ApiKey {
    Email(String),
    Key(String),
    UserServiceKey(String),
}

/// Header name and value that carry an API key.
pub open spec fn api_key_header(k: ApiKey) -> (Seq<char>, Seq<char>) {
    match k {
        ApiKey::Email(t) => ("X-Auth-Email"@, t@),
        ApiKey::Key(t) => ("X-Auth-Key"@, t@),
        ApiKey::UserServiceKey(t) => ("X-Auth-User-Service-Key"@, t@),
    }
}

impl ApiKey {
    /// The header `(name, value)` that authenticates a request with this key.
    pub fn get_auth_header_tuple(&self) -> (r: (String, String))
        ensures
            (r.0@, r.1@) == api_key_header(*self),
    {
        match self {
            ApiKey::Email(token) => (String::from_str("X-Auth-Email"), token.clone()),
            ApiKey::Key(token) => (String::from_str("X-Auth-Key"), token.clone()),
            ApiKey::UserServiceKey(token) => (
                String::from_str("X-Auth-User-Service-Key"),
                token.clone(),
            ),
        }
    }
}

/// How requests for a zone are authenticated.
#[derive(Debug, Clone)]
pub enum Authorization {
    BearerAuth(String),
    ApiKey(ApiKey),
}

/// The one header that a request under `a` carries.
pub open spec fn auth_header(a: Authorization) -> (Seq<char>, Seq<char>) {
    match a {
        Authorization::BearerAuth(t) => ("Authorization"@, "Bearer "@ + t@),
        Authorization::ApiKey(k) => api_key_header(k),
    }
}

impl Authorization {
    /// The header `(name, value)` that authenticates a request under this credential:
    /// `Authorization: Bearer <token>` for a token, the key's own header otherwise.
    pub fn header_tuple(&self) -> (r: (String, String))
        ensures
            (r.0@, r.1@) == auth_header(*self),
    {
        match self {
            Authorization::BearerAuth(token) => {
                let mut value = String::from_str("Bearer ");
                value.append(token.as_str());
                (String::from_str("Authorization"), value)
            },
            Authorization::ApiKey(key) => key.get_auth_header_tuple(),
        }
    }
}

/// Everything one run needs: the discovery endpoints and the zones.
#[derive(Debug, Clone, Default)]
pub struct Config {
    pub ipv4_service: Option<String>,
    pub ipv6_service: Option<String>,
    pub zones: Vec<Zone>,
}

} // verus!
