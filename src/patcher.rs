//! One targeted content update of an IP-bearing record.
use vstd::prelude::*;
use crate::bounded::MaxLenString;
use crate::records::{PatchResponse, RecordResponse, TypeSpecificData};
use crate::resolver::AddressPair;

verus! {

/// Base of every zone's endpoints at the provider.
pub open spec fn api_zones_base() -> Seq<char> {
    "https://api.cloudflare.com/client/v4/zones/"@
}

/// Why a record could not be updated. The first five are decided before any
/// request is made; the last three come from the request itself.
#[derive(Debug, Clone)]
pub enum PatchError {
    NoAddresses,
    NoIpv4Address,
    NoIpv6Address,
    NotIpRecord,
    MissingId,
    Transport(String),
    Status { code: u16, name: String, body: String },
    Decode(String),
}

/// What to send: the record's endpoint and its new content.
#[derive(Debug, Clone)]
pub struct PatchRequest {
    pub url: String,
    pub content: String,
}

pub open spec fn record_url(zone_id: Seq<char>, record_id: Seq<char>) -> Seq<char> {
    api_zones_base() + zone_id + "/dns_records/"@ + record_id
}

/// The check of the patcher's preconditions, in order, and the request they allow.
pub open spec fn patch_plan(zone_id: Seq<char>, record: RecordResponse, a: AddressPair) -> Result<
    (Seq<char>, Seq<char>),
    PatchError,
> {
    if a.ipv4 is None && a.ipv6 is None {
        Err(PatchError::NoAddresses)
    } else {
        match record.type_data {
            TypeSpecificData::A { .. } => match a.ipv4 {
                None => Err(PatchError::NoIpv4Address),
                Some(v) => if record.id.0@.len() == 0 {
                    Err(PatchError::MissingId)
                } else {
                    Ok((record_url(zone_id, record.id.0@), v@))
                },
            },
            TypeSpecificData::AAAA { .. } => match a.ipv6 {
                None => Err(PatchError::NoIpv6Address),
                Some(v) => if record.id.0@.len() == 0 {
                    Err(PatchError::MissingId)
                } else {
                    Ok((record_url(zone_id, record.id.0@), v@))
                },
            },
            _ => Err(PatchError::NotIpRecord),
        }
    }
}

/// Checks that `record` can be updated with the resolved addresses and builds the
/// request: the record's endpoint, and the address of its family as content.
/// An empty identifier counts as missing.
pub fn prepare_patch(
    zone_id: &MaxLenString<32>,
    record: &RecordResponse,
    addresses: &AddressPair,
) -> (r: Result<PatchRequest, PatchError>)
    ensures
        match patch_plan(zone_id.0@, *record, *addresses) {
            Ok((url, content)) => r matches Ok(p) && p.url@ == url && p.content@ == content,
            Err(e) => r == Err::<PatchRequest, PatchError>(e),
        },
{
    if addresses.ipv4.is_none() && addresses.ipv6.is_none() {
        return Err(PatchError::NoAddresses);
    }
    let content = match &record.type_data {
        TypeSpecificData::A { .. } => match &addresses.ipv4 {
            Some(v) => v.clone(),
            None => {
                return Err(PatchError::NoIpv4Address);
            },
        },
        TypeSpecificData::AAAA { .. } => match &addresses.ipv6 {
            Some(v) => v.clone(),
            None => {
                return Err(PatchError::NoIpv6Address);
            },
        },
        _ => {
            return Err(PatchError::NotIpRecord);
        },
    };
    if record.id.0.as_str().is_empty() {
        return Err(PatchError::MissingId);
    }
    let mut url = String::from_str("https://api.cloudflare.com/client/v4/zones/");
    url.append(zone_id.0.as_str());
    url.append("/dns_records/");
    url.append(record.id.0.as_str());
    Ok(PatchRequest { url, content })
}

pub open spec fn is_success_status(status: u16) -> bool {
    200 <= status <= 299
}

/// Reads the provider's answer to an update. `decoded` is `body` read as a
/// response envelope, or why that failed. A 2xx status yields the envelope; any
/// other status yields its code, the record's name and the raw body.
pub fn check_patch_response(
    status: u16,
    body: String,
    record_name: &MaxLenString<255>,
    decoded: Result<PatchResponse, String>,
) -> (r: Result<PatchResponse, PatchError>)
    ensures
        !is_success_status(status) ==> (r matches Err(PatchError::Status { code, name, body: b })
            && code == status && name@ == record_name.0@ && b@ == body@),
        is_success_status(status) ==> match decoded {
            Ok(p) => r == Ok::<PatchResponse, PatchError>(p),
            Err(e) => r == Err::<PatchResponse, PatchError>(PatchError::Decode(e)),
        },
{
    if status < 200 || status > 299 {
        Err(PatchError::Status { code: status, name: record_name.0.clone(), body })
    } else {
        match decoded {
            Ok(p) => Ok(p),
            Err(e) => Err(PatchError::Decode(e)),
        }
    }
}

/// Whether an update went through: the provider answered and reported success.
pub open spec fn patch_ok(outcome: Result<PatchResponse, PatchError>) -> bool {
    match outcome {
        Ok(p) => p.success,
        Err(_) => false,
    }
}

pub fn patch_succeeded(outcome: &Result<PatchResponse, PatchError>) -> (r: bool)
    ensures
        r == patch_ok(*outcome),
{
    match outcome {
        Ok(p) => p.success,
        Err(_) => false,
    }
}

} // verus!
