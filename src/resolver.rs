//! The machine's current public addresses, as the discovery endpoints report them.
use vstd::prelude::*;

verus! {

/// The resolved addresses of one run, each in its textual form
/// (dotted quad for IPv4, the canonical colon form for IPv6).
#[derive(Debug, Clone)]
pub struct AddressPair {
    pub ipv4: Option<String>,
    pub ipv6: Option<String>,
}

/// The address that one endpoint's outcome yields: a lookup that failed, or an
/// endpoint that was not configured (`Ok(None)`), yields none.
pub open spec fn found(lookup: Result<Option<String>, String>) -> Option<String> {
    match lookup {
        Ok(Some(a)) => Some(a),
        _ => None,
    }
}

pub open spec fn no_addresses_message() -> Seq<char> {
    "No addresses returned"@
}

/// Joins the outcomes of the IPv4 and IPv6 lookups into the run's address pair.
/// Each family is resolved on its own: one failing never discards the other.
/// The run has nothing to do, and fails, exactly when neither lookup produced an
/// address, which covers both lookups failing, the only configured one failing,
/// and no endpoint configured at all.
pub fn get_ip_addresses(
    ipv4: Result<Option<String>, String>,
    ipv6: Result<Option<String>, String>,
) -> (r: Result<AddressPair, String>)
    ensures
        r is Err <==> (found(ipv4) is None && found(ipv6) is None),
        r matches Ok(p) ==> p.ipv4 == found(ipv4) && p.ipv6 == found(ipv6),
        r matches Err(e) ==> e@ == no_addresses_message(),
{
    let v4 = match ipv4 {
        Ok(Some(a)) => Some(a),
        _ => None,
    };
    let v6 = match ipv6 {
        Ok(Some(a)) => Some(a),
        _ => None,
    };
    if v4.is_none() && v6.is_none() {
        Err(String::from_str("No addresses returned"))
    } else {
        Ok(AddressPair { ipv4: v4, ipv6: v6 })
    }
}

/// Human-readable summary of an address pair.
pub open spec fn describe_addresses(a: AddressPair) -> Seq<char> {
    match (a.ipv4, a.ipv6) {
        (None, None) => "no addresses"@,
        (None, Some(v6)) => v6@ + " (IPv6)"@,
        (Some(v4), None) => v4@ + " (IPv4)"@,
        (Some(v4), Some(v6)) => "both "@ + v4@ + " (IPv4) and "@ + v6@ + " (IPv6)"@,
    }
}

pub fn address_tuple_to_string(addresses: &AddressPair) -> (r: String)
    ensures
        r@ == describe_addresses(*addresses),
{
    match (&addresses.ipv4, &addresses.ipv6) {
        (None, None) => String::from_str("no addresses"),
        (None, Some(v6)) => {
            let mut s = v6.clone();
            s.append(" (IPv6)");
            s
        },
        (Some(v4), None) => {
            let mut s = v4.clone();
            s.append(" (IPv4)");
            s
        },
        (Some(v4), Some(v6)) => {
            let mut s = String::from_str("both ");
            s.append(v4.as_str());
            s.append(" (IPv4) and ");
            s.append(v6.as_str());
            s.append(" (IPv6)");
            s
        },
    }
}

} // verus!
