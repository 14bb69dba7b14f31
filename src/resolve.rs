//! Choice of the one endpoint a run probes, from the outcomes of name lookups.

use vstd::prelude::*;
use vstd::string::StringSliceAdditionalSpecFns;
use crate::text::{decimal, push_decimal, push_str};

verus! {

/// An IP address.
#[derive(Clone, Copy, Debug, PartialEq, Eq)]
pub enum IpAddress {
    V4([u8; 4]),
    V6([u8; 16]),
}

/// A transport address: IP address and port.
#[derive(Clone, Copy, Debug, PartialEq, Eq)]
pub struct Endpoint {
    pub address: IpAddress,
    pub port: u16,
}

/// A name lookup that could not be carried out at all.
#[derive(Clone, Copy, Debug, PartialEq, Eq, Structural)]
pub struct LookupFailed;

/// Why no endpoint could be chosen.
#[derive(Clone, Copy, Debug, PartialEq, Eq, Structural)]
pub enum AddressError {
    /// The lookups succeeded but gave no candidate.
    Unresolvable,
    /// The lookup of the server with the default port failed.
    Lookup,
}

/// The candidates a lookup gave, as a sequence.
pub open spec fn candidates(l: Result<Vec<Endpoint>, LookupFailed>) -> Result<Seq<Endpoint>, LookupFailed> {
    match l {
        Ok(v) => Ok(v@),
        Err(e) => Err(e),
    }
}

/// The first candidate of a lookup that gave at least one.
pub open spec fn first_of(l: Result<Seq<Endpoint>, LookupFailed>) -> Option<Endpoint> {
    match l {
        Ok(c) => if c.len() > 0 {
            Some(c[0])
        } else {
            None
        },
        Err(_) => None,
    }
}

/// The endpoint chosen from the lookup of the server as given (`direct`) and,
/// where that gave none, from the lookup with the default port appended.
pub open spec fn selection(
    direct: Result<Seq<Endpoint>, LookupFailed>,
    fallback: Result<Seq<Endpoint>, LookupFailed>,
) -> Result<Endpoint, AddressError> {
    match first_of(direct) {
        Some(e) => Ok(e),
        None => match fallback {
            Err(_) => Err(AddressError::Lookup),
            Ok(c) => if c.len() > 0 {
                Ok(c[0])
            } else {
                Err(AddressError::Unresolvable)
            },
        },
    }
}

/// The first candidate of a lookup, if it gave any.
pub fn first_candidate(l: &Result<Vec<Endpoint>, LookupFailed>) -> (r: Option<Endpoint>)
    ensures
        r == first_of(candidates(*l)),
{
    match l {
        Ok(v) => if v.len() > 0 {
            Some(v[0])
        } else {
            None
        },
        Err(_) => None,
    }
}

/// Chooses the endpoint from the direct lookup and the one with the default port.
pub fn select_endpoint(
    direct: &Result<Vec<Endpoint>, LookupFailed>,
    fallback: &Result<Vec<Endpoint>, LookupFailed>,
) -> (r: Result<Endpoint, AddressError>)
    ensures
        r == selection(candidates(*direct), candidates(*fallback)),
{
    match first_candidate(direct) {
        Some(e) => Ok(e),
        None => match fallback {
            Err(_) => Err(AddressError::Lookup),
            Ok(v) => if v.len() > 0 {
                Ok(v[0])
            } else {
                Err(AddressError::Unresolvable)
            },
        },
    }
}

/// A choice is deterministic in the lookups' outcomes, and a successful choice
/// is always the first candidate of a lookup that gave at least one.
pub proof fn lemma_selection_first_candidate(
    direct: Result<Seq<Endpoint>, LookupFailed>,
    fallback: Result<Seq<Endpoint>, LookupFailed>,
    direct2: Result<Seq<Endpoint>, LookupFailed>,
    fallback2: Result<Seq<Endpoint>, LookupFailed>,
)
    requires
        direct == direct2,
        fallback == fallback2,
    ensures
        selection(direct, fallback) == selection(direct2, fallback2),
        selection(direct, fallback) matches Ok(e) ==> ((direct matches Ok(c) && c.len() > 0 && e
            == c[0]) || (fallback matches Ok(c) && c.len() > 0 && e == c[0])),
{
}

/// The server with the default port appended, `server:port`.
pub fn address_with_port(server: &str, port: u16) -> (r: Vec<u8>)
    ensures
        r@ == server.spec_bytes() + ":".spec_bytes() + decimal(port as nat),
{
    let mut out: Vec<u8> = Vec::new();
    push_str(&mut out, server);
    push_str(&mut out, ":");
    push_decimal(&mut out, port as u64);
    assert(out@ =~= server.spec_bytes() + ":".spec_bytes() + decimal(port as nat));
    out
}

/// The address family of a socket.
#[derive(Clone, Copy, Debug, PartialEq, Eq, Structural)]
pub enum Family {
    V4,
    V6,
}

/// Which address family the probe socket uses.
#[derive(Clone, Copy, Debug, PartialEq, Eq, Structural)]
pub enum FamilyPreference {
    Auto,
    ForceIpv4,
    ForceIpv6,
}

/// The family of a socket for `e`: a forced family wins over the endpoint's own.
pub open spec fn family_for(e: Endpoint, pref: FamilyPreference) -> Family {
    match pref {
        FamilyPreference::ForceIpv4 => Family::V4,
        FamilyPreference::ForceIpv6 => Family::V6,
        FamilyPreference::Auto => match e.address {
            IpAddress::V4(_) => Family::V4,
            IpAddress::V6(_) => Family::V6,
        },
    }
}

/// Chooses the family of the socket that probes `e`.
pub fn bind_family(e: &Endpoint, pref: FamilyPreference) -> (r: Family)
    ensures
        r == family_for(*e, pref),
{
    match pref {
        FamilyPreference::ForceIpv4 => Family::V4,
        FamilyPreference::ForceIpv6 => Family::V6,
        FamilyPreference::Auto => match e.address {
            IpAddress::V4(_) => Family::V4,
            IpAddress::V6(_) => Family::V6,
        },
    }
}

} // verus!
