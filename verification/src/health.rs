//! The bodies of the optional health and readiness endpoints. The caller
//! supplies the current Unix timestamp and the service version; the exact
//! response texts are built here.

use vstd::prelude::*;
use vstd::string::*;

use crate::text::{dec_digits, escape_json, escape_text, u64_to_dec};

verus! {

/// The health response: a fixed service name, the caller's clock reading
/// and the caller's version string.
pub open spec fn health_body_text(timestamp: u64, version: Seq<char>) -> Seq<char> {
    "{\"service\":\"hermes-rs\",\"status\":\"healthy\",\"timestamp\":"@ + dec_digits(
        timestamp as nat,
    ) + ",\"version\":\""@ + escape_text(version) + "\"}"@
}

pub fn health_body(timestamp: u64, version: &str) -> (r: String)
    ensures
        r@ == health_body_text(timestamp, version@),
{
    let mut s = String::from_str("{\"service\":\"hermes-rs\",\"status\":\"healthy\",\"timestamp\":");
    let t = u64_to_dec(timestamp);
    s.append(t.as_str());
    s.append(",\"version\":\"");
    let v = escape_json(version);
    s.append(v.as_str());
    s.append("\"}");
    proof {
        assert(s@ =~= health_body_text(timestamp, version@));
    }
    s
}

/// The readiness response: fixed, with the one configuration check.
pub fn ready_body() -> (r: String)
    ensures
        r@ == "{\"checks\":{\"config\":\"ok\"},\"status\":\"ready\"}"@,
{
    String::from_str("{\"checks\":{\"config\":\"ok\"},\"status\":\"ready\"}")
}

} // verus!
