//! The routing step of an upgrade pipeline.
//!
//! For each inbound request the pipeline decides whether the request belongs
//! to the registered route — it must target exactly the registered path and
//! ask for a protocol upgrade — and, exactly once per accepted request, mints
//! a connection identifier and manufactures a fresh handler instance. A
//! request that does not match passes through untouched: nothing is minted
//! and nothing is built.

use vstd::prelude::*;
use vstd::string::StrSliceExecFns;

use crate::context::NewConnectionContext;
use crate::id::{generates, ConnectionId, ConnectionIdGenerator};

verus! {

/// Whether two strings hold the same character sequence.
pub fn str_equal(a: &str, b: &str) -> (r: bool)
    ensures
        r == (a@ == b@),
{
    let a_len = a.unicode_len();
    let b_len = b.unicode_len();
    if a_len != b_len {
        return false;
    }
    let mut i: usize = 0;
    while i < a_len
        invariant
            i <= a_len,
            a_len == a@.len(),
            b_len == b@.len(),
            a_len == b_len,
            forall|j: int| 0 <= j < i ==> a@[j] == b@[j],
        decreases a_len - i,
    {
        if a.get_char(i) != b.get_char(i) {
            return false;
        }
        i = i + 1;
    }
    proof {
        assert(a@ =~= b@);
    }
    true
}

/// Whether an inbound request is handled by the route registered at
/// `route_path`: the request must target exactly that path and ask for a
/// protocol upgrade.
pub open spec fn route_accepts(
    route_path: Seq<char>,
    request_path: Seq<char>,
    requests_upgrade: bool,
) -> bool {
    requests_upgrade && request_path == route_path
}

/// The routing step for one inbound request. On a request that targets the
/// registered path and asks for an upgrade, the next connection identifier is
/// minted and a fresh handler instance manufactured, each exactly once, and
/// both are handed back for dispatch; on any other request nothing is
/// returned and the identifier generator is left untouched.
pub fn accept_upgrade<N: NewConnectionContext>(
    route_path: &str,
    request_path: &str,
    requests_upgrade: bool,
    generator: &mut ConnectionIdGenerator,
    factory: &N,
) -> (r: Option<(ConnectionId, N::Instance)>)
    requires
        old(generator).next() < u64::MAX,
    ensures
        r is Some <==> route_accepts(route_path@, request_path@, requests_upgrade),
        (r matches Some((id, _)) ==> generates(*old(generator), id, *final(generator))),
        r is None ==> *final(generator) == *old(generator),
{
    if requests_upgrade && str_equal(route_path, request_path) {
        let id = generator.generate_id();
        let instance = factory.new_connection_context();
        Some((id, instance))
    } else {
        None
    }
}

} // verus!
