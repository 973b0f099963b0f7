//! The decision core of the completion bridge: given the status code and
//! the response buffer that the resolver engine's callback delivers, decide
//! what the registered one-shot handler is invoked with. The unsafe C-style
//! entry point that reconstructs the handler from its opaque pointer lives
//! outside the verified library and calls straight into this function.

use vstd::prelude::*;
use crate::addr::Ipv4Addr;
use crate::error::{ares_error, spec_error_from_status, AresError, ARES_SUCCESS};
use crate::record::AResults;
use crate::wire;

verus! {

/// What the handler must be invoked with for a completion carrying `status`
/// and the buffer `b`: on failure the mapped error, the buffer untouched;
/// on success exactly the parse outcome of the buffer.
pub open spec fn spec_completion(status: i32, b: Seq<u8>) -> Result<
    (Seq<char>, Seq<Ipv4Addr>),
    AresError,
> {
    if status != ARES_SUCCESS {
        Err(spec_error_from_status(status))
    } else {
        wire::spec_parse(b)
    }
}

/// Turns one completion of an A query into the value for its handler. A
/// failure status never reaches the parser and always becomes its mapped
/// error; a success status parses exactly the delivered buffer and forwards
/// the parse result unchanged.
pub fn query_a_callback(status: i32, data: &[u8]) -> (r: Result<AResults, AresError>)
    ensures
        status != ARES_SUCCESS ==> r == Err::<AResults, AresError>(spec_error_from_status(status)),
        status == ARES_SUCCESS ==> match wire::spec_parse(data@) {
            Ok(p) => r matches Ok(rec) && rec.hostname_spec() == p.0 && rec.addrs_spec() == p.1,
            Err(e) => r == Err::<AResults, AresError>(e),
        },
{
    if status != ARES_SUCCESS {
        Err(ares_error(status))
    } else {
        AResults::parse_from(data)
    }
}

} // verus!
