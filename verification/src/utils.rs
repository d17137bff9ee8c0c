//! Small helpers for addressing a provisioned environment's own service.
use vstd::prelude::*;
use vstd::string::StringExecFns;

use crate::text::{i32_string, spec_int_dec};

verus! {

/// The URL of the service an environment exposes on this port.
pub fn get_service_url(port: i32) -> (r: String)
    ensures
        r@ == "http://localhost:"@ + spec_int_dec(port as int) + "/mimir/graphql"@,
{
    let mut s = String::from_str("http://localhost:");
    s.append(i32_string(port).as_str());
    s.append("/mimir/graphql");
    proof {
        assert(s@ =~= "http://localhost:"@ + spec_int_dec(port as int) + "/mimir/graphql"@);
    }
    s
}

} // verus!
