//! The verified part of the HTTP metadata call: building the request
//! address of the single-instrument endpoint.

use vstd::prelude::*;
use vstd::string::StringExecFns;
use crate::models::Exchange;

verus! {

/// The address of the single-instrument metadata endpoint: the base
/// address, the instruments path, the exchange's wire name and the symbol.
pub fn instrument_info_url(base_url: &str, exchange: Exchange, symbol: &str) -> (r: String)
    ensures
        r@ == base_url@ + "/instruments/"@ + exchange.wire_name() + "/"@ + symbol@,
{
    let mut u = String::from_str(base_url);
    u.append("/instruments/");
    let ex = exchange.to_string();
    u.append(ex.as_str());
    u.append("/");
    u.append(symbol);
    proof {
        assert(u@ =~= base_url@ + "/instruments/"@ + exchange.wire_name() + "/"@ + symbol@);
    }
    u
}

} // verus!
