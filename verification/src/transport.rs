//! What a connection's channel is set up with.

use vstd::prelude::*;
use vstd::string::*;
use crate::text::{decimal, decimal_text};

verus! {

/// The local address that a connection binds: every interface, on the
/// connection's port.
pub open spec fn bind_address_text(port: nat) -> Seq<char> {
    "0.0.0.0:"@ + decimal(port)
}

/// Writes the local address to bind for `port`, such as `"0.0.0.0:9000"`.
pub fn local_bind_address(port: usize) -> (address: String)
    ensures
        address@ == bind_address_text(port as nat),
{
    let mut address = String::from_str("0.0.0.0:");
    let digits = decimal_text(port as u64);
    address.append(digits.as_str());
    address
}

} // verus!
