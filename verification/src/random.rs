//! Random addresses under the IEEE 802 local-assignment rules.

use vstd::prelude::*;
use crate::mac::{is_locally_administered, is_unicast, MacAddr};

verus! {

/// One octet from `rand::random::<u8>()`, which draws it uniformly from the
/// thread-local generator of the `rand` crate.
///
/// Nothing is claimed of the value: every octet can come back, and two calls
/// are unrelated. `rand` panics if the operating system gives the generator
/// no seed.
#[verifier::external_body]
fn random_octet() -> (octet: u8) {
    rand::random::<u8>()
}

/// A random address that can be assigned to an interface: six octets are
/// drawn, then the first is made unicast and locally administered, so that
/// the address cannot be one that a vendor burned in.
pub fn new_addr() -> (addr: MacAddr)
    ensures
        is_unicast(addr@),
        is_locally_administered(addr@),
{
    let mut raw = [0u8; 6];
    let mut i: usize = 0;
    while i < 6
        invariant
            i <= 6,
        decreases 6 - i,
    {
        raw[i] = random_octet();
        i += 1;
    }
    MacAddr::local_unicast(raw)
}

} // verus!
