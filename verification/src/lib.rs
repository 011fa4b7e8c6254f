//! Hardware (MAC) addresses: their text form, random generation under the
//! IEEE 802 local-assignment rules, lookup in a snapshot of the host's
//! interface table, and the policy that turns command-line options into one
//! action.

pub mod hex;
pub mod mac;
pub mod parse;
pub mod laws;
pub mod random;
pub mod interfaces;
pub mod model;
pub mod policy;
pub mod link;
