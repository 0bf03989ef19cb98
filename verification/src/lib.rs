//! A dynamic-DNS synchronizer core: a typed client protocol for a DNS
//! provider's JSON API (with its string-encoded-integer wire convention)
//! and a reconciliation engine that decides, per desired record, whether
//! to create, update, or leave the provider's state alone.

use vstd::prelude::*;

pub mod client;
pub mod codec;
pub mod json;
pub mod reconcile;
pub mod record;

verus! {

/// The record time-to-live used when the configuration does not set one.
pub fn default_ttl() -> (r: u32)
    ensures
        r == 300,
{
    300
}

} // verus!
