//! The flags of a domain node. Each is one bit.
use vstd::prelude::*;

verus! {

/// The certificate of the domain was issued within the last 24 hours.
pub const IS_RECENT: usize = 1;

/// The certificate of the domain has expired.
pub const HAS_EXPIRED: usize = 2;

/// The content served under the domain is that of an unclaimed hosting
/// account.
pub const POSSIBLE_TAKEOVER: usize = 4;

} // verus!
