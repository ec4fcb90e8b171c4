//! Plain-valued network addresses.

use vstd::prelude::*;

verus! {

/// An IP address as its integer value: 32 bits for version 4, 128 bits for
/// version 6.
#[derive(Clone, Copy, Debug, PartialEq, Eq, Structural)]
pub enum IpAddr {
    V4(u32),
    V6(u128),
}

} // verus!
