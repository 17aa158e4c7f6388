use vstd::prelude::*;

pub mod text;
pub mod website;
pub mod content;
pub mod cert;
pub mod keys;
pub mod renewal;
pub mod tls;
pub mod access;

verus! {

/// Sum of two unsigned 64-bit integers.
pub fn add(left: u64, right: u64) -> (sum: u64)
    requires
        left + right <= u64::MAX,
    ensures
        sum == left + right,
{
    left + right
}

} // verus!
