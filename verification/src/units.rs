//! Unit conversions from a signed count of kilobytes, megabytes or
//! gigabytes to an unsigned number of bytes.

use vstd::prelude::*;

verus! {

/// The number of bytes in `n` kilobytes.
pub open spec fn spec_kilobytes(n: int) -> int {
    n * 1024
}

/// The number of bytes in `n` megabytes.
pub open spec fn spec_megabytes(n: int) -> int {
    n * 1024 * 1024
}

/// The number of bytes in `n` gigabytes.
pub open spec fn spec_gigabytes(n: int) -> int {
    n * 1024 * 1024 * 1024
}

/// Converts a non-negative count of kilobytes to bytes.
pub fn to_kilobytes(n: i32) -> (r: usize)
    requires
        0 <= n,
        spec_kilobytes(n as int) <= usize::MAX as int,
    ensures
        r as int == spec_kilobytes(n as int),
{
    (n as usize) * 1024
}

/// Converts a non-negative count of megabytes to bytes.
pub fn to_megabytes(n: i32) -> (r: usize)
    requires
        0 <= n,
        spec_megabytes(n as int) <= usize::MAX as int,
    ensures
        r as int == spec_megabytes(n as int),
{
    (n as usize) * 1024 * 1024
}

/// Converts a non-negative count of gigabytes to bytes.
pub fn to_gigabytes(n: i32) -> (r: usize)
    requires
        0 <= n,
        spec_gigabytes(n as int) <= usize::MAX as int,
    ensures
        r as int == spec_gigabytes(n as int),
{
    (n as usize) * 1024 * 1024 * 1024
}

/// The unit conversions agree with one another: a megabyte is 1024
/// kilobytes and a gigabyte is 1024 megabytes, for every count.
pub proof fn lemma_units_consistent(n: int)
    ensures
        spec_megabytes(n) == spec_kilobytes(n) * 1024,
        spec_gigabytes(n) == spec_megabytes(n) * 1024,
{
}

} // verus!
