use vstd::prelude::*;

verus! {

/// Converts megabytes to bytes.
pub fn megabytes_to_bytes(megabytes: usize) -> (r: usize)
    requires
        megabytes * 1024 * 1024 <= usize::MAX,
    ensures
        r == megabytes * 1024 * 1024,
{
    megabytes * 1024 * 1024
}

/// Converts gigabytes to bytes.
pub fn gigabytes_to_bytes(gigabytes: usize) -> (r: usize)
    requires
        gigabytes * 1024 * 1024 * 1024 <= usize::MAX,
    ensures
        r == gigabytes * 1024 * 1024 * 1024,
{
    gigabytes * 1024 * 1024 * 1024
}

/// Converts terabytes to bytes.
pub fn terabytes_to_bytes(terabytes: usize) -> (r: usize)
    requires
        terabytes * 1024 * 1024 * 1024 * 1024 <= usize::MAX,
    ensures
        r == terabytes * 1024 * 1024 * 1024 * 1024,
{
    terabytes * 1024 * 1024 * 1024 * 1024
}

/// Narrows a file size reported as `i64` to the `u32` that the platform's
/// file calls work with. A size below `u32::MAX` keeps its value.
pub fn safe_truncate_i64_to_u32(value: i64) -> (r: u32)
    requires
        0 <= value < u32::MAX,
    ensures
        r == value,
{
    value as u32
}

} // verus!
