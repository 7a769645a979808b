//! Size conversions shared by the heap-limit machinery.

use vstd::prelude::*;

verus! {

/// Number of bytes in one mebibyte.
pub const BYTES_PER_MIB: u64 = 1048576;

pub open spec fn spec_mib_to_bytes(mib: u64) -> int {
    mib * 1048576
}

/// Converts a size given in MiB to a size in bytes.
pub fn mib_to_bytes(mib: u64) -> (r: u64)
    requires
        spec_mib_to_bytes(mib) <= u64::MAX,
    ensures
        r == spec_mib_to_bytes(mib),
{
    mib * BYTES_PER_MIB
}

} // verus!
