//! The canonical icon sizes.

use vstd::prelude::*;

verus! {

/// The number of canonical icon sizes.
pub const SIZE_COUNT: usize = 14;

/// The pixel sizes an icon is made in, in ascending order.
pub const ICON_SIZES: [u32; SIZE_COUNT] = [16, 20, 24, 30, 32, 36, 40, 48, 60, 64, 72, 80, 96, 256];

/// Whether `size` is one of the canonical icon sizes.
pub open spec fn is_icon_size(size: u32) -> bool {
    exists|i: int| 0 <= i < SIZE_COUNT && #[trigger] ICON_SIZES[i] == size
}

/// Tells whether `size` is one of the canonical icon sizes.
pub fn is_canonical_size(size: u32) -> (found: bool)
    ensures
        found == is_icon_size(size),
{
    let mut i: usize = 0;
    while i < SIZE_COUNT
        invariant
            i <= SIZE_COUNT,
            forall|j: int| 0 <= j < i ==> #[trigger] ICON_SIZES[j] != size,
        decreases SIZE_COUNT - i,
    {
        if ICON_SIZES[i] == size {
            return true;
        }
        i += 1;
    }
    false
}

/// The canonical sizes are listed in strictly ascending order, so that no
/// size occurs twice.
pub proof fn lemma_sizes_ascend(i: int, j: int)
    requires
        0 <= i < j < SIZE_COUNT,
    ensures
        ICON_SIZES[i] < ICON_SIZES[j],
{
}

/// Every canonical size is at least 16 and at most 256 pixels.
pub proof fn lemma_size_range(size: u32)
    requires
        is_icon_size(size),
    ensures
        16 <= size <= 256,
{
}

} // verus!
