//! First-fit selection of a host-visible memory type.
//!
//! A physical device offers up to 32 memory types, named by bit positions in
//! a mask. A resource may only bind types from its requirement mask, the
//! payload transfer needs a host-visible type, and export or import of a
//! handle kind needs a type that supports that kind. The selector intersects
//! the three masks and returns the lowest admissible index: first fit, not
//! best fit. No admissible type at all is a fatal condition for the whole
//! run, decided by the caller.

use vstd::prelude::*;

verus! {

/// Whether bit `i` of `mask` is set.
pub open spec fn bit_set(mask: u32, i: u32) -> bool
    recommends
        i < 32,
{
    mask & (1u32 << i) != 0
}

/// The lowest set bit of `mask` at or above `i`, if any.
pub open spec fn lowest_set_bit_from(mask: u32, i: u32) -> Option<u32>
    decreases 32 - i when i <= 32
{
    if i >= 32 {
        None
    } else if bit_set(mask, i) {
        Some(i)
    } else {
        lowest_set_bit_from(mask, (i + 1) as u32)
    }
}

/// The lowest set bit of `mask`, if any.
pub open spec fn lowest_set_bit(mask: u32) -> Option<u32> {
    lowest_set_bit_from(mask, 0)
}

/// What the selector answers: the lowest memory type index admitted by all
/// three masks.
pub open spec fn selected_memory_type(
    resource_mask: u32,
    host_visible_mask: u32,
    handle_mask: u32,
) -> Option<u32> {
    lowest_set_bit(resource_mask & host_visible_mask & handle_mask)
}

/// The lowest set bit really is the lowest: it is set, nothing below it is,
/// and when the answer is `None` no bit is set at all.
pub proof fn lemma_lowest_set_bit_from(mask: u32, i: u32)
    requires
        i <= 32,
    ensures
        lowest_set_bit_from(mask, i) matches Some(k) ==> i <= k < 32 && bit_set(mask, k)
            && (forall|j: u32| i <= j < k ==> !bit_set(mask, j)),
        lowest_set_bit_from(mask, i) is None ==> forall|j: u32| i <= j < 32 ==> !bit_set(mask, j),
    decreases 32 - i,
{
    if i < 32 && !bit_set(mask, i) {
        lemma_lowest_set_bit_from(mask, (i + 1) as u32);
    }
}

/// First-fit characterization of the selector's answer.
pub proof fn lemma_selected_memory_type(resource_mask: u32, host_visible_mask: u32, handle_mask: u32)
    ensures
        selected_memory_type(resource_mask, host_visible_mask, handle_mask) matches Some(k)
            ==> k < 32 && bit_set(resource_mask & host_visible_mask & handle_mask, k)
                && (forall|j: u32| j < k ==> !bit_set(resource_mask & host_visible_mask & handle_mask, j)),
        selected_memory_type(resource_mask, host_visible_mask, handle_mask) is None
            ==> forall|j: u32| j < 32 ==> !bit_set(resource_mask & host_visible_mask & handle_mask, j),
{
    lemma_lowest_set_bit_from(resource_mask & host_visible_mask & handle_mask, 0);
}

/// Selects the lowest memory type index admitted by the resource's
/// requirement mask, the device's host-visible mask, and the mask of types
/// compatible with the requested handle kind.
pub fn select_memory_type(resource_mask: u32, host_visible_mask: u32, handle_mask: u32) -> (r: Option<
    u32,
>)
    ensures
        r == selected_memory_type(resource_mask, host_visible_mask, handle_mask),
{
    let combined: u32 = resource_mask & host_visible_mask & handle_mask;
    let mut i: u32 = 0;
    while i < 32
        invariant
            i <= 32,
            combined == resource_mask & host_visible_mask & handle_mask,
            lowest_set_bit(combined) == lowest_set_bit_from(combined, i),
        decreases 32 - i,
    {
        if combined & (1u32 << i) != 0 {
            assert(lowest_set_bit_from(combined, i) == Some(i));
            return Some(i);
        }
        i = i + 1;
    }
    None
}

} // verus!
