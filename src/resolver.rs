//! The thread-pointer resolver: from the context identifier of the running core
//! to the base address of that core's storage region.
use vstd::prelude::*;

use crate::layout::{is_core_id, Region, TlsLayout};

verus! {

impl TlsLayout {
    /// The thread pointer of the core named `core_id`: the base address of its
    /// storage region. Only the two base addresses are read, so the answer is
    /// the same from any point of the program, interrupt handlers included.
    pub fn thread_pointer(&self, core_id: u32) -> (tp: usize)
        requires
            is_core_id(core_id),
        ensures
            tp == self.region_of(core_id).base,
    {
        if core_id == 0 {
            self.core0.base
        } else {
            self.core1.base
        }
    }
}

/// The base address of region `core_id` when the regions are laid out one
/// after another, `stride` bytes apart, from `base0` on: constant time and
/// without a branch, for any number of cores.
pub fn strided_region_base(core_id: u32, stride: usize, base0: usize) -> (base: usize)
    requires
        core_id * stride + base0 <= usize::MAX,
    ensures
        base == core_id * stride + base0,
{
    assert(core_id * stride <= usize::MAX) by (nonlinear_arith)
        requires
            core_id * stride + base0 <= usize::MAX,
            base0 >= 0,
    ;
    (core_id as usize) * stride + base0
}

/// In a well-formed layout the two cores get different thread pointers, each
/// the base of the region mapped to that core.
pub proof fn lemma_thread_pointers_distinct(layout: TlsLayout)
    requires
        layout.wf(),
    ensures
        layout.region_of(0).base == layout.core0.base,
        layout.region_of(1).base == layout.core1.base,
        layout.region_of(0).base != layout.region_of(1).base,
{
}

/// An address that one core reaches through its thread pointer, at an offset
/// inside its own region, lies neither in the other core's region nor in the
/// shared data template: writes through one core's region never show up in the
/// other's.
pub proof fn lemma_no_aliasing(layout: TlsLayout, core_id: u32, other: u32, offset: int)
    requires
        layout.wf(),
        is_core_id(core_id),
        is_core_id(other),
        core_id != other,
        0 <= offset < layout.region_of(core_id).len,
    ensures
        layout.region_of(core_id).contains(layout.region_of(core_id).base + offset),
        !layout.region_of(other).contains(layout.region_of(core_id).base + offset),
        !layout.data.contains(layout.region_of(core_id).base + offset),
{
}

/// Where the second region starts right where the first one ends, the strided
/// formula with the region length as stride gives the same thread pointer as
/// the two-way choice, for both cores.
pub proof fn lemma_strided_matches_two_way(layout: TlsLayout, core_id: u32)
    requires
        layout.wf(),
        is_core_id(core_id),
        layout.core1.base == layout.core0.end(),
    ensures
        core_id * layout.core0.len + layout.core0.base <= usize::MAX,
        layout.region_of(core_id).base == core_id * layout.core0.len + layout.core0.base,
{
    if core_id == 0 {
        assert(core_id * layout.core0.len == 0);
    } else {
        assert(core_id == 1);
        assert(core_id * layout.core0.len == layout.core0.len) by (nonlinear_arith)
            requires
                core_id == 1,
        ;
    }
}

} // verus!
