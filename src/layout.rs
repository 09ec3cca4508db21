//! Link-time descriptors: where each core's storage region lies, where the data
//! template lies, and how many zero-initialised bytes follow it.
use vstd::prelude::*;

verus! {

/// Number of cores; each owns exactly one storage region.
pub const CORE_COUNT: u32 = 2;

/// A context identifier names one core: the first core reads 0, the second 1.
pub open spec fn is_core_id(core_id: u32) -> bool {
    core_id < CORE_COUNT
}

/// A contiguous byte range of the address space, given by its base address and
/// its length.
#[derive(Clone, Copy, Debug, PartialEq, Eq, Structural)]
pub struct Region {
    pub base: usize,
    pub len: usize,
}

impl Region {
    /// One past the last address of the region.
    pub open spec fn end(self) -> int {
        self.base + self.len
    }

    pub open spec fn contains(self, addr: int) -> bool {
        self.base <= addr < self.end()
    }

    /// The whole region is addressable.
    pub open spec fn fits(self) -> bool {
        self.end() <= usize::MAX
    }

    pub open spec fn disjoint_from(self, other: Region) -> bool {
        self.end() <= other.base || other.end() <= self.base
    }

    /// The region between a start marker and an end marker, as the link
    /// configuration exports them; `None` when the end lies before the start.
    pub fn from_bounds(start: usize, end: usize) -> (r: Option<Region>)
        ensures
            r is Some <==> start <= end,
            r matches Some(region) ==> region.base == start && region.end() == end,
    {
        if start <= end {
            Some(Region { base: start, len: end - start })
        } else {
            None
        }
    }
}

/// Everything the link configuration fixes about per-core storage: the two
/// storage regions, the data template's bytes and the zero template's length.
#[derive(Clone, Copy, Debug, PartialEq, Eq, Structural)]
pub struct TlsLayout {
    pub core0: Region,
    pub core1: Region,
    pub data: Region,
    pub zero_len: usize,
}

impl TlsLayout {
    /// Number of bytes that per-core variables occupy: the data template
    /// followed by the zero template.
    pub open spec fn image_len(self) -> int {
        self.data.len + self.zero_len
    }

    /// The storage regions are addressable, distinct, of equal size, large
    /// enough for all per-core variables, and overlap neither each other nor
    /// the shared data template.
    pub open spec fn wf(self) -> bool {
        &&& self.core0.fits()
        &&& self.core1.fits()
        &&& self.data.fits()
        &&& self.core0.base != self.core1.base
        &&& self.core0.disjoint_from(self.core1)
        &&& self.core0.disjoint_from(self.data)
        &&& self.core1.disjoint_from(self.data)
        &&& self.core0.len == self.core1.len
        &&& self.image_len() <= self.core0.len
    }

    /// The storage region that belongs to the core named `core_id`.
    pub open spec fn region_of(self, core_id: u32) -> Region {
        if core_id == 0 {
            self.core0
        } else {
            self.core1
        }
    }

    /// Checks the link-time descriptors and gathers them into a layout;
    /// `None` when they do not form a well-formed layout.
    pub fn new(core0: Region, core1: Region, data: Region, zero_len: usize) -> (r: Option<
        TlsLayout,
    >)
        ensures
            r is Some <==> (TlsLayout { core0, core1, data, zero_len }).wf(),
            r matches Some(layout) ==> layout == (TlsLayout { core0, core1, data, zero_len }),
    {
        let fits = core0.base <= usize::MAX - core0.len && core1.base <= usize::MAX - core1.len
            && data.base <= usize::MAX - data.len;
        if !fits {
            return None;
        }
        let c0_end = core0.base + core0.len;
        let c1_end = core1.base + core1.len;
        let d_end = data.base + data.len;
        let cores_apart = core0.base != core1.base && (c0_end <= core1.base || c1_end
            <= core0.base);
        let data_apart = (c0_end <= data.base || d_end <= core0.base) && (c1_end <= data.base
            || d_end <= core1.base);
        let sized = core0.len == core1.len && zero_len <= core0.len && data.len <= core0.len
            - zero_len;
        if cores_apart && data_apart && sized {
            Some(TlsLayout { core0, core1, data, zero_len })
        } else {
            None
        }
    }

}

} // verus!
