//! The pre-init populator: copies the data template into a storage region and
//! zero-fills the bytes that follow it.
use vstd::prelude::*;

use crate::layout::is_core_id;

verus! {

/// The contents of a region of `before` once the populator has run with the
/// data template `data` and a zero template of `zero_len` bytes: the template's
/// bytes first, then `zero_len` zeros, then whatever the region held before.
pub open spec fn populated(before: Seq<u8>, data: Seq<u8>, zero_len: nat) -> Seq<u8> {
    Seq::new(
        before.len(),
        |o: int|
            if o < data.len() {
                data[o]
            } else if o < data.len() + zero_len {
                0u8
            } else {
                before[o]
            },
    )
}

/// Copies `data` into the first `data.len()` bytes of `dst` and writes zero to
/// the `zero_len` bytes after them; the rest of `dst` is left as it was.
pub fn populate_region(dst: &mut [u8], data: &[u8], zero_len: usize)
    requires
        data@.len() + zero_len <= old(dst)@.len(),
    ensures
        final(dst)@ == populated(old(dst)@, data@, zero_len as nat),
        forall|o: int| 0 <= o < data@.len() ==> final(dst)@[o] == data@[o],
        forall|o: int| data@.len() <= o < data@.len() + zero_len ==> final(dst)@[o] == 0,
{
    let data_len = data.len();
    let dst_len = dst.len();
    assert(data_len + zero_len <= dst_len);
    let end = data_len + zero_len;
    let mut i: usize = 0;
    while i < data_len
        invariant
            data_len == data@.len(),
            end == data_len + zero_len,
            i <= data_len,
            end <= dst@.len(),
            dst@.len() == old(dst)@.len(),
            forall|k: int| 0 <= k < i ==> dst@[k] == data@[k],
            forall|k: int| i <= k < dst@.len() ==> dst@[k] == old(dst)@[k],
        decreases data_len - i,
    {
        dst[i] = data[i];
        i = i + 1;
    }
    while i < end
        invariant
            data_len == data@.len(),
            end == data_len + zero_len,
            data_len <= i <= end,
            end <= dst@.len(),
            dst@.len() == old(dst)@.len(),
            forall|k: int| 0 <= k < data_len ==> dst@[k] == data@[k],
            forall|k: int| data_len <= k < i ==> dst@[k] == 0,
            forall|k: int| i <= k < dst@.len() ==> dst@[k] == old(dst)@[k],
        decreases end - i,
    {
        dst[i] = 0;
        i = i + 1;
    }
    assert(dst@ =~= populated(old(dst)@, data@, zero_len as nat));
}

/// After the populator, every offset below the data template's length holds the
/// template's byte, every offset in the zero template after it holds zero, and
/// the region keeps its length.
pub proof fn lemma_populated_bytes(before: Seq<u8>, data: Seq<u8>, zero_len: nat)
    requires
        data.len() + zero_len <= before.len(),
    ensures
        populated(before, data, zero_len).len() == before.len(),
        forall|o: int|
            0 <= o < data.len() ==> #[trigger] populated(before, data, zero_len)[o] == data[o],
        forall|o: int|
            data.len() <= o < data.len() + zero_len ==> #[trigger] populated(
                before,
                data,
                zero_len,
            )[o] == 0,
{
}

/// Running the populator a second time, with the same templates, leaves the
/// region exactly as the first run left it.
pub proof fn lemma_populate_idempotent(before: Seq<u8>, data: Seq<u8>, zero_len: nat)
    ensures
        populated(populated(before, data, zero_len), data, zero_len) == populated(
            before,
            data,
            zero_len,
        ),
{
    assert(populated(populated(before, data, zero_len), data, zero_len) =~= populated(
        before,
        data,
        zero_len,
    ));
}

/// The storage regions of the two cores, held as byte buffers: what each core
/// sees through its own thread pointer.
pub struct CoreRegions {
    region0: Vec<u8>,
    region1: Vec<u8>,
}

impl View for CoreRegions {
    type V = (Seq<u8>, Seq<u8>);

    closed spec fn view(&self) -> (Seq<u8>, Seq<u8>) {
        (self.region0@, self.region1@)
    }
}

impl CoreRegions {
    /// The bytes of the region of the core named `core_id`.
    pub open spec fn region_view(&self, core_id: u32) -> Seq<u8> {
        if core_id == 0 {
            self@.0
        } else {
            self@.1
        }
    }

    /// Two regions with the given contents (at reset memory holds anything).
    pub fn new(region0: Vec<u8>, region1: Vec<u8>) -> (r: CoreRegions)
        ensures
            r@ == (region0@, region1@),
    {
        CoreRegions { region0, region1 }
    }

    /// The bytes of the region of the core named `core_id`.
    pub fn region(&self, core_id: u32) -> (r: &[u8])
        requires
            is_core_id(core_id),
        ensures
            r@ == self.region_view(core_id),
    {
        if core_id == 0 {
            self.region0.as_slice()
        } else {
            self.region1.as_slice()
        }
    }

    /// The byte at `offset` of the region of the core named `core_id`.
    pub fn read(&self, core_id: u32, offset: usize) -> (b: u8)
        requires
            is_core_id(core_id),
            offset < self.region_view(core_id).len(),
        ensures
            b == self.region_view(core_id)[offset as int],
    {
        if core_id == 0 {
            self.region0[offset]
        } else {
            self.region1[offset]
        }
    }

    /// A write by the core named `core_id` at `offset` of its own region. Only
    /// that byte changes: the other core's region stays as it was.
    pub fn write(&mut self, core_id: u32, offset: usize, value: u8)
        requires
            is_core_id(core_id),
            offset < old(self).region_view(core_id).len(),
        ensures
            final(self).region_view(core_id) == old(self).region_view(core_id).update(
                offset as int,
                value,
            ),
            forall|other: u32|
                is_core_id(other) && other != core_id ==> #[trigger] final(self).region_view(other) == old(
                    self,
                ).region_view(other),
    {
        if core_id == 0 {
            self.region0.set(offset, value);
        } else {
            self.region1.set(offset, value);
        }
    }

    /// The startup step: each region receives the data template in its first
    /// bytes and zeros in the `zero_len` bytes after it; bytes past those keep
    /// their contents.
    pub fn pre_init(&mut self, data: &[u8], zero_len: usize)
        requires
            data@.len() + zero_len <= old(self)@.0.len(),
            data@.len() + zero_len <= old(self)@.1.len(),
        ensures
            final(self)@.0 == populated(old(self)@.0, data@, zero_len as nat),
            final(self)@.1 == populated(old(self)@.1, data@, zero_len as nat),
    {
        populate_region(self.region0.as_mut_slice(), data, zero_len);
        populate_region(self.region1.as_mut_slice(), data, zero_len);
    }
}

} // verus!
