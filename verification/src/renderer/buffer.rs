//! Sizes of the buffers handed to the graphics device.

use vstd::prelude::*;
use vstd::layout::layout_of_slices;
use vstd::layout::size_of;
use vstd::layout::spec_size_of_val;

verus! {

/// Size of `u32` in bytes, as the graphics device counts buffer addresses.
pub const U32_SIZE: u64 = 4;

/// Number of bytes that the elements of a slice take up.
pub fn size_of_slice<T: Sized>(slice: &[T]) -> (bytes: usize)
    ensures
        bytes == slice@.len() * size_of::<T>(),
{
    broadcast use layout_of_slices;

    let bytes: usize = core::mem::size_of_val(slice);
    assert(bytes == spec_size_of_val::<[T]>(slice));
    bytes
}

/// Numbers the vertices of the quads pushed so far and produces the index
/// list that draws each quad as two triangles.
pub struct QuadIndexBuilder {
    index_data: Vec<u32>,
    current_vert: u32,
}

/// The six indices of the quad whose first vertex has number `first`.
pub open spec fn quad_indices(first: int) -> Seq<int> {
    seq![first, first + 1, first + 2, first, first + 2, first + 3]
}

/// The indices of the first `quads` quads.
pub open spec fn all_quad_indices(quads: nat) -> Seq<int>
    decreases quads,
{
    if quads == 0 {
        Seq::empty()
    } else {
        all_quad_indices((quads - 1) as nat) + quad_indices(4 * (quads - 1))
    }
}

impl QuadIndexBuilder {
    /// Number of quads pushed.
    pub closed spec fn quads(&self) -> nat {
        (self.current_vert / 4) as nat
    }

    pub closed spec fn indices(&self) -> Seq<int> {
        self.index_data@.map_values(|i: u32| i as int)
    }

    pub closed spec fn wf(&self) -> bool {
        &&& self.current_vert % 4 == 0
        &&& self.indices() == all_quad_indices(self.quads())
    }

    pub fn new() -> (builder: QuadIndexBuilder)
        ensures
            builder.wf(),
            builder.quads() == 0,
    {
        let builder = QuadIndexBuilder { index_data: Vec::new(), current_vert: 0 };
        assert(builder.indices() =~= Seq::<int>::empty());
        builder
    }

    /// Adds the indices of one more quad. Returns `false`, and changes
    /// nothing, when the vertex numbers are used up.
    pub fn push_quad(&mut self) -> (pushed: bool)
        requires
            old(self).wf(),
        ensures
            final(self).wf(),
            pushed == (4 * old(self).quads() + 4 <= u32::MAX),
            final(self).quads() == if pushed {
                old(self).quads() + 1
            } else {
                old(self).quads()
            },
    {
        if self.current_vert > u32::MAX - 4 {
            return false;
        }
        let first: u32 = self.current_vert;
        self.index_data.push(first);
        self.index_data.push(first + 1);
        self.index_data.push(first + 2);
        self.index_data.push(first);
        self.index_data.push(first + 2);
        self.index_data.push(first + 3);
        self.current_vert = first + 4;
        proof {
            assert(self.indices() =~= old(self).indices() + quad_indices(first as int));
            assert(self.quads() == old(self).quads() + 1);
            assert(4 * old(self).quads() == first);
        }
        true
    }

    pub fn index_data(&self) -> (indices: &Vec<u32>)
        ensures
            indices@.map_values(|i: u32| i as int) == self.indices(),
    {
        &self.index_data
    }

    pub fn vertex_count(&self) -> (count: u32)
        requires
            self.wf(),
        ensures
            count == 4 * self.quads(),
    {
        self.current_vert
    }
}

} // verus!
