//! Geometry buffers: the index data and element counts of the one shape
//! the session can draw.
//!
//! The vertex positions and per-vertex colors live with the surrounding
//! program, which uploads them once; the library holds what the drawing
//! logic depends on: how many vertices the buffer has and which of them
//! each index references.  A buffer is valid only when every index names
//! an existing vertex.

use vstd::prelude::*;

verus! {

/// The model of the vertex/index buffer pair: the number of uploaded
/// vertices and the index list that references them.
#[derive(Clone, Debug, PartialEq, Eq)]
pub struct GeometryBuffers {
    pub vertex_count: u32,
    pub indices: Vec<u16>,
}

impl GeometryBuffers {
    /// The buffer invariant: the index count fits the draw call's range
    /// type and every index references an existing vertex.
    pub open spec fn wf(self) -> bool {
        &&& self.indices.len() <= u32::MAX
        &&& forall|i: int|
            0 <= i < self.indices.len() ==> (self.indices[i] as u32) < self.vertex_count
    }

    /// Build geometry buffers, rejecting an index list that references a
    /// missing vertex or that is too long for one indexed draw.
    pub fn new(vertex_count: u32, indices: Vec<u16>) -> (r: Option<GeometryBuffers>)
        ensures
            r matches Some(g) ==> {
                &&& g.wf()
                &&& g.vertex_count == vertex_count
                &&& g.indices == indices
            },
            r is None <==> !(GeometryBuffers { vertex_count, indices }).wf(),
    {
        if indices.len() > u32::MAX as usize {
            return None;
        }
        let mut i: usize = 0;
        while i < indices.len()
            invariant
                0 <= i <= indices.len(),
                forall|j: int| 0 <= j < i ==> (indices[j] as u32) < vertex_count,
            decreases indices.len() - i,
        {
            if indices[i] as u32 >= vertex_count {
                return None;
            }
            i += 1;
        }
        Some(GeometryBuffers { vertex_count, indices })
    }

    /// How many indices one indexed draw over the full buffer covers.
    pub fn index_count(&self) -> (r: u32)
        requires
            self.wf(),
        ensures
            r == self.indices.len(),
    {
        self.indices.len() as u32
    }

    /// The fixed shape the session draws: a pentagon of five vertices,
    /// fanned into three triangles from its last vertex.
    pub fn pentagon() -> (r: GeometryBuffers)
        ensures
            r.wf(),
            r.vertex_count == 5,
            r.indices@ == seq![0u16, 1, 4, 1, 2, 4, 2, 3, 4],
    {
        let indices: Vec<u16> = vec![0u16, 1, 4, 1, 2, 4, 2, 3, 4];
        proof {
            assert(indices@ =~= seq![0u16, 1, 4, 1, 2, 4, 2, 3, 4]);
        }
        GeometryBuffers { vertex_count: 5, indices }
    }
}

} // verus!
