use vstd::prelude::*;

verus! {

/// A mesh: its vertices and the indices of the triangles drawn from them, three per triangle.
#[derive(Clone, Debug)]
pub struct MeshData<V> {
    pub vertices: Vec<V>,
    pub indices: Vec<u32>,
}

} // verus!
