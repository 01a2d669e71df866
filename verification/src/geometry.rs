//! The validity condition shared by all geometry buffers: an index buffer
//! may only refer to vertices that exist.

use vstd::prelude::*;

verus! {

/// Every index refers to a vertex of the buffer.
pub open spec fn indices_in_bounds<V>(verts: Seq<V>, idxs: Seq<u16>) -> bool {
    forall|j: int| 0 <= j < idxs.len() ==> (#[trigger] idxs[j]) < verts.len()
}

} // verus!
