//! Model of the target collision-mesh byte layout.
//!
//! An output buffer is, in order and all little-endian: the triangle count
//! as a 32-bit integer, the vertex count as a 32-bit integer, three 32-bit
//! vertex indices per triangle, then three 32-bit coordinate words per
//! vertex.

use vstd::prelude::*;
use crate::codec::u32_le_bytes;
use crate::pskx::Vertex;

verus! {

/// The index section: each index as four little-endian bytes, in order.
pub open spec fn ids_bytes(ids: Seq<u32>) -> Seq<u8>
    decreases ids.len(),
{
    if ids.len() == 0 {
        Seq::empty()
    } else {
        ids_bytes(ids.drop_last()) + u32_le_bytes(ids.last())
    }
}

/// One vertex as twelve bytes: its x, y and z words, each little-endian.
pub open spec fn vertex_bytes(v: Vertex) -> Seq<u8> {
    u32_le_bytes(v.x) + u32_le_bytes(v.y) + u32_le_bytes(v.z)
}

/// The vertex section: each vertex's twelve bytes, in order.
pub open spec fn verts_bytes(verts: Seq<Vertex>) -> Seq<u8>
    decreases verts.len(),
{
    if verts.len() == 0 {
        Seq::empty()
    } else {
        verts_bytes(verts.drop_last()) + vertex_bytes(verts.last())
    }
}

/// A whole output buffer for the flat index buffer `ids` (three entries
/// per triangle) and the vertex positions `verts`.
pub open spec fn cmf_bytes(ids: Seq<u32>, verts: Seq<Vertex>) -> Seq<u8> {
    u32_le_bytes((ids.len() / 3) as u32) + u32_le_bytes(verts.len() as u32) + ids_bytes(ids)
        + verts_bytes(verts)
}

/// The index section is four bytes per index.
pub proof fn lemma_ids_bytes_len(ids: Seq<u32>)
    ensures
        ids_bytes(ids).len() == 4 * ids.len(),
    decreases ids.len(),
{
    if ids.len() > 0 {
        lemma_ids_bytes_len(ids.drop_last());
    }
}

/// Extending the index buffer by one appends that index's four bytes.
pub proof fn lemma_ids_bytes_snoc(ids: Seq<u32>, i: int)
    requires
        0 <= i < ids.len(),
    ensures
        ids_bytes(ids.take(i + 1)) == ids_bytes(ids.take(i)) + u32_le_bytes(ids[i]),
{
    assert(ids.take(i + 1).drop_last() =~= ids.take(i));
    assert(ids.take(i + 1).last() == ids[i]);
}

/// The vertex section is twelve bytes per vertex.
pub proof fn lemma_verts_bytes_len(verts: Seq<Vertex>)
    ensures
        verts_bytes(verts).len() == 12 * verts.len(),
    decreases verts.len(),
{
    if verts.len() > 0 {
        lemma_verts_bytes_len(verts.drop_last());
    }
}

/// Extending the vertex buffer by one appends that vertex's twelve bytes.
pub proof fn lemma_verts_bytes_snoc(verts: Seq<Vertex>, i: int)
    requires
        0 <= i < verts.len(),
    ensures
        verts_bytes(verts.take(i + 1)) == verts_bytes(verts.take(i)) + vertex_bytes(verts[i]),
{
    assert(verts.take(i + 1).drop_last() =~= verts.take(i));
    assert(verts.take(i + 1).last() == verts[i]);
}

} // verus!
