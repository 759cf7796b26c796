//! Properties of the parser, stated once over the stream model and proved
//! for every input.

use vstd::prelude::*;
use crate::codec::{le16, le32};
use crate::pskx::{
    indices_cover, parse_pskx, sig_prefix, tag_is_face, tag_is_pnts, tag_is_vtxw, try_faces_of,
    try_vertices_of, try_wedges_of, walk_chunks, FormatError, Vertex,
};

verus! {

/// A buffer whose first eight bytes are not the signature `ACTRHEAD` is
/// always rejected with `BadSignature`, whatever the remaining content.
pub proof fn lemma_signature_rejection(b: Seq<u8>)
    requires
        !sig_prefix(b),
    ensures
        parse_pskx(b) == Err::<(Seq<Vertex>, Seq<u32>), _>(FormatError::BadSignature),
{
}

/// A chunk whose record count is zero consumes exactly its own 32-byte
/// header: the walk continues at the next header with the state
/// untouched, and no payload byte is read — whatever the declared record
/// size.
pub proof fn lemma_empty_chunk_skip(
    b: Seq<u8>,
    pos: int,
    verts: Seq<Vertex>,
    wedges: Seq<u32>,
    ids: Seq<u32>,
)
    requires
        0 <= pos,
        pos + 32 <= b.len(),
        le32(b, pos + 28) == 0,
    ensures
        walk_chunks(b, pos, verts, wedges, ids) == walk_chunks(b, pos + 32, verts, wedges, ids),
{
}

/// A chunk header that declares more payload bytes than remain in the
/// buffer fails the walk with `TruncatedChunk` — the payload is never
/// read past the end.
pub proof fn lemma_truncation_detected(
    b: Seq<u8>,
    pos: int,
    verts: Seq<Vertex>,
    wedges: Seq<u32>,
    ids: Seq<u32>,
)
    requires
        0 <= pos,
        pos + 32 <= b.len(),
        le32(b, pos + 28) != 0,
        b.len() - pos - 32 < le32(b, pos + 24) * le32(b, pos + 28),
    ensures
        walk_chunks(b, pos, verts, wedges, ids) == Err::<(Seq<Vertex>, Seq<u32>), _>(
            FormatError::TruncatedChunk,
        ),
{
}

/// A face record whose stored wedge indices are (A, B, C) contributes the
/// resolved corners in the order (B, A, C): for record `r` of a decoded
/// face chunk, the emitted indices are wedge B's vertex, then wedge A's,
/// then wedge C's.
pub proof fn lemma_winding_swap(b: Seq<u8>, n: nat, w: Seq<u32>, f: Seq<u32>, r: int)
    requires
        try_faces_of(b, n, w) == Ok::<_, FormatError>(f),
        0 <= r < n,
    ensures
        f.len() == 3 * n,
        f[3 * r] == w[le16(b, 12 * r + 2) as int],
        f[3 * r + 1] == w[le16(b, 12 * r) as int],
        f[3 * r + 2] == w[le16(b, 12 * r + 4) as int],
{
    assert((3 * r) % 3 == 0 && (3 * r) / 3 == r);
    assert((3 * r + 1) % 3 == 1 && (3 * r + 1) / 3 == r);
    assert((3 * r + 2) % 3 == 2 && (3 * r + 2) / 3 == r);
}

/// Helper for the cross-check law: whatever state a walk starts from, a
/// successful result has passed the final cross-check.
proof fn lemma_walk_cross_check(
    b: Seq<u8>,
    pos: int,
    verts: Seq<Vertex>,
    wedges: Seq<u32>,
    ids: Seq<u32>,
    m: (Seq<Vertex>, Seq<u32>),
)
    requires
        walk_chunks(b, pos, verts, wedges, ids) == Ok::<_, FormatError>(m),
    ensures
        indices_cover(m.0, m.1),
    decreases b.len() - pos,
{
    if pos < 0 || b.len() - pos < 32 {
    } else {
        let size = le32(b, pos + 24) as int;
        let count = le32(b, pos + 28) as int;
        if count == 0 {
            lemma_walk_cross_check(b, pos + 32, verts, wedges, ids, m);
        } else if b.len() - pos - 32 < size * count {
        } else {
            let payload = b.subrange(pos + 32, pos + 32 + size * count);
            let next = pos + 32 + size * count;
            if tag_is_pnts(b, pos) {
                if let Ok(v) = try_vertices_of(payload, count as nat) {
                    lemma_walk_cross_check(b, next, v, wedges, ids, m);
                }
            } else if tag_is_vtxw(b, pos) {
                if let Ok(w) = try_wedges_of(payload, count as nat) {
                    lemma_walk_cross_check(b, next, verts, w, ids, m);
                }
            } else if tag_is_face(b, pos) {
                if let Ok(f) = try_faces_of(payload, count as nat, wedges) {
                    lemma_walk_cross_check(b, next, verts, wedges, f, m);
                }
            } else {
                lemma_walk_cross_check(b, next, verts, wedges, ids, m);
            }
        }
    }
}

/// The cross-check invariant: any successfully parsed buffer yields a
/// mesh whose index buffer is non-empty, references only valid vertices,
/// and whose largest index is exactly the vertex count minus one.
pub proof fn lemma_parse_cross_check(b: Seq<u8>, m: (Seq<Vertex>, Seq<u32>))
    requires
        parse_pskx(b) == Ok::<_, FormatError>(m),
    ensures
        indices_cover(m.0, m.1),
{
    lemma_walk_cross_check(b, 32, Seq::empty(), Seq::empty(), Seq::empty(), m);
}

/// Parsing is a pure function of the input bytes: one buffer has one
/// parse result, so two parses of the same buffer yield identical vertex
/// and index sequences.
pub proof fn lemma_parse_deterministic(
    b: Seq<u8>,
    m1: (Seq<Vertex>, Seq<u32>),
    m2: (Seq<Vertex>, Seq<u32>),
)
    requires
        parse_pskx(b) == Ok::<_, FormatError>(m1),
        parse_pskx(b) == Ok::<_, FormatError>(m2),
    ensures
        m1 == m2,
{
}

} // verus!
