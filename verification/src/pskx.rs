//! Model of the chunked source mesh format.
//!
//! A source file opens with a 32-byte header whose first 20 bytes are the
//! fixed signature `ACTRHEAD` followed by twelve zero bytes.  After that the
//! file is a sequence of chunks.  Each chunk has a 32-byte header: an
//! 8-byte ASCII tag, unused bytes, then the record size (bytes 24..28) and
//! the record count (bytes 28..32), both little-endian; `size * count`
//! payload bytes follow.  Three tags carry geometry:
//!
//! - `PNTS0000`: 12-byte records, three little-endian 32-bit words (the bit
//!   patterns of the x, y, z coordinates) per vertex;
//! - `VTXW0000`: 16-byte wedge records, a little-endian 32-bit vertex index
//!   followed by 12 bytes of per-corner data the converter discards;
//! - `FACE0000`: 12-byte face records, three little-endian 16-bit wedge
//!   indices followed by 6 unused bytes; the resolved corners are emitted
//!   in the order (B, A, C) — a fixed winding correction.
//!
//! Unknown tags are skipped.  The functions here are the specification the
//! executable parser in `converter` is proved against.

use vstd::prelude::*;
use crate::codec::{le16, le32};

verus! {

/// One vertex position: the little-endian bit patterns of its three 32-bit
/// float coordinates, carried as plain words.
#[derive(Clone, Copy, Debug, PartialEq, Eq, Structural)]
pub struct Vertex {
    pub x: u32,
    pub y: u32,
    pub z: u32,
}

/// Why a parse was rejected.
#[derive(Clone, Copy, Debug, PartialEq, Eq, Structural)]
pub enum FormatError {
    /// The buffer does not open with the required signature bytes.
    BadSignature,
    /// A chunk or record demands more bytes than remain.
    TruncatedChunk,
    /// A face record points outside the wedge table built so far.
    DanglingWedgeReference,
    /// The final cross-check failed: the largest referenced vertex index
    /// plus one is not the vertex count.
    VertexIndexMismatch,
}

/// The first eight bytes are the ASCII signature `ACTRHEAD`.
pub open spec fn sig_prefix(b: Seq<u8>) -> bool {
    &&& b.len() >= 8
    &&& b[0] == 65
    &&& b[1] == 67
    &&& b[2] == 84
    &&& b[3] == 82
    &&& b[4] == 72
    &&& b[5] == 69
    &&& b[6] == 65
    &&& b[7] == 68
}

/// The buffer holds the full 32-byte file header: the signature, twelve
/// zero bytes, and twelve further bytes whose content is not load-bearing.
pub open spec fn sig_valid(b: Seq<u8>) -> bool {
    &&& b.len() >= 32
    &&& sig_prefix(b)
    &&& forall|i: int| 8 <= i < 20 ==> b[i] == 0
}

/// The chunk tag at `pos` is `PNTS0000`.
pub open spec fn tag_is_pnts(b: Seq<u8>, pos: int) -> bool {
    &&& b[pos] == 80
    &&& b[pos + 1] == 78
    &&& b[pos + 2] == 84
    &&& b[pos + 3] == 83
    &&& b[pos + 4] == 48
    &&& b[pos + 5] == 48
    &&& b[pos + 6] == 48
    &&& b[pos + 7] == 48
}

/// The chunk tag at `pos` is `VTXW0000`.
pub open spec fn tag_is_vtxw(b: Seq<u8>, pos: int) -> bool {
    &&& b[pos] == 86
    &&& b[pos + 1] == 84
    &&& b[pos + 2] == 88
    &&& b[pos + 3] == 87
    &&& b[pos + 4] == 48
    &&& b[pos + 5] == 48
    &&& b[pos + 6] == 48
    &&& b[pos + 7] == 48
}

/// The chunk tag at `pos` is `FACE0000`.
pub open spec fn tag_is_face(b: Seq<u8>, pos: int) -> bool {
    &&& b[pos] == 70
    &&& b[pos + 1] == 65
    &&& b[pos + 2] == 67
    &&& b[pos + 3] == 69
    &&& b[pos + 4] == 48
    &&& b[pos + 5] == 48
    &&& b[pos + 6] == 48
    &&& b[pos + 7] == 48
}

/// The `n` vertices of a point-chunk payload, 12 bytes each.
pub open spec fn vertices_of(b: Seq<u8>, n: nat) -> Seq<Vertex> {
    Seq::new(
        n,
        |r: int|
            Vertex {
                x: le32(b, 12 * r),
                y: le32(b, 12 * r + 4),
                z: le32(b, 12 * r + 8),
            },
    )
}

/// The `n` vertices of a point-chunk payload, or `TruncatedChunk` when the
/// payload is shorter than its records.
pub open spec fn try_vertices_of(b: Seq<u8>, n: nat) -> Result<Seq<Vertex>, FormatError> {
    if b.len() < 12 * n {
        Err(FormatError::TruncatedChunk)
    } else {
        Ok(vertices_of(b, n))
    }
}

/// The `n` wedge vertex indices of a wedge-chunk payload, 16 bytes per
/// record with the index in the first four.
pub open spec fn wedges_of(b: Seq<u8>, n: nat) -> Seq<u32> {
    Seq::new(n, |r: int| le32(b, 16 * r))
}

/// The `n` wedge vertex indices of a wedge-chunk payload, or
/// `TruncatedChunk` when the payload is shorter than its records.
pub open spec fn try_wedges_of(b: Seq<u8>, n: nat) -> Result<Seq<u32>, FormatError> {
    if b.len() < 16 * n {
        Err(FormatError::TruncatedChunk)
    } else {
        Ok(wedges_of(b, n))
    }
}

/// The wedge index of corner `c` (0, 1 or 2 as stored) of face record `r`.
pub open spec fn face_wedge_index(b: Seq<u8>, r: int, c: int) -> u16 {
    le16(b, 12 * r + 2 * c)
}

/// Every wedge index of the first `n` face records points into `w`.
pub open spec fn faces_in_bounds(b: Seq<u8>, n: nat, w: Seq<u32>) -> bool {
    forall|r: int, c: int|
        0 <= r < n && 0 <= c < 3 ==> #[trigger] face_wedge_index(b, r, c) < w.len()
}

/// Entry `k` of the flat index buffer built from face records: record
/// `k / 3`, with the stored corners (A, B, C) emitted in the corrected
/// winding order (B, A, C), each resolved through the wedge table `w`.
pub open spec fn face_corner(b: Seq<u8>, w: Seq<u32>, k: int) -> u32 {
    if k % 3 == 0 {
        w[face_wedge_index(b, k / 3, 1) as int]
    } else if k % 3 == 1 {
        w[face_wedge_index(b, k / 3, 0) as int]
    } else {
        w[face_wedge_index(b, k / 3, 2) as int]
    }
}

/// The flat index buffer of a face-chunk payload of `n` 12-byte records,
/// resolved through the wedge table `w`; `TruncatedChunk` when the payload
/// is shorter than its records, `DanglingWedgeReference` when a wedge
/// index points outside `w`.
pub open spec fn try_faces_of(b: Seq<u8>, n: nat, w: Seq<u32>) -> Result<Seq<u32>, FormatError> {
    if b.len() < 12 * n {
        Err(FormatError::TruncatedChunk)
    } else if !faces_in_bounds(b, n, w) {
        Err(FormatError::DanglingWedgeReference)
    } else {
        Ok(Seq::new(3 * n, |k: int| face_corner(b, w, k)))
    }
}

/// The final cross-check: the index buffer is non-empty, every index is a
/// valid vertex index, and the largest one is exactly `verts.len() - 1`,
/// so the vertex buffer covers the referenced range with nothing to spare.
pub open spec fn indices_cover(verts: Seq<Vertex>, ids: Seq<u32>) -> bool {
    &&& ids.len() > 0
    &&& forall|k: int| 0 <= k < ids.len() ==> #[trigger] ids[k] < verts.len()
    &&& exists|k: int| 0 <= k < ids.len() && #[trigger] ids[k] + 1 == verts.len()
}

/// What the parse returns once the stream is exhausted: the accumulated
/// vertices and indices when the cross-check holds, else
/// `VertexIndexMismatch`.
pub open spec fn finish(verts: Seq<Vertex>, ids: Seq<u32>) -> Result<
    (Seq<Vertex>, Seq<u32>),
    FormatError,
> {
    if indices_cover(verts, ids) {
        Ok((verts, ids))
    } else {
        Err(FormatError::VertexIndexMismatch)
    }
}

/// Walks the chunk stream of `b` from `pos` with the state accumulated so
/// far.  Fewer than 32 remaining bytes end the stream (that is not an
/// error); a chunk with record count zero contributes no payload; a
/// recognized chunk replaces the matching part of the state; an unknown
/// chunk is skipped over.
pub open spec fn walk_chunks(
    b: Seq<u8>,
    pos: int,
    verts: Seq<Vertex>,
    wedges: Seq<u32>,
    ids: Seq<u32>,
) -> Result<(Seq<Vertex>, Seq<u32>), FormatError>
    decreases b.len() - pos,
{
    if pos < 0 || b.len() - pos < 32 {
        finish(verts, ids)
    } else {
        let size = le32(b, pos + 24) as int;
        let count = le32(b, pos + 28) as int;
        if count == 0 {
            walk_chunks(b, pos + 32, verts, wedges, ids)
        } else if b.len() - pos - 32 < size * count {
            Err(FormatError::TruncatedChunk)
        } else {
            let payload = b.subrange(pos + 32, pos + 32 + size * count);
            let next = pos + 32 + size * count;
            if tag_is_pnts(b, pos) {
                match try_vertices_of(payload, count as nat) {
                    Ok(v) => walk_chunks(b, next, v, wedges, ids),
                    Err(e) => Err(e),
                }
            } else if tag_is_vtxw(b, pos) {
                match try_wedges_of(payload, count as nat) {
                    Ok(w) => walk_chunks(b, next, verts, w, ids),
                    Err(e) => Err(e),
                }
            } else if tag_is_face(b, pos) {
                match try_faces_of(payload, count as nat, wedges) {
                    Ok(f) => walk_chunks(b, next, verts, wedges, f),
                    Err(e) => Err(e),
                }
            } else {
                walk_chunks(b, next, verts, wedges, ids)
            }
        }
    }
}

/// The meaning of a whole source buffer: reject a bad signature, else walk
/// the chunks that follow the 32-byte file header with empty state.
pub open spec fn parse_pskx(b: Seq<u8>) -> Result<(Seq<Vertex>, Seq<u32>), FormatError> {
    if !sig_valid(b) {
        Err(FormatError::BadSignature)
    } else {
        walk_chunks(b, 32, Seq::empty(), Seq::empty(), Seq::empty())
    }
}

} // verus!
