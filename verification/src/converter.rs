//! The executable parser and encoders, proved against the models in
//! `pskx` and `cmf`.

use vstd::prelude::*;
use crate::codec::{le32, read_u16_le, read_u32_le, push_u32_le, u32_le_bytes};
use crate::cmf::{
    cmf_bytes, ids_bytes, lemma_ids_bytes_len, lemma_ids_bytes_snoc, lemma_verts_bytes_len,
    lemma_verts_bytes_snoc, verts_bytes,
};
use crate::pskx::{
    face_corner, face_wedge_index, faces_in_bounds, finish, indices_cover, parse_pskx, sig_prefix,
    sig_valid, tag_is_face, tag_is_pnts, tag_is_vtxw, try_faces_of, try_vertices_of, try_wedges_of,
    vertices_of, walk_chunks, wedges_of, FormatError, Vertex,
};

verus! {

/// A parsed mesh: the flat triangle index buffer (three vertex indices per
/// triangle) and the vertex positions as coordinate bit-pattern words.
#[derive(Clone, Debug, Default, PartialEq, Eq)]
pub struct MeshBuilder {
    pub ids: Vec<u32>,
    pub verts: Vec<Vertex>,
}

impl MeshBuilder {
    /// A well-formed mesh: whole triangles only, and the vertex buffer
    /// exactly covers the range of referenced indices.
    pub open spec fn wf(self) -> bool {
        &&& self.ids@.len() % 3 == 0
        &&& indices_cover(self.verts@, self.ids@)
    }
}

/// Decodes the vertex records of a point-chunk payload: `data_count`
/// records of 12 bytes, three little-endian coordinate words each.
pub fn read_vertices(chunk_data: &[u8], data_count: usize) -> (r: Result<Vec<Vertex>, FormatError>)
    ensures
        match r {
            Ok(v) => try_vertices_of(chunk_data@, data_count as nat) == Ok::<_, FormatError>(v@),
            Err(e) => try_vertices_of(chunk_data@, data_count as nat) == Err::<Seq<Vertex>, _>(e),
        },
{
    let len: usize = chunk_data.len();
    if (len as u128) < 12 * (data_count as u128) {
        return Err(FormatError::TruncatedChunk);
    }
    let ghost all = vertices_of(chunk_data@, data_count as nat);
    let mut v: Vec<Vertex> = Vec::new();
    let mut i: usize = 0;
    while i < data_count
        invariant
            i <= data_count,
            12 * data_count <= len,
            len == chunk_data@.len(),
            all == vertices_of(chunk_data@, data_count as nat),
            v@.len() == i,
            forall|j: int| 0 <= j < i ==> v@[j] == all[j],
        decreases data_count - i,
    {
        let x = read_u32_le(chunk_data, 12 * i);
        let y = read_u32_le(chunk_data, 12 * i + 4);
        let z = read_u32_le(chunk_data, 12 * i + 8);
        v.push(Vertex { x, y, z });
        i = i + 1;
    }
    proof {
        assert(v@ =~= all);
    }
    Ok(v)
}

/// Decodes the wedge records of a wedge-chunk payload: `data_count`
/// records of 16 bytes, of which only the leading little-endian vertex
/// index is kept.
pub fn read_wedges(chunk_data: &[u8], data_count: usize) -> (r: Result<Vec<u32>, FormatError>)
    ensures
        match r {
            Ok(w) => try_wedges_of(chunk_data@, data_count as nat) == Ok::<_, FormatError>(w@),
            Err(e) => try_wedges_of(chunk_data@, data_count as nat) == Err::<Seq<u32>, _>(e),
        },
{
    let len: usize = chunk_data.len();
    if (len as u128) < 16 * (data_count as u128) {
        return Err(FormatError::TruncatedChunk);
    }
    let ghost all = wedges_of(chunk_data@, data_count as nat);
    let mut w: Vec<u32> = Vec::new();
    let mut i: usize = 0;
    while i < data_count
        invariant
            i <= data_count,
            16 * data_count <= len,
            len == chunk_data@.len(),
            all == wedges_of(chunk_data@, data_count as nat),
            w@.len() == i,
            forall|j: int| 0 <= j < i ==> w@[j] == all[j],
        decreases data_count - i,
    {
        w.push(read_u32_le(chunk_data, 16 * i));
        i = i + 1;
    }
    proof {
        assert(w@ =~= all);
    }
    Ok(w)
}

/// Decodes the face records of a face-chunk payload — `data_count`
/// records of 12 bytes, three little-endian 16-bit wedge indices followed
/// by 6 unused bytes — resolving each corner through `wedges` and
/// emitting the stored corners (A, B, C) in the corrected winding order
/// (B, A, C).
pub fn read_faces(chunk_data: &[u8], data_count: usize, wedges: &[u32]) -> (r: Result<
    Vec<u32>,
    FormatError,
>)
    ensures
        match r {
            Ok(f) => try_faces_of(chunk_data@, data_count as nat, wedges@) == Ok::<
                _,
                FormatError,
            >(f@),
            Err(e) => try_faces_of(chunk_data@, data_count as nat, wedges@) == Err::<Seq<u32>, _>(
                e,
            ),
        },
{
    let len: usize = chunk_data.len();
    if (len as u128) < 12 * (data_count as u128) {
        return Err(FormatError::TruncatedChunk);
    }
    let mut f: Vec<u32> = Vec::new();
    let mut i: usize = 0;
    while i < data_count
        invariant
            i <= data_count,
            12 * data_count <= len,
            len == chunk_data@.len(),
            f@.len() == 3 * i,
            forall|r: int, c: int|
                0 <= r < i && 0 <= c < 3 ==> #[trigger] face_wedge_index(chunk_data@, r, c)
                    < wedges@.len(),
            forall|k: int| 0 <= k < 3 * i ==> f@[k] == face_corner(chunk_data@, wedges@, k),
        decreases data_count - i,
    {
        let wa = read_u16_le(chunk_data, 12 * i);
        let wb = read_u16_le(chunk_data, 12 * i + 2);
        let wc = read_u16_le(chunk_data, 12 * i + 4);
        if wa as usize >= wedges.len() || wb as usize >= wedges.len() || wc as usize
            >= wedges.len() {
            proof {
                assert(!faces_in_bounds(chunk_data@, data_count as nat, wedges@)) by {
                    if wa as usize >= wedges.len() {
                        assert(face_wedge_index(chunk_data@, i as int, 0) == wa);
                    } else if wb as usize >= wedges.len() {
                        assert(face_wedge_index(chunk_data@, i as int, 1) == wb);
                    } else {
                        assert(face_wedge_index(chunk_data@, i as int, 2) == wc);
                    }
                }
            }
            return Err(FormatError::DanglingWedgeReference);
        }
        proof {
            assert(face_wedge_index(chunk_data@, i as int, 0) == wa);
            assert(face_wedge_index(chunk_data@, i as int, 1) == wb);
            assert(face_wedge_index(chunk_data@, i as int, 2) == wc);
        }
        f.push(wedges[wb as usize]);
        f.push(wedges[wa as usize]);
        f.push(wedges[wc as usize]);
        proof {
            let b = chunk_data@;
            let w = wedges@;
            assert((3 * i as int) / 3 == i as int && (3 * i as int) % 3 == 0);
            assert((3 * i as int + 1) / 3 == i as int && (3 * i as int + 1) % 3 == 1);
            assert((3 * i as int + 2) / 3 == i as int && (3 * i as int + 2) % 3 == 2);
            assert(f@[3 * i as int] == face_corner(b, w, 3 * i as int));
            assert(f@[3 * i as int + 1] == face_corner(b, w, 3 * i as int + 1));
            assert(f@[3 * i as int + 2] == face_corner(b, w, 3 * i as int + 2));
        }
        i = i + 1;
    }
    proof {
        assert(faces_in_bounds(chunk_data@, data_count as nat, wedges@));
        assert(f@ =~= Seq::new(
            3 * data_count as nat,
            |k: int| face_corner(chunk_data@, wedges@, k),
        ));
    }
    Ok(f)
}

/// The chunk tags the parser recognizes.
enum ChunkKind {
    Points,
    WedgeList,
    FaceList,
    Other,
}

/// Classifies the 8-byte chunk tag at `pos`.
fn read_tag(b: &[u8], pos: usize) -> (t: ChunkKind)
    requires
        pos + 8 <= b@.len(),
    ensures
        (t is Points) == tag_is_pnts(b@, pos as int),
        (t is WedgeList) == tag_is_vtxw(b@, pos as int),
        (t is FaceList) == tag_is_face(b@, pos as int),
{
    let t0 = b[pos];
    let t1 = b[pos + 1];
    let t2 = b[pos + 2];
    let t3 = b[pos + 3];
    let zeros = b[pos + 4] == 48 && b[pos + 5] == 48 && b[pos + 6] == 48 && b[pos + 7] == 48;
    if t0 == 80 && t1 == 78 && t2 == 84 && t3 == 83 && zeros {
        ChunkKind::Points
    } else if t0 == 86 && t1 == 84 && t2 == 88 && t3 == 87 && zeros {
        ChunkKind::WedgeList
    } else if t0 == 70 && t1 == 65 && t2 == 67 && t3 == 69 && zeros {
        ChunkKind::FaceList
    } else {
        ChunkKind::Other
    }
}

/// Checks the 32-byte file header: the ASCII signature `ACTRHEAD` in the
/// first eight bytes, then twelve zero bytes.
fn check_signature(bytes: &[u8]) -> (ok: bool)
    ensures
        ok == sig_valid(bytes@),
{
    if bytes.len() < 32 {
        return false;
    }
    if !(bytes[0] == 65 && bytes[1] == 67 && bytes[2] == 84 && bytes[3] == 82 && bytes[4] == 72
        && bytes[5] == 69 && bytes[6] == 65 && bytes[7] == 68) {
        return false;
    }
    let mut i: usize = 8;
    while i < 20
        invariant
            8 <= i <= 20,
            bytes@.len() >= 32,
            sig_prefix(bytes@),
            forall|j: int| 8 <= j < i ==> bytes@[j] == 0,
        decreases 20 - i,
    {
        if bytes[i] != 0 {
            return false;
        }
        i = i + 1;
    }
    true
}

impl MeshBuilder {
    /// Parses a whole source-format buffer into a mesh.
    ///
    /// The result is exactly what the `pskx` stream model assigns to the
    /// bytes: `Err(BadSignature)` whenever the buffer does not open with
    /// the required header (in particular whenever its first eight bytes
    /// are not `ACTRHEAD`), `Err(TruncatedChunk)` when a chunk or record
    /// declares more bytes than remain, `Err(DanglingWedgeReference)`
    /// when a face record points outside the wedge table read so far, and
    /// `Err(VertexIndexMismatch)` when the final cross-check fails; on
    /// success the mesh is well-formed.
    pub fn from_pskx(bytes: &[u8]) -> (r: Result<MeshBuilder, FormatError>)
        ensures
            match r {
                Ok(m) => parse_pskx(bytes@) == Ok::<_, FormatError>((m.verts@, m.ids@)) && m.wf(),
                Err(e) => parse_pskx(bytes@) == Err::<(Seq<Vertex>, Seq<u32>), _>(e),
            },
    {
        if !check_signature(bytes) {
            return Err(FormatError::BadSignature);
        }
        let len: usize = bytes.len();
        let mut pos: usize = 32;
        let mut verts: Vec<Vertex> = Vec::new();
        let mut wedges: Vec<u32> = Vec::new();
        let mut ids: Vec<u32> = Vec::new();
        while len - pos >= 32
            invariant
                32 <= pos <= len,
                len == bytes@.len(),
                ids@.len() % 3 == 0,
                parse_pskx(bytes@) == walk_chunks(bytes@, pos as int, verts@, wedges@, ids@),
            decreases len - pos,
        {
            let ghost b = bytes@;
            let ghost p0 = pos as int;
            let ghost vs0 = verts@;
            let ghost ws0 = wedges@;
            let ghost is0 = ids@;
            let size = read_u32_le(bytes, pos + 24);
            let count = read_u32_le(bytes, pos + 28);
            if count == 0 {
                pos = pos + 32;
                proof {
                    assert(walk_chunks(b, p0, vs0, ws0, is0) == walk_chunks(
                        b,
                        pos as int,
                        verts@,
                        wedges@,
                        ids@,
                    ));
                }
            } else {
                let remaining: usize = len - (pos + 32);
                proof {
                    assert((size as int) * (count as int) <= 0xFFFF_FFFF * 0xFFFF_FFFF)
                        by (nonlinear_arith)
                        requires
                            0 <= size as int <= 0xFFFF_FFFF,
                            0 <= count as int <= 0xFFFF_FFFF,
                    ;
                }
                let payload64: u64 = (size as u64) * (count as u64);
                if (remaining as u64) < payload64 {
                    proof {
                        assert(walk_chunks(b, p0, vs0, ws0, is0) == Err::<
                            (Seq<Vertex>, Seq<u32>),
                            _,
                        >(FormatError::TruncatedChunk));
                    }
                    return Err(FormatError::TruncatedChunk);
                }
                let payload_len: usize = payload64 as usize;
                let chunk_end: usize = pos + 32 + payload_len;
                let payload: &[u8] = &bytes[pos + 32..chunk_end];
                proof {
                    assert(payload@ == b.subrange(p0 + 32, p0 + 32 + (size as int) * (
                    count as int)));
                }
                match read_tag(bytes, pos) {
                    ChunkKind::Points => {
                        match read_vertices(payload, count as usize) {
                            Ok(v) => {
                                verts = v;
                            },
                            Err(e) => {
                                proof {
                                    assert(walk_chunks(b, p0, vs0, ws0, is0) == Err::<
                                        (Seq<Vertex>, Seq<u32>),
                                        _,
                                    >(e));
                                }
                                return Err(e);
                            },
                        }
                    },
                    ChunkKind::WedgeList => {
                        match read_wedges(payload, count as usize) {
                            Ok(w) => {
                                wedges = w;
                            },
                            Err(e) => {
                                proof {
                                    assert(walk_chunks(b, p0, vs0, ws0, is0) == Err::<
                                        (Seq<Vertex>, Seq<u32>),
                                        _,
                                    >(e));
                                }
                                return Err(e);
                            },
                        }
                    },
                    ChunkKind::FaceList => {
                        match read_faces(payload, count as usize, wedges.as_slice()) {
                            Ok(f) => {
                                ids = f;
                            },
                            Err(e) => {
                                proof {
                                    assert(walk_chunks(b, p0, vs0, ws0, is0) == Err::<
                                        (Seq<Vertex>, Seq<u32>),
                                        _,
                                    >(e));
                                }
                                return Err(e);
                            },
                        }
                    },
                    ChunkKind::Other => {},
                }
                pos = chunk_end;
                proof {
                    assert(walk_chunks(b, p0, vs0, ws0, is0) == walk_chunks(
                        b,
                        pos as int,
                        verts@,
                        wedges@,
                        ids@,
                    ));
                }
            }
        }
        proof {
            assert(walk_chunks(bytes@, pos as int, verts@, wedges@, ids@) == finish(
                verts@,
                ids@,
            ));
        }
        if ids.len() == 0 {
            return Err(FormatError::VertexIndexMismatch);
        }
        let mut mx: u32 = ids[0];
        let mut k: usize = 1;
        while k < ids.len()
            invariant
                1 <= k <= ids@.len(),
                forall|j: int| 0 <= j < k ==> #[trigger] ids@[j] <= mx,
                exists|j: int| 0 <= j < k && #[trigger] ids@[j] == mx,
            decreases ids@.len() - k,
        {
            if ids[k] > mx {
                mx = ids[k];
            }
            k = k + 1;
        }
        if (mx as u64) + 1 != verts.len() as u64 {
            proof {
                if mx as int + 1 < verts@.len() {
                    assert(forall|j: int|
                        0 <= j < ids@.len() ==> #[trigger] ids@[j] + 1 != verts@.len());
                } else {
                    let j = choose|j: int| 0 <= j < ids@.len() && #[trigger] ids@[j] == mx;
                    assert(!(ids@[j] < verts@.len()));
                }
                assert(!indices_cover(verts@, ids@));
            }
            return Err(FormatError::VertexIndexMismatch);
        }
        proof {
            let j = choose|j: int| 0 <= j < ids@.len() && #[trigger] ids@[j] == mx;
            assert(ids@[j] + 1 == verts@.len());
            assert(indices_cover(verts@, ids@));
        }
        Ok(MeshBuilder { ids, verts })
    }

    /// Packs the mesh into the target collision-mesh layout: triangle
    /// count, vertex count, the flat index buffer, then the coordinate
    /// words of `transformed` — the vertex positions with the caller's
    /// per-instance transform already applied, one for each vertex of the
    /// mesh.  The two counts are written as 32-bit values, so they must
    /// be representable; byte for byte the result is `cmf_bytes`.
    pub fn to_cmf_bytes(&self, transformed: &Vec<Vertex>) -> (r: Vec<u8>)
        requires
            transformed@.len() == self.verts@.len(),
            self.ids@.len() <= 0x7FFF_FFFF,
            self.verts@.len() <= 0x7FFF_FFFF,
        ensures
            r@ == cmf_bytes(self.ids@, transformed@),
            r@.len() == 8 + 4 * self.ids@.len() + 12 * transformed@.len(),
            le32(r@, 0) == (self.ids@.len() / 3) as u32,
            le32(r@, 4) == transformed@.len() as u32,
    {
        let tri: usize = self.ids.len() / 3;
        let ghost header = u32_le_bytes((self.ids@.len() / 3) as u32) + u32_le_bytes(
            transformed@.len() as u32,
        );
        let mut out: Vec<u8> = Vec::new();
        push_u32_le(&mut out, tri as u32);
        push_u32_le(&mut out, transformed.len() as u32);
        assert(out@ =~= header);
        let mut i: usize = 0;
        while i < self.ids.len()
            invariant
                i <= self.ids@.len(),
                self.ids@.len() <= 0x7FFF_FFFF,
                transformed@.len() <= 0x7FFF_FFFF,
                header == u32_le_bytes((self.ids@.len() / 3) as u32) + u32_le_bytes(
                    transformed@.len() as u32,
                ),
                out@ == header + ids_bytes(self.ids@.take(i as int)),
            decreases self.ids@.len() - i,
        {
            push_u32_le(&mut out, self.ids[i]);
            proof {
                lemma_ids_bytes_snoc(self.ids@, i as int);
            }
            i = i + 1;
        }
        proof {
            assert(self.ids@.take(self.ids@.len() as int) =~= self.ids@);
        }
        let ghost mid = header + ids_bytes(self.ids@);
        let mut j: usize = 0;
        while j < transformed.len()
            invariant
                j <= transformed@.len(),
                mid == header + ids_bytes(self.ids@),
                out@ == mid + verts_bytes(transformed@.take(j as int)),
            decreases transformed@.len() - j,
        {
            let v = transformed[j];
            push_u32_le(&mut out, v.x);
            push_u32_le(&mut out, v.y);
            push_u32_le(&mut out, v.z);
            proof {
                lemma_verts_bytes_snoc(transformed@, j as int);
                assert(out@ =~= mid + verts_bytes(transformed@.take(j as int + 1)));
            }
            j = j + 1;
        }
        proof {
            assert(transformed@.take(transformed@.len() as int) =~= transformed@);
            assert(out@ =~= cmf_bytes(self.ids@, transformed@));
            lemma_ids_bytes_len(self.ids@);
            lemma_verts_bytes_len(transformed@);
            assert(out@.subrange(0, 4) =~= u32_le_bytes((self.ids@.len() / 3) as u32));
            assert(out@.subrange(4, 8) =~= u32_le_bytes(transformed@.len() as u32));
            crate::codec::lemma_le32_of_u32_le_bytes(out@, 0, (self.ids@.len() / 3) as u32);
            crate::codec::lemma_le32_of_u32_le_bytes(out@, 4, transformed@.len() as u32);
        }
        out
    }

    /// Packs the mesh into the two raw buffers of the alternative binary
    /// output: the index buffer as little-endian 32-bit values, and the
    /// untransformed coordinate words, twelve bytes per vertex.
    pub fn to_bin_bytes(&self) -> (r: [Vec<u8>; 2])
        ensures
            r[0]@ == ids_bytes(self.ids@),
            r[1]@ == verts_bytes(self.verts@),
    {
        let mut id_out: Vec<u8> = Vec::new();
        let mut i: usize = 0;
        while i < self.ids.len()
            invariant
                i <= self.ids@.len(),
                id_out@ == ids_bytes(self.ids@.take(i as int)),
            decreases self.ids@.len() - i,
        {
            push_u32_le(&mut id_out, self.ids[i]);
            proof {
                lemma_ids_bytes_snoc(self.ids@, i as int);
                assert(id_out@ =~= ids_bytes(self.ids@.take(i as int + 1)));
            }
            i = i + 1;
        }
        let mut vert_out: Vec<u8> = Vec::new();
        let mut j: usize = 0;
        while j < self.verts.len()
            invariant
                j <= self.verts@.len(),
                vert_out@ == verts_bytes(self.verts@.take(j as int)),
            decreases self.verts@.len() - j,
        {
            let v = self.verts[j];
            push_u32_le(&mut vert_out, v.x);
            push_u32_le(&mut vert_out, v.y);
            push_u32_le(&mut vert_out, v.z);
            proof {
                lemma_verts_bytes_snoc(self.verts@, j as int);
                assert(vert_out@ =~= verts_bytes(self.verts@.take(j as int + 1)));
            }
            j = j + 1;
        }
        proof {
            assert(self.ids@.take(self.ids@.len() as int) =~= self.ids@);
            assert(self.verts@.take(self.verts@.len() as int) =~= self.verts@);
        }
        [id_out, vert_out]
    }
}

} // verus!
