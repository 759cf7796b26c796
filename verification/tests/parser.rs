//! Tests for the chunked source-format parser.

use cmf_convert::converter::{read_faces, read_vertices, read_wedges, MeshBuilder};
use cmf_convert::pskx::{FormatError, Vertex};

/// The 32-byte file header: the signature, twelve reserved zero bytes,
/// and twelve unspecified bytes.
fn file_header() -> Vec<u8> {
    let mut v = b"ACTRHEAD".to_vec();
    v.extend_from_slice(&[0u8; 24]);
    v
}

/// A 32-byte chunk header with the given tag, record size and count.
fn chunk_header(tag: &[u8; 8], size: u32, count: u32) -> Vec<u8> {
    let mut v = tag.to_vec();
    v.extend_from_slice(&[0u8; 16]);
    v.extend_from_slice(&size.to_le_bytes());
    v.extend_from_slice(&count.to_le_bytes());
    v
}

fn pnts_chunk(verts: &[[f32; 3]]) -> Vec<u8> {
    let mut v = chunk_header(b"PNTS0000", 12, verts.len() as u32);
    for p in verts {
        for c in p {
            v.extend_from_slice(&c.to_le_bytes());
        }
    }
    v
}

fn vtxw_chunk(refs: &[u32]) -> Vec<u8> {
    let mut v = chunk_header(b"VTXW0000", 16, refs.len() as u32);
    for r in refs {
        v.extend_from_slice(&r.to_le_bytes());
        v.extend_from_slice(&[0u8; 12]);
    }
    v
}

fn face_chunk(faces: &[[u16; 3]]) -> Vec<u8> {
    let mut v = chunk_header(b"FACE0000", 12, faces.len() as u32);
    for f in faces {
        for w in f {
            v.extend_from_slice(&w.to_le_bytes());
        }
        v.extend_from_slice(&[0u8; 6]);
    }
    v
}

/// A small well-formed stream: three vertices, three wedges referencing
/// them in order, one triangle over wedges (0, 1, 2).
fn simple_stream() -> Vec<u8> {
    let mut buf = file_header();
    buf.extend(pnts_chunk(&[[1.0, 2.0, 3.0], [4.0, 5.0, 6.0], [7.0, 8.0, 9.0]]));
    buf.extend(vtxw_chunk(&[0, 1, 2]));
    buf.extend(face_chunk(&[[0, 1, 2]]));
    buf
}

#[test]
fn signature_rejected_with_bad_magic() {
    let mut buf = simple_stream();
    buf[0] = b'X';
    assert_eq!(
        MeshBuilder::from_pskx(&buf),
        Err(FormatError::BadSignature)
    );
}

#[test]
fn signature_rejected_on_short_buffer() {
    assert_eq!(
        MeshBuilder::from_pskx(b"ACTRHEAD"),
        Err(FormatError::BadSignature)
    );
    assert_eq!(MeshBuilder::from_pskx(&[]), Err(FormatError::BadSignature));
}

#[test]
fn signature_rejected_on_nonzero_reserved_byte() {
    let mut buf = simple_stream();
    buf[10] = 7;
    assert_eq!(
        MeshBuilder::from_pskx(&buf),
        Err(FormatError::BadSignature)
    );
}

#[test]
fn header_trailing_bytes_not_load_bearing() {
    let mut buf = simple_stream();
    buf[20] = 0xAB;
    buf[31] = 0xCD;
    assert!(MeshBuilder::from_pskx(&buf).is_ok());
}

#[test]
fn empty_chunk_consumes_header_only() {
    // A chunk with count 0 contributes no payload even though its
    // declared record size is huge; the stream stays in sync.
    let mut buf = file_header();
    buf.extend(chunk_header(b"PNTS0000", 0xFFFF, 0));
    buf.extend(pnts_chunk(&[[1.0, 2.0, 3.0]]));
    buf.extend(vtxw_chunk(&[0]));
    buf.extend(face_chunk(&[[0, 0, 0]]));
    let m = MeshBuilder::from_pskx(&buf).unwrap();
    assert_eq!(m.verts.len(), 1);
    assert_eq!(m.ids, vec![0, 0, 0]);
}

#[test]
fn winding_swap_emits_corners_b_a_c() {
    // Wedge i references vertex i, the face lists wedges (0, 1, 2); the
    // resolved triangle must come out as (1, 0, 2).
    let m = MeshBuilder::from_pskx(&simple_stream()).unwrap();
    assert_eq!(m.ids, vec![1, 0, 2]);
}

#[test]
fn winding_swap_follows_wedge_indirection() {
    // Wedges reference vertices out of order: wedge 0 -> vertex 2,
    // wedge 1 -> vertex 0, wedge 2 -> vertex 1.  Face (0, 1, 2) resolves
    // through wedges (1, 0, 2) to vertices (0, 2, 1).
    let mut buf = file_header();
    buf.extend(pnts_chunk(&[[1.0, 0.0, 0.0], [0.0, 1.0, 0.0], [0.0, 0.0, 1.0]]));
    buf.extend(vtxw_chunk(&[2, 0, 1]));
    buf.extend(face_chunk(&[[0, 1, 2]]));
    let m = MeshBuilder::from_pskx(&buf).unwrap();
    assert_eq!(m.ids, vec![0, 2, 1]);
}

#[test]
fn cross_check_rejects_off_by_one_reference() {
    // Two vertices, but a wedge references vertex index 2 == vertex
    // count: the final cross-check must fail.
    let mut buf = file_header();
    buf.extend(pnts_chunk(&[[1.0, 2.0, 3.0], [4.0, 5.0, 6.0]]));
    buf.extend(vtxw_chunk(&[0, 1, 2]));
    buf.extend(face_chunk(&[[0, 1, 2]]));
    assert_eq!(
        MeshBuilder::from_pskx(&buf),
        Err(FormatError::VertexIndexMismatch)
    );
}

#[test]
fn cross_check_rejects_unreferenced_trailing_vertex() {
    // Three vertices but only the first two are referenced.
    let mut buf = file_header();
    buf.extend(pnts_chunk(&[[1.0, 2.0, 3.0], [4.0, 5.0, 6.0], [7.0, 8.0, 9.0]]));
    buf.extend(vtxw_chunk(&[0, 1]));
    buf.extend(face_chunk(&[[0, 1, 0]]));
    assert_eq!(
        MeshBuilder::from_pskx(&buf),
        Err(FormatError::VertexIndexMismatch)
    );
}

#[test]
fn cross_check_rejects_stream_without_faces() {
    let mut buf = file_header();
    buf.extend(pnts_chunk(&[[1.0, 2.0, 3.0]]));
    assert_eq!(
        MeshBuilder::from_pskx(&buf),
        Err(FormatError::VertexIndexMismatch)
    );
}

#[test]
fn truncated_chunk_payload_detected() {
    // The chunk declares 2 records of 12 bytes but only 10 bytes follow.
    let mut buf = file_header();
    buf.extend(chunk_header(b"PNTS0000", 12, 2));
    buf.extend_from_slice(&[0u8; 10]);
    assert_eq!(
        MeshBuilder::from_pskx(&buf),
        Err(FormatError::TruncatedChunk)
    );
}

#[test]
fn truncated_records_within_payload_detected() {
    // The declared record size is smaller than a point record, so the
    // payload runs out before the declared count of records does.
    let mut buf = file_header();
    buf.extend(chunk_header(b"PNTS0000", 6, 2));
    buf.extend_from_slice(&[0u8; 12]);
    assert_eq!(
        MeshBuilder::from_pskx(&buf),
        Err(FormatError::TruncatedChunk)
    );
}

#[test]
fn huge_declared_payload_detected() {
    // size * count far exceeds the buffer (and any address space); the
    // parser must reject it rather than try to read it.
    let mut buf = file_header();
    buf.extend(chunk_header(b"PNTS0000", u32::MAX, u32::MAX));
    buf.extend_from_slice(&[0u8; 64]);
    assert_eq!(
        MeshBuilder::from_pskx(&buf),
        Err(FormatError::TruncatedChunk)
    );
}

#[test]
fn face_chunk_before_wedges_dangles() {
    let mut buf = file_header();
    buf.extend(pnts_chunk(&[[1.0, 2.0, 3.0]]));
    buf.extend(face_chunk(&[[0, 0, 0]]));
    assert_eq!(
        MeshBuilder::from_pskx(&buf),
        Err(FormatError::DanglingWedgeReference)
    );
}

#[test]
fn face_wedge_index_out_of_range_dangles() {
    let mut buf = file_header();
    buf.extend(pnts_chunk(&[[1.0, 2.0, 3.0], [4.0, 5.0, 6.0]]));
    buf.extend(vtxw_chunk(&[0, 1]));
    buf.extend(face_chunk(&[[0, 1, 2]]));
    assert_eq!(
        MeshBuilder::from_pskx(&buf),
        Err(FormatError::DanglingWedgeReference)
    );
}

#[test]
fn unknown_chunk_skipped_with_payload() {
    let mut buf = file_header();
    buf.extend(chunk_header(b"MATT0000", 5, 3));
    buf.extend_from_slice(&[0xEEu8; 15]);
    buf.extend(pnts_chunk(&[[1.0, 2.0, 3.0]]));
    buf.extend(vtxw_chunk(&[0]));
    buf.extend(face_chunk(&[[0, 0, 0]]));
    let m = MeshBuilder::from_pskx(&buf).unwrap();
    assert_eq!(m.verts.len(), 1);
    assert_eq!(m.ids, vec![0, 0, 0]);
}

#[test]
fn later_chunk_replaces_earlier_state() {
    // A second point chunk replaces the first, as the most recent chunk
    // of each kind is the one that counts.
    let mut buf = file_header();
    buf.extend(pnts_chunk(&[[9.0, 9.0, 9.0], [8.0, 8.0, 8.0]]));
    buf.extend(pnts_chunk(&[[1.0, 2.0, 3.0]]));
    buf.extend(vtxw_chunk(&[0]));
    buf.extend(face_chunk(&[[0, 0, 0]]));
    let m = MeshBuilder::from_pskx(&buf).unwrap();
    assert_eq!(m.verts, vec![Vertex {
        x: 1.0f32.to_bits(),
        y: 2.0f32.to_bits(),
        z: 3.0f32.to_bits(),
    }]);
}

#[test]
fn parse_is_idempotent() {
    let buf = simple_stream();
    let m1 = MeshBuilder::from_pskx(&buf).unwrap();
    let m2 = MeshBuilder::from_pskx(&buf).unwrap();
    assert_eq!(m1.verts, m2.verts);
    assert_eq!(m1.ids, m2.ids);
}

#[test]
fn read_vertices_decodes_float_words() {
    let mut payload = Vec::new();
    for c in [1.5f32, -2.0, 3.25] {
        payload.extend_from_slice(&c.to_le_bytes());
    }
    let v = read_vertices(&payload, 1).unwrap();
    assert_eq!(v, vec![Vertex {
        x: 1.5f32.to_bits(),
        y: (-2.0f32).to_bits(),
        z: 3.25f32.to_bits(),
    }]);
}

#[test]
fn read_vertices_rejects_short_payload() {
    assert_eq!(read_vertices(&[0u8; 13], 2), Err(FormatError::TruncatedChunk));
}

#[test]
fn read_wedges_keeps_leading_index_only() {
    let mut payload = Vec::new();
    payload.extend_from_slice(&7u32.to_le_bytes());
    payload.extend_from_slice(&[0xAAu8; 12]);
    payload.extend_from_slice(&1u32.to_le_bytes());
    payload.extend_from_slice(&[0xBBu8; 12]);
    assert_eq!(read_wedges(&payload, 2).unwrap(), vec![7, 1]);
}

#[test]
fn read_wedges_rejects_short_payload() {
    assert_eq!(read_wedges(&[0u8; 15], 1), Err(FormatError::TruncatedChunk));
}

#[test]
fn read_faces_swaps_first_two_corners() {
    let wedges = vec![10u32, 20, 30, 40];
    let mut payload = Vec::new();
    for w in [3u16, 0, 2] {
        payload.extend_from_slice(&w.to_le_bytes());
    }
    payload.extend_from_slice(&[0u8; 6]);
    assert_eq!(read_faces(&payload, 1, &wedges).unwrap(), vec![10, 40, 30]);
}

#[test]
fn read_faces_rejects_dangling_wedge() {
    let wedges = vec![10u32];
    let mut payload = Vec::new();
    for w in [0u16, 1, 0] {
        payload.extend_from_slice(&w.to_le_bytes());
    }
    payload.extend_from_slice(&[0u8; 6]);
    assert_eq!(
        read_faces(&payload, 1, &wedges),
        Err(FormatError::DanglingWedgeReference)
    );
}

#[test]
fn read_faces_rejects_short_payload() {
    assert_eq!(
        read_faces(&[0u8; 11], 1, &[0u32]),
        Err(FormatError::TruncatedChunk)
    );
}
