use scene_codec_boundary::error::DecodeError;
use scene_codec_boundary::mesh::{build_mesh_body, flatten_vertex_stream, load_ctm, Vertex};
use std::io::Cursor;

fn vertex(x: f32, y: f32, z: f32) -> Vertex {
    Vertex { x: x.to_bits(), y: y.to_bits(), z: z.to_bits() }
}

#[test]
fn flatten_interleaves_in_record_order() {
    let vs = vec![vertex(1.0, 2.0, 3.0), vertex(4.0, 5.0, 6.0)];
    let flat = flatten_vertex_stream(&vs);
    let expect: Vec<u32> =
        [1.0f32, 2.0, 3.0, 4.0, 5.0, 6.0].iter().map(|c| c.to_bits()).collect();
    assert_eq!(flat, expect);
}

#[test]
fn mesh_body_buffer_lengths() {
    let vs = vec![vertex(0.0, 0.0, 0.0), vertex(1.0, 0.0, 0.0), vertex(0.0, 1.0, 0.0)];
    let indices: Vec<u32> = vec![0, 1, 2];
    let body = build_mesh_body(&vs, &indices);
    assert_eq!(body.vertices.len(), 4 * 3 * vs.len());
    assert_eq!(body.indices.len(), 4 * indices.len());
    assert!(body.normals.is_empty());
    assert!(body.uv_maps.is_empty());
}

#[test]
fn mesh_body_vertex_bytes_reread_as_float_triples() {
    let coords = [(0.25f32, -1.5f32, 8.0f32), (2.0, 0.125, -0.0)];
    let vs: Vec<Vertex> = coords.iter().map(|&(x, y, z)| vertex(x, y, z)).collect();
    let body = build_mesh_body(&vs, &vec![0u32]);
    for (i, &(x, y, z)) in coords.iter().enumerate() {
        let at = |j: usize| {
            let mut four = [0u8; 4];
            four.copy_from_slice(&body.vertices[4 * j..4 * j + 4]);
            f32::from_le_bytes(four)
        };
        assert_eq!(at(3 * i), x);
        assert_eq!(at(3 * i + 1), y);
        assert_eq!(at(3 * i + 2), z);
    }
}

// --- crafting a minimal OpenCTM (MG1) stream for the end-to-end cases ---

/// The MG1 forward index delta transform (the codec restores it on decode).
fn delta_encode_indices(indices: &[u32]) -> Vec<u32> {
    let n = indices.len() / 3;
    let mut out = indices.to_vec();
    for i in 0..n {
        let v1 = indices[i * 3];
        if i >= 1 {
            out[i * 3] = v1.wrapping_sub(indices[(i - 1) * 3]);
        }
        out[i * 3 + 2] = indices[i * 3 + 2].wrapping_sub(v1);
        if i >= 1 && v1 == indices[(i - 1) * 3] {
            out[i * 3 + 1] = indices[i * 3 + 1].wrapping_sub(indices[(i - 1) * 3 + 1]);
        } else {
            out[i * 3 + 1] = indices[i * 3 + 1].wrapping_sub(v1);
        }
    }
    out
}

/// Pack words the way the codec unpacks them: four big-endian byte planes,
/// component-major, LZMA-compressed with the size kept out of band.
fn pack_words(words: &[u32], count: usize, size: usize) -> Vec<u8> {
    let plane = count * size;
    let mut planes = vec![0u8; plane * 4];
    for i in 0..count {
        for k in 0..size {
            let w = words[i * size + k];
            let pos = k * count + i;
            planes[pos] = (w >> 24) as u8;
            planes[plane + pos] = (w >> 16) as u8;
            planes[2 * plane + pos] = (w >> 8) as u8;
            planes[3 * plane + pos] = w as u8;
        }
    }
    let mut lzma = Vec::new();
    lzma_rs::lzma_compress(&mut Cursor::new(&planes), &mut lzma).unwrap();
    // lzma-rs writes 5 props bytes and an 8-byte size; the CTM layout carries
    // the size elsewhere, so emit packed length, props, then the raw stream.
    let props = &lzma[..5];
    let data = &lzma[13..];
    let mut out = Vec::new();
    out.extend_from_slice(&(data.len() as u32).to_le_bytes());
    out.extend_from_slice(props);
    out.extend_from_slice(data);
    out
}

fn ctm_blob(positions: &[(f32, f32, f32)], indices: &[u32]) -> Vec<u8> {
    let mut b = Vec::new();
    b.extend_from_slice(b"OCTM");
    b.extend_from_slice(&5u32.to_le_bytes());
    b.extend_from_slice(b"MG1\0");
    b.extend_from_slice(&(positions.len() as u32).to_le_bytes());
    b.extend_from_slice(&((indices.len() / 3) as u32).to_le_bytes());
    b.extend_from_slice(&0u32.to_le_bytes()); // uv map count
    b.extend_from_slice(&0u32.to_le_bytes()); // attribute map count
    b.extend_from_slice(&0u32.to_le_bytes()); // flags: no normals
    b.extend_from_slice(&0u32.to_le_bytes()); // empty comment string
    b.extend_from_slice(b"INDX");
    b.extend_from_slice(&pack_words(&delta_encode_indices(indices), indices.len() / 3, 3));
    b.extend_from_slice(b"VERT");
    let coord_words: Vec<u32> = positions
        .iter()
        .flat_map(|&(x, y, z)| [x.to_bits(), y.to_bits(), z.to_bits()])
        .collect();
    b.extend_from_slice(&pack_words(&coord_words, coord_words.len(), 1));
    b
}

#[test]
fn two_triangle_mesh_end_to_end() {
    let positions = [(0.0f32, 0.0f32, 0.0f32), (1.0, 0.0, 0.0), (0.0, 1.0, 0.0), (1.0, 1.0, 0.0)];
    let indices: Vec<u32> = vec![0, 1, 2, 1, 3, 2];
    let blob = ctm_blob(&positions, &indices);

    let ctm = load_ctm(&blob).unwrap();
    assert_eq!(ctm.body.vertices.len(), 48);
    assert_eq!(ctm.body.indices.len(), 24);
    assert!(ctm.body.normals.is_empty());
    assert!(ctm.body.uv_maps.is_empty());

    let decoded_indices: Vec<u32> = ctm
        .body
        .indices
        .chunks_exact(4)
        .map(|c| u32::from_le_bytes([c[0], c[1], c[2], c[3]]))
        .collect();
    assert_eq!(decoded_indices, indices);

    let decoded_coords: Vec<f32> = ctm
        .body
        .vertices
        .chunks_exact(4)
        .map(|c| f32::from_le_bytes([c[0], c[1], c[2], c[3]]))
        .collect();
    let expect: Vec<f32> = positions.iter().flat_map(|&(x, y, z)| [x, y, z]).collect();
    assert_eq!(decoded_coords, expect);
}

#[test]
fn truncated_header_fails_with_codec_error() {
    let r = load_ctm(&b"OCTM".to_vec());
    assert!(matches!(r, Err(DecodeError::CodecDecode { .. })));
}

#[test]
fn wrong_magic_fails_with_codec_error() {
    let positions = [(0.0f32, 0.0f32, 0.0f32), (1.0, 0.0, 0.0), (0.0, 1.0, 0.0)];
    let mut blob = ctm_blob(&positions, &[0, 1, 2]);
    blob[0] = b'X';
    let r = load_ctm(&blob);
    assert!(matches!(r, Err(DecodeError::CodecDecode { .. })));
}

#[test]
fn truncated_body_fails_with_codec_error() {
    let positions = [(0.0f32, 0.0f32, 0.0f32), (1.0, 0.0, 0.0), (0.0, 1.0, 0.0)];
    let blob = ctm_blob(&positions, &[0, 1, 2]);
    let r = load_ctm(&blob[..blob.len() - 6].to_vec());
    assert!(matches!(r, Err(DecodeError::CodecDecode { .. })));
}

#[test]
fn empty_mesh_is_rejected() {
    let positions = [(0.0f32, 0.0f32, 0.0f32)];
    // a stream whose header declares no triangles is structurally invalid
    let mut blob = Vec::new();
    blob.extend_from_slice(b"OCTM");
    blob.extend_from_slice(&5u32.to_le_bytes());
    blob.extend_from_slice(b"MG1\0");
    blob.extend_from_slice(&(positions.len() as u32).to_le_bytes());
    blob.extend_from_slice(&0u32.to_le_bytes());
    blob.extend_from_slice(&0u32.to_le_bytes());
    blob.extend_from_slice(&0u32.to_le_bytes());
    blob.extend_from_slice(&0u32.to_le_bytes());
    blob.extend_from_slice(&0u32.to_le_bytes());
    let r = load_ctm(&blob);
    assert!(matches!(r, Err(DecodeError::CodecDecode { .. })));
}

#[test]
fn decode_error_describe_reports_stage() {
    let r = load_ctm(&b"OCTM".to_vec());
    let e = r.err().unwrap();
    assert!(!e.describe().is_empty());
}
