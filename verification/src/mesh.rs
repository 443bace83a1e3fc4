//! Mesh decode and flatten.
//!
//! The mesh codec hands back structured per-vertex coordinate records and a
//! triangle-index list. This module flattens the records into one contiguous
//! x, y, z, x, y, z, ... stream, serialises both buffers as little-endian
//! bytes, and packages them in the envelope the host expects. Vertex
//! coordinates are carried as the IEEE-754 bit patterns of their 32-bit
//! floating-point values, so the byte output is exactly the coordinates'
//! little-endian encoding.

use vstd::prelude::*;
use crate::encoding::{
    le_bytes_of_words, words_of_le_bytes, encode_words_le, lemma_le_bytes_len,
    lemma_words_round_trip,
};
use crate::error::DecodeError;

verus! {

/// One decoded vertex record: the IEEE-754 bit patterns of its three
/// 32-bit coordinates.
#[derive(Clone, Copy, PartialEq, Eq, Structural, Debug)]
pub struct Vertex {
    pub x: u32,
    pub y: u32,
    pub z: u32,
}

impl Vertex {
    /// The record as a plain coordinate triple.
    pub open spec fn triple(self) -> (u32, u32, u32) {
        (self.x, self.y, self.z)
    }
}

/// One per-vertex texture-coordinate map: a raw coordinate byte buffer.
#[derive(Clone, PartialEq, Eq, Debug)]
pub struct UvMap {
    pub uv: Vec<u8>,
}

/// The three parallel mesh buffers handed to the host: little-endian index
/// bytes, little-endian vertex-coordinate bytes, and the (deliberately empty)
/// normal and texture-coordinate collections.
#[derive(Clone, PartialEq, Eq, Debug)]
pub struct Body {
    pub indices: Vec<u8>,
    pub vertices: Vec<u8>,
    pub normals: Vec<u8>,
    pub uv_maps: Vec<UvMap>,
}

/// The packaging envelope wrapping one mesh body for transfer.
#[derive(Clone, PartialEq, Eq, Debug)]
pub struct Ctm {
    pub body: Body,
}

/// The flat coordinate stream of a vertex-record sequence: each record's
/// three fields in x, y, z order, record after record.
pub open spec fn flatten_triples(ts: Seq<(u32, u32, u32)>) -> Seq<u32>
    decreases ts.len(),
{
    if ts.len() == 0 {
        Seq::empty()
    } else {
        seq![ts[0].0, ts[0].1, ts[0].2] + flatten_triples(ts.drop_first())
    }
}

/// The flat stream is three words per record.
pub proof fn lemma_flatten_len(ts: Seq<(u32, u32, u32)>)
    ensures
        flatten_triples(ts).len() == 3 * ts.len(),
    decreases ts.len(),
{
    if ts.len() > 0 {
        lemma_flatten_len(ts.drop_first());
    }
}

/// Appending one record appends its three fields.
pub proof fn lemma_flatten_push(ts: Seq<(u32, u32, u32)>, t: (u32, u32, u32))
    ensures
        flatten_triples(ts.push(t)) == flatten_triples(ts) + seq![t.0, t.1, t.2],
    decreases ts.len(),
{
    assert(ts.push(t)[0] == if ts.len() == 0 { t } else { ts[0] });
    if ts.len() == 0 {
        assert(ts.push(t).drop_first() =~= Seq::<(u32, u32, u32)>::empty());
        assert(flatten_triples(Seq::<(u32, u32, u32)>::empty()) == Seq::<u32>::empty());
        assert(flatten_triples(ts.push(t)) =~= flatten_triples(ts) + seq![t.0, t.1, t.2]);
    } else {
        assert(ts.push(t).drop_first() =~= ts.drop_first().push(t));
        lemma_flatten_push(ts.drop_first(), t);
        assert(flatten_triples(ts.push(t)) =~= flatten_triples(ts) + seq![t.0, t.1, t.2]);
    }
}

/// Record `i`'s fields sit at stream positions `3 i`, `3 i + 1`, `3 i + 2`.
pub proof fn lemma_flatten_index(ts: Seq<(u32, u32, u32)>, i: int)
    requires
        0 <= i < ts.len(),
    ensures
        flatten_triples(ts)[3 * i] == ts[i].0,
        flatten_triples(ts)[3 * i + 1] == ts[i].1,
        flatten_triples(ts)[3 * i + 2] == ts[i].2,
    decreases i,
{
    lemma_flatten_len(ts.drop_first());
    if i > 0 {
        lemma_flatten_index(ts.drop_first(), i - 1);
    }
}

/// The coordinate triples of a vertex-record sequence.
pub open spec fn triples_of(vs: Seq<Vertex>) -> Seq<(u32, u32, u32)> {
    vs.map_values(|v: Vertex| v.triple())
}

/// Flatten vertex records into one contiguous coordinate stream, each
/// record's x, y, z in record order.
pub fn flatten_vertex_stream(vertices: &Vec<Vertex>) -> (flat: Vec<u32>)
    ensures
        flat@ == flatten_triples(triples_of(vertices@)),
        flat@.len() == 3 * vertices@.len(),
{
    let mut flat: Vec<u32> = Vec::new();
    let mut i: usize = 0;
    while i < vertices.len()
        invariant
            i <= vertices@.len(),
            flat@ == flatten_triples(triples_of(vertices@.take(i as int))),
            flat@.len() == 3 * i,
        decreases vertices@.len() - i,
    {
        let v = vertices[i];
        flat.push(v.x);
        flat.push(v.y);
        flat.push(v.z);
        proof {
            assert(triples_of(vertices@.take(i as int + 1)) =~= triples_of(
                vertices@.take(i as int),
            ).push(vertices@[i as int].triple()));
            lemma_flatten_push(
                triples_of(vertices@.take(i as int)),
                vertices@[i as int].triple(),
            );
            assert(flat@ =~= flatten_triples(triples_of(vertices@.take(i as int + 1))));
        }
        i = i + 1;
    }
    proof {
        assert(vertices@.take(vertices@.len() as int) =~= vertices@);
    }
    flat
}

/// Package decoded mesh data as the host-facing buffers: vertex records
/// flattened and serialised little-endian, indices serialised little-endian
/// in their original order, normals and texture maps left empty.
pub fn build_mesh_body(vertices: &Vec<Vertex>, indices: &Vec<u32>) -> (body: Body)
    ensures
        body.vertices@ == le_bytes_of_words(flatten_triples(triples_of(vertices@))),
        body.indices@ == le_bytes_of_words(indices@),
        body.vertices@.len() == 12 * vertices@.len(),
        body.indices@.len() == 4 * indices@.len(),
        body.normals@.len() == 0,
        body.uv_maps@.len() == 0,
{
    let flat = flatten_vertex_stream(vertices);
    let vertex_bytes = encode_words_le(&flat);
    let index_bytes = encode_words_le(indices);
    Body {
        indices: index_bytes,
        vertices: vertex_bytes,
        normals: Vec::new(),
        uv_maps: Vec::new(),
    }
}

/// For every decoded mesh, the serialised vertex buffer holds exactly
/// 4 × 3 × vertexCount bytes and the index buffer exactly 4 × indexCount
/// bytes.
pub proof fn lemma_mesh_buffer_lengths(ts: Seq<(u32, u32, u32)>, indices: Seq<u32>)
    ensures
        le_bytes_of_words(flatten_triples(ts)).len() == 12 * ts.len(),
        le_bytes_of_words(indices).len() == 4 * indices.len(),
{
    lemma_flatten_len(ts);
    lemma_le_bytes_len(flatten_triples(ts));
    lemma_le_bytes_len(indices);
}

/// Round trip: re-reading a serialised vertex stream as little-endian 32-bit
/// words reproduces every vertex's coordinates bit for bit, in record order —
/// word 3 i is vertex i's x, word 3 i + 1 its y, word 3 i + 2 its z.
pub proof fn lemma_vertex_stream_round_trip(ts: Seq<(u32, u32, u32)>, i: int)
    requires
        0 <= i < ts.len(),
    ensures
        words_of_le_bytes(le_bytes_of_words(flatten_triples(ts))).len() == 3 * ts.len(),
        words_of_le_bytes(le_bytes_of_words(flatten_triples(ts)))[3 * i] == ts[i].0,
        words_of_le_bytes(le_bytes_of_words(flatten_triples(ts)))[3 * i + 1] == ts[i].1,
        words_of_le_bytes(le_bytes_of_words(flatten_triples(ts)))[3 * i + 2] == ts[i].2,
{
    lemma_words_round_trip(flatten_triples(ts));
    lemma_flatten_len(ts);
    lemma_flatten_index(ts, i);
}

/// What the mesh codec decodes from a byte stream: the coordinate-triple
/// bit patterns of the vertex records and the triangle-index list when the
/// stream is well-formed, and nothing when the codec rejects it. The decoded
/// mesh is a function of the input bytes alone.
pub uninterp spec fn ctm_mesh_of(b: Seq<u8>) -> Option<(Seq<(u32, u32, u32)>, Seq<u32>)>;

/// Relies on openctm::decode: decodes an OpenCTM mesh from memory, returning
/// its vertex positions and triangle indices; the result depends on the input
/// bytes alone.
#[verifier::external_body]
fn ctm_decode(blob: &Vec<u8>) -> (r: Result<(Vec<Vertex>, Vec<u32>), String>)
    ensures
        match r {
            Ok(m) => ctm_mesh_of(blob@) == Some((triples_of(m.0@), m.1@)),
            Err(_) => ctm_mesh_of(blob@) is None,
        },
{
    match openctm::decode(blob.as_slice()) {
        Ok(mesh) => {
            let vertices = mesh
                .positions
                .iter()
                .map(|p| Vertex { x: p[0].to_bits(), y: p[1].to_bits(), z: p[2].to_bits() })
                .collect();
            Ok((vertices, mesh.indices))
        },
        Err(message) => Err(message),
    }
}

/// Decode a mesh blob and flatten it into the boundary envelope.
///
/// On a well-formed stream the envelope holds the little-endian bytes of the
/// flattened coordinate stream and of the index list, with normals and
/// texture maps deliberately left empty; a rejected stream yields a mesh-codec
/// error and no partial result.
pub fn load_ctm(blob: &Vec<u8>) -> (r: Result<Ctm, DecodeError>)
    ensures
        r is Ok <==> ctm_mesh_of(blob@) is Some,
        r matches Ok(ctm) ==> {
            let m = ctm_mesh_of(blob@)->Some_0;
            &&& ctm.body.vertices@ == le_bytes_of_words(flatten_triples(m.0))
            &&& ctm.body.indices@ == le_bytes_of_words(m.1)
            &&& ctm.body.vertices@.len() == 12 * m.0.len()
            &&& ctm.body.indices@.len() == 4 * m.1.len()
            &&& ctm.body.normals@.len() == 0
            &&& ctm.body.uv_maps@.len() == 0
        },
        r matches Err(e) ==> e is CodecDecode,
{
    match ctm_decode(blob) {
        Ok((vertices, indices)) => {
            let body = build_mesh_body(&vertices, &indices);
            proof {
                lemma_flatten_len(triples_of(vertices@));
                lemma_le_bytes_len(flatten_triples(triples_of(vertices@)));
            }
            Ok(Ctm { body })
        },
        Err(message) => Err(DecodeError::CodecDecode { message }),
    }
}

} // verus!
