//! The on-disk cache codec: a fixed little-endian byte layout for compacted
//! meshes and for raw textures, with a proved round trip.
//!
//! A mesh blob is an eight-byte header (vertex count, index count, each a
//! little-endian 32-bit word) followed by the vertices (eight words each)
//! and the indices (one word each).  A texture blob is width and height
//! followed by the raw pixel bytes.

use vstd::bytes::{
    lemma_auto_spec_u32_to_from_le_bytes, spec_u32_from_le_bytes, spec_u32_to_le_bytes,
    u32_from_le_bytes, u32_to_le_bytes,
};
use vstd::prelude::*;
use vstd::slice::slice_subrange;

use crate::error::EngineError;
use crate::mesh::MeshData;
use crate::vertex::{Vec2Bits, Vec3Bits, Vertex};

verus! {

/// The 32-byte encoding of one vertex: its eight components as
/// little-endian words, position, color, then texture coordinates.
pub open spec fn spec_vertex_bytes(v: Vertex) -> Seq<u8> {
    spec_u32_to_le_bytes(v.pos.x) + spec_u32_to_le_bytes(v.pos.y) + spec_u32_to_le_bytes(v.pos.z)
        + spec_u32_to_le_bytes(v.color.x) + spec_u32_to_le_bytes(v.color.y) + spec_u32_to_le_bytes(
        v.color.z,
    ) + spec_u32_to_le_bytes(v.tex_coord.x) + spec_u32_to_le_bytes(v.tex_coord.y)
}

/// The word at offset `4 * i` of `s`.
pub open spec fn spec_word_at(s: Seq<u8>, i: int) -> u32 {
    spec_u32_from_le_bytes(s.subrange(4 * i, 4 * i + 4))
}

/// The vertex read back from a 32-byte encoding.
pub open spec fn spec_vertex_from_bytes(s: Seq<u8>) -> Vertex {
    Vertex {
        pos: Vec3Bits { x: spec_word_at(s, 0), y: spec_word_at(s, 1), z: spec_word_at(s, 2) },
        color: Vec3Bits { x: spec_word_at(s, 3), y: spec_word_at(s, 4), z: spec_word_at(s, 5) },
        tex_coord: Vec2Bits { x: spec_word_at(s, 6), y: spec_word_at(s, 7) },
    }
}

/// The concatenated encodings of a vertex list.
pub open spec fn spec_vertices_bytes(vs: Seq<Vertex>) -> Seq<u8>
    decreases vs.len(),
{
    if vs.len() == 0 {
        Seq::empty()
    } else {
        spec_vertices_bytes(vs.drop_last()) + spec_vertex_bytes(vs.last())
    }
}

/// The concatenated encodings of a word list (mesh indices, matrix entries).
pub open spec fn spec_words_bytes(ixs: Seq<u32>) -> Seq<u8>
    decreases ixs.len(),
{
    if ixs.len() == 0 {
        Seq::empty()
    } else {
        spec_words_bytes(ixs.drop_last()) + spec_u32_to_le_bytes(ixs.last())
    }
}

/// The serialized form of a mesh: counts, vertices, indices.
pub open spec fn spec_serialize_mesh(vs: Seq<Vertex>, ixs: Seq<u32>) -> Seq<u8> {
    spec_u32_to_le_bytes(vs.len() as u32) + spec_u32_to_le_bytes(ixs.len() as u32)
        + spec_vertices_bytes(vs) + spec_words_bytes(ixs)
}

/// The parse of a mesh blob: the counts must account for the blob's exact
/// length, and the payload is read back word by word.
pub open spec fn spec_deserialize_mesh(bytes: Seq<u8>) -> Option<(Seq<Vertex>, Seq<u32>)> {
    if bytes.len() < 8 {
        None
    } else {
        let vc = spec_u32_from_le_bytes(bytes.subrange(0, 4)) as int;
        let ic = spec_u32_from_le_bytes(bytes.subrange(4, 8)) as int;
        if bytes.len() == 8 + 32 * vc + 4 * ic {
            Some(
                (
                    Seq::new(
                        vc as nat,
                        |p: int| spec_vertex_from_bytes(bytes.subrange(8 + 32 * p, 8 + 32 * p + 32)),
                    ),
                    Seq::new(
                        ic as nat,
                        |k: int|
                            spec_u32_from_le_bytes(
                                bytes.subrange(8 + 32 * vc + 4 * k, 8 + 32 * vc + 4 * k + 4),
                            ),
                    ),
                ),
            )
        } else {
            None
        }
    }
}

/// A vertex list's encoding is 32 bytes per vertex.
pub proof fn lemma_vertices_bytes_len(vs: Seq<Vertex>)
    ensures
        spec_vertices_bytes(vs).len() == 32 * vs.len(),
    decreases vs.len(),
{
    lemma_auto_spec_u32_to_from_le_bytes();
    if vs.len() > 0 {
        lemma_vertices_bytes_len(vs.drop_last());
    }
}

/// An index list's encoding is 4 bytes per index.
pub proof fn lemma_words_bytes_len(ixs: Seq<u32>)
    ensures
        spec_words_bytes(ixs).len() == 4 * ixs.len(),
    decreases ixs.len(),
{
    lemma_auto_spec_u32_to_from_le_bytes();
    if ixs.len() > 0 {
        lemma_words_bytes_len(ixs.drop_last());
    }
}

/// The encoding of vertex `p` sits at offset `32 * p` of the list encoding.
proof fn lemma_vertices_bytes_index(vs: Seq<Vertex>, p: int)
    requires
        0 <= p < vs.len(),
    ensures
        spec_vertices_bytes(vs).subrange(32 * p, 32 * p + 32) == spec_vertex_bytes(vs[p]),
    decreases vs.len(),
{
    lemma_auto_spec_u32_to_from_le_bytes();
    lemma_vertices_bytes_len(vs.drop_last());
    if p == vs.len() - 1 {
        assert(spec_vertices_bytes(vs).subrange(32 * p, 32 * p + 32) =~= spec_vertex_bytes(
            vs.last(),
        ));
    } else {
        lemma_vertices_bytes_index(vs.drop_last(), p);
        assert(spec_vertices_bytes(vs).subrange(32 * p, 32 * p + 32) =~= spec_vertices_bytes(
            vs.drop_last(),
        ).subrange(32 * p, 32 * p + 32));
    }
}

/// The encoding of index `k` sits at offset `4 * k` of the list encoding.
pub proof fn lemma_words_bytes_index(ixs: Seq<u32>, k: int)
    requires
        0 <= k < ixs.len(),
    ensures
        spec_words_bytes(ixs).subrange(4 * k, 4 * k + 4) == spec_u32_to_le_bytes(ixs[k]),
    decreases ixs.len(),
{
    lemma_auto_spec_u32_to_from_le_bytes();
    lemma_words_bytes_len(ixs.drop_last());
    if k == ixs.len() - 1 {
        assert(spec_words_bytes(ixs).subrange(4 * k, 4 * k + 4) =~= spec_u32_to_le_bytes(
            ixs.last(),
        ));
    } else {
        lemma_words_bytes_index(ixs.drop_last(), k);
        assert(spec_words_bytes(ixs).subrange(4 * k, 4 * k + 4) =~= spec_words_bytes(
            ixs.drop_last(),
        ).subrange(4 * k, 4 * k + 4));
    }
}

/// Reading a vertex encoding back yields the vertex.
proof fn lemma_vertex_round_trip(v: Vertex)
    ensures
        spec_vertex_bytes(v).len() == 32,
        spec_vertex_from_bytes(spec_vertex_bytes(v)) == v,
{
    lemma_auto_spec_u32_to_from_le_bytes();
    let s = spec_vertex_bytes(v);
    assert(s.subrange(0, 4) =~= spec_u32_to_le_bytes(v.pos.x));
    assert(s.subrange(4, 8) =~= spec_u32_to_le_bytes(v.pos.y));
    assert(s.subrange(8, 12) =~= spec_u32_to_le_bytes(v.pos.z));
    assert(s.subrange(12, 16) =~= spec_u32_to_le_bytes(v.color.x));
    assert(s.subrange(16, 20) =~= spec_u32_to_le_bytes(v.color.y));
    assert(s.subrange(20, 24) =~= spec_u32_to_le_bytes(v.color.z));
    assert(s.subrange(24, 28) =~= spec_u32_to_le_bytes(v.tex_coord.x));
    assert(s.subrange(28, 32) =~= spec_u32_to_le_bytes(v.tex_coord.y));
}

/// Deserializing a just-serialized mesh reproduces the exact vertex and
/// index lists.
pub proof fn lemma_mesh_round_trip(vs: Seq<Vertex>, ixs: Seq<u32>)
    requires
        vs.len() <= 0xffff_ffff,
        ixs.len() <= 0xffff_ffff,
    ensures
        spec_deserialize_mesh(spec_serialize_mesh(vs, ixs)) == Some((vs, ixs)),
{
    lemma_auto_spec_u32_to_from_le_bytes();
    lemma_vertices_bytes_len(vs);
    lemma_words_bytes_len(ixs);
    let bytes = spec_serialize_mesh(vs, ixs);
    assert(bytes.subrange(0, 4) =~= spec_u32_to_le_bytes(vs.len() as u32));
    assert(bytes.subrange(4, 8) =~= spec_u32_to_le_bytes(ixs.len() as u32));
    let vc = vs.len() as int;
    let ic = ixs.len() as int;
    assert(bytes.len() == 8 + 32 * vc + 4 * ic);
    let parsed = spec_deserialize_mesh(bytes).unwrap();
    assert forall|p: int| 0 <= p < vc implies parsed.0[p] == vs[p] by {
        lemma_vertices_bytes_index(vs, p);
        lemma_vertex_round_trip(vs[p]);
        assert(bytes.subrange(8 + 32 * p, 8 + 32 * p + 32) =~= spec_vertices_bytes(vs).subrange(
            32 * p,
            32 * p + 32,
        ));
    }
    assert forall|k: int| 0 <= k < ic implies parsed.1[k] == ixs[k] by {
        lemma_words_bytes_index(ixs, k);
        assert(bytes.subrange(8 + 32 * vc + 4 * k, 8 + 32 * vc + 4 * k + 4)
            =~= spec_words_bytes(ixs).subrange(4 * k, 4 * k + 4));
    }
    assert(parsed.0 =~= vs);
    assert(parsed.1 =~= ixs);
}

/// Appends the little-endian encoding of `x` to `out`.
pub(crate) fn push_u32(out: &mut Vec<u8>, x: u32)
    ensures
        final(out)@ == old(out)@ + spec_u32_to_le_bytes(x),
{
    let mut bytes = u32_to_le_bytes(x);
    out.append(&mut bytes);
}

/// Appends the 32-byte encoding of `v` to `out`.
fn push_vertex(out: &mut Vec<u8>, v: &Vertex)
    ensures
        final(out)@ == old(out)@ + spec_vertex_bytes(*v),
{
    let ghost start = out@;
    push_u32(out, v.pos.x);
    push_u32(out, v.pos.y);
    push_u32(out, v.pos.z);
    push_u32(out, v.color.x);
    push_u32(out, v.color.y);
    push_u32(out, v.color.z);
    push_u32(out, v.tex_coord.x);
    push_u32(out, v.tex_coord.y);
    proof {
        assert(out@ =~= start + spec_vertex_bytes(*v));
    }
}

/// Reads the word at byte offset `off`.
pub(crate) fn read_u32_at(bytes: &Vec<u8>, off: usize) -> (r: u32)
    requires
        off + 4 <= bytes@.len(),
    ensures
        r == spec_u32_from_le_bytes(bytes@.subrange(off as int, off as int + 4)),
{
    // Binding the length teaches the verifier that it fits in a machine
    // word, which rules out overflow in the offset arithmetic below.
    let _len = bytes.len();
    u32_from_le_bytes(slice_subrange(bytes.as_slice(), off, off + 4))
}

/// Serializes a mesh into the cache layout.
pub fn serialize_mesh(m: &MeshData) -> (r: Vec<u8>)
    requires
        m.vertices@.len() <= 0xffff_ffff,
        m.indices@.len() <= 0xffff_ffff,
        8 + 32 * m.vertices@.len() + 4 * m.indices@.len() <= usize::MAX,
    ensures
        r@ == spec_serialize_mesh(m.vertices@, m.indices@),
{
    let mut out: Vec<u8> = Vec::new();
    push_u32(&mut out, m.vertices.len() as u32);
    push_u32(&mut out, m.indices.len() as u32);
    let ghost header = out@;
    let vn = m.vertices.len();
    let mut p: usize = 0;
    proof {
        assert(m.vertices@.take(0) =~= Seq::<Vertex>::empty());
        assert(out@ =~= header + spec_vertices_bytes(m.vertices@.take(0)));
    }
    while p < vn
        invariant
            vn == m.vertices@.len(),
            p <= vn,
            header == spec_u32_to_le_bytes(m.vertices@.len() as u32) + spec_u32_to_le_bytes(
                m.indices@.len() as u32,
            ),
            out@ == header + spec_vertices_bytes(m.vertices@.take(p as int)),
        decreases vn - p,
    {
        push_vertex(&mut out, &m.vertices[p]);
        proof {
            let taken = m.vertices@.take(p + 1);
            assert(taken.drop_last() =~= m.vertices@.take(p as int));
            assert(taken.last() == m.vertices@[p as int]);
            assert(out@ =~= header + spec_vertices_bytes(taken));
        }
        p = p + 1;
    }
    proof {
        assert(m.vertices@.take(vn as int) =~= m.vertices@);
    }
    let ghost with_vertices = out@;
    let in_ = m.indices.len();
    let mut k: usize = 0;
    proof {
        assert(m.indices@.take(0) =~= Seq::<u32>::empty());
        assert(out@ =~= with_vertices + spec_words_bytes(m.indices@.take(0)));
    }
    while k < in_
        invariant
            in_ == m.indices@.len(),
            k <= in_,
            with_vertices == spec_u32_to_le_bytes(m.vertices@.len() as u32)
                + spec_u32_to_le_bytes(m.indices@.len() as u32) + spec_vertices_bytes(m.vertices@),
            out@ == with_vertices + spec_words_bytes(m.indices@.take(k as int)),
        decreases in_ - k,
    {
        push_u32(&mut out, m.indices[k]);
        proof {
            let taken = m.indices@.take(k + 1);
            assert(taken.drop_last() =~= m.indices@.take(k as int));
            assert(taken.last() == m.indices@[k as int]);
            assert(out@ =~= with_vertices + spec_words_bytes(taken));
        }
        k = k + 1;
    }
    proof {
        assert(m.indices@.take(in_ as int) =~= m.indices@);
        assert(out@ =~= spec_serialize_mesh(m.vertices@, m.indices@));
    }
    out
}

/// Parses a mesh blob.  Succeeds exactly on blobs whose header counts
/// account for the blob's length; the result then reproduces the encoded
/// lists.
pub fn deserialize_mesh(bytes: &Vec<u8>) -> (r: Result<MeshData, EngineError>)
    ensures
        match r {
            Ok(m) => spec_deserialize_mesh(bytes@) == Some((m.vertices@, m.indices@)),
            Err(e) => {
                &&& spec_deserialize_mesh(bytes@) is None
                &&& e == EngineError::MalformedCache
            },
        },
{
    if bytes.len() < 8 {
        return Err(EngineError::MalformedCache);
    }
    let vc = read_u32_at(bytes, 0);
    let ic = read_u32_at(bytes, 4);
    if (bytes.len() as u64) != 8u64 + 32u64 * (vc as u64) + 4u64 * (ic as u64) {
        return Err(EngineError::MalformedCache);
    }
    let vn = vc as usize;
    let in_ = ic as usize;
    let total = bytes.len();
    let ghost parsed = spec_deserialize_mesh(bytes@).unwrap();
    let mut vertices: Vec<Vertex> = Vec::new();
    let mut p: usize = 0;
    while p < vn
        invariant
            vn == spec_u32_from_le_bytes(bytes@.subrange(0, 4)) as int,
            in_ == spec_u32_from_le_bytes(bytes@.subrange(4, 8)) as int,
            bytes@.len() == 8 + 32 * vn + 4 * in_,
            total == bytes@.len(),
            parsed == spec_deserialize_mesh(bytes@).unwrap(),
            spec_deserialize_mesh(bytes@) is Some,
            p <= vn,
            vertices@.len() == p,
            forall|q: int| 0 <= q < p ==> vertices@[q] == parsed.0[q],
        decreases vn - p,
    {
        let base = 8 + 32 * p;
        let x0 = read_u32_at(bytes, base);
        let x1 = read_u32_at(bytes, base + 4);
        let x2 = read_u32_at(bytes, base + 8);
        let x3 = read_u32_at(bytes, base + 12);
        let x4 = read_u32_at(bytes, base + 16);
        let x5 = read_u32_at(bytes, base + 20);
        let x6 = read_u32_at(bytes, base + 24);
        let x7 = read_u32_at(bytes, base + 28);
        let v = Vertex {
            pos: Vec3Bits { x: x0, y: x1, z: x2 },
            color: Vec3Bits { x: x3, y: x4, z: x5 },
            tex_coord: Vec2Bits { x: x6, y: x7 },
        };
        proof {
            let enc = bytes@.subrange(8 + 32 * p, 8 + 32 * p + 32);
            let b = 8 + 32 * (p as int);
            assert(enc.subrange(0, 4) =~= bytes@.subrange(b, b + 4));
            assert(enc.subrange(4, 8) =~= bytes@.subrange(b + 4, b + 8));
            assert(enc.subrange(8, 12) =~= bytes@.subrange(b + 8, b + 12));
            assert(enc.subrange(12, 16) =~= bytes@.subrange(b + 12, b + 16));
            assert(enc.subrange(16, 20) =~= bytes@.subrange(b + 16, b + 20));
            assert(enc.subrange(20, 24) =~= bytes@.subrange(b + 20, b + 24));
            assert(enc.subrange(24, 28) =~= bytes@.subrange(b + 24, b + 28));
            assert(enc.subrange(28, 32) =~= bytes@.subrange(b + 28, b + 32));
            assert(v == spec_vertex_from_bytes(enc));
            assert(parsed.0[p as int] == spec_vertex_from_bytes(enc));
        }
        vertices.push(v);
        p = p + 1;
    }
    let mut indices: Vec<u32> = Vec::new();
    let mut k: usize = 0;
    while k < in_
        invariant
            vn == spec_u32_from_le_bytes(bytes@.subrange(0, 4)) as int,
            in_ == spec_u32_from_le_bytes(bytes@.subrange(4, 8)) as int,
            bytes@.len() == 8 + 32 * vn + 4 * in_,
            total == bytes@.len(),
            parsed == spec_deserialize_mesh(bytes@).unwrap(),
            spec_deserialize_mesh(bytes@) is Some,
            k <= in_,
            indices@.len() == k,
            forall|q: int| 0 <= q < k ==> indices@[q] == parsed.1[q],
        decreases in_ - k,
    {
        let x = read_u32_at(bytes, 8 + 32 * vn + 4 * k);
        indices.push(x);
        k = k + 1;
    }
    proof {
        assert(vertices@ =~= parsed.0);
        assert(indices@ =~= parsed.1);
    }
    Ok(MeshData { vertices, indices })
}

/// A raw texture in its normalized shape: pixel dimensions and the RGBA
/// pixel bytes.
#[derive(Clone, Debug, PartialEq)]
pub struct SerializedTexture {
    pub width: u32,
    pub height: u32,
    pub pixels: Vec<u8>,
}

/// The serialized form of a texture: width, height, then the pixel bytes.
pub open spec fn spec_serialize_texture(width: u32, height: u32, pixels: Seq<u8>) -> Seq<u8> {
    spec_u32_to_le_bytes(width) + spec_u32_to_le_bytes(height) + pixels
}

/// The parse of a texture blob: an eight-byte header, the rest is pixels.
pub open spec fn spec_deserialize_texture(bytes: Seq<u8>) -> Option<(u32, u32, Seq<u8>)> {
    if bytes.len() < 8 {
        None
    } else {
        Some(
            (
                spec_u32_from_le_bytes(bytes.subrange(0, 4)),
                spec_u32_from_le_bytes(bytes.subrange(4, 8)),
                bytes.skip(8),
            ),
        )
    }
}

/// Deserializing a just-serialized texture reproduces the dimensions and
/// the exact pixel bytes.
pub proof fn lemma_texture_round_trip(width: u32, height: u32, pixels: Seq<u8>)
    ensures
        spec_deserialize_texture(spec_serialize_texture(width, height, pixels)) == Some(
            (width, height, pixels),
        ),
{
    lemma_auto_spec_u32_to_from_le_bytes();
    let bytes = spec_serialize_texture(width, height, pixels);
    assert(bytes.subrange(0, 4) =~= spec_u32_to_le_bytes(width));
    assert(bytes.subrange(4, 8) =~= spec_u32_to_le_bytes(height));
    assert(bytes.skip(8) =~= pixels);
}

/// Serializes a texture into the cache layout.
pub fn serialize_texture(t: &SerializedTexture) -> (r: Vec<u8>)
    requires
        8 + t.pixels@.len() <= usize::MAX,
    ensures
        r@ == spec_serialize_texture(t.width, t.height, t.pixels@),
{
    let mut out: Vec<u8> = Vec::new();
    push_u32(&mut out, t.width);
    push_u32(&mut out, t.height);
    let ghost header = out@;
    let n = t.pixels.len();
    let mut i: usize = 0;
    while i < n
        invariant
            n == t.pixels@.len(),
            i <= n,
            header == spec_u32_to_le_bytes(t.width) + spec_u32_to_le_bytes(t.height),
            out@ == header + t.pixels@.take(i as int),
        decreases n - i,
    {
        let b = t.pixels[i];
        out.push(b);
        proof {
            assert(out@ =~= header + t.pixels@.take(i + 1));
        }
        i = i + 1;
    }
    proof {
        assert(t.pixels@.take(n as int) =~= t.pixels@);
    }
    out
}

/// Parses a texture blob.  Succeeds exactly on blobs holding at least the
/// eight-byte header; the result reproduces the encoded fields.
pub fn deserialize_texture(bytes: &Vec<u8>) -> (r: Result<SerializedTexture, EngineError>)
    ensures
        match r {
            Ok(t) => spec_deserialize_texture(bytes@) == Some((t.width, t.height, t.pixels@)),
            Err(e) => {
                &&& spec_deserialize_texture(bytes@) is None
                &&& e == EngineError::MalformedCache
            },
        },
{
    if bytes.len() < 8 {
        return Err(EngineError::MalformedCache);
    }
    let width = read_u32_at(bytes, 0);
    let height = read_u32_at(bytes, 4);
    let n = bytes.len();
    let mut pixels: Vec<u8> = Vec::new();
    let mut i: usize = 8;
    proof {
        assert(pixels@ =~= bytes@.subrange(8, 8));
    }
    while i < n
        invariant
            n == bytes@.len(),
            8 <= i <= n,
            pixels@ == bytes@.subrange(8, i as int),
        decreases n - i,
    {
        let b = bytes[i];
        pixels.push(b);
        proof {
            assert(pixels@ =~= bytes@.subrange(8, i + 1));
        }
        i = i + 1;
    }
    proof {
        assert(bytes@.subrange(8, n as int) =~= bytes@.skip(8));
    }
    Ok(SerializedTexture { width, height, pixels })
}

} // verus!
