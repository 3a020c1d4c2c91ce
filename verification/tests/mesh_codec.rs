use yuumi::codec::{
    deserialize_mesh, deserialize_texture, serialize_mesh, serialize_texture, SerializedTexture,
};
use yuumi::error::EngineError;
use yuumi::mesh::{dedup_mesh, MeshData};
use yuumi::vertex::{Vec2Bits, Vec3Bits, Vertex};

fn vert(tag: u32) -> Vertex {
    Vertex {
        pos: Vec3Bits { x: tag, y: tag + 1, z: tag + 2 },
        color: Vec3Bits { x: 10 * tag, y: 10 * tag + 1, z: 10 * tag + 2 },
        tex_coord: Vec2Bits { x: 100 * tag, y: 100 * tag + 1 },
    }
}

#[test]
fn dedup_merges_equal_vertices() {
    let a = vert(1);
    let b = vert(2);
    // The raw stream repeats both vertices; compaction keeps one copy of
    // each, in order of first reference.
    let vertices = vec![a, b, a, b];
    let indices = vec![0, 1, 2, 3, 0];
    let out = dedup_mesh(&vertices, &indices);
    assert_eq!(out.vertices, vec![a, b]);
    assert_eq!(out.indices, vec![0, 1, 0, 1, 0]);
}

#[test]
fn dedup_unique_input_is_noop() {
    // Already-unique vertices referenced in first-occurrence order: the
    // compaction returns the input unchanged.
    let vertices = vec![vert(1), vert(2), vert(3)];
    let indices = vec![0, 1, 2, 1, 0];
    let out = dedup_mesh(&vertices, &indices);
    assert_eq!(out.vertices, vertices);
    assert_eq!(out.indices, indices);
}

#[test]
fn dedup_twice_is_idempotent() {
    let a = vert(4);
    let b = vert(7);
    let c = vert(9);
    let vertices = vec![c, a, b, a, c, c];
    let indices = vec![5, 4, 3, 2, 1, 0, 3, 5];
    let once = dedup_mesh(&vertices, &indices);
    let twice = dedup_mesh(&once.vertices, &once.indices);
    assert_eq!(once, twice);
}

#[test]
fn dedup_drops_unreferenced_vertices() {
    let vertices = vec![vert(1), vert(2), vert(3)];
    let indices = vec![2];
    let out = dedup_mesh(&vertices, &indices);
    assert_eq!(out.vertices, vec![vert(3)]);
    assert_eq!(out.indices, vec![0]);
}

#[test]
fn mesh_cache_round_trip_is_bit_exact() {
    // A quiet-NaN bit pattern survives the round trip exactly: the codec
    // works on bit patterns, never on float values.
    let nan_bits = 0x7fc0_0001;
    let mut v = vert(1);
    v.pos.x = nan_bits;
    let mesh = MeshData { vertices: vec![v, vert(2)], indices: vec![0, 1, 0] };
    let bytes = serialize_mesh(&mesh);
    let back = deserialize_mesh(&bytes).unwrap();
    assert_eq!(back, mesh);
    assert_eq!(back.vertices[0].pos.x, nan_bits);
}

#[test]
fn mesh_cache_layout_is_fixed() {
    let mesh = MeshData { vertices: vec![vert(1)], indices: vec![0] };
    let bytes = serialize_mesh(&mesh);
    // Header: one vertex, one index; then 32 vertex bytes and 4 index bytes.
    assert_eq!(bytes.len(), 8 + 32 + 4);
    assert_eq!(&bytes[0..4], &[1, 0, 0, 0]);
    assert_eq!(&bytes[4..8], &[1, 0, 0, 0]);
    // The first vertex word is pos.x = 1, little endian.
    assert_eq!(&bytes[8..12], &[1, 0, 0, 0]);
    // The index word is 0.
    assert_eq!(&bytes[40..44], &[0, 0, 0, 0]);
}

#[test]
fn empty_mesh_round_trips() {
    let mesh = MeshData { vertices: vec![], indices: vec![] };
    let bytes = serialize_mesh(&mesh);
    assert_eq!(bytes.len(), 8);
    let back = deserialize_mesh(&bytes).unwrap();
    assert_eq!(back, mesh);
}

#[test]
fn truncated_mesh_blob_is_rejected() {
    assert_eq!(deserialize_mesh(&vec![1, 2, 3]), Err(EngineError::MalformedCache));
}

#[test]
fn mesh_blob_with_wrong_length_is_rejected() {
    let mesh = MeshData { vertices: vec![vert(1)], indices: vec![0] };
    let mut bytes = serialize_mesh(&mesh);
    bytes.push(0);
    assert_eq!(deserialize_mesh(&bytes), Err(EngineError::MalformedCache));
}

#[test]
fn texture_cache_round_trip_is_bit_exact() {
    let texture = SerializedTexture { width: 3, height: 2, pixels: vec![9, 8, 7, 6, 5, 4] };
    let bytes = serialize_texture(&texture);
    assert_eq!(bytes.len(), 8 + 6);
    let back = deserialize_texture(&bytes).unwrap();
    assert_eq!(back, texture);
}

#[test]
fn truncated_texture_blob_is_rejected() {
    assert_eq!(deserialize_texture(&vec![0, 0, 1]), Err(EngineError::MalformedCache));
}
