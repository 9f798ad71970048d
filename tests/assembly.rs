use obj_loader::float_bits::{canonical_float, canonicalize_nans};
use obj_loader::{build_mesh, ObjLoaderError, RawSubMesh};

fn bits(values: &[f32]) -> Vec<u32> {
    values.iter().map(|x| x.to_bits()).collect()
}

fn sub(
    positions: &[f32],
    normals: &[f32],
    texcoords: &[f32],
    indices: &[u32],
    face_arities: &[u32],
) -> RawSubMesh {
    RawSubMesh {
        positions: bits(positions),
        normals: bits(normals),
        texcoords: bits(texcoords),
        indices: indices.to_vec(),
        face_arities: face_arities.to_vec(),
    }
}

fn triple(x: f32, y: f32, z: f32) -> (u32, u32, u32) {
    (x.to_bits(), y.to_bits(), z.to_bits())
}

const TRI: [f32; 9] = [0.0, 0.0, 0.0, 1.0, 0.0, 0.0, 0.0, 1.0, 0.0];
const UP: [f32; 9] = [0.0, 0.0, 1.0, 0.0, 0.0, 1.0, 0.0, 0.0, 1.0];
const QUAD: [f32; 12] = [0.0, 0.0, 0.0, 1.0, 0.0, 0.0, 1.0, 1.0, 0.0, 0.0, 1.0, 0.0];
const QUAD_UP: [f32; 12] = [0.0, 0.0, 1.0, 0.0, 0.0, 1.0, 0.0, 0.0, 1.0, 0.0, 0.0, 1.0];

#[test]
fn second_object_indices_moved_up() {
    let a = sub(&TRI, &UP, &[], &[0, 1, 2], &[]);
    let b = sub(&QUAD, &QUAD_UP, &[], &[0, 1, 2, 0, 2, 3], &[]);
    let m = build_mesh(&vec![a, b]).unwrap();
    assert_eq!(m.indices, vec![0, 1, 2, 3, 4, 5, 3, 5, 6]);
    assert_eq!(m.positions.len(), 7);
    assert_eq!(m.positions[3], triple(0.0, 0.0, 0.0));
    assert_eq!(m.positions[5], triple(1.0, 1.0, 0.0));
    assert_eq!(m.normals.unwrap().len(), 7);
    assert_eq!(m.texcoords, None);
}

#[test]
fn quad_is_fanned() {
    let q = sub(&QUAD, &QUAD_UP, &[], &[0, 1, 2, 3], &[4]);
    let m = build_mesh(&vec![q]).unwrap();
    assert_eq!(m.indices, vec![0, 1, 2, 0, 2, 3]);
    assert_eq!(m.positions.len(), 4);
}

#[test]
fn pentagon_is_fanned_from_first_corner() {
    let p: Vec<f32> = (0..15).map(|k| k as f32).collect();
    let n: Vec<f32> = vec![0.0; 15];
    let s = sub(&p, &n, &[], &[4, 3, 2, 1, 0], &[5]);
    let m = build_mesh(&vec![s]).unwrap();
    assert_eq!(m.indices, vec![4, 3, 2, 4, 2, 1, 4, 1, 0]);
}

#[test]
fn mixed_faces_are_fanned_in_order() {
    let p: Vec<f32> = (0..15).map(|k| k as f32).collect();
    let n: Vec<f32> = vec![0.0; 15];
    let s = sub(&p, &n, &[], &[0, 1, 2, 1, 2, 3, 4], &[3, 4]);
    let m = build_mesh(&vec![s]).unwrap();
    assert_eq!(m.indices, vec![0, 1, 2, 1, 2, 3, 1, 3, 4]);
}

#[test]
fn points_and_lines_give_no_triangle() {
    let s = sub(&TRI, &UP, &[], &[0, 0, 1, 0, 1, 2], &[1, 2, 3]);
    let m = build_mesh(&vec![s]).unwrap();
    assert_eq!(m.indices, vec![0, 1, 2]);
}

#[test]
fn missing_normals_unshare_vertices() {
    let uv = [0.0, 0.0, 1.0, 0.0, 1.0, 1.0, 0.0, 1.0];
    let q = sub(&QUAD, &[], &uv, &[0, 1, 2, 0, 2, 3], &[]);
    let m = build_mesh(&vec![q]).unwrap();
    assert_eq!(m.normals, None);
    assert_eq!(m.indices, vec![0, 1, 2, 3, 4, 5]);
    assert_eq!(m.positions.len(), 6);
    assert_eq!(m.positions[3], triple(0.0, 0.0, 0.0));
    assert_eq!(m.positions[4], triple(1.0, 1.0, 0.0));
    assert_eq!(m.positions[5], triple(0.0, 1.0, 0.0));
    let t = m.texcoords.unwrap();
    assert_eq!(t.len(), 6);
    assert_eq!(t[5], (0.0f32.to_bits(), 1.0f32.to_bits()));
}

#[test]
fn texcoords_are_kept_as_read() {
    let uv = [0.25, 0.75, 0.5, 0.5, 1.0, 0.0];
    let s = sub(&TRI, &UP, &uv, &[0, 1, 2], &[]);
    let m = build_mesh(&vec![s]).unwrap();
    let t = m.texcoords.unwrap();
    assert_eq!(t[0], (0.25f32.to_bits(), 0.75f32.to_bits()));
    assert_eq!(t[2], (1.0f32.to_bits(), 0.0f32.to_bits()));
}

#[test]
fn no_objects_give_empty_mesh() {
    let m = build_mesh(&vec![]).unwrap();
    assert!(m.positions.is_empty());
    assert!(m.indices.is_empty());
    assert_eq!(m.normals, None);
    assert_eq!(m.texcoords, None);
}

#[test]
fn index_past_last_vertex_is_inconsistent() {
    let s = sub(&TRI, &[], &[], &[0, 1, 3], &[]);
    assert_eq!(build_mesh(&vec![s]), Err(ObjLoaderError::InternalInconsistency));
}

#[test]
fn positions_not_in_triples_are_inconsistent() {
    let s = sub(&TRI[..8], &[], &[], &[0, 1, 1], &[]);
    assert_eq!(build_mesh(&vec![s]), Err(ObjLoaderError::InternalInconsistency));
}

#[test]
fn short_normal_buffer_is_inconsistent() {
    let s = sub(&TRI, &UP[..6], &[], &[0, 1, 2], &[]);
    assert_eq!(build_mesh(&vec![s]), Err(ObjLoaderError::InternalInconsistency));
}

#[test]
fn arities_not_matching_indices_are_inconsistent() {
    let s = sub(&QUAD, &[], &[], &[0, 1, 2, 3], &[3]);
    assert_eq!(build_mesh(&vec![s]), Err(ObjLoaderError::InternalInconsistency));
}

#[test]
fn partial_triangle_is_inconsistent() {
    let s = sub(&QUAD, &[], &[], &[0, 1, 2, 3], &[]);
    assert_eq!(build_mesh(&vec![s]), Err(ObjLoaderError::InternalInconsistency));
}

#[test]
fn normals_on_one_object_only_are_inconsistent() {
    let a = sub(&TRI, &UP, &[], &[0, 1, 2], &[]);
    let b = sub(&TRI, &[], &[], &[0, 1, 2], &[]);
    assert_eq!(build_mesh(&vec![a, b]), Err(ObjLoaderError::InternalInconsistency));
}

#[test]
fn nan_payloads_collapse_to_one_pattern() {
    assert_eq!(canonical_float(0xffc0_0001), 0x7fc0_0000);
    assert_eq!(canonical_float(0x7f80_0001), 0x7fc0_0000);
    assert_eq!(canonical_float(f32::INFINITY.to_bits()), f32::INFINITY.to_bits());
    assert_eq!(canonical_float(1.5f32.to_bits()), 1.5f32.to_bits());
}

#[test]
fn canonicalize_nans_keeps_indices() {
    let mut s = sub(&TRI, &UP, &[0.5, 0.5, 0.0, 1.0, 1.0, 0.0], &[0, 1, 2], &[]);
    s.positions[0] = 0xffff_ffff;
    s.texcoords[1] = 0x7f80_0002;
    let c = canonicalize_nans(&vec![s.clone()]);
    assert_eq!(c.len(), 1);
    assert_eq!(c[0].positions[0], 0x7fc0_0000);
    assert_eq!(c[0].positions[1..], s.positions[1..]);
    assert_eq!(c[0].texcoords[1], 0x7fc0_0000);
    assert_eq!(c[0].normals, s.normals);
    assert_eq!(c[0].indices, s.indices);
    assert_eq!(c[0].face_arities, s.face_arities);
}
