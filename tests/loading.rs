use obj_loader::face_refs::face_refs_checked;
use obj_loader::{load_obj_from_bytes, ObjLoaderError, ObjLoaderPlugin};

fn triple(x: f32, y: f32, z: f32) -> (u32, u32, u32) {
    (x.to_bits(), y.to_bits(), z.to_bits())
}

#[test]
fn single_triangle_end_to_end() {
    let text = b"v 0 0 0\nv 1 0 0\nv 0 1 0\nf 1 2 3\n";
    let m = load_obj_from_bytes(text).unwrap();
    assert_eq!(m.positions.len(), 3);
    assert_eq!(m.indices, vec![0, 1, 2]);
    assert_eq!(
        m.positions,
        vec![triple(0.0, 0.0, 0.0), triple(1.0, 0.0, 0.0), triple(0.0, 1.0, 0.0)]
    );
    // no normals in the file: flat normals are due, one triangle per vertex triple
    assert_eq!(m.normals, None);
    assert_eq!(m.texcoords, None);
}

#[test]
fn file_normals_are_kept_without_duplication() {
    let text = b"v 0 0 0\nv 1 0 0\nv 1 1 0\nv 0 1 0\nvn 0 0 1\nf 1//1 2//1 3//1\nf 1//1 3//1 4//1\n";
    let m = load_obj_from_bytes(text).unwrap();
    assert_eq!(m.positions.len(), 4);
    assert_eq!(m.indices, vec![0, 1, 2, 0, 2, 3]);
    let n = m.normals.unwrap();
    assert_eq!(n.len(), 4);
    assert!(n.iter().all(|v| *v == triple(0.0, 0.0, 1.0)));
}

#[test]
fn texcoords_from_file() {
    let text = b"v 0 0 0\nv 1 0 0\nv 0 1 0\nvt 0.25 0.75\nvt 1 0\nvt 0 1\nvn 0 0 1\nf 1/1/1 2/2/1 3/3/1\n";
    let m = load_obj_from_bytes(text).unwrap();
    let t = m.texcoords.unwrap();
    assert_eq!(t.len(), 3);
    assert_eq!(t[0], (0.25f32.to_bits(), 0.75f32.to_bits()));
    assert_eq!(t[1], (1.0f32.to_bits(), 0.0f32.to_bits()));
}

#[test]
fn two_objects_are_merged() {
    let text = b"o a\nv 0 0 0\nv 1 0 0\nv 0 1 0\nvn 0 0 1\nf 1//1 2//1 3//1\n\
o b\nv 0 0 1\nv 1 0 1\nv 1 1 1\nv 0 1 1\nf 4//1 5//1 6//1 7//1\n";
    let m = load_obj_from_bytes(text).unwrap();
    assert_eq!(m.positions.len(), 7);
    assert_eq!(m.indices, vec![0, 1, 2, 3, 4, 5, 3, 5, 6]);
    assert_eq!(m.positions[3], triple(0.0, 0.0, 1.0));
    assert_eq!(m.normals.unwrap().len(), 7);
}

#[test]
fn loading_twice_gives_the_same_mesh() {
    let text = b"v 0 0 0\nv 1 0 0\nv 1 1 0\nv 0 1 0\nvt 0 0\nf 1/1 2/1 3/1 4/1\n";
    let first = load_obj_from_bytes(text).unwrap();
    let second = load_obj_from_bytes(text).unwrap();
    assert_eq!(first, second);
    assert_eq!(first.positions.len(), 6);
    assert_eq!(first.indices, vec![0, 1, 2, 3, 4, 5]);
}

#[test]
fn file_without_faces_gives_empty_mesh() {
    let m = load_obj_from_bytes(b"v 0 0 0\nv 1 0 0\nvn 0 0 1\n").unwrap();
    assert!(m.indices.is_empty());
    assert!(m.positions.is_empty());
    assert_eq!(m.normals, None);
    assert_eq!(m.texcoords, None);
}

#[test]
fn empty_file_gives_empty_mesh() {
    let m = load_obj_from_bytes(b"").unwrap();
    assert!(m.indices.is_empty());
    assert!(m.positions.is_empty());
}

#[test]
fn malformed_number_is_invalid_file() {
    let r = load_obj_from_bytes(b"v 0 x 0\n");
    assert!(matches!(r, Err(ObjLoaderError::InvalidFile(_))));
}

#[test]
fn face_past_last_vertex_is_invalid_file() {
    let r = load_obj_from_bytes(b"v 0 0 0\nv 1 0 0\nv 0 1 0\nf 1 2 9\n");
    assert!(matches!(r, Err(ObjLoaderError::InvalidFile(_))));
}

#[test]
fn loader_claims_obj_extension() {
    assert_eq!(ObjLoaderPlugin.extensions(), vec!["obj"]);
    assert_eq!(ObjLoaderPlugin::default().extensions().len(), 1);
}

#[test]
fn huge_normal_index_is_refused() {
    let r = load_obj_from_bytes(b"v 0 0 0\nvn 0 0 1\nf 1//6148914691236517206 1//1 1//1\n");
    assert_eq!(r, Err(ObjLoaderError::FaceIndexOutOfRange));
}

#[test]
fn ten_digit_texcoord_index_is_refused() {
    let r = load_obj_from_bytes(b"v 0 0 0\nvt 0 0\nf 1/1234567890 1/1 1/1\n");
    assert_eq!(r, Err(ObjLoaderError::FaceIndexOutOfRange));
}

#[test]
fn relative_normal_before_first_is_refused() {
    let r = load_obj_from_bytes(b"v 0 0 0\nvn 0 0 1\nf 1//-5 1//1 1//1\n");
    assert_eq!(r, Err(ObjLoaderError::FaceIndexOutOfRange));
}

#[test]
fn relative_texcoord_before_first_is_refused() {
    let r = load_obj_from_bytes(b"v 0 0 0\nf 1/-1 1/-1 1/-1\nvt 0 0\n");
    assert_eq!(r, Err(ObjLoaderError::FaceIndexOutOfRange));
}

#[test]
fn relative_indices_within_range_load() {
    let text = b"v 0 0 0\nv 1 0 0\nv 0 1 0\nvt 0 0\nvt 1 0\nvt 0 1\nvn 0 0 1\n\
f -3/-3/-1 -2/-2/-1 -1/-1/-1\n";
    let m = load_obj_from_bytes(text).unwrap();
    assert_eq!(m.positions.len(), 3);
    assert_eq!(m.indices, vec![0, 1, 2]);
    assert_eq!(m.positions[1], triple(1.0, 0.0, 0.0));
    assert_eq!(m.texcoords.unwrap()[1], (1.0f32.to_bits(), 0.0f32.to_bits()));
    assert_eq!(m.normals.unwrap().len(), 3);
}

#[test]
fn computed_nan_is_collapsed() {
    let m = load_obj_from_bytes(b"v inf 0 0 inf\nf 1 1 1\n").unwrap();
    assert_eq!(m.positions.len(), 3);
    assert_eq!(m.positions[0].0, 0x7fc0_0000);
    assert_eq!(m.positions[0].1, 0.0f32.to_bits());
}

#[test]
fn reference_scan_reads_only_face_lines() {
    assert!(face_refs_checked(b"# see a/-5\ng part/-7\nv 0 0 0\n"));
    assert!(face_refs_checked(b"vt 0 0\nvt 1 0\nf 1/-2 1/-1 1/-1\n"));
    assert!(!face_refs_checked(b"vt 0 0\nf 1/-2 1/-1 1/-1\n"));
    assert!(!face_refs_checked(b"vn 0 0 1\nl 1//0000000001 1//1\n"));
    assert!(face_refs_checked(b"vn 0 0 1\nf 1//999999999 1//1 1//1\n"));
    assert!(face_refs_checked(b""));
}
