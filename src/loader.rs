use vstd::prelude::*;

use crate::error::ObjLoaderError;
use crate::face_refs::{face_refs_checked, face_refs_in_range};
use crate::float_bits::{canonical_subs, canonicalize_nans};
use crate::mesh::{
    build_mesh, build_outcome, outcome_view, sub_views, MeshView, ObjMesh, RawSubMesh,
    RawSubMeshView,
};

verus! {

/// The objects that the parser reads from a file's bytes, with every NaN
/// collapsed to one bit pattern, or `None` where it refuses the bytes.
pub uninterp spec fn parsed_objects(bytes: Seq<u8>) -> Option<Seq<RawSubMeshView>>;

/// Relies on `tobj::load_obj_buf` with one index per vertex and faces left
/// untriangulated: it returns the file's objects in order, or its error, and
/// which of the two depends on the bytes alone (up to the bits of a NaN).
/// Material libraries are not loaded; floats are passed on as their bit
/// patterns. The parser computes `3 * vn + 2` and `2 * vt + 1` on normal and
/// texture-coordinate indices unchecked, so the text must pass the reference
/// scan first.
#[verifier::external_body]
fn parse_objects(bytes: &[u8]) -> (r: Result<Vec<RawSubMesh>, tobj::LoadError>)
    requires
        face_refs_in_range(bytes@),
    ensures
        match r {
            Ok(subs) => parsed_objects(bytes@) == Some(canonical_subs(sub_views(subs@))),
            Err(_) => parsed_objects(bytes@) is None,
        },
{
    let options = tobj::LoadOptions { single_index: true, triangulate: false, ..Default::default() };
    let mut reader = bytes;
    let (models, _) = tobj::load_obj_buf(&mut reader, &options, |_| Err(tobj::LoadError::GenericFailure))?;
    Ok(models.into_iter().map(|m| RawSubMesh {
        positions: m.mesh.positions.iter().map(|x| x.to_bits()).collect(),
        normals: m.mesh.normals.iter().map(|x| x.to_bits()).collect(),
        texcoords: m.mesh.texcoords.iter().map(|x| x.to_bits()).collect(),
        indices: m.mesh.indices,
        face_arities: m.mesh.face_arities,
    }).collect())
}

/// `r` is what loading `bytes` gives: a refusal of a face reference, the
/// parser's refusal, or the mesh assembled from the objects it read.
pub open spec fn load_outcome(bytes: Seq<u8>, r: Result<MeshView, ObjLoaderError>) -> bool {
    if !face_refs_in_range(bytes) {
        r == Err::<MeshView, ObjLoaderError>(ObjLoaderError::FaceIndexOutOfRange)
    } else {
        match parsed_objects(bytes) {
            None => r matches Err(ObjLoaderError::InvalidFile(_)),
            Some(subs) => r == build_outcome(subs),
        }
    }
}

/// Reads a whole `.obj` file from memory into one triangle-list mesh.
pub fn load_obj_from_bytes(bytes: &[u8]) -> (r: Result<ObjMesh, ObjLoaderError>)
    ensures
        load_outcome(bytes@, outcome_view(r)),
{
    if !face_refs_checked(bytes) {
        return Err(ObjLoaderError::FaceIndexOutOfRange);
    }
    match parse_objects(bytes) {
        Ok(raw) => {
            let subs = canonicalize_nans(&raw);
            build_mesh(&subs)
        },
        Err(e) => Err(ObjLoaderError::InvalidFile(e)),
    }
}

/// Loading depends on the bytes alone: two loads of one buffer either both
/// meet the parser's refusal or give the same result, mesh for mesh.
pub proof fn lemma_load_repeatable(
    bytes: Seq<u8>,
    r1: Result<MeshView, ObjLoaderError>,
    r2: Result<MeshView, ObjLoaderError>,
)
    requires
        load_outcome(bytes, r1),
        load_outcome(bytes, r2),
    ensures
        r1 is Ok <==> r2 is Ok,
        !(r1 matches Err(ObjLoaderError::InvalidFile(_))) ==> r1 == r2,
        r1 matches Err(ObjLoaderError::InvalidFile(_)) <==> r2 matches Err(
            ObjLoaderError::InvalidFile(_),
        ),
{
}

/// The loader's registration: it claims files by extension.
#[derive(Default)]
pub struct ObjLoaderPlugin;

impl ObjLoaderPlugin {
    /// The file extensions this loader owns.
    pub fn extensions(&self) -> (r: Vec<&'static str>)
        ensures
            r@.len() == 1,
            r@[0]@ == "obj"@,
    {
        let r: Vec<&'static str> = vec!["obj"];
        proof {
            reveal_strlit("obj");
        }
        r
    }
}

} // verus!
