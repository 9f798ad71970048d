use vstd::prelude::*;

verus! {

/// The parser's error, carried through unchanged.
#[verifier::external_type_specification]
#[verifier::external_body]
pub struct ExLoadError(tobj::LoadError);

/// Why a file could not be turned into a mesh.
#[derive(Debug, PartialEq)]
pub enum ObjLoaderError {
    /// The text does not follow the file grammar.
    InvalidFile(tobj::LoadError),
    /// A face refers to a texture coordinate or normal by an index of more
    /// than nine digits, or by a relative index that reaches before the
    /// first one (see `face_refs`).
    FaceIndexOutOfRange,
    /// A vertex count of the mesh does not fit 32-bit indices.
    IndexOverflow,
    /// The parser handed over attribute arrays that disagree with each other.
    InternalInconsistency,
}

} // verus!
