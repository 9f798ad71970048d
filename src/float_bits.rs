//! Floats as bit patterns, with every NaN collapsed to one pattern: the
//! payload and sign of a NaN that arithmetic produces differ between
//! machines, every other bit pattern does not.

use vstd::prelude::*;

use crate::mesh::{sub_views, RawSubMesh, RawSubMeshView};

verus! {

/// The quiet NaN that stands for every NaN.
pub const CANONICAL_NAN: u32 = 0x7fc0_0000;

/// The exponent bits are all set and the mantissa is not zero.
pub open spec fn is_nan_bits(x: u32) -> bool {
    (x / 0x80_0000) % 0x100 == 0xff && x % 0x80_0000 != 0
}

pub open spec fn canonical_bits(x: u32) -> u32 {
    if is_nan_bits(x) {
        CANONICAL_NAN
    } else {
        x
    }
}

pub open spec fn canonical_floats(s: Seq<u32>) -> Seq<u32> {
    s.map_values(|x: u32| canonical_bits(x))
}

/// An object with its NaNs collapsed; indices and arities as they are.
pub open spec fn canonical_sub(s: RawSubMeshView) -> RawSubMeshView {
    RawSubMeshView {
        positions: canonical_floats(s.positions),
        normals: canonical_floats(s.normals),
        texcoords: canonical_floats(s.texcoords),
        ..s
    }
}

pub open spec fn canonical_subs(subs: Seq<RawSubMeshView>) -> Seq<RawSubMeshView> {
    subs.map_values(|s: RawSubMeshView| canonical_sub(s))
}

/// The bit pattern of a float, with a NaN replaced by [`CANONICAL_NAN`].
pub fn canonical_float(x: u32) -> (r: u32)
    ensures
        r == canonical_bits(x),
{
    if (x / 0x80_0000) % 0x100 == 0xff && x % 0x80_0000 != 0 {
        CANONICAL_NAN
    } else {
        x
    }
}

fn canonicalized(v: &Vec<u32>) -> (r: Vec<u32>)
    ensures
        r@ == canonical_floats(v@),
{
    let mut r: Vec<u32> = Vec::new();
    let mut k: usize = 0;
    while k < v.len()
        invariant
            k <= v.len(),
            r@ =~= canonical_floats(v@).subrange(0, k as int),
        decreases v.len() - k,
    {
        r.push(canonical_float(v[k]));
        k = k + 1;
    }
    r
}

fn copied(v: &Vec<u32>) -> (r: Vec<u32>)
    ensures
        r@ == v@,
{
    let mut r: Vec<u32> = Vec::new();
    let mut k: usize = 0;
    while k < v.len()
        invariant
            k <= v.len(),
            r@ =~= v@.subrange(0, k as int),
        decreases v.len() - k,
    {
        r.push(v[k]);
        k = k + 1;
    }
    r
}

/// The objects with every NaN in their positions, normals and texture
/// coordinates replaced by [`CANONICAL_NAN`].
pub fn canonicalize_nans(subs: &Vec<RawSubMesh>) -> (r: Vec<RawSubMesh>)
    ensures
        sub_views(r@) == canonical_subs(sub_views(subs@)),
{
    let mut r: Vec<RawSubMesh> = Vec::new();
    let mut i: usize = 0;
    while i < subs.len()
        invariant
            i <= subs.len(),
            sub_views(r@) =~= canonical_subs(sub_views(subs@)).subrange(0, i as int),
        decreases subs.len() - i,
    {
        let s = &subs[i];
        let c = RawSubMesh {
            positions: canonicalized(&s.positions),
            normals: canonicalized(&s.normals),
            texcoords: canonicalized(&s.texcoords),
            indices: copied(&s.indices),
            face_arities: copied(&s.face_arities),
        };
        let ghost prev = r@;
        r.push(c);
        proof {
            assert(c@ == canonical_sub(s@));
            assert(sub_views(subs@)[i as int] == s@);
            assert(sub_views(r@) =~= sub_views(prev).push(c@));
        }
        i = i + 1;
    }
    assert(sub_views(r@) =~= canonical_subs(sub_views(subs@)));
    r
}

} // verus!
