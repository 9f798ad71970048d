use vstd::prelude::*;

use crate::error::ObjLoaderError;

verus! {

/// One object of a parsed file: flattened attribute arrays sharing one index
/// space (position, normal and texture coordinate `i` belong to vertex `i`).
/// Floats are held as their bit patterns.
#[derive(Debug, Clone, PartialEq)]
pub struct RawSubMesh {
    /// Three values per vertex.
    pub positions: Vec<u32>,
    /// Three values per vertex, or empty.
    pub normals: Vec<u32>,
    /// Two values (u, v) per vertex, or empty.
    pub texcoords: Vec<u32>,
    /// Vertex indices of the faces, face after face.
    pub indices: Vec<u32>,
    /// Number of vertices of each face; empty when every face is a triangle.
    pub face_arities: Vec<u32>,
}

pub ghost struct RawSubMeshView {
    pub positions: Seq<u32>,
    pub normals: Seq<u32>,
    pub texcoords: Seq<u32>,
    pub indices: Seq<u32>,
    pub face_arities: Seq<u32>,
}

impl View for RawSubMesh {
    type V = RawSubMeshView;

    open spec fn view(&self) -> RawSubMeshView {
        RawSubMeshView {
            positions: self.positions@,
            normals: self.normals@,
            texcoords: self.texcoords@,
            indices: self.indices@,
            face_arities: self.face_arities@,
        }
    }
}

/// The assembled triangle-list mesh.
#[derive(Debug, Clone, PartialEq)]
pub struct ObjMesh {
    /// One `(x, y, z)` per vertex.
    pub positions: Vec<(u32, u32, u32)>,
    /// One normal per vertex; `None` when the file gave none, in which case
    /// no vertex is shared between triangles and flat normals are due.
    pub normals: Option<Vec<(u32, u32, u32)>>,
    /// One `(u, v)` per vertex as read from the file, or `None`.
    pub texcoords: Option<Vec<(u32, u32)>>,
    /// Three indices per triangle.
    pub indices: Vec<u32>,
}

pub ghost struct MeshView {
    pub positions: Seq<(u32, u32, u32)>,
    pub normals: Option<Seq<(u32, u32, u32)>>,
    pub texcoords: Option<Seq<(u32, u32)>>,
    pub indices: Seq<u32>,
}

impl View for ObjMesh {
    type V = MeshView;

    open spec fn view(&self) -> MeshView {
        MeshView {
            positions: self.positions@,
            normals: match self.normals {
                Some(n) => Some(n@),
                None => None,
            },
            texcoords: match self.texcoords {
                Some(t) => Some(t@),
                None => None,
            },
            indices: self.indices@,
        }
    }
}

/// Number of vertices of one object.
pub open spec fn vertex_count(s: RawSubMeshView) -> int {
    (s.positions.len() / 3) as int
}

/// Sum of the face arities.
pub open spec fn arity_sum(ar: Seq<u32>) -> int
    decreases ar.len(),
{
    if ar.len() == 0 {
        0
    } else {
        arity_sum(ar.drop_last()) + ar.last()
    }
}

/// Attribute arrays agree with each other and every index names a vertex.
pub open spec fn sub_consistent(s: RawSubMeshView) -> bool {
    &&& s.positions.len() % 3 == 0
    &&& (s.normals.len() == 0 || s.normals.len() == s.positions.len())
    &&& (s.texcoords.len() == 0 || s.texcoords.len() == 2 * vertex_count(s))
    &&& forall|i: int| 0 <= i < s.indices.len() ==> s.indices[i] < vertex_count(s)
    &&& if s.face_arities.len() == 0 {
        s.indices.len() % 3 == 0
    } else {
        arity_sum(s.face_arities) == s.indices.len()
    }
}

proof fn lemma_arity_sum_prefix(ar: Seq<u32>, i: int)
    requires
        0 <= i <= ar.len(),
    ensures
        arity_sum(ar.subrange(0, i)) <= arity_sum(ar),
        i == ar.len() ==> arity_sum(ar.subrange(0, i)) == arity_sum(ar),
        i < ar.len() ==> arity_sum(ar.subrange(0, i + 1)) == arity_sum(ar.subrange(0, i)) + ar[i],
    decreases ar.len() - i,
{
    if i < ar.len() {
        assert(ar.subrange(0, i + 1).drop_last() =~= ar.subrange(0, i));
        lemma_arity_sum_prefix(ar, i + 1);
    } else {
        assert(ar.subrange(0, i) =~= ar);
    }
}

fn check_sub(s: &RawSubMesh) -> (r: bool)
    ensures
        r == sub_consistent(s@),
{
    let np = s.positions.len();
    if np % 3 != 0 {
        return false;
    }
    if s.normals.len() != 0 && s.normals.len() != np {
        return false;
    }
    let nt = s.texcoords.len();
    if nt != 0 && (nt % 2 != 0 || nt / 2 != np / 3) {
        return false;
    }
    let nv = np / 3;
    let mut i: usize = 0;
    while i < s.indices.len()
        invariant
            i <= s.indices.len(),
            nv == vertex_count(s@),
            np == s.positions.len(),
            np % 3 == 0,
            s.normals.len() == 0 || s.normals.len() == np,
            s.texcoords.len() == 0 || s.texcoords.len() == 2 * vertex_count(s@),
            forall|j: int| 0 <= j < i ==> s.indices@[j] < nv,
        decreases s.indices.len() - i,
    {
        if s.indices[i] as usize >= nv {
            return false;
        }
        i = i + 1;
    }
    let n = s.indices.len();
    if s.face_arities.len() == 0 {
        return n % 3 == 0;
    }
    let mut sum: usize = 0;
    let mut f: usize = 0;
    while f < s.face_arities.len()
        invariant
            f <= s.face_arities.len(),
            n == s.indices.len(),
            s.positions.len() % 3 == 0,
            s.normals.len() == 0 || s.normals.len() == s.positions.len(),
            s.texcoords.len() == 0 || s.texcoords.len() == 2 * vertex_count(s@),
            forall|j: int| 0 <= j < n ==> s.indices@[j] < vertex_count(s@),
            s.face_arities.len() > 0,
            sum <= n,
            sum == arity_sum(s.face_arities@.subrange(0, f as int)),
        decreases s.face_arities.len() - f,
    {
        proof {
            lemma_arity_sum_prefix(s.face_arities@, f as int);
        }
        let a = s.face_arities[f] as usize;
        if a > n - sum {
            proof {
                lemma_arity_sum_prefix(s.face_arities@, f as int + 1);
            }
            return false;
        }
        sum = sum + a;
        f = f + 1;
    }
    proof {
        lemma_arity_sum_prefix(s.face_arities@, f as int);
    }
    sum == n
}

/// Groups a flat array into `(x, y, z)` triples.
pub open spec fn triples(p: Seq<u32>) -> Seq<(u32, u32, u32)> {
    Seq::new(p.len() / 3, |k: int| (p[3 * k], p[3 * k + 1], p[3 * k + 2]))
}

/// Groups a flat array into `(u, v)` pairs.
pub open spec fn pairs(t: Seq<u32>) -> Seq<(u32, u32)> {
    Seq::new(t.len() / 2, |k: int| (t[2 * k], t[2 * k + 1]))
}

/// Fan triangulation of the polygon whose `k` corners are
/// `idx[start..start + k]`: triangle `j` is corners `0, j + 1, j + 2`.
/// A face of fewer than three corners yields no triangle.
pub open spec fn fan(idx: Seq<u32>, start: int, k: int) -> Seq<u32>
    decreases k,
{
    if k < 3 {
        seq![]
    } else {
        fan(idx, start, k - 1) + seq![idx[start], idx[start + k - 2], idx[start + k - 1]]
    }
}

/// Fan triangulation of consecutive faces of the given arities.
pub open spec fn fan_faces(idx: Seq<u32>, ar: Seq<u32>) -> Seq<u32>
    decreases ar.len(),
{
    if ar.len() == 0 {
        seq![]
    } else {
        fan_faces(idx, ar.drop_last()) + fan(idx, arity_sum(ar.drop_last()), ar.last() as int)
    }
}

/// The triangle list of one object, in its local index space.
pub open spec fn triangle_indices(s: RawSubMeshView) -> Seq<u32> {
    if s.face_arities.len() == 0 {
        s.indices
    } else {
        fan_faces(s.indices, s.face_arities)
    }
}

/// Every index moved up by `off`.
pub open spec fn rebased(s: Seq<u32>, off: int) -> Seq<u32> {
    Seq::new(s.len(), |k: int| (s[k] + off) as u32)
}

fn append_triples(out: &mut Vec<(u32, u32, u32)>, p: &Vec<u32>)
    ensures
        final(out)@ == old(out)@ + triples(p@),
{
    let n = p.len() / 3;
    let mut k: usize = 0;
    while k < n
        invariant
            k <= n,
            n == p.len() / 3,
            out@ == old(out)@ + triples(p@).subrange(0, k as int),
        decreases n - k,
    {
        out.push((p[3 * k], p[3 * k + 1], p[3 * k + 2]));
        assert(triples(p@).subrange(0, k + 1) =~= triples(p@).subrange(0, k as int).push(
            triples(p@)[k as int],
        ));
        k = k + 1;
    }
    assert(triples(p@).subrange(0, n as int) =~= triples(p@));
}

fn append_pairs(out: &mut Vec<(u32, u32)>, t: &Vec<u32>)
    ensures
        final(out)@ == old(out)@ + pairs(t@),
{
    let n = t.len() / 2;
    let mut k: usize = 0;
    while k < n
        invariant
            k <= n,
            n == t.len() / 2,
            out@ == old(out)@ + pairs(t@).subrange(0, k as int),
        decreases n - k,
    {
        out.push((t[2 * k], t[2 * k + 1]));
        assert(pairs(t@).subrange(0, k + 1) =~= pairs(t@).subrange(0, k as int).push(
            pairs(t@)[k as int],
        ));
        k = k + 1;
    }
    assert(pairs(t@).subrange(0, n as int) =~= pairs(t@));
}

fn append_fan(out: &mut Vec<u32>, idx: &Vec<u32>, start: usize, k: u32, off: u32)
    requires
        start + k <= idx.len(),
        forall|i: int| 0 <= i < idx.len() ==> idx@[i] + off <= u32::MAX,
    ensures
        final(out)@ == old(out)@ + rebased(fan(idx@, start as int, k as int), off as int),
{
    if k < 3 {
        assert(old(out)@ =~= old(out)@ + rebased(fan(idx@, start as int, k as int), off as int));
        return;
    }
    let mut j: u32 = 2;
    assert(old(out)@ =~= old(out)@ + rebased(fan(idx@, start as int, 2), off as int));
    while j < k
        invariant
            2 <= j <= k,
            start + k <= idx.len(),
            forall|i: int| 0 <= i < idx.len() ==> idx@[i] + off <= u32::MAX,
            out@ == old(out)@ + rebased(fan(idx@, start as int, j as int), off as int),
        decreases k - j,
    {
        let ju = j as usize;
        out.push(idx[start] + off);
        out.push(idx[start + ju - 1] + off);
        out.push(idx[start + ju] + off);
        assert(out@ =~= old(out)@ + rebased(fan(idx@, start as int, j + 1), off as int));
        j = j + 1;
    }
}

proof fn lemma_fan_bound(idx: Seq<u32>, start: int, k: int, bound: int)
    requires
        0 <= start,
        start + k <= idx.len(),
        forall|i: int| 0 <= i < idx.len() ==> idx[i] < bound,
    ensures
        fan(idx, start, k).len() % 3 == 0,
        forall|m: int| 0 <= m < fan(idx, start, k).len() ==> fan(idx, start, k)[m] < bound,
    decreases k,
{
    if k >= 3 {
        lemma_fan_bound(idx, start, k - 1, bound);
    }
}

proof fn lemma_fan_faces_bound(idx: Seq<u32>, ar: Seq<u32>, bound: int)
    requires
        arity_sum(ar) <= idx.len(),
        forall|i: int| 0 <= i < idx.len() ==> idx[i] < bound,
    ensures
        0 <= arity_sum(ar),
        fan_faces(idx, ar).len() % 3 == 0,
        forall|m: int| 0 <= m < fan_faces(idx, ar).len() ==> fan_faces(idx, ar)[m] < bound,
    decreases ar.len(),
{
    if ar.len() > 0 {
        let pre = ar.drop_last();
        lemma_fan_faces_bound(idx, pre, bound);
        lemma_fan_bound(idx, arity_sum(pre), ar.last() as int, bound);
        let a = fan_faces(idx, pre);
        let b = fan(idx, arity_sum(pre), ar.last() as int);
        assert forall|m: int| 0 <= m < (a + b).len() implies (a + b)[m] < bound by {
            if m >= a.len() {
                assert((a + b)[m] == b[m - a.len()]);
            }
        }
    }
}

/// The local triangle list of a consistent object: whole triangles, each
/// corner naming one of its vertices.
proof fn lemma_triangle_indices_bound(s: RawSubMeshView)
    requires
        sub_consistent(s),
    ensures
        triangle_indices(s).len() % 3 == 0,
        forall|m: int|
            0 <= m < triangle_indices(s).len() ==> triangle_indices(s)[m] < vertex_count(s),
{
    if s.face_arities.len() > 0 {
        lemma_fan_faces_bound(s.indices, s.face_arities, vertex_count(s));
    }
}

fn append_triangles(out: &mut Vec<u32>, s: &RawSubMesh, off: u32)
    requires
        sub_consistent(s@),
        off + vertex_count(s@) <= u32::MAX,
    ensures
        final(out)@ == old(out)@ + rebased(triangle_indices(s@), off as int),
{
    let idx = &s.indices;
    let ar = &s.face_arities;
    if ar.len() == 0 {
        let n = idx.len();
        let mut k: usize = 0;
        while k < n
            invariant
                k <= n,
                n == idx.len(),
                forall|i: int| 0 <= i < idx.len() ==> idx@[i] < vertex_count(s@),
                off + vertex_count(s@) <= u32::MAX,
                out@ == old(out)@ + rebased(idx@, off as int).subrange(0, k as int),
            decreases n - k,
        {
            out.push(idx[k] + off);
            assert(rebased(idx@, off as int).subrange(0, k + 1) =~= rebased(
                idx@,
                off as int,
            ).subrange(0, k as int).push(rebased(idx@, off as int)[k as int]));
            k = k + 1;
        }
        assert(rebased(idx@, off as int).subrange(0, n as int) =~= rebased(idx@, off as int));
    } else {
        let mut start: usize = 0;
        let mut f: usize = 0;
        while f < ar.len()
            invariant
                f <= ar.len(),
                start == arity_sum(ar@.subrange(0, f as int)),
                arity_sum(ar@) == idx.len(),
                forall|i: int| 0 <= i < idx.len() ==> idx@[i] + off <= u32::MAX,
                out@ == old(out)@ + rebased(fan_faces(idx@, ar@.subrange(0, f as int)), off as int),
            decreases ar.len() - f,
        {
            proof {
                lemma_arity_sum_prefix(ar@, f as int);
                lemma_arity_sum_prefix(ar@, f as int + 1);
            }
            let k = ar[f];
            append_fan(out, idx, start, k, off);
            proof {
                let pre = ar@.subrange(0, f as int + 1);
                assert(pre.drop_last() =~= ar@.subrange(0, f as int));
                assert(out@ =~= old(out)@ + rebased(fan_faces(idx@, pre), off as int));
            }
            start = start + k as usize;
            f = f + 1;
        }
        assert(ar@.subrange(0, ar.len() as int) =~= ar@);
    }
}

/// Each object seen through its view.
pub open spec fn sub_views(subs: Seq<RawSubMesh>) -> Seq<RawSubMeshView> {
    subs.map_values(|s: RawSubMesh| s@)
}

/// Number of vertices over all objects.
pub open spec fn total_vertices(subs: Seq<RawSubMeshView>) -> int
    decreases subs.len(),
{
    if subs.len() == 0 {
        0
    } else {
        total_vertices(subs.drop_last()) + vertex_count(subs.last())
    }
}

/// The objects' positions one after the other.
pub open spec fn merged_positions(subs: Seq<RawSubMeshView>) -> Seq<(u32, u32, u32)>
    decreases subs.len(),
{
    if subs.len() == 0 {
        seq![]
    } else {
        merged_positions(subs.drop_last()) + triples(subs.last().positions)
    }
}

/// The objects' normals one after the other.
pub open spec fn merged_normals(subs: Seq<RawSubMeshView>) -> Seq<(u32, u32, u32)>
    decreases subs.len(),
{
    if subs.len() == 0 {
        seq![]
    } else {
        merged_normals(subs.drop_last()) + triples(subs.last().normals)
    }
}

/// The objects' texture coordinates one after the other.
pub open spec fn merged_texcoords(subs: Seq<RawSubMeshView>) -> Seq<(u32, u32)>
    decreases subs.len(),
{
    if subs.len() == 0 {
        seq![]
    } else {
        merged_texcoords(subs.drop_last()) + pairs(subs.last().texcoords)
    }
}

/// The objects' triangle lists one after the other, each moved up by the
/// number of vertices of the objects before it.
pub open spec fn merged_indices(subs: Seq<RawSubMeshView>) -> Seq<u32>
    decreases subs.len(),
{
    if subs.len() == 0 {
        seq![]
    } else {
        merged_indices(subs.drop_last()) + rebased(
            triangle_indices(subs.last()),
            total_vertices(subs.drop_last()),
        )
    }
}

pub open spec fn all_sub_consistent(subs: Seq<RawSubMeshView>) -> bool {
    forall|i: int| 0 <= i < subs.len() ==> sub_consistent(#[trigger] subs[i])
}

/// Merged normals and texture coordinates are each absent or one per vertex.
pub open spec fn attributes_aligned(subs: Seq<RawSubMeshView>) -> bool {
    let np = merged_positions(subs).len();
    &&& (merged_normals(subs).len() == 0 || merged_normals(subs).len() == np)
    &&& (merged_texcoords(subs).len() == 0 || merged_texcoords(subs).len() == np)
}

/// `items[order[k]]` for each `k`.
pub open spec fn gathered<T>(items: Seq<T>, order: Seq<u32>) -> Seq<T> {
    Seq::new(order.len(), |k: int| items[order[k] as int])
}

/// `0, 1, ..., n - 1`.
pub open spec fn identity_indices(n: nat) -> Seq<u32> {
    Seq::new(n, |k: int| k as u32)
}

/// The mesh made of the objects. With normals from the file the merged
/// buffers are kept as they are; without, every triangle corner becomes a
/// vertex of its own, so that each triangle can carry its flat normal.
pub open spec fn built_mesh(subs: Seq<RawSubMeshView>) -> MeshView {
    let p = merged_positions(subs);
    let n = merged_normals(subs);
    let t = merged_texcoords(subs);
    let i = merged_indices(subs);
    if n.len() > 0 {
        MeshView {
            positions: p,
            normals: Some(n),
            texcoords: if t.len() > 0 {
                Some(t)
            } else {
                None
            },
            indices: i,
        }
    } else {
        MeshView {
            positions: gathered(p, i),
            normals: None,
            texcoords: if t.len() > 0 {
                Some(gathered(t, i))
            } else {
                None
            },
            indices: identity_indices(i.len()),
        }
    }
}

/// What assembling the objects gives: `InternalInconsistency` when an
/// object's arrays disagree or the merged normals or texture coordinates
/// cover only part of the vertices, `IndexOverflow` when the vertex count,
/// before or after unsharing, is beyond `u32::MAX`, and the mesh otherwise.
pub open spec fn build_outcome(subs: Seq<RawSubMeshView>) -> Result<MeshView, ObjLoaderError> {
    if !all_sub_consistent(subs) {
        Err(ObjLoaderError::InternalInconsistency)
    } else if total_vertices(subs) > u32::MAX {
        Err(ObjLoaderError::IndexOverflow)
    } else if !attributes_aligned(subs) {
        Err(ObjLoaderError::InternalInconsistency)
    } else if merged_normals(subs).len() == 0 && merged_indices(subs).len() > u32::MAX {
        Err(ObjLoaderError::IndexOverflow)
    } else {
        Ok(built_mesh(subs))
    }
}

/// A build result seen through the mesh's view.
pub open spec fn outcome_view(r: Result<ObjMesh, ObjLoaderError>) -> Result<MeshView, ObjLoaderError> {
    match r {
        Ok(m) => Ok(m@),
        Err(e) => Err(e),
    }
}

proof fn lemma_total_prefix(subs: Seq<RawSubMeshView>, i: int)
    requires
        0 <= i <= subs.len(),
    ensures
        0 <= total_vertices(subs.subrange(0, i)) <= total_vertices(subs),
        i == subs.len() ==> total_vertices(subs.subrange(0, i)) == total_vertices(subs),
        i < subs.len() ==> total_vertices(subs.subrange(0, i + 1)) == total_vertices(
            subs.subrange(0, i),
        ) + vertex_count(subs[i]),
    decreases subs.len() - i,
{
    if i < subs.len() {
        assert(subs.subrange(0, i + 1).drop_last() =~= subs.subrange(0, i));
        lemma_total_prefix(subs, i + 1);
    } else {
        assert(subs.subrange(0, i) =~= subs);
    }
    lemma_total_nonneg(subs.subrange(0, i));
}

proof fn lemma_total_nonneg(subs: Seq<RawSubMeshView>)
    ensures
        0 <= total_vertices(subs),
    decreases subs.len(),
{
    if subs.len() > 0 {
        lemma_total_nonneg(subs.drop_last());
    }
}

/// With consistent objects and a vertex count that fits, the merged position
/// buffer holds every vertex and the merged index list is whole triangles of
/// vertices that exist.
proof fn lemma_merged_bounds(subs: Seq<RawSubMeshView>)
    requires
        all_sub_consistent(subs),
        total_vertices(subs) <= u32::MAX,
    ensures
        merged_positions(subs).len() == total_vertices(subs),
        merged_indices(subs).len() % 3 == 0,
        forall|m: int|
            0 <= m < merged_indices(subs).len() ==> merged_indices(subs)[m] < total_vertices(subs),
    decreases subs.len(),
{
    if subs.len() > 0 {
        let pre = subs.drop_last();
        let last = subs.last();
        assert(sub_consistent(subs[subs.len() - 1]));
        assert forall|i: int| 0 <= i < pre.len() implies sub_consistent(#[trigger] pre[i]) by {
            assert(sub_consistent(subs[i]));
        }
        lemma_total_nonneg(pre);
        lemma_merged_bounds(pre);
        lemma_triangle_indices_bound(last);
        let a = merged_indices(pre);
        let b = rebased(triangle_indices(last), total_vertices(pre));
        assert forall|m: int| 0 <= m < (a + b).len() implies (a + b)[m] < total_vertices(subs) by {
            if m >= a.len() {
                assert((a + b)[m] == b[m - a.len()]);
            }
        }
    }
}

fn gather<T: Copy>(items: &Vec<T>, order: &Vec<u32>) -> (r: Vec<T>)
    requires
        forall|k: int| 0 <= k < order.len() ==> order@[k] < items.len(),
    ensures
        r@ == gathered(items@, order@),
{
    let mut r: Vec<T> = Vec::new();
    let mut k: usize = 0;
    while k < order.len()
        invariant
            k <= order.len(),
            forall|j: int| 0 <= j < order.len() ==> order@[j] < items.len(),
            r@ =~= gathered(items@, order@).subrange(0, k as int),
        decreases order.len() - k,
    {
        let item = items[order[k] as usize];
        r.push(item);
        k = k + 1;
    }
    r
}

fn make_identity_indices(n: usize) -> (r: Vec<u32>)
    requires
        n <= u32::MAX,
    ensures
        r@ == identity_indices(n as nat),
{
    let mut r: Vec<u32> = Vec::new();
    let mut k: usize = 0;
    while k < n
        invariant
            k <= n <= u32::MAX,
            r@ =~= identity_indices(n as nat).subrange(0, k as int),
        decreases n - k,
    {
        r.push(k as u32);
        k = k + 1;
    }
    r
}

/// Merges the objects of one file, in order, into one triangle-list mesh.
///
/// Each object's faces are fan-triangulated and its indices moved up by the
/// number of vertices before it. Normals and texture coordinates from the
/// file are kept when every vertex has them; when no object has normals,
/// vertices are unshared so that flat normals can be given per triangle.
pub fn build_mesh(subs: &Vec<RawSubMesh>) -> (r: Result<ObjMesh, ObjLoaderError>)
    ensures
        outcome_view(r) == build_outcome(sub_views(subs@)),
{
    let ghost sv = sub_views(subs@);
    let mut total: u64 = 0;
    let mut over = false;
    let mut i: usize = 0;
    while i < subs.len()
        invariant
            i <= subs.len(),
            sv == sub_views(subs@),
            forall|j: int| 0 <= j < i ==> sub_consistent(#[trigger] sv[j]),
            over ==> total_vertices(sv.subrange(0, i as int)) > u32::MAX,
            !over ==> total == total_vertices(sv.subrange(0, i as int)) && total <= u32::MAX,
        decreases subs.len() - i,
    {
        proof {
            lemma_total_prefix(sv, i as int);
        }
        if !check_sub(&subs[i]) {
            return Err(ObjLoaderError::InternalInconsistency);
        }
        let vc = (subs[i].positions.len() / 3) as u64;
        if !over {
            if vc > 0xffff_ffffu64 - total {
                over = true;
            } else {
                total = total + vc;
            }
        }
        i = i + 1;
    }
    proof {
        lemma_total_prefix(sv, i as int);
    }
    assert(all_sub_consistent(sv));
    if over {
        return Err(ObjLoaderError::IndexOverflow);
    }
    let mut positions: Vec<(u32, u32, u32)> = Vec::new();
    let mut normals: Vec<(u32, u32, u32)> = Vec::new();
    let mut texcoords: Vec<(u32, u32)> = Vec::new();
    let mut indices: Vec<u32> = Vec::new();
    let mut off: u32 = 0;
    i = 0;
    while i < subs.len()
        invariant
            i <= subs.len(),
            sv == sub_views(subs@),
            all_sub_consistent(sv),
            total_vertices(sv) <= u32::MAX,
            off == total_vertices(sv.subrange(0, i as int)),
            positions@ == merged_positions(sv.subrange(0, i as int)),
            normals@ == merged_normals(sv.subrange(0, i as int)),
            texcoords@ == merged_texcoords(sv.subrange(0, i as int)),
            indices@ == merged_indices(sv.subrange(0, i as int)),
        decreases subs.len() - i,
    {
        proof {
            lemma_total_prefix(sv, i as int);
            lemma_total_prefix(sv, i as int + 1);
            assert(sv[i as int] == subs@[i as int]@);
            assert(sub_consistent(sv[i as int]));
        }
        let s = &subs[i];
        append_triples(&mut positions, &s.positions);
        append_triples(&mut normals, &s.normals);
        append_pairs(&mut texcoords, &s.texcoords);
        append_triangles(&mut indices, s, off);
        off = off + (s.positions.len() / 3) as u32;
        proof {
            let pre = sv.subrange(0, i as int + 1);
            assert(pre.drop_last() =~= sv.subrange(0, i as int));
            assert(pre.last() == s@);
        }
        i = i + 1;
    }
    proof {
        assert(sv.subrange(0, i as int) =~= sv);
        lemma_merged_bounds(sv);
    }
    let np = positions.len();
    if (normals.len() != 0 && normals.len() != np) || (texcoords.len() != 0 && texcoords.len()
        != np) {
        return Err(ObjLoaderError::InternalInconsistency);
    }
    if normals.len() > 0 {
        let texcoords = if texcoords.len() > 0 {
            Some(texcoords)
        } else {
            None
        };
        Ok(ObjMesh { positions, normals: Some(normals), texcoords, indices })
    } else {
        if indices.len() > 0xffff_ffffusize {
            return Err(ObjLoaderError::IndexOverflow);
        }
        let unshared_positions = gather(&positions, &indices);
        let unshared_texcoords = if texcoords.len() > 0 {
            Some(gather(&texcoords, &indices))
        } else {
            None
        };
        let n = indices.len();
        Ok(
            ObjMesh {
                positions: unshared_positions,
                normals: None,
                texcoords: unshared_texcoords,
                indices: make_identity_indices(n),
            },
        )
    }
}

/// Every index of an assembled mesh names one of its vertices, and the
/// index list is made of whole triangles.
pub proof fn lemma_indices_in_range(subs: Seq<RawSubMeshView>)
    requires
        build_outcome(subs) is Ok,
    ensures
        ({
            let m = build_outcome(subs)->Ok_0;
            &&& m.indices.len() % 3 == 0
            &&& forall|k: int| 0 <= k < m.indices.len() ==> m.indices[k] < m.positions.len()
        }),
{
    lemma_merged_bounds(subs);
}

/// With normals from the file, the mesh keeps the objects' vertices as they
/// are (as many as the objects hold together, none added) and has exactly
/// one normal per vertex.
pub proof fn lemma_file_normals_kept(subs: Seq<RawSubMeshView>)
    requires
        build_outcome(subs) is Ok,
        merged_normals(subs).len() > 0,
    ensures
        ({
            let m = build_outcome(subs)->Ok_0;
            &&& m.positions == merged_positions(subs)
            &&& m.positions.len() == total_vertices(subs)
            &&& m.normals == Some(merged_normals(subs))
            &&& merged_normals(subs).len() == m.positions.len()
            &&& m.indices == merged_indices(subs)
        }),
{
    lemma_merged_bounds(subs);
}

/// Without normals from the file, every triangle corner is a vertex of its
/// own: three vertices per triangle, none shared, each a copy of the vertex
/// that the corner named.
pub proof fn lemma_unshared_without_normals(subs: Seq<RawSubMeshView>)
    requires
        build_outcome(subs) is Ok,
        merged_normals(subs).len() == 0,
    ensures
        ({
            let m = build_outcome(subs)->Ok_0;
            &&& m.normals is None
            &&& m.indices.len() % 3 == 0
            &&& m.positions.len() == 3 * (m.indices.len() / 3)
            &&& forall|k: int| 0 <= k < m.indices.len() ==> m.indices[k] == k
            &&& forall|k: int|
                0 <= k < m.positions.len() ==> m.positions[k] == merged_positions(
                    subs,
                )[merged_indices(subs)[k] as int]
        }),
{
    lemma_merged_bounds(subs);
}

/// Merging two objects: the first object's triangle list comes unchanged,
/// then the second's with every index moved up by the first object's
/// vertex count.
pub proof fn lemma_second_object_rebased(a: RawSubMeshView, b: RawSubMeshView)
    requires
        build_outcome(seq![a, b]) is Ok,
    ensures
        ({
            let mi = merged_indices(seq![a, b]);
            let ta = triangle_indices(a);
            let tb = triangle_indices(b);
            &&& mi.len() == ta.len() + tb.len()
            &&& forall|k: int| 0 <= k < ta.len() ==> mi[k] == ta[k]
            &&& forall|k: int| 0 <= k < tb.len() ==> mi[ta.len() + k] == tb[k] + vertex_count(a)
        }),
{
    let subs = seq![a, b];
    assert(subs.drop_last() =~= seq![a]);
    assert(seq![a].drop_last() =~= Seq::<RawSubMeshView>::empty());
    assert(sub_consistent(subs[0]));
    assert(sub_consistent(subs[1]));
    lemma_triangle_indices_bound(a);
    lemma_triangle_indices_bound(b);
    let ta = triangle_indices(a);
    let tb = triangle_indices(b);
    assert(merged_indices(seq![a].drop_last()) =~= Seq::<u32>::empty());
    assert(total_vertices(seq![a].drop_last()) == 0);
    assert(merged_indices(seq![a]) =~= rebased(ta, 0));
    let mi = merged_indices(subs);
    assert(mi =~= rebased(ta, 0) + rebased(tb, vertex_count(a)));
    assert forall|k: int| 0 <= k < tb.len() implies mi[ta.len() + k] == tb[k] + vertex_count(a) by {
        assert(mi[ta.len() + k] == rebased(tb, vertex_count(a))[k]);
    }
}

spec fn no_vertices(subs: Seq<RawSubMeshView>) -> bool {
    forall|i: int|
        0 <= i < subs.len() ==> {
            &&& (#[trigger] subs[i]).positions.len() == 0
            &&& subs[i].normals.len() == 0
            &&& subs[i].texcoords.len() == 0
            &&& subs[i].indices.len() == 0
            &&& subs[i].face_arities.len() == 0
        }
}

proof fn lemma_no_vertices_merge(subs: Seq<RawSubMeshView>)
    requires
        no_vertices(subs),
    ensures
        all_sub_consistent(subs),
        total_vertices(subs) == 0,
        merged_positions(subs) =~= seq![],
        merged_normals(subs) =~= seq![],
        merged_texcoords(subs) =~= seq![],
        merged_indices(subs) =~= seq![],
    decreases subs.len(),
{
    if subs.len() > 0 {
        let pre = subs.drop_last();
        assert(no_vertices(pre)) by {
            assert forall|i: int| 0 <= i < pre.len() implies (#[trigger] pre[i]) == subs[i] by {}
        }
        lemma_no_vertices_merge(pre);
        let last = subs.last();
        assert(subs[subs.len() - 1] == last);
        assert(triples(last.positions) =~= seq![]);
        assert(triples(last.normals) =~= seq![]);
        assert(pairs(last.texcoords) =~= seq![]);
        assert(rebased(triangle_indices(last), total_vertices(pre)) =~= seq![]);
    }
    assert forall|i: int| 0 <= i < subs.len() implies sub_consistent(#[trigger] subs[i]) by {
        assert(subs[i].positions.len() == 0);
    }
}

/// Objects without faces or vertices (what a file without faces parses to)
/// give an empty mesh rather than an error.
pub proof fn lemma_no_faces(subs: Seq<RawSubMeshView>)
    requires
        forall|i: int|
            0 <= i < subs.len() ==> {
                &&& (#[trigger] subs[i]).positions.len() == 0
                &&& subs[i].normals.len() == 0
                &&& subs[i].texcoords.len() == 0
                &&& subs[i].indices.len() == 0
                &&& subs[i].face_arities.len() == 0
            },
    ensures
        build_outcome(subs) == Ok::<MeshView, ObjLoaderError>(
            MeshView {
                positions: seq![],
                normals: None,
                texcoords: None,
                indices: seq![],
            },
        ),
{
    lemma_no_vertices_merge(subs);
    assert(gathered(merged_positions(subs), merged_indices(subs)) =~= seq![]);
    assert(identity_indices(merged_indices(subs).len()) =~= seq![]);
}

} // verus!
