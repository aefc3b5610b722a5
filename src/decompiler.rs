use vstd::prelude::*;
use crate::bpm::decode_spec;
use crate::bpm::BpmError;
use crate::bpm::BPM;
use crate::bpm::Vertex;
use crate::vector::Vec2f;
use crate::vector::Vec3f;

verus! {

/// Indices of one corner's position, normal and UV in the compacted arrays.
#[derive(Copy, Clone, Debug, PartialEq, Eq, Structural)]
pub struct VertexIndex {
    pub vp: usize,
    pub vn: usize,
    pub vt: usize,
}

/// Three corners, in stream order.
#[derive(Copy, Clone, Debug, PartialEq, Eq, Structural)]
pub struct Triangle {
    pub p1: VertexIndex,
    pub p2: VertexIndex,
    pub p3: VertexIndex,
}

/// `s` with every entry dropped that equals the entry retained just before it:
/// runs of equal adjacent entries collapse to one, other repeats stay.
pub open spec fn dedup_adjacent<T>(s: Seq<T>) -> Seq<T>
    decreases s.len(),
{
    if s.len() == 0 {
        s
    } else {
        let p = dedup_adjacent(s.drop_last());
        if p.len() > 0 && p.last() == s.last() {
            p
        } else {
            p.push(s.last())
        }
    }
}

/// The position column of a corner sequence.
pub open spec fn positions(v: Seq<Vertex>) -> Seq<Vec3f> {
    v.map_values(|x: Vertex| x.position)
}

/// The normal column of a corner sequence.
pub open spec fn normals(v: Seq<Vertex>) -> Seq<Vec3f> {
    v.map_values(|x: Vertex| x.normal)
}

/// The UV column of a corner sequence.
pub open spec fn uvs(v: Seq<Vertex>) -> Seq<Vec2f> {
    v.map_values(|x: Vertex| x.uv)
}

/// `k` is the index of the first entry of `s` equal to `x`.
pub open spec fn is_first_index<T>(s: Seq<T>, x: T, k: int) -> bool {
    &&& 0 <= k < s.len()
    &&& s[k] == x
    &&& forall|j: int| 0 <= j < k ==> s[j] != x
}

/// `ix` locates each attribute of `v` at its first occurrence in the arrays.
pub open spec fn indexes_vertex(
    vp: Seq<Vec3f>,
    vn: Seq<Vec3f>,
    vt: Seq<Vec2f>,
    v: Vertex,
    ix: VertexIndex,
) -> bool {
    &&& is_first_index(vp, v.position, ix.vp as int)
    &&& is_first_index(vn, v.normal, ix.vn as int)
    &&& is_first_index(vt, v.uv, ix.vt as int)
}

/// Every entry of a sequence is kept by adjacent compaction, and compaction
/// never lengthens it.
pub proof fn lemma_dedup_keeps_values<T>(s: Seq<T>)
    ensures
        dedup_adjacent(s).len() <= s.len(),
        forall|k: int| 0 <= k < s.len() ==> dedup_adjacent(s).contains(#[trigger] s[k]),
    decreases s.len(),
{
    if s.len() > 0 {
        let p = dedup_adjacent(s.drop_last());
        lemma_dedup_keeps_values(s.drop_last());
        let d = dedup_adjacent(s);
        assert forall|k: int| 0 <= k < s.len() implies d.contains(#[trigger] s[k]) by {
            if k == s.len() - 1 {
                if p.len() > 0 && p.last() == s.last() {
                    assert(d[p.len() - 1] == s[k]);
                } else {
                    assert(d[p.len() as int] == s[k]);
                }
            } else {
                assert(s.drop_last()[k] == s[k]);
                let w = choose|w: int| 0 <= w < p.len() && p[w] == s[k];
                assert(d[w] == s[k]);
            }
        }
    }
}

/// Splits the corners into their position, normal and UV columns and
/// compacts each column by dropping adjacent repeats.
pub fn unpack_dedupe(verts: &Vec<Vertex>) -> (r: (Vec<Vec3f>, Vec<Vec3f>, Vec<Vec2f>))
    ensures
        r.0@ == dedup_adjacent(positions(verts@)),
        r.1@ == dedup_adjacent(normals(verts@)),
        r.2@ == dedup_adjacent(uvs(verts@)),
{
    let mut vp: Vec<Vec3f> = Vec::with_capacity(verts.len());
    let mut vn: Vec<Vec3f> = Vec::with_capacity(verts.len());
    let mut vt: Vec<Vec2f> = Vec::with_capacity(verts.len());
    let mut i: usize = 0;
    while i < verts.len()
        invariant
            i <= verts@.len(),
            vp@ == dedup_adjacent(positions(verts@.subrange(0, i as int))),
            vn@ == dedup_adjacent(normals(verts@.subrange(0, i as int))),
            vt@ == dedup_adjacent(uvs(verts@.subrange(0, i as int))),
        decreases verts@.len() - i,
    {
        let v = verts[i];
        let ghost pre = verts@.subrange(0, i as int);
        let ghost cur = verts@.subrange(0, i as int + 1);
        assert(positions(cur).drop_last() =~= positions(pre));
        assert(normals(cur).drop_last() =~= normals(pre));
        assert(uvs(cur).drop_last() =~= uvs(pre));
        if vp.len() == 0 || vp[vp.len() - 1] != v.position {
            vp.push(v.position);
        }
        if vn.len() == 0 || vn[vn.len() - 1] != v.normal {
            vn.push(v.normal);
        }
        if vt.len() == 0 || vt[vt.len() - 1] != v.uv {
            vt.push(v.uv);
        }
        i = i + 1;
    }
    assert(verts@.subrange(0, verts@.len() as int) =~= verts@);
    (vp, vn, vt)
}

/// Index of the first entry of `s` equal to `x`.
fn first_index3(s: &Vec<Vec3f>, x: Vec3f) -> (r: usize)
    requires
        s@.contains(x),
    ensures
        is_first_index(s@, x, r as int),
{
    let mut i: usize = 0;
    while i < s.len()
        invariant
            i <= s@.len(),
            s@.contains(x),
            forall|j: int| 0 <= j < i ==> s@[j] != x,
        decreases s@.len() - i,
    {
        if s[i] == x {
            return i;
        }
        i = i + 1;
    }
    i
}

/// Index of the first entry of `s` equal to `x`.
fn first_index2(s: &Vec<Vec2f>, x: Vec2f) -> (r: usize)
    requires
        s@.contains(x),
    ensures
        is_first_index(s@, x, r as int),
{
    let mut i: usize = 0;
    while i < s.len()
        invariant
            i <= s@.len(),
            s@.contains(x),
            forall|j: int| 0 <= j < i ==> s@[j] != x,
        decreases s@.len() - i,
    {
        if s[i] == x {
            return i;
        }
        i = i + 1;
    }
    i
}

/// For each corner, the indices of the first matching entries of the
/// position, normal and UV arrays. Each corner's values must occur in them.
pub fn reconstruct_index_buffer(
    verts: &Vec<Vertex>,
    vp: &Vec<Vec3f>,
    vn: &Vec<Vec3f>,
    vt: &Vec<Vec2f>,
) -> (r: Vec<VertexIndex>)
    requires
        forall|i: int| 0 <= i < verts@.len() ==> vp@.contains(#[trigger] verts@[i].position),
        forall|i: int| 0 <= i < verts@.len() ==> vn@.contains(#[trigger] verts@[i].normal),
        forall|i: int| 0 <= i < verts@.len() ==> vt@.contains(#[trigger] verts@[i].uv),
    ensures
        r@.len() == verts@.len(),
        forall|i: int|
            0 <= i < verts@.len() ==> indexes_vertex(vp@, vn@, vt@, verts@[i], #[trigger] r@[i]),
{
    let mut res: Vec<VertexIndex> = Vec::with_capacity(verts.len());
    let mut i: usize = 0;
    while i < verts.len()
        invariant
            i <= verts@.len(),
            res@.len() == i,
            forall|i: int| 0 <= i < verts@.len() ==> vp@.contains(#[trigger] verts@[i].position),
            forall|i: int| 0 <= i < verts@.len() ==> vn@.contains(#[trigger] verts@[i].normal),
            forall|i: int| 0 <= i < verts@.len() ==> vt@.contains(#[trigger] verts@[i].uv),
            forall|k: int|
                0 <= k < i ==> indexes_vertex(vp@, vn@, vt@, verts@[k], #[trigger] res@[k]),
        decreases verts@.len() - i,
    {
        let v = verts[i];
        let vi = VertexIndex {
            vp: first_index3(vp, v.position),
            vn: first_index3(vn, v.normal),
            vt: first_index2(vt, v.uv),
        };
        res.push(vi);
        i = i + 1;
    }
    res
}

/// Corner `k` (0, 1 or 2) of a triangle.
pub open spec fn corner(t: Triangle, k: int) -> VertexIndex {
    if k == 0 {
        t.p1
    } else if k == 1 {
        t.p2
    } else {
        t.p3
    }
}

/// Consecutive runs of three index triples, in order.
pub open spec fn triangles_of(s: Seq<VertexIndex>) -> Seq<Triangle> {
    Seq::new(
        s.len() / 3,
        |i: int| Triangle { p1: s[3 * i], p2: s[3 * i + 1], p3: s[3 * i + 2] },
    )
}

/// Groups the index triples into triangles of three consecutive corners.
/// A count that is not a multiple of three is refused.
pub fn reconstruct_triangles(verts: Vec<VertexIndex>) -> (r: Result<Vec<Triangle>, BpmError>)
    ensures
        verts@.len() % 3 != 0 <==> r is Err,
        r is Err ==> r == Err::<Vec<Triangle>, BpmError>(BpmError::CornerCountNotMultipleOfThree),
        r matches Ok(t) ==> t@ == triangles_of(verts@) && 3 * t@.len() == verts@.len(),
{
    if verts.len() % 3 != 0 {
        return Err(BpmError::CornerCountNotMultipleOfThree);
    }
    let mut res: Vec<Triangle> = Vec::with_capacity(verts.len() / 3);
    let mut i: usize = 0;
    while i < verts.len()
        invariant
            verts@.len() % 3 == 0,
            i % 3 == 0,
            i <= verts@.len(),
            3 * res@.len() == i,
            forall|k: int|
                0 <= k < res@.len() ==> #[trigger] res@[k] == (Triangle {
                    p1: verts@[3 * k],
                    p2: verts@[3 * k + 1],
                    p3: verts@[3 * k + 2],
                }),
        decreases verts@.len() - i,
    {
        let tri = Triangle { p1: verts[i], p2: verts[i + 1], p3: verts[i + 2] };
        res.push(tri);
        i = i + 3;
    }
    assert(res@ =~= triangles_of(verts@));
    Ok(res)
}

/// `vp`, `vn`, `vt` and `tris` are the indexed form of the corners `v`: the
/// compacted columns, and one triangle per three corners whose index triples
/// locate each corner's values at their first occurrence.
pub open spec fn is_indexed_mesh(
    v: Seq<Vertex>,
    vp: Seq<Vec3f>,
    vn: Seq<Vec3f>,
    vt: Seq<Vec2f>,
    tris: Seq<Triangle>,
) -> bool {
    &&& vp == dedup_adjacent(positions(v))
    &&& vn == dedup_adjacent(normals(v))
    &&& vt == dedup_adjacent(uvs(v))
    &&& 3 * tris.len() == v.len()
    &&& forall|i: int, k: int|
        0 <= i < tris.len() && 0 <= k < 3 ==> indexes_vertex(
            vp,
            vn,
            vt,
            v[3 * i + k],
            #[trigger] corner(tris[i], k),
        )
}

/// Converts corners into the indexed mesh: compacted columns, index rebuild,
/// then triangles.
pub fn reindex(verts: &Vec<Vertex>) -> (r: Result<
    (Vec<Vec3f>, Vec<Vec3f>, Vec<Vec2f>, Vec<Triangle>),
    BpmError,
>)
    ensures
        verts@.len() % 3 != 0 <==> r is Err,
        r is Err ==> r == Err::<
            (Vec<Vec3f>, Vec<Vec3f>, Vec<Vec2f>, Vec<Triangle>),
            BpmError,
        >(BpmError::CornerCountNotMultipleOfThree),
        r matches Ok(m) ==> is_indexed_mesh(verts@, m.0@, m.1@, m.2@, m.3@),
{
    let (vp, vn, vt) = unpack_dedupe(verts);
    proof {
        lemma_dedup_keeps_values(positions(verts@));
        lemma_dedup_keeps_values(normals(verts@));
        lemma_dedup_keeps_values(uvs(verts@));
        assert forall|i: int| 0 <= i < verts@.len() implies vp@.contains(
            #[trigger] verts@[i].position,
        ) by {
            assert(positions(verts@)[i] == verts@[i].position);
        }
        assert forall|i: int| 0 <= i < verts@.len() implies vn@.contains(
            #[trigger] verts@[i].normal,
        ) by {
            assert(normals(verts@)[i] == verts@[i].normal);
        }
        assert forall|i: int| 0 <= i < verts@.len() implies vt@.contains(
            #[trigger] verts@[i].uv,
        ) by {
            assert(uvs(verts@)[i] == verts@[i].uv);
        }
    }
    let vis = reconstruct_index_buffer(verts, &vp, &vn, &vt);
    let ghost ix = vis@;
    match reconstruct_triangles(vis) {
        Ok(tris) => {
            assert forall|i: int, k: int| 0 <= i < tris@.len() && 0 <= k < 3 implies indexes_vertex(
                vp@,
                vn@,
                vt@,
                verts@[3 * i + k],
                #[trigger] corner(tris@[i], k),
            ) by {
                assert(corner(tris@[i], k) == ix[3 * i + k]);
            }
            Ok((vp, vn, vt, tris))
        },
        Err(e) => Err(e),
    }
}

/// In an indexed mesh, the array entry at each corner's recorded index equals
/// that corner's own position, normal and UV.
pub proof fn lemma_index_fidelity(
    v: Seq<Vertex>,
    vp: Seq<Vec3f>,
    vn: Seq<Vec3f>,
    vt: Seq<Vec2f>,
    tris: Seq<Triangle>,
)
    requires
        is_indexed_mesh(v, vp, vn, vt, tris),
    ensures
        forall|c: int|
            0 <= c < v.len() ==> {
                let ix = corner(tris[c / 3], c % 3);
                &&& ix.vp < vp.len() && vp[ix.vp as int] == (#[trigger] v[c]).position
                &&& ix.vn < vn.len() && vn[ix.vn as int] == v[c].normal
                &&& ix.vt < vt.len() && vt[ix.vt as int] == v[c].uv
            },
{
    assert forall|c: int| 0 <= c < v.len() implies {
        let ix = corner(tris[c / 3], c % 3);
        &&& ix.vp < vp.len() && vp[ix.vp as int] == (#[trigger] v[c]).position
        &&& ix.vn < vn.len() && vn[ix.vn as int] == v[c].normal
        &&& ix.vt < vt.len() && vt[ix.vt as int] == v[c].uv
    } by {
        let i = c / 3;
        let k = c % 3;
        assert(3 * i + k == c);
        assert(indexes_vertex(vp, vn, vt, v[3 * i + k], corner(tris[i], k)));
    }
}

/// Decodes a BPM stream and converts its corners into the indexed mesh.
pub fn decompile(bytes: &[u8]) -> (r: Result<
    (Vec<Vec3f>, Vec<Vec3f>, Vec<Vec2f>, Vec<Triangle>),
    BpmError,
>)
    ensures
        match decode_spec(bytes@) {
            Err(e) => r == Err::<(Vec<Vec3f>, Vec<Vec3f>, Vec<Vec2f>, Vec<Triangle>), BpmError>(e),
            Ok(v) => if v.len() % 3 != 0 {
                r == Err::<
                    (Vec<Vec3f>, Vec<Vec3f>, Vec<Vec2f>, Vec<Triangle>),
                    BpmError,
                >(BpmError::CornerCountNotMultipleOfThree)
            } else {
                r matches Ok(m) && is_indexed_mesh(v, m.0@, m.1@, m.2@, m.3@)
            },
        },
{
    let bpm = match BPM::new(bytes) {
        Ok(b) => b,
        Err(e) => return Err(e),
    };
    reindex(&bpm.vertices)
}

} // verus!
