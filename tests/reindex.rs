use bpm_to_obj::bpm::BpmError;
use bpm_to_obj::bpm::Vertex;
use bpm_to_obj::decompiler::decompile;
use bpm_to_obj::decompiler::reconstruct_index_buffer;
use bpm_to_obj::decompiler::reconstruct_triangles;
use bpm_to_obj::decompiler::reindex;
use bpm_to_obj::decompiler::unpack_dedupe;
use bpm_to_obj::decompiler::Triangle;
use bpm_to_obj::decompiler::VertexIndex;
use bpm_to_obj::vector::Vec2f;
use bpm_to_obj::vector::Vec3f;

fn v3(x: f32, y: f32, z: f32) -> Vec3f {
    Vec3f::new(x.to_bits(), y.to_bits(), z.to_bits())
}

fn v2(x: f32, y: f32) -> Vec2f {
    Vec2f::new(x.to_bits(), y.to_bits())
}

fn vert(p: Vec3f, n: Vec3f, t: Vec2f) -> Vertex {
    Vertex { position: p, normal: n, uv: t }
}

fn ix(vp: usize, vn: usize, vt: usize) -> VertexIndex {
    VertexIndex { vp, vn, vt }
}

#[test]
fn vector_constructors_keep_bits() {
    let a = Vec3f::new(1, 2, 3);
    assert_eq!((a.x, a.y, a.z), (1, 2, 3));
    let b = Vec2f::new(4, 5);
    assert_eq!((b.x, b.y), (4, 5));
    assert_eq!(Vec3f::zero(), Vec3f::new(0, 0, 0));
    assert_eq!(v3(0.0, 0.0, 0.0), Vec3f::zero());
}

#[test]
fn compaction_keeps_non_adjacent_repeats() {
    let a = v3(1.0, 0.0, 0.0);
    let b = v3(0.0, 1.0, 0.0);
    let n = v3(0.0, 0.0, 1.0);
    let t = v2(0.0, 0.0);
    let verts = vec![vert(a, n, t), vert(a, n, t), vert(b, n, t), vert(a, n, t)];
    let (vp, vn, vt) = unpack_dedupe(&verts);
    assert_eq!(vp, vec![a, b, a]);
    assert_eq!(vn, vec![n]);
    assert_eq!(vt, vec![t]);
}

#[test]
fn compaction_is_bit_exact() {
    let pos_zero = v3(0.0, 0.0, 0.0);
    let neg_zero = v3(-0.0, 0.0, 0.0);
    let n = Vec3f::zero();
    let t = v2(0.5, 0.5);
    let verts = vec![vert(pos_zero, n, t), vert(neg_zero, n, t)];
    let (vp, _, _) = unpack_dedupe(&verts);
    assert_eq!(vp, vec![pos_zero, neg_zero]);
}

#[test]
fn compaction_of_empty_is_empty() {
    let (vp, vn, vt) = unpack_dedupe(&Vec::new());
    assert!(vp.is_empty() && vn.is_empty() && vt.is_empty());
}

#[test]
fn index_buffer_points_at_first_match() {
    let a = v3(1.0, 0.0, 0.0);
    let b = v3(0.0, 1.0, 0.0);
    let n = v3(0.0, 0.0, 1.0);
    let t0 = v2(0.0, 0.0);
    let t1 = v2(1.0, 0.0);
    let verts = vec![vert(a, n, t0), vert(a, n, t1), vert(b, n, t1), vert(a, n, t0)];
    let (vp, vn, vt) = unpack_dedupe(&verts);
    assert_eq!(vt, vec![t0, t1, t0]);
    let idx = reconstruct_index_buffer(&verts, &vp, &vn, &vt);
    assert_eq!(idx, vec![ix(0, 0, 0), ix(0, 0, 1), ix(1, 0, 1), ix(0, 0, 0)]);
    for (i, v) in verts.iter().enumerate() {
        assert_eq!(vp[idx[i].vp], v.position);
        assert_eq!(vn[idx[i].vn], v.normal);
        assert_eq!(vt[idx[i].vt], v.uv);
    }
}

#[test]
fn six_corners_make_two_triangles() {
    let corners: Vec<VertexIndex> = (0..6).map(|i| ix(i, 10 + i, 20 + i)).collect();
    let tris = reconstruct_triangles(corners.clone()).unwrap();
    assert_eq!(tris.len(), 2);
    assert_eq!(tris[0], Triangle { p1: corners[0], p2: corners[1], p3: corners[2] });
    assert_eq!(tris[1], Triangle { p1: corners[3], p2: corners[4], p3: corners[5] });
}

#[test]
fn no_corners_make_no_triangles() {
    assert_eq!(reconstruct_triangles(Vec::new()).unwrap(), Vec::new());
}

#[test]
fn partial_triangle_is_refused() {
    let corners: Vec<VertexIndex> = (0..4).map(|i| ix(i, i, i)).collect();
    assert_eq!(
        reconstruct_triangles(corners).unwrap_err(),
        BpmError::CornerCountNotMultipleOfThree
    );
    let n = Vec3f::zero();
    let t = v2(0.0, 0.0);
    let verts = vec![vert(n, n, t), vert(n, n, t)];
    assert_eq!(reindex(&verts).unwrap_err(), BpmError::CornerCountNotMultipleOfThree);
}

fn full_file(corners: &[[f32; 8]]) -> Vec<u8> {
    let mut b = vec![0x42u8, 0x50, 0x4D, 0];
    b.extend_from_slice(&(corners.len() as u16).to_le_bytes());
    for c in corners {
        for v in c {
            b.extend_from_slice(&v.to_le_bytes());
        }
    }
    b
}

#[test]
fn end_to_end_two_triangles() {
    let p = [0.0f32, 0.0, 0.0];
    let q = [1.0f32, 0.0, 0.0];
    let mut corners = Vec::new();
    for pos in [p, p, p, q, q, q] {
        corners.push([pos[0], pos[1], pos[2], 0.0, 0.0, 1.0, 0.5, 0.5]);
    }
    let bytes = full_file(&corners);
    assert_eq!(bytes.len(), 6 + 6 * 32);
    let (vp, vn, vt, tris) = decompile(&bytes).unwrap();
    assert_eq!(vp, vec![v3(0.0, 0.0, 0.0), v3(1.0, 0.0, 0.0)]);
    assert_eq!(vn, vec![v3(0.0, 0.0, 1.0)]);
    assert_eq!(vt, vec![v2(0.5, 0.5)]);
    assert_eq!(tris.len(), 2);
    assert_eq!(tris[0], Triangle { p1: ix(0, 0, 0), p2: ix(0, 0, 0), p3: ix(0, 0, 0) });
    assert_eq!(tris[1], Triangle { p1: ix(1, 0, 0), p2: ix(1, 0, 0), p3: ix(1, 0, 0) });
}

#[test]
fn end_to_end_alternating_positions() {
    let p = [0.0f32, 0.0, 0.0];
    let q = [0.0f32, 2.0, 0.0];
    let mut corners = Vec::new();
    for pos in [p, q, p, q, p, q] {
        corners.push([pos[0], pos[1], pos[2], 1.0, 0.0, 0.0, 0.0, 1.0]);
    }
    let (vp, _, _, tris) = decompile(&full_file(&corners)).unwrap();
    assert_eq!(vp.len(), 6);
    assert_eq!(tris[0], Triangle { p1: ix(0, 0, 0), p2: ix(1, 0, 0), p3: ix(0, 0, 0) });
    assert_eq!(tris[1], Triangle { p1: ix(1, 0, 0), p2: ix(0, 0, 0), p3: ix(1, 0, 0) });
}

#[test]
fn end_to_end_reports_decode_errors() {
    let mut bytes = full_file(&[[0.0; 8]; 3]);
    bytes[0] = b'X';
    assert_eq!(decompile(&bytes).unwrap_err(), BpmError::BadSignature);
    let short = &full_file(&[[0.0; 8]; 3])[..6 + 50];
    assert_eq!(decompile(short).unwrap_err(), BpmError::Truncated);
    let two = full_file(&[[0.0; 8]; 2]);
    assert_eq!(decompile(&two).unwrap_err(), BpmError::CornerCountNotMultipleOfThree);
}
