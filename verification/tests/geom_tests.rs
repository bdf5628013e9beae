use pocket_cube::cube::{Col, Cube, FaceId};
use pocket_cube::geom::{
    FP, RotX, RotY, RotZ, cube_corner, face_depth, face_visible, inset_polygon, project,
    rotate_pt_all, Quad2,
};
use pocket_cube::render::{face_index, face_polygons, faces_by_depth};

fn rz0() -> RotZ {
    RotZ { c: FP, s: 0 }
}

fn ry0() -> RotY {
    RotY { c: FP, s: 0 }
}

fn rx0() -> RotX {
    RotX { c: FP, s: 0 }
}

fn rx180() -> RotX {
    RotX { c: -FP, s: 0 }
}

#[test]
fn identity_rotation_fixes_points() {
    for i in 0..8 {
        let p = cube_corner(i);
        let q = rotate_pt_all(p, rz0(), ry0(), rx0());
        assert_eq!(p, q);
    }
}

#[test]
fn half_x_rotation_flips_y_and_z() {
    let p = (0, 0, 0);
    let q = rotate_pt_all(p, rz0(), ry0(), rx180());
    assert_eq!(q, (0, 2 * FP, 2 * FP));
}

#[test]
fn projection_at_known_points() {
    // The unit X axis maps to the first isometric basis vector.
    let p = project(FP, 0, 0, FP, (0, 0));
    assert_eq!(p, (8_660_254, -5_000_000));
    // The unit Z axis maps straight up the screen.
    let p = project(0, 0, FP, FP, (0, 0));
    assert_eq!(p, (0, -10_000_000));
    // Scale and origin apply after the basis combination.
    let p = project(0, 0, FP, 2 * FP, (100, 200));
    assert_eq!(p, (100, 200 - 20_000_000));
}

#[test]
fn front_visible_back_hidden_at_rest() {
    assert!(face_visible(FaceId::F, rz0(), rx0(), ry0()));
    assert!(!face_visible(FaceId::B, rz0(), rx0(), ry0()));
}

#[test]
fn front_hidden_back_visible_after_half_x_turn() {
    assert!(!face_visible(FaceId::F, rz0(), rx180(), ry0()));
    assert!(face_visible(FaceId::B, rz0(), rx180(), ry0()));
}

#[test]
fn exactly_three_faces_visible_at_rest() {
    let faces = [FaceId::U, FaceId::D, FaceId::F, FaceId::B, FaceId::L, FaceId::R];
    let visible: Vec<FaceId> =
        faces.into_iter().filter(|f| face_visible(*f, rz0(), rx0(), ry0())).collect();
    // In this isometric basis the object Y axis points down-left on the
    // screen, so at rest the camera sees the up, front and left faces.
    assert_eq!(visible, vec![FaceId::U, FaceId::F, FaceId::L]);
}

#[test]
fn faces_by_depth_is_a_sorted_permutation() {
    let order = faces_by_depth(rz0(), rx0(), ry0());
    assert_eq!(order.len(), 6);
    let mut seen = [false; 6];
    for f in order.iter() {
        seen[face_index(*f)] = true;
    }
    assert!(seen.iter().all(|s| *s), "every face appears once");
    for w in order.windows(2) {
        let da = face_depth(w[0], rz0(), rx0(), ry0());
        let db = face_depth(w[1], rz0(), rx0(), ry0());
        assert!(
            da < db || (da == db && face_index(w[0]) < face_index(w[1])),
            "ascending depth, ties by enumeration order"
        );
    }
}

#[test]
fn hidden_face_emits_no_polygons() {
    let cube = Cube::default();
    let back = cube.face(FaceId::B);
    let polys = face_polygons(&back, FaceId::B, (0, 0), 22 * FP, rz0(), rx0(), ry0());
    assert!(polys.is_none());
}

#[test]
fn visible_face_polygons_carry_the_sticker_colors() {
    let cube = Cube::default();
    let front = cube.face(FaceId::F);
    let polys = face_polygons(&front, FaceId::F, (0, 0), 22 * FP, rz0(), rx0(), ry0())
        .expect("the front face is visible at rest");
    assert!(matches!(polys.s00.color, Col::G));
    assert!(matches!(polys.s01.color, Col::G));
    assert!(matches!(polys.s10.color, Col::G));
    assert!(matches!(polys.s11.color, Col::G));
    // The sticker quads sit strictly inside the plastic base quad.
    let xs = [polys.outer.p0.0, polys.outer.p1.0, polys.outer.p2.0, polys.outer.p3.0];
    let min_x = *xs.iter().min().unwrap();
    let max_x = *xs.iter().max().unwrap();
    for q in [polys.s00.quad, polys.s01.quad, polys.s10.quad, polys.s11.quad] {
        for p in [q.p0, q.p1, q.p2, q.p3] {
            assert!(min_x < p.0 && p.0 < max_x);
        }
    }
}

#[test]
fn inset_pulls_points_toward_the_centroid() {
    let quad = Quad2 {
        p0: (0, 0),
        p1: (4 * FP, 0),
        p2: (4 * FP, 4 * FP),
        p3: (0, 4 * FP),
    };
    // k = 0.5: each corner moves halfway to the centroid (2FP, 2FP).
    let r = inset_polygon(&quad, FP / 2);
    assert_eq!(r.p0, (FP, FP));
    assert_eq!(r.p1, (3 * FP, FP));
    assert_eq!(r.p2, (3 * FP, 3 * FP));
    assert_eq!(r.p3, (FP, 3 * FP));
    // k = 0: the quad is unchanged.
    let r = inset_polygon(&quad, 0);
    assert_eq!(r.p0, quad.p0);
    assert_eq!(r.p3, quad.p3);
}
