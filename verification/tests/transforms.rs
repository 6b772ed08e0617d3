//! Scene-graph and transform tests: hand-computed matrices, pivot
//! rotation, tree propagation, idempotence, the render traversal, and the
//! helicopter helpers.

use gloom_rs::fixed::FX_ONE;
use gloom_rs::linalg::{Mat4, Rot, Rot3, Vec3, Vec4};
use gloom_rs::scene_graph::{DrawCall, SceneNode};
use gloom_rs::heli::{
    change_heading, create_heli, rotate_rotors, Heading, TAIL_ROTOR_REF_X, TAIL_ROTOR_REF_Y,
    TAIL_ROTOR_REF_Z,
};

fn fx(units: i64) -> i64 {
    units * FX_ONE
}

fn vec3_units(x: i64, y: i64, z: i64) -> Vec3 {
    Vec3 { x: fx(x), y: fx(y), z: fx(z) }
}

/// A quarter turn: cosine 0, sine 1.
fn quarter_turn() -> Rot {
    Rot { c: 0, s: FX_ONE }
}

/// A half turn: cosine -1, sine 0.
fn half_turn() -> Rot {
    Rot { c: -FX_ONE, s: 0 }
}

#[test]
fn identity_times_identity_is_identity() {
    let i = Mat4::identity();
    let p = gloom_rs::linalg::mat_mul(&i, &i);
    assert_eq!(p, Mat4::identity());
}

#[test]
fn translation_moves_points_exactly() {
    let t = Mat4::translation(&vec3_units(1, 2, 3));
    let p = gloom_rs::linalg::transform_point(&t, &vec3_units(10, 20, 30));
    assert_eq!(p, vec3_units(11, 22, 33));
}

#[test]
fn translation_leaves_directions_alone() {
    let t = Mat4::translation(&vec3_units(1, 2, 3));
    let d = gloom_rs::linalg::transform_dir(&t, &vec3_units(10, 20, 30));
    assert_eq!(d, vec3_units(10, 20, 30));
}

#[test]
fn rotation_composition_adds_angles() {
    // Two quarter turns make a half turn.
    let q = quarter_turn();
    let h = q.compose(&q);
    assert_eq!(h, half_turn());
}

// With a zero reference point the local transform is the composition of
// scale, position translation and the rotations alone; the world matrix for
// position (1, 0, 0), a quarter turn of yaw and unit scale is known by
// hand.
#[test]
fn no_pivot_matrix_matches_hand_computation() {
    let mut node = SceneNode::new();
    node.position = vec3_units(1, 0, 0);
    node.rotation = Rot3 { x: Rot::identity(), y: quarter_turn(), z: Rot::identity() };
    node.propagate_transforms(&Mat4::identity());
    let k = FX_ONE;
    // T(1,0,0) * Ry(quarter turn), row-major.
    let expected = Mat4 {
        r0: Vec4 { x: 0, y: 0, z: k, w: k },
        r1: Vec4 { x: 0, y: k, z: 0, w: 0 },
        r2: Vec4 { x: -k, y: 0, z: 0, w: 0 },
        r3: Vec4 { x: 0, y: 0, z: 0, w: k },
    };
    assert_eq!(node.world_matrix, expected);
    // The node's position, carried as a direction, lands at (0, 0, -1).
    assert_eq!(node.world_position, vec3_units(0, 0, -1));
}

// Pivot correctness: a half turn about the axis through (0, 1, 0) carries
// the test point (0, 0, 1) to (0, 2, -1) — around the reference point, not
// around the origin.
#[test]
fn rotation_happens_about_the_reference_point() {
    let mut node = SceneNode::new();
    node.reference_point = vec3_units(0, 1, 0);
    node.rotation = Rot3 { x: half_turn(), y: Rot::identity(), z: Rot::identity() };
    node.propagate_transforms(&Mat4::identity());
    let p = gloom_rs::linalg::transform_point(&node.world_matrix, &vec3_units(0, 0, 1));
    assert_eq!(p, vec3_units(0, 2, -1));
}

// Without the pivot the same half turn about x carries (0, 0, 1) to
// (0, 0, -1): the reference point is what moved the image up by two.
#[test]
fn rotation_about_origin_differs_from_pivoted() {
    let mut node = SceneNode::new();
    node.rotation = Rot3 { x: half_turn(), y: Rot::identity(), z: Rot::identity() };
    node.propagate_transforms(&Mat4::identity());
    let p = gloom_rs::linalg::transform_point(&node.world_matrix, &vec3_units(0, 0, 1));
    assert_eq!(p, vec3_units(0, 0, -1));
}

// Tree propagation: running the pass on a child alone, with its parent's
// world matrix as the inherited matrix, gives the same world matrix the
// full top-down pass gave it.
#[test]
fn incremental_composition_equals_one_pass() {
    let mut root = SceneNode::new();
    root.position = vec3_units(2, 0, -1);
    root.rotation = Rot3 { x: Rot::identity(), y: quarter_turn(), z: Rot::identity() };

    let mut child = SceneNode::new();
    child.position = vec3_units(0, 3, 0);
    child.rotation = Rot3 { x: half_turn(), y: Rot::identity(), z: Rot::identity() };
    child.reference_point = vec3_units(0, 1, 0);

    let mut grandchild = SceneNode::new();
    grandchild.position = vec3_units(5, 0, 0);

    // A standalone copy of the child's static fields, to run separately.
    let mut child_alone = SceneNode::new();
    child_alone.position = child.position;
    child_alone.rotation = child.rotation;
    child_alone.reference_point = child.reference_point;
    let mut grandchild_alone = SceneNode::new();
    grandchild_alone.position = grandchild.position;

    child.add_child(grandchild);
    root.add_child(child);
    root.propagate_transforms(&Mat4::identity());

    let child_world = root.children[0].world_matrix;
    let grandchild_world = root.children[0].children[0].world_matrix;

    child_alone.propagate_transforms(&root.world_matrix);
    assert_eq!(child_alone.world_matrix, child_world);
    grandchild_alone.propagate_transforms(&child_world);
    assert_eq!(grandchild_alone.world_matrix, grandchild_world);
}

// Idempotence: a second pass with the same inherited matrix changes
// neither the world matrix nor the world position of any node.
#[test]
fn propagating_twice_changes_nothing() {
    let mut root = SceneNode::new();
    root.position = vec3_units(1, 2, 3);
    root.rotation = Rot3 { x: quarter_turn(), y: Rot::identity(), z: half_turn() };
    let mut child = SceneNode::new();
    child.position = vec3_units(0, 5, 0);
    child.reference_point = vec3_units(1, 0, 0);
    child.rotation = Rot3 { x: Rot::identity(), y: half_turn(), z: Rot::identity() };
    root.add_child(child);

    root.propagate_transforms(&Mat4::identity());
    let w1 = root.world_matrix;
    let p1 = root.world_position;
    let cw1 = root.children[0].world_matrix;
    let cp1 = root.children[0].world_position;

    root.propagate_transforms(&Mat4::identity());
    assert_eq!(root.world_matrix, w1);
    assert_eq!(root.world_position, p1);
    assert_eq!(root.children[0].world_matrix, cw1);
    assert_eq!(root.children[0].world_position, cp1);
}

// End-to-end: a two-level graph whose child sits at (0, 5, 0) ends one
// pass with the child's world position at exactly (0, 5, 0).
#[test]
fn two_level_graph_places_child_at_its_offset() {
    let mut root = SceneNode::new();
    let mut child = SceneNode::new();
    child.position = vec3_units(0, 5, 0);
    root.add_child(child);
    root.propagate_transforms(&Mat4::identity());
    assert_eq!(root.children[0].world_position, vec3_units(0, 5, 0));
    assert_eq!(root.world_position, vec3_units(0, 0, 0));
}

#[test]
fn default_node_has_no_geometry_and_identity_transform() {
    let n = SceneNode::new();
    assert_eq!(n.vao_id, 0);
    assert_eq!(n.index_count, -1);
    assert_eq!(n.children.len(), 0);
    assert_eq!(n.scale, vec3_units(1, 1, 1));
    assert_eq!(n.world_matrix, Mat4::identity());
}

#[test]
fn from_vao_keeps_handle_and_count() {
    let n = SceneNode::from_vao(7, 300);
    assert_eq!(n.vao_id, 7);
    assert_eq!(n.index_count, 300);
    assert_eq!(n.children.len(), 0);
}

#[test]
fn add_child_appends_in_order() {
    let mut root = SceneNode::new();
    root.add_child(SceneNode::from_vao(1, 10));
    root.add_child(SceneNode::from_vao(2, 20));
    assert_eq!(root.children.len(), 2);
    assert_eq!(root.children[0].vao_id, 1);
    assert_eq!(root.children[1].vao_id, 2);
}

// The render traversal collects, in pre-order, exactly the nodes with a
// positive index count, carrying their world matrices.
#[test]
fn traversal_collects_geometry_nodes_in_preorder() {
    let mut root = SceneNode::new();
    let mut body = SceneNode::from_vao(1, 30);
    body.position = vec3_units(1, 0, 0);
    let rotor = SceneNode::from_vao(2, 12);
    let group = SceneNode::new();
    body.add_child(rotor);
    root.add_child(body);
    root.add_child(group);
    root.propagate_transforms(&Mat4::identity());

    let mut calls: Vec<DrawCall> = Vec::new();
    root.traverse_for_render(&mut calls);
    assert_eq!(calls.len(), 2);
    assert_eq!(calls[0].vao_id, 1);
    assert_eq!(calls[0].index_count, 30);
    assert_eq!(calls[0].world_matrix, root.children[0].world_matrix);
    assert_eq!(calls[1].vao_id, 2);
    assert_eq!(calls[1].index_count, 12);
    assert_eq!(calls[1].world_matrix, root.children[0].children[0].world_matrix);
}

#[test]
fn traversal_of_bare_group_adds_nothing() {
    let root = SceneNode::new();
    let mut calls: Vec<DrawCall> = Vec::new();
    root.traverse_for_render(&mut calls);
    assert_eq!(calls.len(), 0);
}

#[test]
fn heli_has_three_parts_with_pivoted_tail_rotor() {
    let heli = create_heli(1, 100, 2, 40, 3, 20, 4, 10);
    assert_eq!(heli.vao_id, 1);
    assert_eq!(heli.index_count, 100);
    assert_eq!(heli.children.len(), 3);
    assert_eq!(heli.children[0].vao_id, 2);
    assert_eq!(heli.children[1].vao_id, 3);
    assert_eq!(heli.children[2].vao_id, 4);
    let tail_ref = heli.children[1].reference_point;
    assert_eq!(tail_ref.x, TAIL_ROTOR_REF_X);
    assert_eq!(tail_ref.y, TAIL_ROTOR_REF_Y);
    assert_eq!(tail_ref.z, TAIL_ROTOR_REF_Z);
    assert_eq!(heli.children[0].reference_point, vec3_units(0, 0, 0));
}

#[test]
fn rotors_spin_in_opposite_senses() {
    let mut heli = create_heli(1, 100, 2, 40, 3, 20, 4, 10);
    let spin = quarter_turn();
    rotate_rotors(&mut heli, &spin);
    // Main rotor: yaw advanced by a quarter turn.
    assert_eq!(heli.children[0].rotation.y, quarter_turn());
    // Tail rotor: pitch advanced by the opposite quarter turn.
    assert_eq!(heli.children[1].rotation.x, Rot { c: 0, s: -FX_ONE });
    // A second spin brings them to half turns either way.
    rotate_rotors(&mut heli, &spin);
    assert_eq!(heli.children[0].rotation.y, half_turn());
    assert_eq!(heli.children[1].rotation.x, half_turn());
    // The door never moves.
    assert_eq!(heli.children[2].rotation, Rot3::identity());
}

#[test]
fn heading_sets_ground_position_and_angles() {
    let mut heli = create_heli(1, 100, 2, 40, 3, 20, 4, 10);
    heli.position = vec3_units(0, 9, 0);
    let heading = Heading {
        x: fx(12),
        z: fx(-7),
        pitch: quarter_turn(),
        yaw: half_turn(),
        roll: Rot::identity(),
    };
    change_heading(&mut heli, &heading);
    assert_eq!(heli.position, Vec3 { x: fx(12), y: fx(9), z: fx(-7) });
    assert_eq!(heli.rotation.x, quarter_turn());
    assert_eq!(heli.rotation.y, half_turn());
    assert_eq!(heli.rotation.z, Rot::identity());
}

#[test]
fn scaling_matrix_scales_points() {
    let s = Mat4::scaling(&vec3_units(2, 3, 4));
    let p = gloom_rs::linalg::transform_point(&s, &vec3_units(1, 1, 1));
    assert_eq!(p, vec3_units(2, 3, 4));
}
