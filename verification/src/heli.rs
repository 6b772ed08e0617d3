//! Helicopter assembly and per-frame control: building the four-part model
//! as a small scene graph, spinning its rotors, and steering it along a
//! heading supplied by an animation outside the crate.

use vstd::prelude::*;
use crate::linalg::Vec3;
use crate::linalg::Vec3i;
use crate::linalg::Rot;
use crate::linalg::RotI;
use crate::linalg::Rot3I;
use crate::linalg::rot_ok;
use crate::linalg::rot_compose_s;
use crate::scene_graph::SceneNode;
use crate::scene_graph::NodeV;
use crate::scene_graph::empty_node_v;
use crate::scene_graph::node_view;
use crate::scene_graph::children_view;
use crate::scene_graph::lemma_children_view;

verus! {

/// The tail rotor hub's offset from the body origin, in fixed point: the
/// pivot the tail rotor spins about.
pub const TAIL_ROTOR_REF_X: i64 = 22938;

/// See `TAIL_ROTOR_REF_X`.
pub const TAIL_ROTOR_REF_Y: i64 = 150733;

/// See `TAIL_ROTOR_REF_X`.
pub const TAIL_ROTOR_REF_Z: i64 = 681574;

/// The expected model of a freshly assembled helicopter: the body as the
/// root, with the main rotor, the tail rotor (pivoted at its hub) and the
/// door as its three children, in that order.
pub open spec fn heli_v(
    body_vao: int,
    body_count: int,
    main_vao: int,
    main_count: int,
    tail_vao: int,
    tail_count: int,
    door_vao: int,
    door_count: int,
) -> NodeV {
    let tail = NodeV {
        reference_point: Vec3i {
            x: TAIL_ROTOR_REF_X as int,
            y: TAIL_ROTOR_REF_Y as int,
            z: TAIL_ROTOR_REF_Z as int,
        },
        ..empty_node_v(tail_vao, tail_count)
    };
    NodeV {
        children: seq![
            empty_node_v(main_vao, main_count),
            tail,
            empty_node_v(door_vao, door_count),
        ],
        ..empty_node_v(body_vao, body_count)
    }
}

/// Assembles a helicopter from the four meshes' vertex-array handles and
/// index counts: body as root; main rotor, tail rotor and door as its
/// children, the tail rotor pivoted at its hub.
pub fn create_heli(
    body_vao: u32,
    body_count: i32,
    main_vao: u32,
    main_count: i32,
    tail_vao: u32,
    tail_count: i32,
    door_vao: u32,
    door_count: i32,
) -> (r: SceneNode)
    ensures
        r@ == heli_v(
            body_vao as int,
            body_count as int,
            main_vao as int,
            main_count as int,
            tail_vao as int,
            tail_count as int,
            door_vao as int,
            door_count as int,
        ),
{
    let mut root = SceneNode::from_vao(body_vao, body_count);
    let main = SceneNode::from_vao(main_vao, main_count);
    let mut tail = SceneNode::from_vao(tail_vao, tail_count);
    let door = SceneNode::from_vao(door_vao, door_count);
    tail.reference_point = Vec3 { x: TAIL_ROTOR_REF_X, y: TAIL_ROTOR_REF_Y, z: TAIL_ROTOR_REF_Z };
    root.add_child(main);
    root.add_child(tail);
    root.add_child(door);
    proof {
        assert(root@.children =~= heli_v(
            body_vao as int,
            body_count as int,
            main_vao as int,
            main_count as int,
            tail_vao as int,
            tail_count as int,
            door_vao as int,
            door_count as int,
        ).children);
    }
    root
}

/// A helicopter with its rotors advanced by one frame's spin: the main
/// rotor's yaw composed with `spin`, the tail rotor's pitch composed with
/// the opposite angle; nothing else touched.
pub open spec fn rotors_spun_s(n: NodeV, spin: RotI) -> NodeV {
    let main = n.children[0];
    let tail = n.children[1];
    let main2 = NodeV {
        rotation: Rot3I { y: rot_compose_s(main.rotation.y, spin), ..main.rotation },
        ..main
    };
    let tail2 = NodeV {
        rotation: Rot3I {
            x: rot_compose_s(tail.rotation.x, RotI { c: spin.c, s: -spin.s }),
            ..tail.rotation
        },
        ..tail
    };
    NodeV { children: n.children.update(0, main2).update(1, tail2), ..n }
}

/// Spins the rotors: the main rotor turns about its y axis by the angle
/// `spin` holds, the tail rotor about its x axis by the opposite angle.
/// The caller computes `spin` from the frame's elapsed time.
pub fn rotate_rotors(heli: &mut SceneNode, spin: &Rot)
    requires
        old(heli)@.children.len() >= 2,
        rot_ok(spin@),
        rot_ok(old(heli)@.children[0].rotation.y),
        rot_ok(old(heli)@.children[1].rotation.x),
    ensures
        final(heli)@ == rotors_spun_s(old(heli)@, spin@),
{
    let ghost n0 = *heli;
    proof {
        lemma_children_view(heli.children@);
    }
    let spin_y: Rot = heli.children[0].rotation.y;
    let new_y = spin_y.compose(spin);
    let c0 = &mut heli.children[0];
    c0.rotation.y = new_y;
    let ghost mid = *heli;
    let spin_x: Rot = heli.children[1].rotation.x;
    let inv = spin.inverse();
    let new_x = spin_x.compose(&inv);
    let c1 = &mut heli.children[1];
    c1.rotation.x = new_x;
    proof {
        lemma_children_view(n0.children@);
        lemma_children_view(heli.children@);
        let target = rotors_spun_s(n0@, spin@);
        assert forall|i: int| 0 <= i < n0.children@.len() implies children_view(heli.children@)[i]
            == target.children[i] by {
            assert(children_view(heli.children@)[i] == node_view(heli.children@[i]));
            assert(n0@.children[i] == node_view(n0.children@[i]));
            if i == 0 {
                assert(heli.children@[0] == mid.children@[0]);
                assert(heli.children@[0].children@ == n0.children@[0].children@);
            } else if i == 1 {
                assert(heli.children@[1].children@ == n0.children@[1].children@);
            } else {
                assert(heli.children@[i] == n0.children@[i]);
            }
        }
        assert(children_view(heli.children@) =~= rotors_spun_s(n0@, spin@).children);
    }
}

/// One frame of the externally supplied heading animation: a ground-plane
/// position and the three Euler angles, each angle as cosine and sine.
#[derive(Clone, Copy, PartialEq, Eq, Structural, Debug)]
pub struct Heading {
    pub x: i64,
    pub z: i64,
    pub pitch: Rot,
    pub yaw: Rot,
    pub roll: Rot,
}

/// Mathematical model of a `Heading`.
pub ghost struct HeadingV {
    pub x: int,
    pub z: int,
    pub pitch: RotI,
    pub yaw: RotI,
    pub roll: RotI,
}

impl View for Heading {
    type V = HeadingV;

    open spec fn view(&self) -> HeadingV {
        HeadingV {
            x: self.x as int,
            z: self.z as int,
            pitch: self.pitch@,
            yaw: self.yaw@,
            roll: self.roll@,
        }
    }
}

/// A helicopter steered to a heading: ground-plane position taken from the
/// heading (the height stays), rotation set to the heading's angles.
pub open spec fn heading_applied_s(n: NodeV, h: HeadingV) -> NodeV {
    NodeV {
        position: Vec3i { x: h.x, y: n.position.y, z: h.z },
        rotation: Rot3I { x: h.pitch, y: h.yaw, z: h.roll },
        ..n
    }
}

/// Steers the helicopter along the animation: sets the ground-plane
/// position and the three rotation angles from the heading, leaving the
/// height and everything else unchanged.
pub fn change_heading(heli: &mut SceneNode, heading: &Heading)
    ensures
        final(heli)@ == heading_applied_s(old(heli)@, heading@),
{
    heli.position.x = heading.x;
    heli.position.z = heading.z;
    heli.rotation.x = heading.pitch;
    heli.rotation.y = heading.yaw;
    heli.rotation.z = heading.roll;
}

} // verus!
