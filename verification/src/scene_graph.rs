//! The scene graph: a tree of transformable nodes, each owning its children.
//!
//! `propagate_transforms` composes every node's local transform in a fixed
//! order — scale, translate to the node's position, translate to the
//! rotation reference point (the pivot), rotate about x, y and z, translate
//! back from the pivot — and multiplies it under the matrix inherited from
//! the parent, top-down through the whole tree.  `traverse_for_render`
//! collects the draw calls of every node that carries geometry, in pre-order.

use vstd::prelude::*;
use crate::linalg::Vec3;
use crate::linalg::Rot3;
use crate::linalg::Mat4;
use crate::linalg::Vec3i;
use crate::linalg::RotI;
use crate::linalg::Rot3I;
use crate::linalg::Mat4i;
use crate::linalg::mat_mul;
use crate::linalg::mat_mul_s;
use crate::linalg::identity_s;
use crate::linalg::scaling_s;
use crate::linalg::translation_s;
use crate::linalg::rotation_x_s;
use crate::linalg::rotation_y_s;
use crate::linalg::rotation_z_s;
use crate::linalg::v3_neg_s;
use crate::linalg::transform_dir;
use crate::linalg::transform_dir_s;
use crate::linalg::v3_ok;
use crate::linalg::rot3_ok;
use crate::linalg::m4_ok;
use crate::linalg::v3_in_i64;
use crate::fixed::FX_ONE;

verus! {

/// One node of the scene graph.  The derived fields `world_matrix` and
/// `world_position` are only meaningful immediately after a propagation
/// pass.
pub struct SceneNode {
    pub position: Vec3,
    pub rotation: Rot3,
    pub scale: Vec3,
    pub reference_point: Vec3,
    pub world_matrix: Mat4,
    pub world_position: Vec3,
    pub vao_id: u32,
    pub index_count: i32,
    pub children: Vec<SceneNode>,
}

/// Mathematical model of a node and its subtree.
pub ghost struct NodeV {
    pub position: Vec3i,
    pub rotation: Rot3I,
    pub scale: Vec3i,
    pub reference_point: Vec3i,
    pub world_matrix: Mat4i,
    pub world_position: Vec3i,
    pub vao_id: int,
    pub index_count: int,
    pub children: Seq<NodeV>,
}

/// The model of a node: its fields, with the subtree modelled recursively.
pub open spec fn node_view(n: SceneNode) -> NodeV
    decreases n,
{
    NodeV {
        position: n.position@,
        rotation: n.rotation@,
        scale: n.scale@,
        reference_point: n.reference_point@,
        world_matrix: n.world_matrix@,
        world_position: n.world_position@,
        vao_id: n.vao_id as int,
        index_count: n.index_count as int,
        children: children_view(n.children@),
    }
}

/// The models of a sequence of sibling nodes, in order.
pub open spec fn children_view(s: Seq<SceneNode>) -> Seq<NodeV>
    decreases s,
{
    if s.len() == 0 {
        Seq::empty()
    } else {
        children_view(s.drop_last()).push(node_view(s.last()))
    }
}

impl View for SceneNode {
    type V = NodeV;

    open spec fn view(&self) -> NodeV {
        node_view(*self)
    }
}

/// `children_view` maps the sequence element by element.
pub proof fn lemma_children_view(s: Seq<SceneNode>)
    ensures
        children_view(s).len() == s.len(),
        forall|i: int| 0 <= i < s.len() ==> children_view(s)[i] == node_view(#[trigger] s[i]),
    decreases s.len(),
{
    if s.len() > 0 {
        lemma_children_view(s.drop_last());
        assert forall|i: int| 0 <= i < s.len() implies children_view(s)[i] == node_view(
            #[trigger] s[i],
        ) by {
            if i < s.len() - 1 {
                assert(children_view(s)[i] == children_view(s.drop_last())[i]);
                assert(s.drop_last()[i] == s[i]);
            }
        }
    }
}

// The local transform: the steps of the composition, in the documented
// order, each one a fixed-point matrix product.

/// Step 1: scale.
pub open spec fn local_m1(n: NodeV) -> Mat4i {
    mat_mul_s(identity_s(), scaling_s(n.scale))
}

/// Step 2: translate to the node's position.
pub open spec fn local_m2(n: NodeV) -> Mat4i {
    mat_mul_s(local_m1(n), translation_s(n.position))
}

/// Step 3: translate to the rotation reference point.
pub open spec fn local_m3(n: NodeV) -> Mat4i {
    mat_mul_s(local_m2(n), translation_s(n.reference_point))
}

/// Step 4: rotate about x.
pub open spec fn local_m4(n: NodeV) -> Mat4i {
    mat_mul_s(local_m3(n), rotation_x_s(n.rotation.x))
}

/// Step 5: rotate about y.
pub open spec fn local_m5(n: NodeV) -> Mat4i {
    mat_mul_s(local_m4(n), rotation_y_s(n.rotation.y))
}

/// Step 6: rotate about z.
pub open spec fn local_m6(n: NodeV) -> Mat4i {
    mat_mul_s(local_m5(n), rotation_z_s(n.rotation.z))
}

/// The full local transform: step 7 translates back from the reference
/// point.
pub open spec fn local_mat_s(n: NodeV) -> Mat4i {
    mat_mul_s(local_m6(n), translation_s(v3_neg_s(n.reference_point)))
}

/// The world matrix a node gets under an inherited matrix.
pub open spec fn world_of(n: NodeV, m: Mat4i) -> Mat4i {
    mat_mul_s(m, local_mat_s(n))
}

/// The node's own fields are in range and every step of its local transform
/// stays within the overflow-safe entry bound.
pub open spec fn local_fits(n: NodeV) -> bool {
    &&& v3_ok(n.position)
    &&& v3_ok(n.scale)
    &&& v3_ok(n.reference_point)
    &&& rot3_ok(n.rotation)
    &&& m4_ok(local_m1(n))
    &&& m4_ok(local_m2(n))
    &&& m4_ok(local_m3(n))
    &&& m4_ok(local_m4(n))
    &&& m4_ok(local_m5(n))
    &&& m4_ok(local_m6(n))
    &&& m4_ok(local_mat_s(n))
}

/// Machine limits for one whole propagation pass: every matrix built along
/// the way stays within the entry bound and every derived position fits in
/// an `i64`.
pub open spec fn propagate_fits(n: NodeV, m: Mat4i) -> bool
    decreases n,
{
    &&& local_fits(n)
    &&& m4_ok(m)
    &&& m4_ok(world_of(n, m))
    &&& v3_in_i64(transform_dir_s(world_of(n, m), n.position))
    &&& forall|i: int|
        0 <= i < n.children.len() ==> propagate_fits(#[trigger] n.children[i], world_of(n, m))
}

/// What one propagation pass does to a subtree: the world matrix becomes
/// the inherited matrix times the local transform, the world position is
/// that matrix applied to the node's position (as a direction), and every
/// child inherits the node's new world matrix.  All other fields keep
/// their values.
pub open spec fn propagate_spec(n: NodeV, m: Mat4i) -> NodeV
    decreases n,
{
    NodeV {
        position: n.position,
        rotation: n.rotation,
        scale: n.scale,
        reference_point: n.reference_point,
        world_matrix: world_of(n, m),
        world_position: transform_dir_s(world_of(n, m), n.position),
        vao_id: n.vao_id,
        index_count: n.index_count,
        children: propagate_children_spec(n.children, world_of(n, m)),
    }
}

/// One propagation pass over a sequence of siblings, all under the same
/// inherited matrix.
pub open spec fn propagate_children_spec(s: Seq<NodeV>, w: Mat4i) -> Seq<NodeV>
    decreases s,
{
    if s.len() == 0 {
        Seq::empty()
    } else {
        propagate_children_spec(s.drop_last(), w).push(propagate_spec(s.last(), w))
    }
}

/// `propagate_children_spec` maps the sequence element by element.
pub proof fn lemma_propagate_children(s: Seq<NodeV>, w: Mat4i)
    ensures
        propagate_children_spec(s, w).len() == s.len(),
        forall|i: int|
            0 <= i < s.len() ==> propagate_children_spec(s, w)[i] == propagate_spec(
                #[trigger] s[i],
                w,
            ),
    decreases s.len(),
{
    if s.len() > 0 {
        lemma_propagate_children(s.drop_last(), w);
        assert forall|i: int| 0 <= i < s.len() implies propagate_children_spec(s, w)[i]
            == propagate_spec(#[trigger] s[i], w) by {
            if i < s.len() - 1 {
                assert(propagate_children_spec(s, w)[i] == propagate_children_spec(
                    s.drop_last(),
                    w,
                )[i]);
                assert(s.drop_last()[i] == s[i]);
            }
        }
    }
}

impl SceneNode {
    /// An empty grouping node at the origin: unit scale, no rotation, no
    /// geometry.
    pub fn new() -> (r: SceneNode)
        ensures
            r@ == empty_node_v(0, -1),
    {
        SceneNode {
            position: Vec3::zero(),
            rotation: Rot3::identity(),
            scale: Vec3::one(),
            reference_point: Vec3::zero(),
            world_matrix: Mat4::identity(),
            world_position: Vec3::zero(),
            vao_id: 0,
            index_count: -1,
            children: Vec::new(),
        }
    }

    /// A node carrying geometry: like `new`, with the given vertex-array
    /// handle and index count.
    pub fn from_vao(vao_id: u32, index_count: i32) -> (r: SceneNode)
        ensures
            r@ == empty_node_v(vao_id as int, index_count as int),
    {
        SceneNode {
            position: Vec3::zero(),
            rotation: Rot3::identity(),
            scale: Vec3::one(),
            reference_point: Vec3::zero(),
            world_matrix: Mat4::identity(),
            world_position: Vec3::zero(),
            vao_id,
            index_count,
            children: Vec::new(),
        }
    }

    /// Appends `child` to the node's ordered child list, taking ownership:
    /// the graph stays a tree by construction.
    pub fn add_child(&mut self, child: SceneNode)
        ensures
            final(self)@.children == old(self)@.children.push(child@),
            final(self)@.position == old(self)@.position,
            final(self)@.rotation == old(self)@.rotation,
            final(self)@.scale == old(self)@.scale,
            final(self)@.reference_point == old(self)@.reference_point,
            final(self)@.world_matrix == old(self)@.world_matrix,
            final(self)@.world_position == old(self)@.world_position,
            final(self)@.vao_id == old(self)@.vao_id,
            final(self)@.index_count == old(self)@.index_count,
    {
        let ghost before = self.children@;
        self.children.push(child);
        proof {
            assert(self.children@.drop_last() =~= before);
            assert(children_view(self.children@) == children_view(before).push(node_view(child)));
        }
    }
}

/// The model of a freshly constructed node.
pub open spec fn empty_node_v(vao_id: int, index_count: int) -> NodeV {
    NodeV {
        position: Vec3i { x: 0, y: 0, z: 0 },
        rotation: Rot3I {
            x: RotI { c: FX_ONE as int, s: 0 },
            y: RotI { c: FX_ONE as int, s: 0 },
            z: RotI { c: FX_ONE as int, s: 0 },
        },
        scale: Vec3i { x: FX_ONE as int, y: FX_ONE as int, z: FX_ONE as int },
        reference_point: Vec3i { x: 0, y: 0, z: 0 },
        world_matrix: identity_s(),
        world_position: Vec3i { x: 0, y: 0, z: 0 },
        vao_id: vao_id,
        index_count: index_count,
        children: Seq::empty(),
    }
}

impl SceneNode {
    /// The central per-frame operation: recomputes `world_matrix` and
    /// `world_position` for this node and, recursively, for every
    /// descendant, each child inheriting its parent's new world matrix.
    /// Call it on the root with the identity matrix.
    pub fn propagate_transforms(&mut self, inherited: &Mat4)
        requires
            propagate_fits(old(self)@, inherited@),
        ensures
            final(self)@ == propagate_spec(old(self)@, inherited@),
        decreases *old(self),
    {
        let ghost n0 = *self;
        let m1 = mat_mul(&Mat4::identity(), &Mat4::scaling(&self.scale));
        let m2 = mat_mul(&m1, &Mat4::translation(&self.position));
        let m3 = mat_mul(&m2, &Mat4::translation(&self.reference_point));
        let m4 = mat_mul(&m3, &Mat4::rotation_x(&self.rotation.x));
        let m5 = mat_mul(&m4, &Mat4::rotation_y(&self.rotation.y));
        let m6 = mat_mul(&m5, &Mat4::rotation_z(&self.rotation.z));
        let m7 = mat_mul(&m6, &Mat4::translation(&self.reference_point.neg()));
        let world = mat_mul(inherited, &m7);
        proof {
            assert(world@ == world_of(n0@, inherited@));
        }
        self.world_matrix = world;
        let wp = transform_dir(&world, &self.position);
        self.world_position = wp;
        let ghost orig = n0.children@;
        let mut j: usize = 0;
        while j < self.children.len()
            invariant
                0 <= j <= self.children@.len(),
                n0 == *old(self),
                self.children@.len() == orig.len(),
                self.position == n0.position,
                self.rotation == n0.rotation,
                self.scale == n0.scale,
                self.reference_point == n0.reference_point,
                self.vao_id == n0.vao_id,
                self.index_count == n0.index_count,
                self.world_matrix == world,
                self.world_position == wp,
                world@ == world_of(n0@, inherited@),
                wp@ == transform_dir_s(world_of(n0@, inherited@), n0@.position),
                orig == n0.children@,
                forall|i: int|
                    j <= i < orig.len() ==> self.children@[i] == orig[i],
                forall|i: int|
                    0 <= i < j ==> node_view(#[trigger] self.children@[i]) == propagate_spec(
                        node_view(orig[i]),
                        world@,
                    ),
                propagate_fits(n0@, inherited@),
            decreases self.children@.len() - j,
        {
            proof {
                lemma_children_view(orig);
                assert(n0@.children[j as int] == node_view(orig[j as int]));
                assert(propagate_fits(node_view(self.children@[j as int]), world@));
                assert(decreases_to!(n0 => n0.children));
                assert(decreases_to!(n0.children => n0.children@));
                assert(decreases_to!(n0.children@ => n0.children@[j as int]));
                assert(n0.children@[j as int] == self.children@[j as int]);
                assert(decreases_to!(n0 => self.children@[j as int]));
            }
            let child = &mut self.children[j];
            child.propagate_transforms(&world);
            j += 1;
        }
        proof {
            lemma_children_view(orig);
            lemma_children_view(self.children@);
            lemma_propagate_children(n0@.children, world@);
            assert forall|i: int| 0 <= i < orig.len() implies children_view(self.children@)[i]
                == propagate_children_spec(n0@.children, world@)[i] by {
                assert(children_view(self.children@)[i] == node_view(self.children@[i]));
                assert(node_view(self.children@[i]) == propagate_spec(node_view(orig[i]), world@));
                assert(children_view(orig)[i] == node_view(orig[i]));
                assert(propagate_children_spec(n0@.children, world@)[i] == propagate_spec(
                    n0@.children[i],
                    world@,
                ));
            }
            assert(children_view(self.children@) =~= propagate_children_spec(
                n0@.children,
                world@,
            ));
        }
    }
}

/// What the renderer needs for one node that carries geometry.
#[derive(Clone, Copy, PartialEq, Eq, Structural, Debug)]
pub struct DrawCall {
    pub vao_id: u32,
    pub index_count: i32,
    pub world_matrix: Mat4,
}

/// Mathematical model of a `DrawCall`.
pub ghost struct DrawCallV {
    pub vao_id: int,
    pub index_count: int,
    pub world_matrix: Mat4i,
}

impl View for DrawCall {
    type V = DrawCallV;

    open spec fn view(&self) -> DrawCallV {
        DrawCallV {
            vao_id: self.vao_id as int,
            index_count: self.index_count as int,
            world_matrix: self.world_matrix@,
        }
    }
}

/// The models of a sequence of draw calls.
pub open spec fn calls_view(s: Seq<DrawCall>) -> Seq<DrawCallV> {
    s.map_values(|c: DrawCall| c@)
}

/// The draw calls a pre-order walk of the subtree produces: the node's own
/// call first (only if it carries geometry), then each child's calls in
/// child order.
pub open spec fn draw_list_s(n: NodeV) -> Seq<DrawCallV>
    decreases n,
{
    let own = if n.index_count > 0 {
        seq![
            DrawCallV {
                vao_id: n.vao_id,
                index_count: n.index_count,
                world_matrix: n.world_matrix,
            },
        ]
    } else {
        Seq::empty()
    };
    own + draw_list_children_s(n.children)
}

/// The concatenated draw lists of a sequence of siblings.
pub open spec fn draw_list_children_s(s: Seq<NodeV>) -> Seq<DrawCallV>
    decreases s,
{
    if s.len() == 0 {
        Seq::empty()
    } else {
        draw_list_children_s(s.drop_last()) + draw_list_s(s.last())
    }
}

/// Extending a sibling list by one node appends that node's draw list.
proof fn lemma_draw_list_children_push(s: Seq<NodeV>, n: NodeV)
    ensures
        draw_list_children_s(s.push(n)) == draw_list_children_s(s) + draw_list_s(n),
{
    assert(s.push(n).drop_last() =~= s);
    assert(s.push(n).last() == n);
}

impl SceneNode {
    /// The render traversal: appends to `out`, in pre-order, one draw call
    /// for every node of the subtree whose payload is non-empty, carrying
    /// the node's world matrix.  Reads only; run a propagation pass first.
    pub fn traverse_for_render(&self, out: &mut Vec<DrawCall>)
        ensures
            calls_view(final(out)@) == calls_view(old(out)@) + draw_list_s(self@),
        decreases *self,
    {
        let ghost entry = old(out)@;
        let ghost own = if self@.index_count > 0 {
            seq![
                DrawCallV {
                    vao_id: self@.vao_id,
                    index_count: self@.index_count,
                    world_matrix: self@.world_matrix,
                },
            ]
        } else {
            Seq::<DrawCallV>::empty()
        };
        if self.index_count > 0 {
            let call = DrawCall {
                vao_id: self.vao_id,
                index_count: self.index_count,
                world_matrix: self.world_matrix,
            };
            out.push(call);
            proof {
                assert(calls_view(out@) =~= calls_view(entry) + own);
            }
        } else {
            proof {
                assert(calls_view(out@) =~= calls_view(entry) + own);
            }
        }
        let ghost kids = self@.children;
        proof {
            lemma_children_view(self.children@);
        }
        let mut j: usize = 0;
        while j < self.children.len()
            invariant
                0 <= j <= self.children@.len(),
                kids == self@.children,
                kids.len() == self.children@.len(),
                calls_view(out@) == calls_view(entry) + own + draw_list_children_s(
                    kids.subrange(0, j as int),
                ),
            decreases self.children@.len() - j,
        {
            proof {
                lemma_children_view(self.children@);
                assert(kids[j as int] == node_view(self.children@[j as int]));
                assert(decreases_to!(*self => self.children));
                assert(decreases_to!(self.children => self.children@));
                assert(decreases_to!(self.children@ => self.children@[j as int]));
            }
            let ghost before = out@;
            let c = &self.children[j];
            c.traverse_for_render(out);
            proof {
                let pre = kids.subrange(0, j as int);
                assert(kids.subrange(0, j + 1 as int) =~= pre.push(kids[j as int]));
                lemma_draw_list_children_push(pre, kids[j as int]);
                assert(calls_view(out@) =~= calls_view(entry) + own + draw_list_children_s(
                    kids.subrange(0, j + 1 as int),
                ));
            }
            j += 1;
        }
        proof {
            assert(kids.subrange(0, kids.len() as int) =~= kids);
            assert(calls_view(out@) =~= calls_view(entry) + draw_list_s(self@));
        }
    }
}

// The laws of the propagation pass.

/// For a node whose reference point is the origin, the two pivot
/// translations vanish: the local transform reduces to scale, translate to
/// the node's position, and the three rotations, composed in the documented
/// order, and the world matrix is the inherited matrix times exactly that.
pub proof fn lemma_local_no_pivot(n: NodeV)
    requires
        n.reference_point == (Vec3i { x: 0, y: 0, z: 0 }),
    ensures
        local_mat_s(n) == mat_mul_s(
            mat_mul_s(
                mat_mul_s(
                    mat_mul_s(
                        mat_mul_s(identity_s(), scaling_s(n.scale)),
                        translation_s(n.position),
                    ),
                    rotation_x_s(n.rotation.x),
                ),
                rotation_y_s(n.rotation.y),
            ),
            rotation_z_s(n.rotation.z),
        ),
{
    assert(translation_s(n.reference_point) == identity_s());
    assert(translation_s(v3_neg_s(n.reference_point)) == identity_s());
    crate::linalg::lemma_mat_mul_identity_right(local_m2(n));
    crate::linalg::lemma_mat_mul_identity_right(local_m6(n));
}

/// Tree propagation, one level: after a pass, every child's world matrix is
/// the parent's world matrix times the child's local transform.
pub proof fn lemma_child_world(n: NodeV, m: Mat4i, i: int)
    requires
        0 <= i < n.children.len(),
    ensures
        propagate_spec(n, m).children.len() == n.children.len(),
        propagate_spec(n, m).children[i].world_matrix == mat_mul_s(
            propagate_spec(n, m).world_matrix,
            local_mat_s(n.children[i]),
        ),
{
    lemma_propagate_children(n.children, world_of(n, m));
}

/// The node a path of child indices leads to.
pub open spec fn node_at(n: NodeV, path: Seq<int>) -> NodeV
    decreases path.len(),
{
    if path.len() == 0 {
        n
    } else {
        node_at(n.children[path[0]], path.drop_first())
    }
}

/// Whether every index along the path is in range.
pub open spec fn path_ok(n: NodeV, path: Seq<int>) -> bool
    decreases path.len(),
{
    path.len() == 0 || (0 <= path[0] < n.children.len() && path_ok(
        n.children[path[0]],
        path.drop_first(),
    ))
}

/// The incremental composition along a path: each node's world matrix
/// computed from its parent's, one step at a time.
pub open spec fn fold_world(m: Mat4i, n: NodeV, path: Seq<int>) -> Mat4i
    decreases path.len(),
{
    if path.len() == 0 {
        world_of(n, m)
    } else {
        fold_world(world_of(n, m), n.children[path[0]], path.drop_first())
    }
}

/// Tree propagation, any depth: the single pass gives the node at any valid
/// path the same world matrix as composing the local transforms
/// incrementally along that path.
pub proof fn lemma_tree_propagation(n: NodeV, m: Mat4i, path: Seq<int>)
    requires
        path_ok(n, path),
    ensures
        node_at(propagate_spec(n, m), path).world_matrix == fold_world(m, n, path),
    decreases path.len(),
{
    if path.len() > 0 {
        lemma_propagate_children(n.children, world_of(n, m));
        assert(propagate_spec(n, m).children[path[0]] == propagate_spec(
            n.children[path[0]],
            world_of(n, m),
        ));
        lemma_tree_propagation(n.children[path[0]], world_of(n, m), path.drop_first());
    }
}

/// Propagating twice with the same inherited matrix changes nothing the
/// second time: the pass is a pure function of the non-derived fields,
/// which it never writes.
pub proof fn lemma_propagate_idempotent(n: NodeV, m: Mat4i)
    ensures
        propagate_spec(propagate_spec(n, m), m) == propagate_spec(n, m),
    decreases n,
{
    lemma_propagate_children_idempotent(n.children, world_of(n, m));
}

/// Idempotence lifted to a sequence of siblings.
proof fn lemma_propagate_children_idempotent(s: Seq<NodeV>, w: Mat4i)
    ensures
        propagate_children_spec(propagate_children_spec(s, w), w) == propagate_children_spec(
            s,
            w,
        ),
    decreases s,
{
    if s.len() > 0 {
        lemma_propagate_children_idempotent(s.drop_last(), w);
        lemma_propagate_idempotent(s.last(), w);
        let once = propagate_children_spec(s, w);
        assert(once.drop_last() =~= propagate_children_spec(s.drop_last(), w));
        assert(once.len() > 0);
        assert(propagate_children_spec(once, w) == propagate_children_spec(
            once.drop_last(),
            w,
        ).push(propagate_spec(once.last(), w)));
    }
}

} // verus!
