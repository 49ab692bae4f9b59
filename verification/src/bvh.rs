//! The bounding-volume hierarchy: a strictly binary tree over surfaces,
//! built by sorting on a randomly chosen axis and splitting at the median
//! count, and traversed with a cheap box rejection at every node.

use vstd::prelude::*;
use crate::fixed::fits;
use crate::vec::Vec3;
use crate::ray::Ray;
use crate::aabb::{AABB, sp_merge};
use crate::util::Rng;
use crate::hittable::{Hittable, HitRecord, Empty, sp_hit, sp_bbox, sp_wf};

verus! {

broadcast use vstd::seq_lib::group_seq_properties;

/// An interior node: two shared children and the cached box containing both.
pub struct BVHNode {
    pub left: Box<Hittable>,
    pub right: Box<Hittable>,
    pub bbox: AABB,
}

/// The sort key on a chosen axis: the minimum bound of the object's own box.
pub open spec fn sp_key(h: Hittable, axis: int) -> int {
    let bb = sp_bbox(h)->Some_0;
    if axis == 0 {
        bb.min._x as int
    } else if axis == 1 {
        bb.min._y as int
    } else {
        bb.min._z as int
    }
}

/// A consistent tree: every node's cached box is the merge of its children's
/// own boxes (the box of a lone child when the other is the empty sentinel),
/// recursively.
pub open spec fn sp_tree_ok(h: Hittable) -> bool
    decreases h,
{
    match h {
        Hittable::Node(n) => sp_tree_ok(*n.left) && sp_tree_ok(*n.right) && sp_bbox(
            *n.left,
        ) is Some && (match sp_bbox(*n.right) {
            Option::None => n.bbox == sp_bbox(*n.left)->Some_0,
            Option::Some(rb) => n.bbox == sp_merge(sp_bbox(*n.left)->Some_0, rb),
        }),
        _ => true,
    }
}

/// The boxes of the tree's leaves, left to right; the empty sentinel and any
/// leaf without a box contribute nothing.
pub open spec fn sp_leaf_boxes(h: Hittable) -> Seq<AABB>
    decreases h,
{
    match h {
        Hittable::Node(n) => sp_leaf_boxes(*n.left) + sp_leaf_boxes(*n.right),
        _ => match sp_bbox(h) {
            Option::None => Seq::empty(),
            Option::Some(b) => seq![b],
        },
    }
}

/// The union (iterated merge) of a nonempty sequence of boxes.
pub open spec fn sp_merge_all(s: Seq<AABB>) -> AABB
    decreases s.len(),
{
    if s.len() <= 1 {
        s[0]
    } else {
        sp_merge(sp_merge_all(s.drop_last()), s.last())
    }
}

/// Merging distributes over concatenation of nonempty box sequences.
pub proof fn lemma_merge_all_concat(a: Seq<AABB>, b: Seq<AABB>)
    requires
        a.len() >= 1,
        b.len() >= 1,
    ensures
        sp_merge_all(a + b) == sp_merge(sp_merge_all(a), sp_merge_all(b)),
    decreases b.len(),
{
    if b.len() == 1 {
        assert((a + b).drop_last() =~= a);
        assert((a + b).last() == b[0]);
        assert((a + b).len() == a.len() + 1 >= 2);
    } else {
        lemma_merge_all_concat(a, b.drop_last());
        assert((a + b).drop_last() =~= a + b.drop_last());
        assert((a + b).last() == b.last());
        crate::aabb::lemma_merge_associative(sp_merge_all(a), sp_merge_all(b.drop_last()), b.last());
    }
}

/// In a consistent tree, the root's cached box is exactly the union of all
/// leaf boxes.
pub proof fn lemma_root_box_is_leaf_union(h: Hittable)
    requires
        sp_tree_ok(h),
        h is Node,
        sp_leaf_boxes(h).len() >= 1,
    ensures
        sp_bbox(h)->Some_0 == sp_merge_all(sp_leaf_boxes(h)),
    decreases h,
{
    let n = h->Node_0;
    let lb = sp_leaf_boxes(*n.left);
    let rb = sp_leaf_boxes(*n.right);
    lemma_leaf_boxes_cover(*n.left);
    lemma_leaf_boxes_cover(*n.right);
    if *n.left is Node {
        lemma_root_box_is_leaf_union(*n.left);
    }
    if *n.right is Node {
        lemma_root_box_is_leaf_union(*n.right);
    }
    match sp_bbox(*n.right) {
        Option::None => {
            assert(rb.len() == 0);
            assert(lb + rb =~= lb);
        },
        Option::Some(_) => {
            lemma_merge_all_concat(lb, rb);
        },
    }
}

/// A surface with a box has at least one leaf box, and for a consistent tree
/// the leaf boxes are nonempty exactly when the surface reports a box; a
/// non-node's single leaf box is its own.
proof fn lemma_leaf_boxes_cover(h: Hittable)
    requires
        sp_tree_ok(h),
    ensures
        sp_bbox(h) is Some <==> sp_leaf_boxes(h).len() >= 1,
        !(h is Node) && sp_bbox(h) is Some ==> sp_leaf_boxes(h) =~= seq![sp_bbox(h)->Some_0]
            && sp_merge_all(sp_leaf_boxes(h)) == sp_bbox(h)->Some_0,
    decreases h,
{
    match h {
        Hittable::Node(n) => {
            lemma_leaf_boxes_cover(*n.left);
            lemma_leaf_boxes_cover(*n.right);
        },
        _ => {},
    }
}

/// Containment of boxes is transitive.
pub proof fn lemma_contains_transitive(outer: AABB, mid: AABB, inner: AABB)
    requires
        crate::aabb::sp_contains(outer, mid),
        crate::aabb::sp_contains(mid, inner),
    ensures
        crate::aabb::sp_contains(outer, inner),
{
}

impl BVHNode {
    pub open spec fn wf(self) -> bool {
        self.bbox.wf() && sp_wf(*self.left) && sp_wf(*self.right)
    }

    pub fn new(bbox: AABB, left: Box<Hittable>, right: Box<Hittable>) -> (n: BVHNode)
        requires
            bbox.wf(),
            sp_wf(*left),
            sp_wf(*right),
        ensures
            n.bbox == bbox,
            n.left == left,
            n.right == right,
            n.wf(),
    {
        BVHNode { bbox, left, right }
    }

    /// Builds the tree: a random axis is chosen for this call, the list is
    /// sorted by the minimum bound on that axis, and the sorted list is split
    /// at its midpoint; a lone surface is paired with the empty sentinel.
    /// Every surface handed in must have a bounding box.
    pub fn construct(hittable_list: Vec<Hittable>, rng: &mut Rng) -> (res: BVHNode)
        requires
            hittable_list@.len() >= 1,
            forall|i: int|
                0 <= i < hittable_list@.len() ==> sp_wf(#[trigger] hittable_list@[i]) && sp_bbox(
                    hittable_list@[i],
                ) is Some && sp_tree_ok(hittable_list@[i]),
        ensures
            res.wf(),
            sp_tree_ok(Hittable::Node(res)),
            sp_leaf_boxes(Hittable::Node(res)).len() >= 1,
            res.bbox == sp_merge_all(sp_leaf_boxes(Hittable::Node(res))),
            forall|h: Hittable|
                hittable_list@.contains(h) ==> #[trigger] crate::aabb::sp_contains(
                    res.bbox,
                    sp_bbox(h)->Some_0,
                ),
        decreases hittable_list@.len(),
    {
        let ghost orig = hittable_list@;
        let mut hittable_list = hittable_list;
        let axis = (rng.next_u64() % 3) as usize;
        sort_by_key(&mut hittable_list, axis);
        let ghost sorted = hittable_list@;
        proof {
            assert forall|h: Hittable| orig.contains(h) implies sorted.contains(
                h,
            ) by {
                assert(orig.to_multiset().contains(h));
                assert(sorted.to_multiset().contains(h));
            }
        }
        let n = hittable_list.len();
        if n == 1 {
            let left = hittable_list.remove(0);
            let bbox = left.required_bounding_box();
            let res = BVHNode {
                bbox,
                left: Box::new(left),
                right: Box::new(Hittable::Empty(Empty {  })),
            };
            proof {
                lemma_leaf_boxes_cover(*res.left);
                assert(sp_leaf_boxes(Hittable::Node(res)) =~= sp_leaf_boxes(*res.left)
                    + sp_leaf_boxes(*res.right));
                assert(sp_tree_ok(*res.left));
                assert(sp_tree_ok(*res.right));
                assert(sp_bbox(*res.left) is Some);
                assert(sp_bbox(*res.right) is None);
                assert(res.bbox == sp_bbox(*res.left)->Some_0);
                assert forall|h: Hittable| orig.contains(h) implies #[trigger] crate::aabb::sp_contains(res.bbox, sp_bbox(h)->Some_0) by {
                    assert(sorted.contains(h));
                    let j = choose|j: int| 0 <= j < sorted.len() && sorted[j] == h;
                    assert(h == sorted[0]);
                }
                lemma_root_box_is_leaf_union(Hittable::Node(res));
            }
            res
        } else if n == 2 {
            let left = hittable_list.remove(0);
            let right = hittable_list.remove(0);
            let bbox = AABB::merge(&left.required_bounding_box(), &right.required_bounding_box());
            let res = BVHNode { bbox, left: Box::new(left), right: Box::new(right) };
            proof {
                lemma_leaf_boxes_cover(*res.left);
                lemma_leaf_boxes_cover(*res.right);
                assert(sp_tree_ok(*res.left));
                assert(sp_tree_ok(*res.right));
                assert(sp_bbox(*res.left) is Some);
                assert(sp_bbox(*res.right) is Some);
                assert(res.bbox == sp_merge(sp_bbox(*res.left)->Some_0, sp_bbox(*res.right)->Some_0));
                crate::aabb::lemma_merge_contains(sp_bbox(*res.left)->Some_0, sp_bbox(*res.right)->Some_0);
                assert forall|h: Hittable| orig.contains(h) implies #[trigger] crate::aabb::sp_contains(res.bbox, sp_bbox(h)->Some_0) by {
                    assert(sorted.contains(h));
                    let j = choose|j: int| 0 <= j < sorted.len() && sorted[j] == h;
                    assert(h == sorted[0] || h == sorted[1]);
                }
                lemma_root_box_is_leaf_union(Hittable::Node(res));
            }
            res
        } else {
            let mut a = hittable_list;
            let half = a.len() / 2;
            let b = a.split_off(half);
            proof {
                assert(forall|i: int|
                    0 <= i < a@.len() ==> sp_wf(#[trigger] a@[i]) && sp_bbox(a@[i]) is Some
                        && sp_tree_ok(a@[i]));
                assert(forall|i: int|
                    0 <= i < b@.len() ==> sp_wf(#[trigger] b@[i]) && sp_bbox(b@[i]) is Some
                        && sp_tree_ok(b@[i]));
            }
            let ghost aseq = a@;
            let ghost bseq = b@;
            let left = BVHNode::construct(a, rng);
            let right = BVHNode::construct(b, rng);
            let bbox = AABB::merge(&left.bounding_box(), &right.bounding_box());
            let res = BVHNode {
                bbox,
                left: Box::new(Hittable::Node(left)),
                right: Box::new(Hittable::Node(right)),
            };
            proof {
                assert(sp_tree_ok(*res.left));
                assert(sp_tree_ok(*res.right));
                assert(sp_bbox(*res.left) is Some);
                assert(res.bbox == sp_merge(sp_bbox(*res.left)->Some_0, sp_bbox(*res.right)->Some_0));
                crate::aabb::lemma_merge_contains(sp_bbox(*res.left)->Some_0, sp_bbox(*res.right)->Some_0);
                assert forall|h: Hittable| orig.contains(h) implies #[trigger] crate::aabb::sp_contains(res.bbox, sp_bbox(h)->Some_0) by {
                    assert(sorted.contains(h));
                    let j = choose|j: int| 0 <= j < sorted.len() && sorted[j] == h;
                    if j < aseq.len() {
                        assert(aseq.contains(h));
                        assert(crate::aabb::sp_contains(left.bbox, sp_bbox(h)->Some_0));
                        lemma_contains_transitive(res.bbox, left.bbox, sp_bbox(h)->Some_0);
                    } else {
                        assert(bseq[j - aseq.len()] == h);
                        assert(bseq.contains(h));
                        assert(crate::aabb::sp_contains(right.bbox, sp_bbox(h)->Some_0));
                        lemma_contains_transitive(res.bbox, right.bbox, sp_bbox(h)->Some_0);
                    }
                }
                lemma_root_box_is_leaf_union(Hittable::Node(res));
            }
            res
        }
    }

    /// Traversal: a cheap box rejection, then the nearer of the two
    /// children's hits, ties resolved toward the right child.
    pub fn hit(&self, r: Ray, t_min: i128, t_max: i128, rng: &mut Rng) -> (res: Option<HitRecord>)
        requires
            sp_wf(Hittable::Node(*self)),
            r.wf(),
            fits(t_min as int),
            fits(t_max as int),
        ensures
            (res, final(rng).state) == sp_hit(
                Hittable::Node(*self),
                r,
                t_min as int,
                t_max as int,
                old(rng).state,
            ),
            res matches Option::Some(rec) ==> rec.wf() && fits(rec.t as int),
        decreases *self,
    {
        if self.bbox.hit(r, t_min, t_max) {
            let hit_left = self.left.hit(r, t_min, t_max, rng);
            let hit_right = self.right.hit(r, t_min, t_max, rng);
            match (hit_left, hit_right) {
                (Option::None, Option::None) => Option::None,
                (Option::None, Option::Some(rec)) => Option::Some(rec),
                (Option::Some(rec), Option::None) => Option::Some(rec),
                (Option::Some(a), Option::Some(b)) => {
                    if a.t < b.t {
                        Option::Some(a)
                    } else {
                        Option::Some(b)
                    }
                },
            }
        } else {
            Option::None
        }
    }

    /// The cached box.
    pub fn bounding_box(&self) -> (bb: AABB)
        ensures
            bb == self.bbox,
    {
        self.bbox
    }
}

/// Sorts the surfaces by their minimum bound on `axis` (selection sort into
/// a fresh vector): the result is ordered by that key and is a permutation
/// of the input.
fn sort_by_key(v: &mut Vec<Hittable>, axis: usize)
    requires
        axis < 3,
        forall|i: int|
            0 <= i < old(v)@.len() ==> sp_wf(#[trigger] old(v)@[i]) && sp_bbox(
                old(v)@[i],
            ) is Some && sp_tree_ok(old(v)@[i]),
    ensures
        final(v)@.len() == old(v)@.len(),
        final(v)@.to_multiset() == old(v)@.to_multiset(),
        forall|i: int|
            0 <= i < final(v)@.len() ==> sp_wf(#[trigger] final(v)@[i]) && sp_bbox(
                final(v)@[i],
            ) is Some && sp_tree_ok(final(v)@[i]),
        forall|i: int, j: int|
            0 <= i < j < final(v)@.len() ==> sp_key(#[trigger] final(v)@[i], axis as int) <= sp_key(
                #[trigger] final(v)@[j],
                axis as int,
            ),
{
    let ghost orig = v@;
    let mut out: Vec<Hittable> = Vec::new();
    while v.len() > 0
        invariant
            axis < 3,
            out@.to_multiset().add(v@.to_multiset()) =~= orig.to_multiset(),
            forall|i: int|
                0 <= i < v@.len() ==> sp_wf(#[trigger] v@[i]) && sp_bbox(v@[i]) is Some
                    && sp_tree_ok(v@[i]),
            forall|i: int|
                0 <= i < out@.len() ==> sp_wf(#[trigger] out@[i]) && sp_bbox(out@[i]) is Some
                    && sp_tree_ok(out@[i]),
            forall|i: int, j: int|
                0 <= i < j < out@.len() ==> sp_key(#[trigger] out@[i], axis as int) <= sp_key(
                    #[trigger] out@[j],
                    axis as int,
                ),
            forall|i: int, j: int|
                0 <= i < out@.len() && 0 <= j < v@.len() ==> sp_key(#[trigger] out@[i], axis as int)
                    <= sp_key(#[trigger] v@[j], axis as int),
            out@.len() + v@.len() == orig.len(),
        decreases v@.len(),
    {
        let mut min_idx: usize = 0;
        let mut j: usize = 1;
        while j < v.len()
            invariant
                axis < 3,
                v@.len() > 0,
                min_idx < v@.len(),
                j <= v@.len(),
                forall|i: int|
                    0 <= i < v@.len() ==> sp_wf(#[trigger] v@[i]) && sp_bbox(v@[i]) is Some
                        && sp_tree_ok(v@[i]),
                forall|k: int|
                    0 <= k < j ==> sp_key(v@[min_idx as int], axis as int) <= sp_key(
                        #[trigger] v@[k],
                        axis as int,
                    ),
            decreases v@.len() - j,
        {
            if key_of(&v[j], axis) < key_of(&v[min_idx], axis) {
                min_idx = j;
            }
            j = j + 1;
        }
        let e = v.remove(min_idx);
        out.push(e);
    }
    *v = out;
}

/// The minimum bound of the object's box on the chosen axis.
fn key_of(h: &Hittable, axis: usize) -> (k: i128)
    requires
        axis < 3,
        sp_wf(*h),
        sp_bbox(*h) is Some,
    ensures
        k == sp_key(*h, axis as int),
{
    let bb = h.required_bounding_box();
    bb.min.component(axis)
}

} // verus!
