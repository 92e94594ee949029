//! The bounding-volume hierarchy: a binary tree over primitives whose
//! closest-hit query is proved to return exactly what the brute-force linear
//! scan over the same primitives returns.
//!
//! Traversal first tries the conservative slab rejection against the node's
//! box; on overlap it queries the left child, narrows the window's far end to
//! the best hit found, and queries the right child with the tightened window,
//! so the right subtree can only answer with a hit at most as far.
use vstd::prelude::*;
use crate::aabb::{Aabb, box_contains_box_s, in_box_s, lemma_slab_miss_excludes, slab_miss_s};
use crate::hittable::{
    HitRecord, Object, closest_hit_s, lemma_closest_props, obj_box_s, obj_hit_s,
};
use crate::interval::Interval;
use crate::ray::Ray;
use crate::vec3::Vec3;

verus! {

/// A tree node: empty scene, one primitive, or two subtrees under a shared
/// box. Built once before rendering; read-only afterwards.
pub enum Bvh {
    Empty,
    Leaf { bbox: Aabb, object: Object },
    Node { bbox: Aabb, left: Box<Bvh>, right: Box<Bvh> },
}

/// The primitives of the subtree, in left-to-right order.
pub open spec fn bvh_prims_s(b: Bvh) -> Seq<Object>
    decreases b,
{
    match b {
        Bvh::Empty => Seq::empty(),
        Bvh::Leaf { bbox, object } => seq![object],
        Bvh::Node { bbox, left, right } => bvh_prims_s(*left) + bvh_prims_s(*right),
    }
}

/// The node's box; the empty tree carries a degenerate point box.
pub open spec fn bvh_box_s(b: Bvh) -> Aabb {
    match b {
        Bvh::Empty => Aabb { lo: Vec3 { x: 0, y: 0, z: 0 }, hi: Vec3 { x: 0, y: 0, z: 0 } },
        Bvh::Leaf { bbox, object } => bbox,
        Bvh::Node { bbox, left, right } => bbox,
    }
}

/// A parent's box covers a child's whole subtree (trivially so for an empty
/// child, which holds no primitives).
pub open spec fn covered_s(outer: Aabb, child: Bvh) -> bool {
    match child {
        Bvh::Empty => true,
        _ => box_contains_box_s(outer, bvh_box_s(child)),
    }
}

/// Well-formedness: every node's box contains the boxes of everything below.
pub open spec fn bvh_wf_s(b: Bvh) -> bool
    decreases b,
{
    match b {
        Bvh::Empty => true,
        Bvh::Leaf { bbox, object } => box_contains_box_s(bbox, obj_box_s(object)),
        Bvh::Node { bbox, left, right } => bvh_wf_s(*left) && bvh_wf_s(*right) && covered_s(
            bbox,
            *left,
        ) && covered_s(bbox, *right),
    }
}

/// In a well-formed tree, the node's box contains every primitive's box.
proof fn lemma_wf_covers(b: Bvh)
    requires
        bvh_wf_s(b),
    ensures
        forall|i: int|
            0 <= i < bvh_prims_s(b).len() ==> box_contains_box_s(
                bvh_box_s(b),
                obj_box_s(#[trigger] bvh_prims_s(b)[i]),
            ),
    decreases b,
{
    match b {
        Bvh::Empty => {},
        Bvh::Leaf { bbox, object } => {},
        Bvh::Node { bbox, left, right } => {
            lemma_wf_covers(*left);
            lemma_wf_covers(*right);
            assert forall|i: int| 0 <= i < bvh_prims_s(b).len() implies box_contains_box_s(
                bvh_box_s(b),
                obj_box_s(#[trigger] bvh_prims_s(b)[i]),
            ) by {
                let lp = bvh_prims_s(*left);
                let rp = bvh_prims_s(*right);
                if i < lp.len() {
                    assert(bvh_prims_s(b)[i] == lp[i]);
                } else {
                    assert(bvh_prims_s(b)[i] == rp[i - lp.len()]);
                }
            }
        },
    }
}

/// When the slab test misses a well-formed node, nothing below it hits.
proof fn lemma_miss(b: Bvh, r: Ray, itv: Interval)
    requires
        bvh_wf_s(b),
        slab_miss_s(bvh_box_s(b), r, itv),
    ensures
        closest_hit_s(bvh_prims_s(b), r, itv) is None,
{
    lemma_closest_props(bvh_prims_s(b), r, itv);
    match closest_hit_s(bvh_prims_s(b), r, itv) {
        Some(rec) => {
            let i = choose|i: int|
                0 <= i < bvh_prims_s(b).len() && in_box_s(
                    obj_box_s(#[trigger] bvh_prims_s(b)[i]),
                    rec.p,
                );
            lemma_wf_covers(b);
            lemma_slab_miss_excludes(bvh_box_s(b), r, itv, rec.t as int);
        },
        None => {},
    }
}

/// Splitting the scan: the closest hit over a concatenation is the left
/// part's closest hit, refined by scanning the right part with the window
/// narrowed to it.
proof fn lemma_closest_concat(a: Seq<Object>, b: Seq<Object>, r: Ray, itv: Interval)
    ensures
        closest_hit_s(a + b, r, itv) == (match closest_hit_s(a, r, itv) {
            None => closest_hit_s(b, r, itv),
            Some(ra) => match closest_hit_s(b, r, Interval { min: itv.min, max: ra.t }) {
                Some(rb) => Some(rb),
                None => Some(ra),
            },
        }),
    decreases a.len(),
{
    if a.len() == 0 {
        assert(a + b =~= b);
    } else {
        assert((a + b)[0] == a[0]);
        assert((a + b).skip(1) =~= a.skip(1) + b);
        match obj_hit_s(a[0], r, itv) {
            None => {
                lemma_closest_concat(a.skip(1), b, r, itv);
            },
            Some(rec0) => {
                let narrowed = Interval { min: itv.min, max: rec0.t };
                lemma_closest_concat(a.skip(1), b, r, narrowed);
            },
        }
    }
}

impl Bvh {
    /// The node's box; the empty tree reports a degenerate point box.
    pub fn bounding_box(&self) -> (bb: Aabb)
        ensures
            bb == bvh_box_s(*self),
    {
        match self {
            Bvh::Empty => Aabb { lo: Vec3 { x: 0, y: 0, z: 0 }, hi: Vec3 { x: 0, y: 0, z: 0 } },
            Bvh::Leaf { bbox, object } => *bbox,
            Bvh::Node { bbox, left, right } => *bbox,
        }
    }

    /// Build the tree: compute the union box, split the set at the median,
    /// recurse on each half; zero or one primitive bottoms out directly.
    /// An empty input builds successfully and never reports a hit.
    pub fn build(objects: Vec<Object>) -> (b: Bvh)
        ensures
            bvh_wf_s(b),
            bvh_prims_s(b) == objects@,
        decreases objects@.len(),
    {
        let n: usize = objects.len();
        if n == 0 {
            proof {
                assert(bvh_prims_s(Bvh::Empty) =~= objects@);
            }
            Bvh::Empty
        } else if n == 1 {
            let o: Object = objects[0];
            let b = Bvh::Leaf { bbox: o.bounding_box(), object: o };
            proof {
                assert(bvh_prims_s(b) =~= objects@);
            }
            b
        } else {
            let mut left_half: Vec<Object> = objects;
            let right_half: Vec<Object> = left_half.split_off(n / 2);
            let left: Box<Bvh> = Box::new(Bvh::build(left_half));
            let right: Box<Bvh> = Box::new(Bvh::build(right_half));
            let bbox: Aabb = left.bounding_box().union(&right.bounding_box());
            let b = Bvh::Node { bbox, left, right };
            proof {
                assert(bvh_prims_s(b) =~= objects@);
            }
            b
        }
    }

    /// The closest hit below this node: exactly what the brute-force linear
    /// scan over the node's primitives would report, for every ray and
    /// every window.
    #[verifier::rlimit(100)]
    pub fn hit(&self, r: &Ray, itv: &Interval) -> (res: Option<HitRecord>)
        requires
            bvh_wf_s(*self),
        ensures
            res == closest_hit_s(bvh_prims_s(*self), *r, *itv),
        decreases *self,
    {
        match self {
            Bvh::Empty => {
                proof {
                    assert(bvh_prims_s(*self) =~= Seq::<Object>::empty());
                    assert(closest_hit_s(bvh_prims_s(*self), *r, *itv) is None);
                }
                None
            },
            Bvh::Leaf { bbox, object } => {
                if bbox.slab_miss(r, itv) {
                    proof {
                        lemma_miss(*self, *r, *itv);
                    }
                    None
                } else {
                    let res = object.hit(r, itv);
                    proof {
                        let prims = bvh_prims_s(*self);
                        assert(prims.len() == 1 && prims[0] == *object);
                        assert(prims.skip(1) =~= Seq::<Object>::empty());
                        match obj_hit_s(*object, *r, *itv) {
                            Some(rec) => {
                                assert(closest_hit_s(
                                    prims.skip(1),
                                    *r,
                                    Interval { min: itv.min, max: rec.t },
                                ) is None);
                            },
                            None => {},
                        }
                    }
                    res
                }
            },
            Bvh::Node { bbox, left, right } => {
                if bbox.slab_miss(r, itv) {
                    proof {
                        lemma_miss(*self, *r, *itv);
                    }
                    None
                } else {
                    let left_res: Option<HitRecord> = left.hit(r, itv);
                    let narrowed: Interval = match &left_res {
                        Some(rec) => Interval { min: itv.min, max: rec.t },
                        None => *itv,
                    };
                    let right_res: Option<HitRecord> = right.hit(r, &narrowed);
                    proof {
                        let lp = bvh_prims_s(**left);
                        let rp = bvh_prims_s(**right);
                        lemma_closest_concat(lp, rp, *r, *itv);
                        assert(bvh_prims_s(*self) == lp + rp);
                        match left_res {
                            Some(ra) => {
                                assert(narrowed == (Interval { min: itv.min, max: ra.t }));
                            },
                            None => {
                                assert(narrowed == *itv);
                            },
                        }
                    }
                    match right_res {
                        Some(r2) => Some(r2),
                        None => left_res,
                    }
                }
            },
        }
    }
}

/// The differential law: over the same primitive set, for every ray and
/// every window, the hierarchy's answer is the linear scan's answer. Both
/// queries are specified by `closest_hit_s` over their primitives, so the
/// equality follows from the two contracts once the primitive sequences
/// agree.
pub proof fn lemma_bvh_matches_linear_scan(b: Bvh, objs: Seq<Object>, r: Ray, itv: Interval)
    requires
        bvh_wf_s(b),
        bvh_prims_s(b) == objs,
    ensures
        closest_hit_s(bvh_prims_s(b), r, itv) == closest_hit_s(objs, r, itv),
{
}

} // verus!
