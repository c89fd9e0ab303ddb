//! What a vehicle can run into.

use vstd::prelude::*;
use crate::fixed::Fixed;
use crate::vector::Vector3;

verus! {

/// The obstacle that an object of the scene presents. A value is built once
/// and never changed.
#[derive(Debug)]
pub enum Collider {
    /// Nothing to run into.
    NoCollision,
    /// Ground without end at the given height.
    HeightCollider(Fixed),
    /// A box along the axes: its least x, y and z, then its greatest x, y
    /// and z.
    BoxCollider(Fixed, Fixed, Fixed, Fixed, Fixed, Fixed),
    /// Every collider of the list, in the order of the list.
    MultiCollider(Vec<Collider>),
    /// An upright wall without end in height, over the segment between the
    /// two points on the ground. The height of the points plays no part.
    InfiniteYPlaneCollider(Vector3, Vector3),
}

/// A collider as a mathematical tree: what a [`Collider`] stands for.
pub enum ColliderView {
    NoCollision,
    HeightCollider(Fixed),
    BoxCollider(Fixed, Fixed, Fixed, Fixed, Fixed, Fixed),
    MultiCollider(Seq<ColliderView>),
    InfiniteYPlaneCollider(Vector3, Vector3),
}

/// A collider that holds no other.
#[derive(Clone, Copy, Debug, PartialEq, Eq, Structural)]
pub enum PrimitiveCollider {
    /// Ground without end at the given height.
    HeightCollider(Fixed),
    /// A box along the axes: its least x, y and z, then its greatest x, y
    /// and z.
    BoxCollider(Fixed, Fixed, Fixed, Fixed, Fixed, Fixed),
    /// An upright wall over the segment between the two points.
    InfiniteYPlaneCollider(Vector3, Vector3),
}

impl ColliderView {
    /// The primitive colliders of the tree, depth first, in the order of the
    /// lists. `NoCollision` gives none.
    pub open spec fn flat(self) -> Seq<PrimitiveCollider>
        decreases self, 0nat,
    {
        match self {
            ColliderView::NoCollision => Seq::empty(),
            ColliderView::HeightCollider(y) => seq![PrimitiveCollider::HeightCollider(y)],
            ColliderView::BoxCollider(x0, y0, z0, x1, y1, z1) => seq![
                PrimitiveCollider::BoxCollider(x0, y0, z0, x1, y1, z1),
            ],
            ColliderView::MultiCollider(list) => ColliderView::flat_prefix(list, list.len()),
            ColliderView::InfiniteYPlaneCollider(p0, p1) => seq![
                PrimitiveCollider::InfiniteYPlaneCollider(p0, p1),
            ],
        }
    }

    /// The primitive colliders of the first `n` trees of `list`.
    pub open spec fn flat_prefix(list: Seq<ColliderView>, n: nat) -> Seq<PrimitiveCollider>
        decreases list, n,
    {
        if n == 0 || n > list.len() {
            Seq::empty()
        } else {
            ColliderView::flat_prefix(list, (n - 1) as nat) + list[n - 1].flat()
        }
    }
}

impl Collider {
    /// The tree that this collider stands for.
    pub open spec fn model(self) -> ColliderView
        decreases self, 0nat,
    {
        match self {
            Collider::NoCollision => ColliderView::NoCollision,
            Collider::HeightCollider(y) => ColliderView::HeightCollider(y),
            Collider::BoxCollider(x0, y0, z0, x1, y1, z1) => ColliderView::BoxCollider(
                x0,
                y0,
                z0,
                x1,
                y1,
                z1,
            ),
            Collider::MultiCollider(list) => ColliderView::MultiCollider(Collider::views(list)),
            Collider::InfiniteYPlaneCollider(p0, p1) => ColliderView::InfiniteYPlaneCollider(
                p0,
                p1,
            ),
        }
    }

    /// The trees that the first `n` colliders of `list` stand for.
    pub open spec fn models(list: Vec<Collider>, n: nat) -> Seq<ColliderView>
        decreases list, n,
    {
        if n == 0 || n > list.len() {
            Seq::empty()
        } else {
            Collider::models(list, (n - 1) as nat).push(list[n - 1].model())
        }
    }

    /// The trees that the colliders of `list` stand for, in the order of
    /// the list.
    pub open spec fn views(list: Vec<Collider>) -> Seq<ColliderView>
        decreases list, list.len() + 1,
    {
        Collider::models(list, list.len() as nat)
    }

    /// `models` keeps the length and the order of the list.
    pub proof fn lemma_models(list: Vec<Collider>, n: nat)
        requires
            n <= list.len(),
        ensures
            Collider::models(list, n).len() == n,
            forall|i: int| 0 <= i < n ==> Collider::models(list, n)[i] == list[i].model(),
        decreases n,
    {
        if n > 0 {
            Collider::lemma_models(list, (n - 1) as nat);
        }
    }

    /// Flattens the tree: expands every `MultiCollider`, depth first, and
    /// drops every `NoCollision`.
    pub fn flatten(&self) -> (r: Vec<PrimitiveCollider>)
        ensures
            r@ == self@.flat(),
        decreases self,
    {
        let mut out: Vec<PrimitiveCollider> = Vec::new();
        match self {
            Collider::NoCollision => {},
            Collider::HeightCollider(y) => {
                out.push(PrimitiveCollider::HeightCollider(*y));
            },
            Collider::BoxCollider(x0, y0, z0, x1, y1, z1) => {
                out.push(PrimitiveCollider::BoxCollider(*x0, *y0, *z0, *x1, *y1, *z1));
            },
            Collider::MultiCollider(list) => {
                let ghost views = Collider::models(*list, list.len() as nat);
                proof {
                    Collider::lemma_models(*list, list.len() as nat);
                }
                let mut i: usize = 0;
                while i < list.len()
                    invariant
                        i <= list.len(),
                        *self == Collider::MultiCollider(*list),
                        views.len() == list.len(),
                        forall|k: int| 0 <= k < list.len() ==> views[k] == list[k].model(),
                        out@ == ColliderView::flat_prefix(views, i as nat),
                    decreases list.len() - i,
                {
                    proof {
                        assert(decreases_to!(*self => self->MultiCollider_0));
                        assert(decreases_to!(*list => list[i as int]));
                    }
                    let mut part = list[i].flatten();
                    out.append(&mut part);
                    i += 1;
                }
            },
            Collider::InfiniteYPlaneCollider(p0, p1) => {
                out.push(PrimitiveCollider::InfiniteYPlaneCollider(*p0, *p1));
            },
        }
        out
    }
}

impl View for Collider {
    type V = ColliderView;

    open spec fn view(&self) -> ColliderView {
        self.model()
    }
}

impl Clone for Collider {
    /// A copy of the whole tree.
    fn clone(&self) -> (r: Collider)
        ensures
            r@ == self@,
        decreases self,
    {
        match self {
            Collider::NoCollision => Collider::NoCollision,
            Collider::HeightCollider(y) => Collider::HeightCollider(*y),
            Collider::BoxCollider(x0, y0, z0, x1, y1, z1) => Collider::BoxCollider(
                *x0,
                *y0,
                *z0,
                *x1,
                *y1,
                *z1,
            ),
            Collider::MultiCollider(list) => {
                proof {
                    assert(decreases_to!(*self => self->MultiCollider_0));
                }
                Collider::MultiCollider(Collider::clone_list(list))
            },
            Collider::InfiniteYPlaneCollider(p0, p1) => Collider::InfiniteYPlaneCollider(*p0, *p1),
        }
    }
}

impl Collider {
    /// A copy of every tree of the list.
    pub fn clone_list(list: &Vec<Collider>) -> (copy: Vec<Collider>)
        ensures
            copy@.len() == list@.len(),
            Collider::views(copy) == Collider::views(*list),
        decreases list,
    {
        let mut copy: Vec<Collider> = Vec::new();
        let mut i: usize = 0;
        while i < list.len()
            invariant
                i <= list.len(),
                copy@.len() == i,
                Collider::models(copy, i as nat) == Collider::models(*list, i as nat),
            decreases list.len() - i,
        {
            proof {
                assert(decreases_to!(*list => list[i as int]));
            }
            let ghost before = copy;
            copy.push(list[i].clone());
            proof {
                Collider::lemma_models_of_prefix(before, copy, i as nat);
            }
            i += 1;
        }
        copy
    }

    /// Two lists that agree on their first `n` colliders stand for the same
    /// first `n` trees.
    pub proof fn lemma_models_of_prefix(a: Vec<Collider>, b: Vec<Collider>, n: nat)
        requires
            n <= a.len(),
            n <= b.len(),
            forall|i: int| 0 <= i < n ==> a[i] == b[i],
        ensures
            Collider::models(a, n) == Collider::models(b, n),
        decreases n,
    {
        if n > 0 {
            Collider::lemma_models_of_prefix(a, b, (n - 1) as nat);
        }
    }
}

} // verus!
