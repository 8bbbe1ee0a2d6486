//! A mesh buffer with a stack of cumulative transforms.
use vstd::prelude::*;
use crate::graphics_builder::vertex_limit;
use crate::space::{Space, Vertex, top_of, moved};

verus! {

/// Accumulates vertices and indices; each pushed vertex is moved by the
/// transform on top of the stack.
pub struct OffsetBuilder<S: Space> {
    pub vertices: Vec<Vertex<S::Point, S::Color>>,
    pub indices: Vec<u32>,
    pub transforms: Vec<S::Transform>,
}

/// Every index plus `base` still fits in a `u32`.
pub open spec fn shift_fits(indices: Seq<u32>, base: nat) -> bool {
    forall|k: int| 0 <= k < indices.len() ==> #[trigger] indices[k] + base <= u32::MAX
}

/// Nested transforms compose parent first: on a transform stack `s`,
/// pushing `a` and then `b` as `push_tf` does leaves `(top * a) * b` in
/// force, so a vertex pushed then lands at that transform applied to its
/// point; popping once brings back `top * a`, the state with only `a`
/// pushed. Here `top` is the transform in force on `s`, the identity when
/// `s` is empty.
pub proof fn lemma_nested_transforms<S: Space>(s: Seq<S::Transform>, a: S::Transform, b: S::Transform, p: S::Point)
    ensures
        ({
            let s1 = s.push(S::spec_compose(top_of::<S>(s), a));
            let s2 = s1.push(S::spec_compose(top_of::<S>(s1), b));
            &&& top_of::<S>(s2) == S::spec_compose(S::spec_compose(top_of::<S>(s), a), b)
            &&& S::spec_apply(top_of::<S>(s2), p) == S::spec_apply(
                S::spec_compose(S::spec_compose(top_of::<S>(s), a), b),
                p,
            )
            &&& s2.drop_last() == s1
            &&& top_of::<S>(s2.drop_last()) == S::spec_compose(top_of::<S>(s), a)
        }),
{
    let s1 = s.push(S::spec_compose(top_of::<S>(s), a));
    let s2 = s1.push(S::spec_compose(top_of::<S>(s1), b));
    assert(s2.drop_last() =~= s1);
}

impl<S: Space> OffsetBuilder<S> {
    /// An empty builder with an empty transform stack.
    pub fn new() -> (r: Self)
        ensures
            r.vertices@.len() == 0,
            r.indices@.len() == 0,
            r.transforms@.len() == 0,
    {
        OffsetBuilder { vertices: Vec::new(), indices: Vec::new(), transforms: Vec::new() }
    }

    /// Pushes the current transform composed with `tf`, so that `tf` acts in
    /// the frame set up by the earlier pushes.
    pub fn push_tf(&mut self, tf: S::Transform)
        ensures
            final(self).transforms@ == old(self).transforms@.push(
                S::spec_compose(top_of::<S>(old(self).transforms@), tf),
            ),
            final(self).vertices@ == old(self).vertices@,
            final(self).indices@ == old(self).indices@,
    {
        let base = self.get_tf();
        self.transforms.push(S::compose(&base, &tf));
    }

    /// Removes and returns the top of the transform stack.
    pub fn pop_tf(&mut self) -> (r: Option<S::Transform>)
        ensures
            old(self).transforms@.len() == 0 ==> r.is_none() && final(self).transforms@ == old(self).transforms@,
            old(self).transforms@.len() > 0 ==> r == Some(old(self).transforms@.last())
                && final(self).transforms@ == old(self).transforms@.drop_last(),
            final(self).vertices@ == old(self).vertices@,
            final(self).indices@ == old(self).indices@,
    {
        self.transforms.pop()
    }

    /// The top of the transform stack, or the identity when it is empty.
    /// The builder does not change.
    pub fn get_tf(&mut self) -> (r: S::Transform)
        ensures
            r == top_of::<S>(old(self).transforms@),
            *final(self) == *old(self),
    {
        let n = self.transforms.len();
        if n > 0 {
            self.transforms[n - 1]
        } else {
            S::identity()
        }
    }

    /// Appends `v`, its position moved by the current transform, and returns
    /// its index, the vertex count before the call.
    pub fn push_vertex(&mut self, v: Vertex<S::Point, S::Color>) -> (r: u32)
        requires
            old(self).vertices@.len() < vertex_limit(),
        ensures
            r == old(self).vertices@.len(),
            final(self).vertices@ == old(self).vertices@.push(moved::<S>(top_of::<S>(old(self).transforms@), v)),
            final(self).indices@ == old(self).indices@,
            final(self).transforms@ == old(self).transforms@,
    {
        let idx = self.vertices.len() as u32;
        let tf = self.get_tf();
        let moved = Vertex { pos: S::apply(&tf, &v.pos), color: v.color };
        self.vertices.push(moved);
        idx
    }

    /// Appends `idx` to the indices as given.
    pub fn push_indices(&mut self, idx: &[u32])
        ensures
            final(self).indices@ == old(self).indices@ + idx@,
            final(self).vertices@ == old(self).vertices@,
            final(self).transforms@ == old(self).transforms@,
    {
        let mut i: usize = 0;
        while i < idx.len()
            invariant
                i <= idx@.len(),
                self.indices@ == old(self).indices@ + idx@.subrange(0, i as int),
                self.vertices@ == old(self).vertices@,
                self.transforms@ == old(self).transforms@,
            decreases idx@.len() - i,
        {
            self.indices.push(idx[i]);
            i = i + 1;
            proof {
                assert(idx@.subrange(0, i as int) == idx@.subrange(0, i - 1).push(idx@[i - 1]));
            }
        }
        proof {
            assert(idx@.subrange(0, idx@.len() as int) == idx@);
        }
    }

    /// Appends the vertices of `other`, each moved by this builder's current
    /// transform, and the indices of `other`, each raised by this builder's
    /// vertex count before the call so that they still point at the same
    /// vertices. `other` is only read.
    pub fn append(&mut self, other: &Self)
        requires
            old(self).vertices@.len() + other.vertices@.len() <= vertex_limit(),
            shift_fits(other.indices@, old(self).vertices@.len()),
        ensures
            final(self).vertices@.len() == old(self).vertices@.len() + other.vertices@.len(),
            final(self).vertices@.subrange(0, old(self).vertices@.len() as int) == old(self).vertices@,
            forall|k: int| 0 <= k < other.vertices@.len() ==>
                #[trigger] final(self).vertices@[old(self).vertices@.len() + k] == moved::<S>(
                    top_of::<S>(old(self).transforms@),
                    other.vertices@[k],
                ),
            final(self).indices@.len() == old(self).indices@.len() + other.indices@.len(),
            final(self).indices@.subrange(0, old(self).indices@.len() as int) == old(self).indices@,
            forall|k: int| 0 <= k < other.indices@.len() ==>
                #[trigger] final(self).indices@[old(self).indices@.len() + k] == other.indices@[k] + old(self).vertices@.len(),
            final(self).transforms@ == old(self).transforms@,
    {
        // Only read when `other` has indices, and then it fits.
        let base = #[verifier::truncate] (self.vertices.len() as u32);
        proof {
            if other.indices@.len() > 0 {
                assert(other.indices@[0] + old(self).vertices@.len() <= u32::MAX);
            }
        }
        let tf = self.get_tf();
        let ghost nv = old(self).vertices@.len();
        let ghost ni = old(self).indices@.len();
        let mut i: usize = 0;
        while i < other.vertices.len()
            invariant
                i <= other.vertices@.len(),
                nv == old(self).vertices@.len(),
                tf == top_of::<S>(old(self).transforms@),
                self.vertices@.len() == nv + i,
                self.vertices@.subrange(0, nv as int) == old(self).vertices@,
                forall|k: int| 0 <= k < i ==> #[trigger] self.vertices@[nv + k] == moved::<S>(top_of::<S>(old(self).transforms@), other.vertices@[k]),
                self.indices@ == old(self).indices@,
                self.transforms@ == old(self).transforms@,
            decreases other.vertices@.len() - i,
        {
            let v = other.vertices[i];
            self.vertices.push(Vertex { pos: S::apply(&tf, &v.pos), color: v.color });
            proof {
                assert(self.vertices@[nv + i as int] == self.vertices@.last());
            }
            i = i + 1;
        }
        let mut j: usize = 0;
        while j < other.indices.len()
            invariant
                j <= other.indices@.len(),
                ni == old(self).indices@.len(),
                other.indices@.len() > 0 ==> base == old(self).vertices@.len(),
                shift_fits(other.indices@, old(self).vertices@.len()),
                self.indices@.len() == ni + j,
                self.indices@.subrange(0, ni as int) == old(self).indices@,
                forall|k: int| 0 <= k < j ==> #[trigger] self.indices@[ni + k] == other.indices@[k] + old(self).vertices@.len(),
                self.vertices@.len() == old(self).vertices@.len() + other.vertices@.len(),
                self.vertices@.subrange(0, nv as int) == old(self).vertices@,
                forall|k: int| 0 <= k < other.vertices@.len() ==> #[trigger] self.vertices@[nv + k] == moved::<S>(top_of::<S>(old(self).transforms@), other.vertices@[k]),
                self.transforms@ == old(self).transforms@,
            decreases other.indices@.len() - j,
        {
            let shifted = other.indices[j] + base;
            self.indices.push(shifted);
            j = j + 1;
        }
    }

    /// Empties the vertices and the indices; the transform stack stays.
    pub fn clear(&mut self)
        ensures
            final(self).vertices@.len() == 0,
            final(self).indices@.len() == 0,
            final(self).transforms@ == old(self).transforms@,
    {
        self.indices.clear();
        self.vertices.clear();
    }
}

impl<S: Space> Default for OffsetBuilder<S> {
    /// An empty builder, as `new` makes it.
    fn default() -> (r: Self)
        ensures
            r.vertices@.len() == 0,
            r.indices@.len() == 0,
            r.transforms@.len() == 0,
    {
        OffsetBuilder::new()
    }
}

} // verus!
