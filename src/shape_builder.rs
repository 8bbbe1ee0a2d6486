//! A mesh buffer with a stack of cumulative transforms and a stack of colors.
use vstd::prelude::*;
use crate::graphics_builder::vertex_limit;
use crate::offset_builder::shift_fits;
use crate::space::{Space, Vertex, top_of, color_of, moved};

verus! {

/// Accumulates vertices and indices; each pushed position is moved by the
/// transform on top of the transform stack and takes the color on top of
/// the color stack.
pub struct ShapeBuilder<S: Space> {
    pub vertices: Vec<Vertex<S::Point, S::Color>>,
    pub indices: Vec<u32>,
    pub transforms: Vec<S::Transform>,
    pub colors: Vec<S::Color>,
}

/// Colors shadow and never mix: after pushing `c1` and then `c2` on any
/// color stack and popping once, the current color is `c1` again, and the
/// color that was popped is `c2`.
pub proof fn lemma_color_shadowing<C>(before: Seq<C>, c1: C, c2: C)
    ensures
        before.push(c1).push(c2).last() == c2,
        before.push(c1).push(c2).drop_last() == before.push(c1),
        before.push(c1).push(c2).drop_last().last() == c1,
{
    assert(before.push(c1).push(c2).drop_last() =~= before.push(c1));
}

impl<S: Space> ShapeBuilder<S> {
    /// An empty builder with empty transform and color stacks.
    pub fn new() -> (r: Self)
        ensures
            r.vertices@.len() == 0,
            r.indices@.len() == 0,
            r.transforms@.len() == 0,
            r.colors@.len() == 0,
    {
        ShapeBuilder { vertices: Vec::new(), indices: Vec::new(), transforms: Vec::new(), colors: Vec::new() }
    }

    /// Pushes the current transform composed with `tf`, so that `tf` acts in
    /// the frame set up by the earlier pushes.
    pub fn push_tf(&mut self, tf: S::Transform)
        ensures
            final(self).transforms@ == old(self).transforms@.push(
                S::spec_compose(top_of::<S>(old(self).transforms@), tf),
            ),
            final(self).vertices@ == old(self).vertices@,
            final(self).indices@ == old(self).indices@,
            final(self).colors@ == old(self).colors@,
    {
        let base = self.get_tf();
        self.transforms.push(S::compose(&base, &tf));
    }

    /// Removes and returns the top of the transform stack.
    pub fn pop_tf(&mut self) -> (r: Option<S::Transform>)
        ensures
            old(self).transforms@.len() == 0 ==> r.is_none() && final(self).transforms@ == old(self).transforms@,
            old(self).transforms@.len() > 0 ==> r == Some(old(self).transforms@.last())
                && final(self).transforms@ == old(self).transforms@.drop_last(),
            final(self).vertices@ == old(self).vertices@,
            final(self).indices@ == old(self).indices@,
            final(self).colors@ == old(self).colors@,
    {
        self.transforms.pop()
    }

    /// The top of the transform stack, or the identity when it is empty.
    /// The builder does not change.
    pub fn get_tf(&mut self) -> (r: S::Transform)
        ensures
            r == top_of::<S>(old(self).transforms@),
            *final(self) == *old(self),
    {
        let n = self.transforms.len();
        if n > 0 {
            self.transforms[n - 1]
        } else {
            S::identity()
        }
    }

    /// Pushes `color` on the color stack. It replaces the current color
    /// until it is popped; it is not mixed with the one below.
    pub fn push_color(&mut self, color: S::Color)
        ensures
            final(self).colors@ == old(self).colors@.push(color),
            final(self).vertices@ == old(self).vertices@,
            final(self).indices@ == old(self).indices@,
            final(self).transforms@ == old(self).transforms@,
    {
        self.colors.push(color);
    }

    /// Removes and returns the top of the color stack.
    pub fn pop_color(&mut self) -> (r: Option<S::Color>)
        ensures
            old(self).colors@.len() == 0 ==> r.is_none() && final(self).colors@ == old(self).colors@,
            old(self).colors@.len() > 0 ==> r == Some(old(self).colors@.last())
                && final(self).colors@ == old(self).colors@.drop_last(),
            final(self).vertices@ == old(self).vertices@,
            final(self).indices@ == old(self).indices@,
            final(self).transforms@ == old(self).transforms@,
    {
        self.colors.pop()
    }

    /// The top of the color stack, or the default color when it is empty.
    /// The builder does not change.
    pub fn get_color(&mut self) -> (r: S::Color)
        ensures
            r == color_of::<S>(old(self).colors@),
            *final(self) == *old(self),
    {
        let n = self.colors.len();
        if n > 0 {
            self.colors[n - 1]
        } else {
            S::default_color()
        }
    }

    /// Appends a vertex at `pos` moved by the current transform, in the
    /// current color, and returns its index, the vertex count before the
    /// call.
    pub fn push_vertex(&mut self, pos: S::Point) -> (r: u32)
        requires
            old(self).vertices@.len() < vertex_limit(),
        ensures
            r == old(self).vertices@.len(),
            final(self).vertices@ == old(self).vertices@.push(
                Vertex {
                    pos: S::spec_apply(top_of::<S>(old(self).transforms@), pos),
                    color: color_of::<S>(old(self).colors@),
                },
            ),
            final(self).indices@ == old(self).indices@,
            final(self).transforms@ == old(self).transforms@,
            final(self).colors@ == old(self).colors@,
    {
        let idx = self.vertices.len() as u32;
        let tf = self.get_tf();
        let color = self.get_color();
        self.vertices.push(Vertex { pos: S::apply(&tf, &pos), color });
        idx
    }

    /// Appends `idx` to the indices as given.
    pub fn push_indices(&mut self, idx: &[u32])
        ensures
            final(self).indices@ == old(self).indices@ + idx@,
            final(self).vertices@ == old(self).vertices@,
            final(self).transforms@ == old(self).transforms@,
            final(self).colors@ == old(self).colors@,
    {
        let mut i: usize = 0;
        while i < idx.len()
            invariant
                i <= idx@.len(),
                self.indices@ == old(self).indices@ + idx@.subrange(0, i as int),
                self.vertices@ == old(self).vertices@,
                self.transforms@ == old(self).transforms@,
                self.colors@ == old(self).colors@,
            decreases idx@.len() - i,
        {
            self.indices.push(idx[i]);
            i = i + 1;
            proof {
                assert(idx@.subrange(0, i as int) == idx@.subrange(0, i - 1).push(idx@[i - 1]));
            }
        }
        proof {
            assert(idx@.subrange(0, idx@.len() as int) == idx@);
        }
    }

    /// Appends the vertices of `other`, each moved by this builder's current
    /// transform, and the indices of `other`, each raised by this builder's
    /// vertex count before the call so that they still point at the same
    /// vertices. `other` is only read.
    pub fn append(&mut self, other: &Self)
        requires
            old(self).vertices@.len() + other.vertices@.len() <= vertex_limit(),
            shift_fits(other.indices@, old(self).vertices@.len()),
        ensures
            final(self).vertices@.len() == old(self).vertices@.len() + other.vertices@.len(),
            final(self).vertices@.subrange(0, old(self).vertices@.len() as int) == old(self).vertices@,
            forall|k: int| 0 <= k < other.vertices@.len() ==>
                #[trigger] final(self).vertices@[old(self).vertices@.len() + k] == moved::<S>(
                    top_of::<S>(old(self).transforms@),
                    other.vertices@[k],
                ),
            final(self).indices@.len() == old(self).indices@.len() + other.indices@.len(),
            final(self).indices@.subrange(0, old(self).indices@.len() as int) == old(self).indices@,
            forall|k: int| 0 <= k < other.indices@.len() ==>
                #[trigger] final(self).indices@[old(self).indices@.len() + k] == other.indices@[k] + old(self).vertices@.len(),
            final(self).transforms@ == old(self).transforms@,
            final(self).colors@ == old(self).colors@,
    {
        // Only read when `other` has indices, and then it fits.
        let base = #[verifier::truncate] (self.vertices.len() as u32);
        proof {
            if other.indices@.len() > 0 {
                assert(other.indices@[0] + old(self).vertices@.len() <= u32::MAX);
            }
        }
        let tf = self.get_tf();
        let ghost nv = old(self).vertices@.len();
        let ghost ni = old(self).indices@.len();
        let mut i: usize = 0;
        while i < other.vertices.len()
            invariant
                i <= other.vertices@.len(),
                nv == old(self).vertices@.len(),
                tf == top_of::<S>(old(self).transforms@),
                self.vertices@.len() == nv + i,
                self.vertices@.subrange(0, nv as int) == old(self).vertices@,
                forall|k: int| 0 <= k < i ==> #[trigger] self.vertices@[nv + k] == moved::<S>(top_of::<S>(old(self).transforms@), other.vertices@[k]),
                self.indices@ == old(self).indices@,
                self.transforms@ == old(self).transforms@,
                self.colors@ == old(self).colors@,
            decreases other.vertices@.len() - i,
        {
            let v = other.vertices[i];
            self.vertices.push(Vertex { pos: S::apply(&tf, &v.pos), color: v.color });
            proof {
                assert(self.vertices@[nv + i as int] == self.vertices@.last());
            }
            i = i + 1;
        }
        let mut j: usize = 0;
        while j < other.indices.len()
            invariant
                j <= other.indices@.len(),
                ni == old(self).indices@.len(),
                other.indices@.len() > 0 ==> base == old(self).vertices@.len(),
                shift_fits(other.indices@, old(self).vertices@.len()),
                self.indices@.len() == ni + j,
                self.indices@.subrange(0, ni as int) == old(self).indices@,
                forall|k: int| 0 <= k < j ==> #[trigger] self.indices@[ni + k] == other.indices@[k] + old(self).vertices@.len(),
                self.vertices@.len() == old(self).vertices@.len() + other.vertices@.len(),
                self.vertices@.subrange(0, nv as int) == old(self).vertices@,
                forall|k: int| 0 <= k < other.vertices@.len() ==> #[trigger] self.vertices@[nv + k] == moved::<S>(top_of::<S>(old(self).transforms@), other.vertices@[k]),
                self.transforms@ == old(self).transforms@,
                self.colors@ == old(self).colors@,
            decreases other.indices@.len() - j,
        {
            let shifted = other.indices[j] + base;
            self.indices.push(shifted);
            j = j + 1;
        }
    }

    /// Empties the vertices and the indices; both stacks stay.
    pub fn clear(&mut self)
        ensures
            final(self).vertices@.len() == 0,
            final(self).indices@.len() == 0,
            final(self).transforms@ == old(self).transforms@,
            final(self).colors@ == old(self).colors@,
    {
        self.indices.clear();
        self.vertices.clear();
    }
}

impl<S: Space> Default for ShapeBuilder<S> {
    /// An empty builder, as `new` makes it.
    fn default() -> (r: Self)
        ensures
            r.vertices@.len() == 0,
            r.indices@.len() == 0,
            r.transforms@.len() == 0,
            r.colors@.len() == 0,
    {
        ShapeBuilder::new()
    }
}

} // verus!
