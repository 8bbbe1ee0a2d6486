//! The plain mesh buffer: vertices and triangle indices, with no transform.
use vstd::prelude::*;

verus! {

/// The largest vertex count whose every index fits in a `u32`.
pub open spec fn vertex_limit() -> nat {
    u32::MAX as nat + 1
}

/// Successive vertex pushes on an empty buffer hand out `0, 1, 2, ...`:
/// `states[k]` is the vertex list before push `k` and `returned[k]` what
/// that push returned, as `push_vertex` states them.
pub proof fn lemma_push_vertex_counts_up<V>(states: Seq<Seq<V>>, pushed: Seq<V>, returned: Seq<u32>)
    requires
        states.len() == pushed.len() + 1,
        returned.len() == pushed.len(),
        states[0] == Seq::<V>::empty(),
        forall|k: int|
            0 <= k < pushed.len() ==> {
                &&& returned[k] == states[k].len()
                &&& #[trigger] states[k + 1] == states[k].push(pushed[k])
            },
    ensures
        forall|k: int| 0 <= k < returned.len() ==> returned[k] == k,
{
    assert forall|k: int| 0 <= k < states.len() implies #[trigger] states[k].len() == k by {
        lemma_state_len(states, pushed, k);
    }
    assert forall|k: int| 0 <= k < returned.len() implies returned[k] == k by {
        assert(states[k + 1] == states[k].push(pushed[k]));
        assert(states[k].len() == k);
    }
}

proof fn lemma_state_len<V>(states: Seq<Seq<V>>, pushed: Seq<V>, k: int)
    requires
        states.len() == pushed.len() + 1,
        states[0] == Seq::<V>::empty(),
        forall|j: int|
            0 <= j < pushed.len() ==> #[trigger] states[j + 1] == states[j].push(pushed[j]),
        0 <= k < states.len(),
    ensures
        states[k].len() == k,
    decreases k,
{
    if k > 0 {
        lemma_state_len(states, pushed, k - 1);
        assert(states[(k - 1) + 1] == states[k - 1].push(pushed[k - 1]));
    }
}

/// Accumulates vertices and triangle-list indices for one mesh.
pub struct GraphicsBuilder<V> {
    pub vertices: Vec<V>,
    pub indices: Vec<u32>,
}

impl<V> GraphicsBuilder<V> {
    /// An empty buffer.
    pub fn new() -> (r: Self)
        ensures
            r.vertices@ == Seq::<V>::empty(),
            r.indices@ == Seq::<u32>::empty(),
    {
        GraphicsBuilder { vertices: Vec::new(), indices: Vec::new() }
    }

    /// Appends `v` and returns its index, the vertex count before the call.
    pub fn push_vertex(&mut self, v: V) -> (r: u32)
        requires
            old(self).vertices@.len() < vertex_limit(),
        ensures
            r == old(self).vertices@.len(),
            final(self).vertices@ == old(self).vertices@.push(v),
            final(self).indices@ == old(self).indices@,
    {
        let idx = self.vertices.len() as u32;
        self.vertices.push(v);
        idx
    }

    /// Appends `idx` to the indices as given.
    pub fn push_indices(&mut self, idx: &[u32])
        ensures
            final(self).indices@ == old(self).indices@ + idx@,
            final(self).vertices@ == old(self).vertices@,
    {
        let mut i: usize = 0;
        while i < idx.len()
            invariant
                i <= idx@.len(),
                self.indices@ == old(self).indices@ + idx@.subrange(0, i as int),
                self.vertices@ == old(self).vertices@,
            decreases idx@.len() - i,
        {
            self.indices.push(idx[i]);
            i = i + 1;
            proof {
                assert(idx@.subrange(0, i as int) == idx@.subrange(0, i - 1).push(idx@[i - 1]));
            }
        }
        proof {
            assert(idx@.subrange(0, idx@.len() as int) == idx@);
        }
    }

    /// Empties both the vertices and the indices.
    pub fn clear(&mut self)
        ensures
            final(self).vertices@ == Seq::<V>::empty(),
            final(self).indices@ == Seq::<u32>::empty(),
    {
        self.indices.clear();
        self.vertices.clear();
    }
}

impl<V> Default for GraphicsBuilder<V> {
    /// An empty builder, as `new` makes it.
    fn default() -> (r: Self)
        ensures
            r.vertices@.len() == 0,
            r.indices@.len() == 0,
    {
        GraphicsBuilder::new()
    }
}

} // verus!
