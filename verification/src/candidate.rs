//! The candidate: the vertex attributes of a fixed number of triangles, changed one
//! number at a time, with the score of the present numbers kept until they change.
use vstd::prelude::*;
use crate::rng::random_index;

verus! {

/// Numbers per vertex: two of position, four of colour.
pub const ELEMS_PER_VERT: usize = 6;

/// Numbers per triangle.
pub const ELEMS_PER_TRI: usize = 18;

/// What one change overwrote: enough to undo it.
#[derive(Clone, Copy, Debug, PartialEq, Eq, Structural)]
pub struct OldState {
    /// Which number was changed.
    pub id: usize,
    /// The bits it held before.
    pub val: u32,
}

/// The vertex attributes as single-precision bit patterns, and the cached score.
pub struct TriangleBuf {
    vbo: Vec<u32>,
    n_verts: usize,
    mse: Option<u32>,
}

/// Numbers in the attributes of `n_tris` triangles, or `None` where the machine cannot
/// count that far.
pub fn elem_count(n_tris: usize) -> (r: Option<usize>)
    ensures
        r is None <==> n_tris * ELEMS_PER_TRI > usize::MAX,
        r matches Some(n) ==> n == n_tris * ELEMS_PER_TRI,
{
    n_tris.checked_mul(ELEMS_PER_TRI)
}

/// What reading the score gives and leaves in the cache: the cached value where there
/// is one, else the value `evaluated` that a fresh evaluation gave.
pub open spec fn read_cache(cached: Option<u32>, evaluated: u32) -> (u32, Option<u32>) {
    match cached {
        Some(val) => (val, Some(val)),
        None => (evaluated, Some(evaluated)),
    }
}

impl View for TriangleBuf {
    type V = Seq<u32>;

    /// The numbers, vertex after vertex.
    closed spec fn view(&self) -> Seq<u32> {
        self.vbo@
    }
}

impl TriangleBuf {
    /// The score of the present numbers, where it is known.
    pub closed spec fn cached(&self) -> Option<u32> {
        self.mse
    }

    /// Number of whole vertices.
    pub closed spec fn spec_n_verts(&self) -> usize {
        self.n_verts
    }

    /// The vertex count goes with the numbers.
    pub open spec fn wf(&self) -> bool {
        self.spec_n_verts() == self@.len() / ELEMS_PER_VERT as nat
    }

    /// Whether the numbers are those of exactly `n_tris` triangles.
    pub open spec fn holds_triangles(&self, n_tris: nat) -> bool {
        self@.len() == n_tris * ELEMS_PER_TRI
    }

    /// Takes over a buffer of numbers. No score is known yet.
    pub fn from_vbo(vbo: Vec<u32>) -> (buf: Self)
        ensures
            buf.wf(),
            buf@ == vbo@,
            buf.cached() is None,
    {
        let n_verts = vbo.len() / ELEMS_PER_VERT;
        TriangleBuf { vbo, n_verts, mse: None }
    }

    /// Takes over the numbers of `n_tris` triangles; `None` where `vbo` holds another count.
    pub fn with_triangles(n_tris: usize, vbo: Vec<u32>) -> (r: Option<Self>)
        ensures
            r is Some <==> vbo@.len() == n_tris * ELEMS_PER_TRI,
            r matches Some(buf) ==> buf.wf() && buf@ == vbo@ && buf.cached() is None
                && buf.holds_triangles(n_tris as nat),
    {
        let have: usize = vbo.len();
        match elem_count(n_tris) {
            Some(n) => {
                if have == n {
                    Some(TriangleBuf::from_vbo(vbo))
                } else {
                    None
                }
            },
            None => None,
        }
    }

    /// How many numbers there are.
    pub fn len(&self) -> (n: usize)
        ensures
            n == self@.len(),
    {
        self.vbo.len()
    }

    /// How many whole vertices there are.
    pub fn n_verts(&self) -> (n: usize)
        requires
            self.wf(),
        ensures
            n == self@.len() / ELEMS_PER_VERT as nat,
    {
        self.n_verts
    }

    /// One of the numbers.
    pub fn get(&self, id: usize) -> (val: u32)
        requires
            id < self@.len(),
        ensures
            val == self@[id as int],
    {
        self.vbo[id]
    }

    /// The cached score, if the numbers have not changed since it was stored.
    pub fn cached_mse(&self) -> (r: Option<u32>)
        ensures
            r == self.cached(),
    {
        self.mse
    }

    /// The score of the present numbers. It is evaluated, by `eval`, only where none is
    /// cached, and is cached from then on.
    pub fn calc_mse<F: FnOnce() -> u32>(&mut self, eval: F) -> (val: u32)
        requires
            old(self).wf(),
            eval.requires(()),
        ensures
            final(self).wf(),
            final(self)@ == old(self)@,
            (val, final(self).cached()) == read_cache(old(self).cached(), val),
            old(self).cached() is None ==> eval.ensures((), val),
    {
        match self.mse {
            Some(val) => val,
            None => {
                let val = eval();
                self.mse = Some(val);
                val
            },
        }
    }

    /// Overwrites the number `id` with `fresh` and forgets the score.
    pub fn mutate_at(&mut self, id: usize, fresh: u32) -> (st: OldState)
        requires
            old(self).wf(),
            id < old(self)@.len(),
        ensures
            final(self).wf(),
            st == (OldState { id, val: old(self)@[id as int] }),
            final(self)@ == old(self)@.update(id as int, fresh),
            final(self).cached() is None,
    {
        let val = self.vbo[id];
        self.vbo.set(id, fresh);
        self.mse = None;
        OldState { id, val }
    }

    /// Overwrites one number, drawn with equal chance among all, with `fresh`, and
    /// forgets the score. What comes back undoes the change.
    pub fn mutate(&mut self, fresh: u32) -> (st: OldState)
        requires
            old(self).wf(),
            old(self)@.len() > 0,
        ensures
            final(self).wf(),
            st.id < old(self)@.len(),
            st.val == old(self)@[st.id as int],
            final(self)@ == old(self)@.update(st.id as int, fresh),
            final(self).cached() is None,
    {
        let id = random_index(self.vbo.len());
        self.mutate_at(id, fresh)
    }

    /// Writes back what a change overwrote and forgets the score: the numbers have
    /// changed once more.
    pub fn revert(&mut self, st: OldState)
        requires
            old(self).wf(),
            st.id < old(self)@.len(),
        ensures
            final(self).wf(),
            final(self)@ == old(self)@.update(st.id as int, st.val),
            final(self).cached() is None,
    {
        self.vbo.set(st.id, st.val);
        self.mse = None;
    }
}

/// A change that is undone leaves every number as it was.
pub proof fn lemma_revert_undoes_mutate(geometry: Seq<u32>, id: int, fresh: u32)
    requires
        0 <= id < geometry.len(),
    ensures
        geometry.update(id, fresh).update(id, geometry[id]) == geometry,
{
    assert(geometry.update(id, fresh).update(id, geometry[id]) =~= geometry);
}

/// A second reading of the score gives what the first gave, whatever a fresh evaluation
/// would give by then.
pub proof fn lemma_cached_read_repeats(cached: Option<u32>, first: u32, second: u32)
    ensures
        read_cache(read_cache(cached, first).1, second) == read_cache(cached, first),
{
}

} // verus!
