//! A dense two-dimensional grid stored as one flat vector.
use vstd::prelude::*;

verus! {

/// A coordinate `(x, y)` into an [`Array2D`].
pub type Index2D = (usize, usize);

/// Flat position of `(x, y)` in a grid of the given width.
pub open spec fn linear2(width: int, x: int, y: int) -> int {
    x + y * width
}

/// A `width` x `height` grid whose cells are stored row by row, `x` varying
/// fastest.
#[derive(Clone)]
pub struct Array2D<T> {
    width: usize,
    height: usize,
    data: Vec<T>,
}

impl<T> View for Array2D<T> {
    type V = Seq<T>;

    closed spec fn view(&self) -> Seq<T> {
        self.data@
    }
}

impl<T> Array2D<T> {
    pub closed spec fn spec_width(&self) -> nat {
        self.width as nat
    }

    pub closed spec fn spec_height(&self) -> nat {
        self.height as nat
    }

    /// The cell count matches the dimensions.
    pub open spec fn wf(&self) -> bool {
        self@.len() == self.spec_width() * self.spec_height()
    }

    /// Each component of `pos` lies below its dimension.
    pub open spec fn in_bounds(&self, pos: Index2D) -> bool {
        pos.0 < self.spec_width() && pos.1 < self.spec_height()
    }

    /// The flat offset of `pos`.
    pub open spec fn offset(&self, pos: Index2D) -> int {
        linear2(self.spec_width() as int, pos.0 as int, pos.1 as int)
    }

    /// The cell at `pos`.
    pub open spec fn cell(&self, pos: Index2D) -> T {
        self@[self.offset(pos)]
    }

    /// Wraps `data` as a grid of the given width; the height is the number
    /// of whole rows in `data`.
    pub fn from_array(width: usize, data: Vec<T>) -> (r: Self)
        requires
            width > 0,
            data@.len() % (width as nat) == 0,
        ensures
            r.wf(),
            r@ == data@,
            r.spec_width() == width,
            r.spec_height() == data@.len() / (width as nat),
    {
        let height: usize = data.len() / width;
        proof {
            let n = data@.len() as int;
            let w = width as int;
            vstd::arithmetic::div_mod::lemma_fundamental_div_mod(n, w);
            assert(n == w * height);
        }
        Self { width, height, data }
    }

    /// All cells, in flat order.
    pub fn data(&self) -> (r: &[T])
        ensures
            r@ == self@,
    {
        self.data.as_slice()
    }

    /// All cells, in flat order, for bulk changes. The dimensions stay as
    /// they are and the grid holds whatever the slice holds afterwards.
    pub fn data_mut(&mut self) -> (r: &mut [T])
        ensures
            r@ == old(self)@,
            final(self)@ == final(r)@,
            final(self).spec_width() == old(self).spec_width(),
            final(self).spec_height() == old(self).spec_height(),
    {
        self.data.as_mut_slice()
    }

    /// The flat offset of an in-bounds coordinate.
    fn calc_index(&self, pos: Index2D) -> (r: usize)
        requires
            self.wf(),
            self.in_bounds(pos),
        ensures
            r == self.offset(pos),
            r < self@.len(),
    {
        let (x, y) = pos;
        let _cells = self.data.len();
        proof {
            let w = self.width as int;
            let h = self.height as int;
            assert(x + y * w < w * h) by (nonlinear_arith)
                requires 0 <= x < w, 0 <= y < h;
        }
        x + y * self.width
    }

    pub fn width(&self) -> (r: usize)
        ensures
            r == self.spec_width(),
    {
        self.width
    }

    pub fn height(&self) -> (r: usize)
        ensures
            r == self.spec_height(),
    {
        self.height
    }

    /// The cell at `pos`.
    pub fn get(&self, pos: Index2D) -> (r: &T)
        requires
            self.wf(),
            self.in_bounds(pos),
        ensures
            *r == self.cell(pos),
    {
        let idx = self.calc_index(pos);
        &self.data[idx]
    }

    /// The cell at `pos`, for writing; no other cell changes.
    pub fn get_mut(&mut self, pos: Index2D) -> (r: &mut T)
        requires
            old(self).wf(),
            old(self).in_bounds(pos),
        ensures
            *r == old(self).cell(pos),
            final(self)@ == old(self)@.update(old(self).offset(pos), *final(r)),
            final(self).spec_width() == old(self).spec_width(),
            final(self).spec_height() == old(self).spec_height(),
            final(self).wf(),
    {
        let idx = self.calc_index(pos);
        &mut self.data[idx]
    }
}

/// Building a grid from a flat vector and then reading every coordinate
/// gives the vector back: each flat position `k` is the offset of the
/// in-bounds coordinate `(k % width, k / width)`, and the cell there is
/// `data[k]`.
pub proof fn lemma_from_array_reads_back<T>(a: Array2D<T>, data: Seq<T>, k: int)
    requires
        a.wf(),
        a@ == data,
        0 <= k < data.len(),
    ensures
        ({
            let w = a.spec_width() as int;
            let pos = ((k % w) as usize, (k / w) as usize);
            &&& a.in_bounds(pos)
            &&& a.offset(pos) == k
            &&& a.cell(pos) == data[k]
        }),
{
    let w = a.spec_width() as int;
    let h = a.spec_height() as int;
    assert(w > 0) by (nonlinear_arith)
        requires 0 <= k < w * h, 0 <= h;
    vstd::arithmetic::div_mod::lemma_fundamental_div_mod(k, w);
    assert(0 <= k / w < h) by (nonlinear_arith)
        requires k == w * (k / w) + k % w, 0 <= k % w < w, 0 <= k < w * h, w > 0;
    assert((k / w) * w == w * (k / w)) by (nonlinear_arith);
}

impl<T: Default + Copy> Array2D<T> {
    /// A grid of the given dimensions with every cell set to `T::default()`.
    pub fn new(width: usize, height: usize) -> (r: Self)
        requires
            width * height <= usize::MAX,
        ensures
            r.wf(),
            r.spec_width() == width,
            r.spec_height() == height,
            forall|i: int| 0 <= i < r@.len() ==> call_ensures(T::default, (), #[trigger] r@[i]),
    {
        let n: usize = width * height;
        let mut data: Vec<T> = Vec::new();
        let mut i: usize = 0;
        while i < n
            invariant
                i <= n,
                data@.len() == i,
                forall|k: int| 0 <= k < i ==> call_ensures(T::default, (), #[trigger] data@[k]),
            decreases n - i,
        {
            data.push(T::default());
            i = i + 1;
        }
        Self { width, height, data }
    }
}

} // verus!
