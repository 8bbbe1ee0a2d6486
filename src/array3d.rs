//! A dense three-dimensional grid stored as one flat vector.
use vstd::prelude::*;

verus! {

/// A coordinate `(x, y, z)` into an [`Array3D`].
pub type Index3D = (usize, usize, usize);

/// Flat position of `(x, y, z)` in a grid of the given width and height.
pub open spec fn linear3(width: int, height: int, x: int, y: int, z: int) -> int {
    x + y * width + z * (width * height)
}

/// A `width` x `height` x `length` grid whose cells are stored with `x`
/// varying fastest, then `y`, then `z`.
#[derive(Clone)]
pub struct Array3D<T> {
    width: usize,
    height: usize,
    length: usize,
    data: Vec<T>,
}

impl<T> View for Array3D<T> {
    type V = Seq<T>;

    closed spec fn view(&self) -> Seq<T> {
        self.data@
    }
}

/// The offset of an in-bounds coordinate stays below the cell count.
proof fn lemma_linear3_bound(w: int, h: int, l: int, x: int, y: int, z: int)
    requires
        0 <= x < w,
        0 <= y < h,
        0 <= z < l,
    ensures
        0 <= linear3(w, h, x, y, z) < w * h * l,
        linear3(w, h, x, y, z) == x + w * (y + h * z),
{
    assert(0 <= x + y * w < w * h) by (nonlinear_arith)
        requires
            0 <= x < w,
            0 <= y < h,
    ;
    assert(0 <= z * (w * h) <= (l - 1) * (w * h)) by (nonlinear_arith)
        requires
            0 <= z < l,
            0 < w * h,
    ;
    assert((l - 1) * (w * h) + w * h == w * h * l) by (nonlinear_arith);
    assert(x + y * w + z * (w * h) == x + w * (y + h * z)) by (nonlinear_arith);
}

impl<T> Array3D<T> {
    pub closed spec fn spec_width(&self) -> nat {
        self.width as nat
    }

    pub closed spec fn spec_height(&self) -> nat {
        self.height as nat
    }

    pub closed spec fn spec_length(&self) -> nat {
        self.length as nat
    }

    /// The cell count matches the dimensions.
    pub open spec fn wf(&self) -> bool {
        self@.len() == self.spec_width() * self.spec_height() * self.spec_length()
    }

    /// Each component of `pos` lies below its dimension.
    pub open spec fn in_bounds(&self, pos: Index3D) -> bool {
        pos.0 < self.spec_width() && pos.1 < self.spec_height() && pos.2 < self.spec_length()
    }

    /// The flat offset of `pos`.
    pub open spec fn offset(&self, pos: Index3D) -> int {
        linear3(self.spec_width() as int, self.spec_height() as int, pos.0 as int, pos.1 as int, pos.2 as int)
    }

    /// The cell at `pos`.
    pub open spec fn cell(&self, pos: Index3D) -> T {
        self@[self.offset(pos)]
    }

    /// Wraps `data` as a grid of the given width and height; the length is
    /// the number of whole `width * height` layers in `data`.
    pub fn from_array(width: usize, height: usize, data: Vec<T>) -> (r: Self)
        requires
            width * height > 0,
            width * height <= usize::MAX,
            data@.len() % (width * height) as nat == 0,
        ensures
            r.wf(),
            r@ == data@,
            r.spec_width() == width,
            r.spec_height() == height,
            r.spec_length() == data@.len() / (width * height) as nat,
    {
        let wh: usize = width * height;
        let length: usize = data.len() / wh;
        proof {
            let n = data@.len() as int;
            let k = wh as int;
            assert(n == k * (n / k) + n % k) by (nonlinear_arith)
                requires k > 0;
            assert(n == k * length) by (nonlinear_arith)
                requires n == k * (n / k) + n % k, n % k == 0, length == n / k;
            assert(width * height * length == k * length) by (nonlinear_arith)
                requires k == width * height;
        }
        Self { width, height, length, data }
    }
}

/// The coordinate whose flat offset is `k` in a grid of the given width and
/// height.
pub open spec fn coord3(width: int, height: int, k: int) -> (int, int, int) {
    (k % width, (k / width) % height, (k / width) / height)
}

/// Building a grid from a flat vector and then reading every coordinate
/// gives the vector back: each flat position `k` is the offset of an
/// in-bounds coordinate, and the cell there is `data[k]`.
pub proof fn lemma_from_array_reads_back<T>(a: Array3D<T>, data: Seq<T>, k: int)
    requires
        a.wf(),
        a@ == data,
        0 <= k < data.len(),
    ensures
        ({
            let c = coord3(a.spec_width() as int, a.spec_height() as int, k);
            let pos = (c.0 as usize, c.1 as usize, c.2 as usize);
            &&& a.in_bounds(pos)
            &&& a.offset(pos) == k
            &&& a.cell(pos) == data[k]
        }),
{
    let w = a.spec_width() as int;
    let h = a.spec_height() as int;
    let l = a.spec_length() as int;
    assert(w > 0 && h > 0 && l > 0) by (nonlinear_arith)
        requires 0 <= k < w * h * l, w >= 0, h >= 0, l >= 0;
    let k1 = k / w;
    let x = k % w;
    let y = k1 % h;
    let z = k1 / h;
    vstd::arithmetic::div_mod::lemma_fundamental_div_mod(k, w);
    vstd::arithmetic::div_mod::lemma_fundamental_div_mod(k1, h);
    assert(0 <= x < w);
    assert(0 <= y < h);
    assert(0 <= k1 < h * l) by (nonlinear_arith)
        requires k == w * k1 + x, 0 <= x < w, 0 <= k < w * h * l, w > 0;
    assert(0 <= z < l) by (nonlinear_arith)
        requires k1 == h * z + y, 0 <= y < h, 0 <= k1 < h * l, h > 0;
    lemma_linear3_bound(w, h, l, x, y, z);
    assert(k == x + w * (y + h * z));
}

impl<T: Default + Copy> Array3D<T> {
    /// A grid of the given dimensions with every cell set to `T::default()`.
    pub fn new(width: usize, height: usize, length: usize) -> (r: Self)
        requires
            width * height <= usize::MAX,
            width * height * length <= usize::MAX,
        ensures
            r.wf(),
            r.spec_width() == width,
            r.spec_height() == height,
            r.spec_length() == length,
            forall|i: int| 0 <= i < r@.len() ==> call_ensures(T::default, (), #[trigger] r@[i]),
    {
        let n: usize = width * height * length;
        let mut data: Vec<T> = Vec::new();
        let mut i: usize = 0;
        while i < n
            invariant
                i <= n,
                data@.len() == i,
                forall|k: int| 0 <= k < i ==> call_ensures(T::default, (), #[trigger] data@[k]),
            decreases n - i,
        {
            data.push(T::default());
            i = i + 1;
        }
        Self { width, height, length, data }
    }
}

impl<T> Array3D<T> {
    /// All cells, in flat order.
    pub fn data(&self) -> (r: &[T])
        ensures
            r@ == self@,
    {
        self.data.as_slice()
    }

    /// All cells, in flat order, for bulk changes. The dimensions stay as
    /// they are and the grid holds whatever the slice holds afterwards.
    pub fn data_mut(&mut self) -> (r: &mut [T])
        ensures
            r@ == old(self)@,
            final(self)@ == final(r)@,
            final(self).spec_width() == old(self).spec_width(),
            final(self).spec_height() == old(self).spec_height(),
            final(self).spec_length() == old(self).spec_length(),
    {
        self.data.as_mut_slice()
    }

    /// The flat offset of an in-bounds coordinate.
    fn calc_index(&self, pos: Index3D) -> (r: usize)
        requires
            self.wf(),
            self.in_bounds(pos),
        ensures
            r == self.offset(pos),
            r < self@.len(),
    {
        let (x, y, z) = pos;
        let _cells = self.data.len();
        let ghost (w, h, l) = (self.width as int, self.height as int, self.length as int);
        proof {
            lemma_linear3_bound(w, h, l, x as int, y as int, z as int);
            assert(y * w < w * h) by (nonlinear_arith)
                requires 0 <= y < h, 0 <= x < w;
            let k = w * h;
            assert(0 <= k) by (nonlinear_arith)
                requires 0 <= w, 0 <= h, k == w * h;
            assert(z * k + k <= k * l) by (nonlinear_arith)
                requires 0 <= z < l, 0 <= k;
            assert(0 <= z * k) by (nonlinear_arith)
                requires 0 <= z, 0 <= k;
            assert(k * l == w * h * l);
        }
        x + (y * self.width) + z * (self.width * self.height)
    }

    pub fn width(&self) -> (r: usize)
        ensures
            r == self.spec_width(),
    {
        self.width
    }

    pub fn height(&self) -> (r: usize)
        ensures
            r == self.spec_height(),
    {
        self.height
    }

    pub fn length(&self) -> (r: usize)
        ensures
            r == self.spec_length(),
    {
        self.length
    }

    /// The cell at `pos`.
    pub fn get(&self, pos: Index3D) -> (r: &T)
        requires
            self.wf(),
            self.in_bounds(pos),
        ensures
            *r == self.cell(pos),
    {
        let idx = self.calc_index(pos);
        &self.data[idx]
    }

    /// The cell at `pos`, for writing; no other cell changes.
    pub fn get_mut(&mut self, pos: Index3D) -> (r: &mut T)
        requires
            old(self).wf(),
            old(self).in_bounds(pos),
        ensures
            *r == old(self).cell(pos),
            final(self)@ == old(self)@.update(old(self).offset(pos), *final(r)),
            final(self).spec_width() == old(self).spec_width(),
            final(self).spec_height() == old(self).spec_height(),
            final(self).spec_length() == old(self).spec_length(),
            final(self).wf(),
    {
        let idx = self.calc_index(pos);
        &mut self.data[idx]
    }
}

} // verus!
