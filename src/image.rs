use vstd::prelude::*;

verus! {

/// Number of elements of an array with the given dimension sizes.
pub open spec fn shape_size(dims: Seq<usize>) -> nat
    decreases dims.len(),
{
    if dims.len() == 0 {
        1
    } else {
        shape_size(dims.drop_last()) * (dims.last() as nat)
    }
}

/// With every dimension at least one, a longer prefix never holds fewer elements.
proof fn lemma_shape_size_monotone(dims: Seq<usize>, j: int, k: int)
    requires
        0 <= j <= k <= dims.len(),
        forall|i: int| 0 <= i < dims.len() ==> dims[i] >= 1,
    ensures
        shape_size(dims.subrange(0, j)) <= shape_size(dims.subrange(0, k)),
    decreases k - j,
{
    if j < k {
        lemma_shape_size_monotone(dims, j, k - 1);
        let pre = dims.subrange(0, k);
        assert(pre.drop_last() =~= dims.subrange(0, k - 1));
        let a = shape_size(dims.subrange(0, k - 1));
        let b = pre.last() as nat;
        assert(a <= a * b) by (nonlinear_arith)
            requires
                b >= 1,
        ;
    }
}

/// A zero dimension leaves no element, whatever the others are.
proof fn lemma_shape_size_zero(dims: Seq<usize>, z: int, k: int)
    requires
        0 <= z < k <= dims.len(),
        dims[z] == 0,
    ensures
        shape_size(dims.subrange(0, k)) == 0,
    decreases k,
{
    let pre = dims.subrange(0, k);
    assert(pre.drop_last() =~= dims.subrange(0, k - 1));
    let a = shape_size(dims.subrange(0, k - 1));
    let b = pre.last() as nat;
    assert(shape_size(pre) == a * b);
    if z < k - 1 {
        lemma_shape_size_zero(dims, z, k - 1);
        assert(a * b == 0) by (nonlinear_arith)
            requires
                a == 0,
        ;
    } else {
        assert(a * b == 0) by (nonlinear_arith)
            requires
                b == 0,
        ;
    }
}

/// An N-dimensional array stored as its dimension sizes and its elements in
/// row-major order.
#[derive(Debug, PartialEq)]
pub struct Image<T> {
    shape: Vec<usize>,
    data: Vec<T>,
}

impl<T> Image<T> {
    /// The dimension sizes.
    pub closed spec fn dims(&self) -> Seq<usize> {
        self.shape@
    }

    /// The elements, in row-major order.
    pub closed spec fn values(&self) -> Seq<T> {
        self.data@
    }

    /// The element count agrees with the dimension sizes.
    pub open spec fn wf(&self) -> bool {
        self.values().len() == shape_size(self.dims())
    }

    /// Builds an image from its dimension sizes and its elements in row-major
    /// order; `None` when their number does not match the sizes.
    pub fn new(shape: Vec<usize>, data: Vec<T>) -> (r: Option<Image<T>>)
        ensures
            r is Some <==> data@.len() == shape_size(shape@),
            r matches Some(img) ==> img.wf() && img.dims() == shape@ && img.values() == data@,
    {
        let n = shape.len();
        let mut k: usize = 0;
        while k < n
            invariant
                0 <= k <= n,
                n == shape@.len(),
                forall|i: int| 0 <= i < k ==> shape@[i] >= 1,
            decreases n - k,
        {
            if shape[k] == 0 {
                proof {
                    lemma_shape_size_zero(shape@, k as int, n as int);
                    assert(shape@.subrange(0, n as int) =~= shape@);
                }
                if data.len() == 0 {
                    return Some(Image { shape, data });
                } else {
                    return None;
                }
            }
            k = k + 1;
        }
        let len = data.len();
        let mut count: usize = 1;
        let mut i: usize = 0;
        while i < n
            invariant
                0 <= i <= n,
                n == shape@.len(),
                forall|j: int| 0 <= j < n ==> shape@[j] >= 1,
                count as nat == shape_size(shape@.subrange(0, i as int)),
                len == data@.len(),
            decreases n - i,
        {
            proof {
                assert(shape@.subrange(0, i + 1).drop_last() =~= shape@.subrange(0, i as int));
            }
            match count.checked_mul(shape[i]) {
                Some(c) => {
                    count = c;
                },
                None => {
                    proof {
                        assert(shape_size(shape@.subrange(0, i + 1)) == count as nat
                            * shape@[i as int] as nat);
                        lemma_shape_size_monotone(shape@, i + 1, n as int);
                        assert(shape@.subrange(0, n as int) =~= shape@);
                    }
                    return None;
                },
            }
            i = i + 1;
        }
        proof {
            assert(shape@.subrange(0, n as int) =~= shape@);
        }
        if count == len {
            Some(Image { shape, data })
        } else {
            None
        }
    }

    /// The dimension sizes.
    pub fn shape(&self) -> (r: &Vec<usize>)
        ensures
            r@ == self.dims(),
    {
        &self.shape
    }

    /// The elements, in row-major order.
    pub fn data(&self) -> (r: &Vec<T>)
        ensures
            r@ == self.values(),
    {
        &self.data
    }

    /// Takes the image apart into its dimension sizes and its elements.
    pub fn into_parts(self) -> (r: (Vec<usize>, Vec<T>))
        ensures
            r.0@ == self.dims(),
            r.1@ == self.values(),
    {
        (self.shape, self.data)
    }
}

impl<T: Copy> Image<T> {
    /// Replaces every element `x` by `f(x)`.
    pub fn map_values<F: Fn(T) -> T>(self, f: &F) -> (r: Image<T>)
        requires
            self.wf(),
            forall|x: T| f.requires((x,)),
        ensures
            r.wf(),
            r.dims() == self.dims(),
            r.values().len() == self.values().len(),
            forall|i: int|
                0 <= i < self.values().len() ==> f.ensures(
                    (self.values()[i],),
                    #[trigger] r.values()[i],
                ),
    {
        let Image { shape, mut data } = self;
        let ghost old_data = data@;
        let n = data.len();
        let mut i: usize = 0;
        while i < n
            invariant
                0 <= i <= n,
                n == data@.len(),
                data@.len() == old_data.len(),
                forall|x: T| f.requires((x,)),
                forall|j: int| i <= j < n ==> data@[j] == old_data[j],
                forall|j: int| 0 <= j < i ==> f.ensures((old_data[j],), #[trigger] data@[j]),
            decreases n - i,
        {
            let x = data[i];
            let y = f(x);
            data.set(i, y);
            i = i + 1;
        }
        Image { shape, data }
    }

    /// Replaces every element `x` by `f(x, y)`, where `y` is the element of
    /// `other` at the same place.
    pub fn zip_values<F: Fn(T, T) -> T>(self, other: &Image<T>, f: &F) -> (r: Image<T>)
        requires
            self.wf(),
            other.wf(),
            self.dims() == other.dims(),
            forall|x: T, y: T| f.requires((x, y)),
        ensures
            r.wf(),
            r.dims() == self.dims(),
            r.values().len() == self.values().len(),
            forall|i: int|
                0 <= i < self.values().len() ==> f.ensures(
                    (self.values()[i], other.values()[i]),
                    #[trigger] r.values()[i],
                ),
    {
        let Image { shape, mut data } = self;
        let ghost old_data = data@;
        let n = data.len();
        let mut i: usize = 0;
        while i < n
            invariant
                0 <= i <= n,
                n == data@.len(),
                data@.len() == old_data.len(),
                other.values().len() == n,
                forall|x: T, y: T| f.requires((x, y)),
                forall|j: int| i <= j < n ==> data@[j] == old_data[j],
                forall|j: int|
                    0 <= j < i ==> f.ensures(
                        (old_data[j], other.values()[j]),
                        #[trigger] data@[j],
                    ),
            decreases n - i,
        {
            let x = data[i];
            let y = f(x, other.data[i]);
            data.set(i, y);
            i = i + 1;
        }
        Image { shape, data }
    }

    /// An independent copy: same sizes, same elements.
    pub fn duplicate(&self) -> (r: Image<T>)
        requires
            self.wf(),
        ensures
            r.wf(),
            r.dims() == self.dims(),
            r.values() == self.values(),
    {
        let mut shape: Vec<usize> = Vec::new();
        let mut k: usize = 0;
        while k < self.shape.len()
            invariant
                0 <= k <= self.shape@.len(),
                shape@ == self.shape@.subrange(0, k as int),
            decreases self.shape@.len() - k,
        {
            shape.push(self.shape[k]);
            k = k + 1;
            proof {
                assert(shape@ =~= self.shape@.subrange(0, k as int));
            }
        }
        let mut data: Vec<T> = Vec::new();
        let mut i: usize = 0;
        while i < self.data.len()
            invariant
                0 <= i <= self.data@.len(),
                data@ == self.data@.subrange(0, i as int),
            decreases self.data@.len() - i,
        {
            data.push(self.data[i]);
            i = i + 1;
            proof {
                assert(data@ =~= self.data@.subrange(0, i as int));
            }
        }
        proof {
            assert(shape@ =~= self.shape@);
            assert(data@ =~= self.data@);
        }
        Image { shape, data }
    }
}

} // verus!
