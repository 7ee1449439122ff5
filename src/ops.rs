use vstd::prelude::*;

use crate::error::EvalError;
use crate::image::Image;

verus! {

/// Elementwise arithmetic between two operands.
#[derive(Clone, Copy, Debug, PartialEq, Eq, Structural)]
pub enum BinaryOp {
    Add,
    Sub,
    Mul,
    Div,
}

/// Functions of one element, applied to every element of an image.
#[derive(Clone, Copy, Debug, PartialEq, Eq, Structural)]
pub enum UnaryOp {
    Abs,
    Floor,
    Ceil,
    Round,
    Sqrt,
    Cbrt,
    Exp,
    Exp2,
    Ln,
    Log2,
    Log10,
    Sin,
    Cos,
    Tan,
    Asin,
    Acos,
    Atan,
    Sinh,
    Cosh,
    Tanh,
}

/// Statistics that collapse an image into one scalar.
#[derive(Clone, Copy, Debug, PartialEq, Eq, Structural)]
pub enum ReduceOp {
    Min,
    Max,
    Mean,
    Std,
    Median,
}

/// An operand: a scalar or an image.
#[derive(Debug, PartialEq)]
pub enum Elem<T> {
    Image(Image<T>),
    Value(T),
}

impl<T> Elem<T> {
    /// An image operand is well formed.
    pub open spec fn wf(&self) -> bool {
        match self {
            Elem::Image(img) => img.wf(),
            Elem::Value(_) => true,
        }
    }
}

/// Two operands can be combined: unless both are images, any pair can; two
/// images only when their dimension sizes are equal.
pub open spec fn shapes_agree<T>(lhs: Elem<T>, rhs: Elem<T>) -> bool {
    match (lhs, rhs) {
        (Elem::Image(a), Elem::Image(b)) => a.dims() == b.dims(),
        _ => true,
    }
}

/// `img` has the sizes of `src`, and each of its elements is a result of `f`
/// on the element of `src` at the same place.
pub open spec fn mapped<T, F: Fn(T) -> T>(f: F, src: Image<T>, img: Image<T>) -> bool {
    &&& img.wf()
    &&& img.dims() == src.dims()
    &&& img.values().len() == src.values().len()
    &&& forall|i: int|
        0 <= i < src.values().len() ==> f.ensures((src.values()[i],), #[trigger] img.values()[i])
}

/// `r` is `lhs op rhs` as the broadcasting rules define it, with `bin` as the
/// arithmetic of one pair of elements:
/// - two images: element by element;
/// - a scalar and an image: the scalar with every element, keeping its side;
/// - two scalars: one application.
pub open spec fn combined<T, B: Fn(BinaryOp, T, T) -> T>(
    bin: B,
    op: BinaryOp,
    lhs: Elem<T>,
    rhs: Elem<T>,
    r: Elem<T>,
) -> bool {
    match (lhs, rhs) {
        (Elem::Image(a), Elem::Image(b)) => r matches Elem::Image(c) && {
            &&& c.wf()
            &&& c.dims() == a.dims()
            &&& c.values().len() == a.values().len()
            &&& forall|i: int|
                0 <= i < a.values().len() ==> bin.ensures(
                    (op, a.values()[i], b.values()[i]),
                    #[trigger] c.values()[i],
                )
        },
        (Elem::Value(s), Elem::Image(b)) => r matches Elem::Image(c) && {
            &&& c.wf()
            &&& c.dims() == b.dims()
            &&& c.values().len() == b.values().len()
            &&& forall|i: int|
                0 <= i < b.values().len() ==> bin.ensures(
                    (op, s, b.values()[i]),
                    #[trigger] c.values()[i],
                )
        },
        (Elem::Image(a), Elem::Value(s)) => r matches Elem::Image(c) && {
            &&& c.wf()
            &&& c.dims() == a.dims()
            &&& c.values().len() == a.values().len()
            &&& forall|i: int|
                0 <= i < a.values().len() ==> bin.ensures(
                    (op, a.values()[i], s),
                    #[trigger] c.values()[i],
                )
        },
        (Elem::Value(x), Elem::Value(y)) => r matches Elem::Value(z) && bin.ensures((op, x, y), z),
    }
}

/// `r` is the unary function `op` applied to `e`: to every element of an
/// image, or to a scalar.
pub open spec fn unary_applied<T, U: Fn(UnaryOp, T) -> T>(
    un: U,
    op: UnaryOp,
    e: Elem<T>,
    r: Elem<T>,
) -> bool {
    match e {
        Elem::Image(a) => r matches Elem::Image(c) && {
            &&& c.wf()
            &&& c.dims() == a.dims()
            &&& c.values().len() == a.values().len()
            &&& forall|i: int|
                0 <= i < a.values().len() ==> un.ensures(
                    (op, a.values()[i]),
                    #[trigger] c.values()[i],
                )
        },
        Elem::Value(x) => r matches Elem::Value(z) && un.ensures((op, x), z),
    }
}

/// Combines two operands by the broadcasting rules. Fails with
/// `ShapeMismatch` exactly when both are images of different sizes.
pub fn combine<T: Copy, B: Fn(BinaryOp, T, T) -> T>(
    op: BinaryOp,
    lhs: Elem<T>,
    rhs: Elem<T>,
    bin: &B,
) -> (r: Result<Elem<T>, EvalError>)
    requires
        lhs.wf(),
        rhs.wf(),
        forall|x: T, y: T| bin.requires((op, x, y)),
    ensures
        r is Ok <==> shapes_agree(lhs, rhs),
        r matches Ok(e) ==> combined(*bin, op, lhs, rhs, e),
        r matches Err(e) ==> e == EvalError::ShapeMismatch,
{
    match (lhs, rhs) {
        (Elem::Image(a), Elem::Image(b)) => {
            if !same_dims(a.shape(), b.shape()) {
                return Err(EvalError::ShapeMismatch);
            }
            let f = |x: T, y: T| -> (z: T)
                ensures
                    bin.ensures((op, x, y), z),
                { bin(op, x, y) };
            Ok(Elem::Image(a.zip_values(&b, &f)))
        },
        (Elem::Value(s), Elem::Image(b)) => {
            let f = |x: T| -> (z: T)
                ensures
                    bin.ensures((op, s, x), z),
                { bin(op, s, x) };
            Ok(Elem::Image(b.map_values(&f)))
        },
        (Elem::Image(a), Elem::Value(s)) => {
            let f = |x: T| -> (z: T)
                ensures
                    bin.ensures((op, x, s), z),
                { bin(op, x, s) };
            Ok(Elem::Image(a.map_values(&f)))
        },
        (Elem::Value(x), Elem::Value(y)) => Ok(Elem::Value(bin(op, x, y))),
    }
}

/// Applies a unary function to a scalar, or to every element of an image.
pub fn apply_unary<T: Copy, U: Fn(UnaryOp, T) -> T>(op: UnaryOp, e: Elem<T>, un: &U) -> (r: Elem<T>)
    requires
        e.wf(),
        forall|x: T| un.requires((op, x)),
    ensures
        unary_applied(*un, op, e, r),
        r.wf(),
{
    match e {
        Elem::Image(a) => {
            let f = |x: T| -> (z: T)
                ensures
                    un.ensures((op, x), z),
                { un(op, x) };
            Elem::Image(a.map_values(&f))
        },
        Elem::Value(x) => Elem::Value(un(op, x)),
    }
}

/// Collapses an image into a scalar statistic. A scalar operand is a
/// `TypeMismatch`.
pub fn apply_reduce<T: Copy, R: Fn(ReduceOp, Image<T>) -> T>(op: ReduceOp, e: Elem<T>, red: &R) -> (r:
    Result<Elem<T>, EvalError>)
    requires
        e.wf(),
        forall|img: Image<T>| img.wf() ==> red.requires((op, img)),
    ensures
        r is Ok <==> e is Image,
        e matches Elem::Image(a) ==> (r matches Ok(Elem::Value(z)) && red.ensures((op, a), z)),
        e is Value ==> r == Err::<Elem<T>, EvalError>(EvalError::TypeMismatch),
{
    match e {
        Elem::Image(a) => Ok(Elem::Value(red(op, a))),
        Elem::Value(_) => Err(EvalError::TypeMismatch),
    }
}

/// Whether two lists of dimension sizes are equal.
pub fn same_dims(a: &Vec<usize>, b: &Vec<usize>) -> (r: bool)
    ensures
        r == (a@ == b@),
{
    if a.len() != b.len() {
        return false;
    }
    let mut i: usize = 0;
    while i < a.len()
        invariant
            0 <= i <= a@.len(),
            a@.len() == b@.len(),
            forall|j: int| 0 <= j < i ==> a@[j] == b@[j],
        decreases a@.len() - i,
    {
        if a[i] != b[i] {
            return false;
        }
        i = i + 1;
    }
    proof {
        assert(a@ =~= b@);
    }
    true
}

} // verus!
