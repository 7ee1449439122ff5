use vstd::prelude::*;

use crate::cache::ImageCache;
use crate::error::EvalError;
use crate::formula::{Formula, Operator};
use crate::image::Image;
use crate::machine::{stepped, Outcome};
use crate::ops::{combined, BinaryOp, Elem, ReduceOp, UnaryOp};

verus! {

/// Broadcasting keeps each operand on its side: `img add s` has the sizes of
/// `img` and holds `x + s` for every element `x`, and `s sub img` holds
/// `s - x` for every element `x` (with `bin` as the arithmetic of one pair).
pub proof fn lemma_broadcast_keeps_sides<T, B: Fn(BinaryOp, T, T) -> T>(
    bin: B,
    img: Image<T>,
    s: T,
    sum: Elem<T>,
    diff: Elem<T>,
)
    requires
        img.wf(),
        combined(bin, BinaryOp::Add, Elem::Image(img), Elem::Value(s), sum),
        combined(bin, BinaryOp::Sub, Elem::Value(s), Elem::Image(img), diff),
    ensures
        sum matches Elem::Image(c) && c.dims() == img.dims() && c.values().len()
            == img.values().len() && forall|i: int|
            0 <= i < img.values().len() ==> bin.ensures(
                (BinaryOp::Add, img.values()[i], s),
                #[trigger] c.values()[i],
            ),
        diff matches Elem::Image(d) && d.dims() == img.dims() && d.values().len()
            == img.values().len() && forall|i: int|
            0 <= i < img.values().len() ==> bin.ensures(
                (BinaryOp::Sub, s, img.values()[i]),
                #[trigger] d.values()[i],
            ),
{
}

/// Reading the same path twice in one expression gives two operands with
/// the same sizes and elements as each other and as the cached image; each
/// is a value of its own, so changing one leaves the other and the cache as
/// they were.
pub proof fn lemma_repeated_path_agrees<T, H, B, U, R>(
    p: String,
    q: String,
    s0: Seq<Elem<T>>,
    s1: Seq<Elem<T>>,
    s2: Seq<Elem<T>>,
    s3: Seq<Elem<T>>,
    cache: ImageCache<T, H>,
    bin: B,
    un: U,
    red: R,
    r1: Result<Outcome<T>, EvalError>,
    r2: Result<Outcome<T>, EvalError>,
) where
    B: Fn(BinaryOp, T, T) -> T,
    U: Fn(UnaryOp, T) -> T,
    R: Fn(ReduceOp, Image<T>) -> T,

    requires
        p@ == q@,
        cache.lookup(p@) is Some,
        stepped(Formula::ImagePath(p), s0, s1, cache, bin, un, red, r1),
        stepped(Formula::ImagePath(q), s2, s3, cache, bin, un, red, r2),
    ensures
        r1 matches Ok(Outcome::Push(Elem::Image(a))) && r2 matches Ok(
            Outcome::Push(Elem::Image(b)),
        ) && a.dims() == b.dims() && a.values() == b.values() && a.values()
            == cache.lookup(p@)->0.values(),
{
}

/// Combining two images of different sizes is a `ShapeMismatch`, whatever
/// the operator, and leaves the stack as it was.
pub proof fn lemma_shape_mismatch<T, H, B, U, R>(
    op: BinaryOp,
    before: Seq<Elem<T>>,
    after: Seq<Elem<T>>,
    a: Image<T>,
    b: Image<T>,
    cache: ImageCache<T, H>,
    bin: B,
    un: U,
    red: R,
    r: Result<Outcome<T>, EvalError>,
) where
    B: Fn(BinaryOp, T, T) -> T,
    U: Fn(UnaryOp, T) -> T,
    R: Fn(ReduceOp, Image<T>) -> T,

    requires
        a.dims() != b.dims(),
        before.len() >= 2,
        before[before.len() - 2] == Elem::Image(a),
        before[before.len() - 1] == Elem::Image(b),
        stepped(Formula::Op(Operator::Binary(op)), before, after, cache, bin, un, red, r),
    ensures
        r == Err::<Outcome<T>, EvalError>(EvalError::ShapeMismatch),
        after == before,
{
}

/// An operator with fewer operands on the stack than it takes is a
/// `StackUnderflow`, and leaves the stack as it was.
pub proof fn lemma_underflow<T, H, B, U, R>(
    o: Operator,
    before: Seq<Elem<T>>,
    after: Seq<Elem<T>>,
    cache: ImageCache<T, H>,
    bin: B,
    un: U,
    red: R,
    r: Result<Outcome<T>, EvalError>,
) where
    B: Fn(BinaryOp, T, T) -> T,
    U: Fn(UnaryOp, T) -> T,
    R: Fn(ReduceOp, Image<T>) -> T,

    requires
        before.len() < (if o is Binary {
            2int
        } else {
            1int
        }),
        stepped(Formula::Op(o), before, after, cache, bin, un, red, r),
    ensures
        r == Err::<Outcome<T>, EvalError>(EvalError::StackUnderflow),
        after == before,
{
}

} // verus!
