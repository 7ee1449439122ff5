use vstd::prelude::*;

use crate::cache::{is_copy_of, ImageCache};
use crate::error::EvalError;
use crate::formula::{Formula, Operator};
use crate::image::Image;
use crate::ops::{
    apply_reduce, apply_unary, combine, combined, same_dims, shapes_agree, unary_applied,
    BinaryOp, Elem, ReduceOp, UnaryOp,
};

verus! {

/// What one instruction asks of the evaluation.
#[derive(Debug, PartialEq)]
pub enum Outcome<T> {
    /// Push this operand.
    Push(Elem<T>),
    /// The image at this path is not cached yet: it has to be read first.
    Load(String),
}

/// Every operand on a stack is well formed.
pub open spec fn stack_wf<T>(s: Seq<Elem<T>>) -> bool {
    forall|i: int| 0 <= i < s.len() ==> (#[trigger] s[i]).wf()
}

/// The effect of one instruction `f` on a stack `before`: the stack left,
/// `after`, and the outcome `r`, with `bin`, `un` and `red` as the numeric
/// kernels. Operands are taken from the top of the stack; of two, the one
/// below is the left operand. On an error the stack is left as it was.
pub open spec fn stepped<T, H, B, U, R>(
    f: Formula<T>,
    before: Seq<Elem<T>>,
    after: Seq<Elem<T>>,
    cache: ImageCache<T, H>,
    bin: B,
    un: U,
    red: R,
    r: Result<Outcome<T>, EvalError>,
) -> bool where
    B: Fn(BinaryOp, T, T) -> T,
    U: Fn(UnaryOp, T) -> T,
    R: Fn(ReduceOp, Image<T>) -> T,
 {
    let n = before.len();
    match f {
        Formula::Value(v) => after == before && r == Ok::<Outcome<T>, EvalError>(
            Outcome::Push(Elem::Value(v)),
        ),
        Formula::ImagePath(p) => {
            &&& after == before
            &&& match cache.lookup(p@) {
                Some(img) => r matches Ok(Outcome::Push(Elem::Image(c))) && is_copy_of(c, img),
                None => r matches Ok(Outcome::Load(q)) && q@ == p@,
            }
        },
        Formula::Op(Operator::Binary(op)) => if n < 2 {
            after == before && r == Err::<Outcome<T>, EvalError>(EvalError::StackUnderflow)
        } else if !shapes_agree(before[n - 2], before[n - 1]) {
            after == before && r == Err::<Outcome<T>, EvalError>(EvalError::ShapeMismatch)
        } else {
            &&& after == before.subrange(0, n - 2)
            &&& (r matches Ok(Outcome::Push(e)) && combined(bin, op, before[n - 2], before[n - 1], e))
        },
        Formula::Op(Operator::Unary(op)) => if n < 1 {
            after == before && r == Err::<Outcome<T>, EvalError>(EvalError::StackUnderflow)
        } else {
            &&& after == before.drop_last()
            &&& (r matches Ok(Outcome::Push(e)) && unary_applied(un, op, before[n - 1], e))
        },
        Formula::Op(Operator::Reduce(op)) => if n < 1 {
            after == before && r == Err::<Outcome<T>, EvalError>(EvalError::StackUnderflow)
        } else {
            match before[n - 1] {
                Elem::Value(_) => after == before && r == Err::<Outcome<T>, EvalError>(
                    EvalError::TypeMismatch,
                ),
                Elem::Image(img) => {
                    &&& after == before.drop_last()
                    &&& (r matches Ok(Outcome::Push(Elem::Value(z))) && red.ensures((op, img), z))
                },
            }
        },
    }
}

impl<T: Copy> Formula<T> {
    /// Carries out one instruction on `stack`: pops the operands an operator
    /// takes and returns what is to be pushed, or the path of an image that
    /// must be read first. The caller pushes the result.
    pub fn apply<H, B, U, R>(
        self,
        stack: &mut Vec<Elem<T>>,
        cache: &ImageCache<T, H>,
        bin: &B,
        un: &U,
        red: &R,
    ) -> (r: Result<Outcome<T>, EvalError>) where
        B: Fn(BinaryOp, T, T) -> T,
        U: Fn(UnaryOp, T) -> T,
        R: Fn(ReduceOp, Image<T>) -> T,

        requires
            stack_wf(old(stack)@),
            cache.wf(),
            forall|op: BinaryOp, x: T, y: T| bin.requires((op, x, y)),
            forall|op: UnaryOp, x: T| un.requires((op, x)),
            forall|op: ReduceOp, img: Image<T>| img.wf() ==> red.requires((op, img)),
        ensures
            stepped(self, old(stack)@, final(stack)@, *cache, *bin, *un, *red, r),
            stack_wf(final(stack)@),
            r matches Ok(Outcome::Push(e)) ==> e.wf(),
    {
        match self {
            Formula::Value(v) => Ok(Outcome::Push(Elem::Value(v))),
            Formula::ImagePath(p) => match cache.resolve(&p) {
                Some(img) => Ok(Outcome::Push(Elem::Image(img))),
                None => Ok(Outcome::Load(p)),
            },
            Formula::Op(Operator::Binary(op)) => {
                let n = stack.len();
                if n < 2 {
                    return Err(EvalError::StackUnderflow);
                }
                let agree = match (&stack[n - 2], &stack[n - 1]) {
                    (Elem::Image(a), Elem::Image(b)) => same_dims(a.shape(), b.shape()),
                    _ => true,
                };
                if !agree {
                    return Err(EvalError::ShapeMismatch);
                }
                let ghost s = stack@;
                let rhs = match stack.pop() {
                    Some(e) => e,
                    None => return Err(EvalError::StackUnderflow),
                };
                let lhs = match stack.pop() {
                    Some(e) => e,
                    None => return Err(EvalError::StackUnderflow),
                };
                proof {
                    assert(stack@ =~= s.subrange(0, n - 2));
                    assert(s[n - 2].wf() && s[n - 1].wf());
                }
                match combine(op, lhs, rhs, bin) {
                    Ok(e) => Ok(Outcome::Push(e)),
                    Err(e) => Err(e),
                }
            },
            Formula::Op(Operator::Unary(op)) => {
                let ghost s = stack@;
                match stack.pop() {
                    Some(e) => {
                        proof {
                            assert(s[s.len() - 1].wf());
                        }
                        Ok(Outcome::Push(apply_unary(op, e, un)))
                    },
                    None => Err(EvalError::StackUnderflow),
                }
            },
            Formula::Op(Operator::Reduce(op)) => {
                let n = stack.len();
                if n < 1 {
                    return Err(EvalError::StackUnderflow);
                }
                if let Elem::Value(_) = &stack[n - 1] {
                    return Err(EvalError::TypeMismatch);
                }
                let ghost s = stack@;
                match stack.pop() {
                    Some(e) => {
                        proof {
                            assert(s[n - 1].wf());
                        }
                        match apply_reduce(op, e, red) {
                            Ok(v) => Ok(Outcome::Push(v)),
                            Err(e) => Err(e),
                        }
                    },
                    None => Err(EvalError::StackUnderflow),
                }
            },
        }
    }
}

/// The stack `stack` and answer `r` that a machine shows after one
/// instruction whose effect was `after` and `out`: a pushed operand lands on
/// top; a needed image is reported by path; an error is returned as it is.
pub open spec fn completed<T>(
    after: Seq<Elem<T>>,
    out: Result<Outcome<T>, EvalError>,
    stack: Seq<Elem<T>>,
    r: Result<Option<String>, EvalError>,
) -> bool {
    match out {
        Ok(Outcome::Push(e)) => stack == after.push(e) && r == Ok::<Option<String>, EvalError>(None),
        Ok(Outcome::Load(p)) => stack == after && (r matches Ok(Some(q)) && q@ == p@),
        Err(e) => stack == after && r == Err::<Option<String>, EvalError>(e),
    }
}

/// The evaluation stack machine: the operand stack and the images read so far.
pub struct Machine<T, H> {
    stack: Vec<Elem<T>>,
    cache: ImageCache<T, H>,
}

impl<T: Copy, H> Machine<T, H> {
    /// The operands, bottom first.
    pub closed spec fn operands(&self) -> Seq<Elem<T>> {
        self.stack@
    }

    /// The images read so far.
    pub closed spec fn images(&self) -> ImageCache<T, H> {
        self.cache
    }

    /// Operands and cache are well formed, and no image is on the stack
    /// before one was read (so a finished image always has a header).
    pub open spec fn wf(&self) -> bool {
        &&& stack_wf(self.operands())
        &&& self.images().wf()
        &&& (self.images().first_header() is None ==> forall|i: int|
            0 <= i < self.operands().len() ==> (#[trigger] self.operands()[i]) is Value)
    }

    /// A machine with an empty stack and nothing read.
    pub fn new() -> (r: Self)
        ensures
            r.wf(),
            r.operands().len() == 0,
            forall|p: Seq<char>| r.images().lookup(p) is None,
            r.images().first_header() is None,
    {
        Machine { stack: Vec::new(), cache: ImageCache::new() }
    }

    /// Runs one instruction. `Ok(None)`: done, its result is on the stack.
    /// `Ok(Some(path))`: the image at `path` must be read and handed to
    /// `supply` before the next instruction. `Err`: the evaluation failed.
    pub fn step<B, U, R>(&mut self, f: Formula<T>, bin: &B, un: &U, red: &R) -> (r: Result<
        Option<String>,
        EvalError,
    >) where
        B: Fn(BinaryOp, T, T) -> T,
        U: Fn(UnaryOp, T) -> T,
        R: Fn(ReduceOp, Image<T>) -> T,

        requires
            old(self).wf(),
            forall|op: BinaryOp, x: T, y: T| bin.requires((op, x, y)),
            forall|op: UnaryOp, x: T| un.requires((op, x)),
            forall|op: ReduceOp, img: Image<T>| img.wf() ==> red.requires((op, img)),
        ensures
            final(self).wf(),
            final(self).images() == old(self).images(),
            exists|after: Seq<Elem<T>>, out: Result<Outcome<T>, EvalError>|
                #[trigger] stepped(f, old(self).operands(), after, old(self).images(), *bin, *un, *red, out)
                    && completed(after, out, final(self).operands(), r),
    {
        let ghost before = self.stack@;
        let ghost g = f;
        let out = f.apply(&mut self.stack, &self.cache, bin, un, red);
        let ghost after = self.stack@;
        let r = match out {
            Ok(Outcome::Push(e)) => {
                self.stack.push(e);
                Ok(None)
            },
            Ok(Outcome::Load(p)) => Ok(Some(p)),
            Err(e) => Err(e),
        };
        proof {
            assert(stepped(g, before, after, self.cache, *bin, *un, *red, out));
            assert(completed(after, out, self.stack@, r));
            if self.cache.first_header() is None {
                if let Formula::ImagePath(p) = g {
                    if self.cache.lookup(p@) is Some {
                        self.cache.lemma_lookup_wf(p@);
                    }
                }
                assert forall|i: int| 0 <= i < self.stack@.len() implies (
                #[trigger] self.stack@[i]) is Value by {
                    if i < after.len() {
                        assert(after[i] == before[i] || after == before);
                    }
                }
            }
        }
        r
    }

    /// Whether the image at `path` was read already.
    pub fn is_cached(&self, path: &String) -> (r: bool)
        requires
            self.wf(),
        ensures
            r == self.images().lookup(path@) is Some,
    {
        self.cache.contains(path)
    }

    /// Hands over the image read from `path` (and its header) after `step`
    /// asked for it: it is cached, and a copy of it is pushed.
    pub fn supply(&mut self, path: String, image: Image<T>, header: H)
        requires
            old(self).wf(),
            image.wf(),
            old(self).images().lookup(path@) is None,
        ensures
            final(self).wf(),
            final(self).images().lookup(path@) == Some(image),
            forall|q: Seq<char>|
                q != path@ ==> final(self).images().lookup(q) == old(self).images().lookup(q),
            final(self).images().first_header() == (if old(self).images().first_header() is None {
                Some(header)
            } else {
                old(self).images().first_header()
            }),
            final(self).operands().len() == old(self).operands().len() + 1,
            final(self).operands().drop_last() == old(self).operands(),
            final(self).operands().last() matches Elem::Image(c) && is_copy_of(c, image),
    {
        let copy = image.duplicate();
        self.cache.insert(path, image, header);
        self.stack.push(Elem::Image(copy));
        proof {
            assert(self.stack@.drop_last() =~= old(self).stack@);
        }
    }

    /// Ends the evaluation: the result is the single image left on the
    /// stack, with the header of the first image read. Anything else left
    /// (nothing, several operands, a scalar) is an `InvalidResult`.
    pub fn finish(self) -> (r: Result<(Image<T>, H), EvalError>)
        requires
            self.wf(),
        ensures
            r is Ok <==> (self.operands().len() == 1 && self.operands()[0] is Image),
            r matches Ok((img, h)) ==> Elem::Image(img) == self.operands()[0] && Some(h)
                == self.images().first_header(),
            r matches Err(e) ==> e == EvalError::InvalidResult,
    {
        let Machine { mut stack, cache } = self;
        if stack.len() != 1 {
            return Err(EvalError::InvalidResult);
        }
        let ghost s = stack@;
        match stack.pop() {
            Some(Elem::Image(img)) => {
                proof {
                    assert(s[0] is Image);
                }
                match cache.into_header() {
                    Some(h) => Ok((img, h)),
                    None => Err(EvalError::NoHeaderAvailable),
                }
            },
            _ => Err(EvalError::InvalidResult),
        }
    }
}

} // verus!
