use vstd::prelude::*;

use crate::error::EvalError;
use crate::ops::{BinaryOp, ReduceOp, UnaryOp};

verus! {

/// An operator of the expression language.
#[derive(Clone, Copy, Debug, PartialEq, Eq, Structural)]
pub enum Operator {
    Binary(BinaryOp),
    Unary(UnaryOp),
    Reduce(ReduceOp),
}

/// One classified token of an expression.
#[derive(Debug, PartialEq)]
pub enum Formula<T> {
    /// A reference to an image file.
    ImagePath(String),
    /// A scalar literal.
    Value(T),
    /// An operator.
    Op(Operator),
}

/// `suffix` is a final segment of `s`.
pub open spec fn is_suffix(suffix: Seq<char>, s: Seq<char>) -> bool {
    suffix.len() <= s.len() && s.subrange(s.len() - suffix.len(), s.len() as int) == suffix
}

/// A token names an image file when it ends with one of the image file suffixes.
pub open spec fn is_image_path(t: Seq<char>) -> bool {
    is_suffix(".nii.gz"@, t) || is_suffix(".nii"@, t)
}

/// The operator a word stands for, if any.
pub open spec fn operator_of(w: Seq<char>) -> Option<Operator> {
    if w == "add"@ {
        Some(Operator::Binary(BinaryOp::Add))
    } else if w == "sub"@ {
        Some(Operator::Binary(BinaryOp::Sub))
    } else if w == "mul"@ {
        Some(Operator::Binary(BinaryOp::Mul))
    } else if w == "div"@ {
        Some(Operator::Binary(BinaryOp::Div))
    } else if w == "abs"@ {
        Some(Operator::Unary(UnaryOp::Abs))
    } else if w == "floor"@ {
        Some(Operator::Unary(UnaryOp::Floor))
    } else if w == "ceil"@ {
        Some(Operator::Unary(UnaryOp::Ceil))
    } else if w == "round"@ {
        Some(Operator::Unary(UnaryOp::Round))
    } else if w == "sqrt"@ {
        Some(Operator::Unary(UnaryOp::Sqrt))
    } else if w == "cbrt"@ {
        Some(Operator::Unary(UnaryOp::Cbrt))
    } else if w == "exp"@ {
        Some(Operator::Unary(UnaryOp::Exp))
    } else if w == "exp2"@ {
        Some(Operator::Unary(UnaryOp::Exp2))
    } else if w == "ln"@ {
        Some(Operator::Unary(UnaryOp::Ln))
    } else if w == "log2"@ {
        Some(Operator::Unary(UnaryOp::Log2))
    } else if w == "log10"@ {
        Some(Operator::Unary(UnaryOp::Log10))
    } else if w == "sin"@ {
        Some(Operator::Unary(UnaryOp::Sin))
    } else if w == "cos"@ {
        Some(Operator::Unary(UnaryOp::Cos))
    } else if w == "tan"@ {
        Some(Operator::Unary(UnaryOp::Tan))
    } else if w == "asin"@ {
        Some(Operator::Unary(UnaryOp::Asin))
    } else if w == "acos"@ {
        Some(Operator::Unary(UnaryOp::Acos))
    } else if w == "atan"@ {
        Some(Operator::Unary(UnaryOp::Atan))
    } else if w == "sinh"@ {
        Some(Operator::Unary(UnaryOp::Sinh))
    } else if w == "cosh"@ {
        Some(Operator::Unary(UnaryOp::Cosh))
    } else if w == "tanh"@ {
        Some(Operator::Unary(UnaryOp::Tanh))
    } else if w == "reduce_min"@ {
        Some(Operator::Reduce(ReduceOp::Min))
    } else if w == "reduce_max"@ {
        Some(Operator::Reduce(ReduceOp::Max))
    } else if w == "reduce_mean"@ {
        Some(Operator::Reduce(ReduceOp::Mean))
    } else if w == "reduce_std"@ {
        Some(Operator::Reduce(ReduceOp::Std))
    } else if w == "reduce_median"@ {
        Some(Operator::Reduce(ReduceOp::Median))
    } else {
        None
    }
}

/// Relies on `str::ends_with` with a string pattern: true exactly when
/// `suffix` is a final segment of `s`.
#[verifier::external_body]
fn ends_with(s: &str, suffix: &str) -> (r: bool)
    ensures
        r == is_suffix(suffix@, s@),
{
    s.ends_with(suffix)
}

/// Whether `t` is the word `w`.
fn is_word(t: &String, w: &str) -> (r: bool)
    ensures
        r == (t@ == w@),
{
    let ws: String = w.to_owned();
    t.eq(&ws)
}

/// Looks a word up in the operator vocabulary.
pub fn lookup_operator(t: &String) -> (r: Option<Operator>)
    ensures
        r == operator_of(t@),
{
    if is_word(t, "add") {
        Some(Operator::Binary(BinaryOp::Add))
    } else if is_word(t, "sub") {
        Some(Operator::Binary(BinaryOp::Sub))
    } else if is_word(t, "mul") {
        Some(Operator::Binary(BinaryOp::Mul))
    } else if is_word(t, "div") {
        Some(Operator::Binary(BinaryOp::Div))
    } else if is_word(t, "abs") {
        Some(Operator::Unary(UnaryOp::Abs))
    } else if is_word(t, "floor") {
        Some(Operator::Unary(UnaryOp::Floor))
    } else if is_word(t, "ceil") {
        Some(Operator::Unary(UnaryOp::Ceil))
    } else if is_word(t, "round") {
        Some(Operator::Unary(UnaryOp::Round))
    } else if is_word(t, "sqrt") {
        Some(Operator::Unary(UnaryOp::Sqrt))
    } else if is_word(t, "cbrt") {
        Some(Operator::Unary(UnaryOp::Cbrt))
    } else if is_word(t, "exp") {
        Some(Operator::Unary(UnaryOp::Exp))
    } else if is_word(t, "exp2") {
        Some(Operator::Unary(UnaryOp::Exp2))
    } else if is_word(t, "ln") {
        Some(Operator::Unary(UnaryOp::Ln))
    } else if is_word(t, "log2") {
        Some(Operator::Unary(UnaryOp::Log2))
    } else if is_word(t, "log10") {
        Some(Operator::Unary(UnaryOp::Log10))
    } else if is_word(t, "sin") {
        Some(Operator::Unary(UnaryOp::Sin))
    } else if is_word(t, "cos") {
        Some(Operator::Unary(UnaryOp::Cos))
    } else if is_word(t, "tan") {
        Some(Operator::Unary(UnaryOp::Tan))
    } else if is_word(t, "asin") {
        Some(Operator::Unary(UnaryOp::Asin))
    } else if is_word(t, "acos") {
        Some(Operator::Unary(UnaryOp::Acos))
    } else if is_word(t, "atan") {
        Some(Operator::Unary(UnaryOp::Atan))
    } else if is_word(t, "sinh") {
        Some(Operator::Unary(UnaryOp::Sinh))
    } else if is_word(t, "cosh") {
        Some(Operator::Unary(UnaryOp::Cosh))
    } else if is_word(t, "tanh") {
        Some(Operator::Unary(UnaryOp::Tanh))
    } else if is_word(t, "reduce_min") {
        Some(Operator::Reduce(ReduceOp::Min))
    } else if is_word(t, "reduce_max") {
        Some(Operator::Reduce(ReduceOp::Max))
    } else if is_word(t, "reduce_mean") {
        Some(Operator::Reduce(ReduceOp::Mean))
    } else if is_word(t, "reduce_std") {
        Some(Operator::Reduce(ReduceOp::Std))
    } else if is_word(t, "reduce_median") {
        Some(Operator::Reduce(ReduceOp::Median))
    } else {
        None
    }
}

impl<T> Formula<T> {
    /// Classifies a token. The first rule that applies decides: a token
    /// ending with an image file suffix is an image path; a token that reads
    /// as a number (`number`, the caller's reading of it) is a scalar; a word
    /// of the operator vocabulary is that operator; anything else is an
    /// `UnknownToken`.
    pub fn from_token(token: &str, number: Option<T>) -> (r: Result<Formula<T>, EvalError>)
        ensures
            is_image_path(token@) ==> (r matches Ok(Formula::ImagePath(p)) && p@ == token@),
            !is_image_path(token@) && number is Some ==> r == Ok::<Formula<T>, EvalError>(
                Formula::Value(number->0),
            ),
            !is_image_path(token@) && number is None && operator_of(token@) is Some ==> r == Ok::<
                Formula<T>,
                EvalError,
            >(Formula::Op(operator_of(token@)->0)),
            !is_image_path(token@) && number is None && operator_of(token@) is None ==> (r matches Err(
                EvalError::UnknownToken(t),
            ) && t@ == token@),
    {
        if ends_with(token, ".nii.gz") || ends_with(token, ".nii") {
            return Ok(Formula::ImagePath(token.to_owned()));
        }
        match number {
            Some(v) => Ok(Formula::Value(v)),
            None => {
                let t: String = token.to_owned();
                match lookup_operator(&t) {
                    Some(o) => Ok(Formula::Op(o)),
                    None => Err(EvalError::UnknownToken(t)),
                }
            },
        }
    }
}

} // verus!
