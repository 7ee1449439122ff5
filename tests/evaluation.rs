use niftimath::cache::ImageCache;
use niftimath::datatype::DataType;
use niftimath::error::EvalError;
use niftimath::formula::{lookup_operator, Formula, Operator};
use niftimath::image::Image;
use niftimath::machine::Machine;
use niftimath::ops::{combine, BinaryOp, Elem, ReduceOp, UnaryOp};

fn arith(op: BinaryOp, a: f64, b: f64) -> f64 {
    match op {
        BinaryOp::Add => a + b,
        BinaryOp::Sub => a - b,
        BinaryOp::Mul => a * b,
        BinaryOp::Div => a / b,
    }
}

fn unary(op: UnaryOp, x: f64) -> f64 {
    match op {
        UnaryOp::Abs => x.abs(),
        UnaryOp::Sqrt => x.sqrt(),
        _ => x,
    }
}

fn reduce(op: ReduceOp, img: Image<f64>) -> f64 {
    let v = img.data();
    let n = v.len() as f64;
    match op {
        ReduceOp::Mean => v.iter().sum::<f64>() / n,
        ReduceOp::Median => {
            let mut s = v.clone();
            s.sort_by(|a, b| a.partial_cmp(b).unwrap());
            let m = s.len() / 2;
            if s.len() % 2 == 0 {
                (s[m - 1] + s[m]) / 2.0
            } else {
                s[m]
            }
        }
        ReduceOp::Min => v.iter().cloned().fold(f64::INFINITY, f64::min),
        ReduceOp::Max => v.iter().cloned().fold(f64::NEG_INFINITY, f64::max),
        ReduceOp::Std => {
            let m = v.iter().sum::<f64>() / n;
            (v.iter().map(|x| (x - m) * (x - m)).sum::<f64>() / n).sqrt()
        }
    }
}

fn image(shape: Vec<usize>, data: Vec<f64>) -> Image<f64> {
    Image::new(shape, data).unwrap()
}

/// Runs an expression; image paths are served from `files`, each with its
/// name as header.
fn run(
    tokens: &[&str],
    files: &[(&str, Vec<usize>, Vec<f64>)],
) -> Result<(Image<f64>, String), EvalError> {
    let mut m: Machine<f64, String> = Machine::new();
    for tok in tokens {
        let f = Formula::from_token(tok, tok.parse::<f64>().ok())?;
        if let Some(path) = m.step(f, &arith, &unary, &reduce)? {
            let (_, shape, data) = files
                .iter()
                .find(|(n, _, _)| *n == path)
                .expect("test image");
            let header = path.clone();
            m.supply(path, image(shape.clone(), data.clone()), header);
        }
    }
    m.finish()
}

#[test]
fn end_to_end_scale_and_add() {
    let files = [
        ("imgA.nii", vec![2, 2], vec![1.0, 2.0, 3.0, 4.0]),
        ("imgB.nii", vec![2, 2], vec![5.0, 6.0, 7.0, 8.0]),
    ];
    let (out, header) = run(&["imgA.nii", "2.0", "mul", "imgB.nii", "add"], &files).unwrap();
    assert_eq!(out, image(vec![2, 2], vec![7.0, 10.0, 13.0, 16.0]));
    assert_eq!(header, "imgA.nii");
}

#[test]
fn end_to_end_abs_keeps_header_of_first_image() {
    let files = [("imgA.nii.gz", vec![3], vec![-1.5, 2.0, -3.0])];
    let (out, header) = run(&["imgA.nii.gz", "abs"], &files).unwrap();
    assert_eq!(out, image(vec![3], vec![1.5, 2.0, 3.0]));
    assert_eq!(header, "imgA.nii.gz");
}

#[test]
fn operator_without_operands_underflows() {
    assert_eq!(run(&["add"], &[]), Err(EvalError::StackUnderflow));
    assert_eq!(run(&["2.0", "sub"], &[]), Err(EvalError::StackUnderflow));
    assert_eq!(run(&["abs"], &[]), Err(EvalError::StackUnderflow));
    assert_eq!(run(&["reduce_min"], &[]), Err(EvalError::StackUnderflow));
}

#[test]
fn subtraction_takes_lower_operand_first() {
    let files = [("a.nii", vec![2], vec![10.0, 20.0])];
    let (out, _) = run(&["a.nii", "3", "sub"], &files).unwrap();
    assert_eq!(out, image(vec![2], vec![7.0, 17.0]));
    let (out, _) = run(&["3", "a.nii", "sub"], &files).unwrap();
    assert_eq!(out, image(vec![2], vec![-7.0, -17.0]));
}

#[test]
fn images_of_different_sizes_fail() {
    let files = [
        ("a.nii", vec![2, 2], vec![1.0, 2.0, 3.0, 4.0]),
        ("b.nii", vec![3], vec![1.0, 2.0, 3.0]),
    ];
    assert_eq!(run(&["a.nii", "b.nii", "add"], &files), Err(EvalError::ShapeMismatch));
}

#[test]
fn same_path_twice_gives_independent_equal_images() {
    let files = [("a.nii", vec![2], vec![1.5, -2.0])];
    let (out, _) = run(&["a.nii", "a.nii", "mul", "a.nii", "add"], &files).unwrap();
    assert_eq!(out, image(vec![2], vec![3.75, 2.0]));

    let mut cache: ImageCache<f64, u8> = ImageCache::new();
    let path = String::from("a.nii");
    cache.insert(path.clone(), image(vec![2], vec![1.0, 2.0]), 7);
    let first = cache.resolve(&path).unwrap();
    let second = cache.resolve(&path).unwrap();
    assert_eq!(first, second);
    let changed = combine(BinaryOp::Add, Elem::Image(first), Elem::Value(100.0), &arith).unwrap();
    assert_eq!(changed, Elem::Image(image(vec![2], vec![101.0, 102.0])));
    assert_eq!(second, image(vec![2], vec![1.0, 2.0]));
    assert_eq!(cache.resolve(&path), Some(image(vec![2], vec![1.0, 2.0])));
    assert_eq!(cache.header(), Some(&7));
}

#[test]
fn cache_keeps_first_header() {
    let mut cache: ImageCache<f64, u8> = ImageCache::new();
    assert!(cache.header().is_none());
    assert!(!cache.contains(&String::from("a.nii")));
    cache.insert(String::from("a.nii"), image(vec![1], vec![1.0]), 1);
    cache.insert(String::from("b.nii"), image(vec![1], vec![2.0]), 2);
    assert!(cache.contains(&String::from("b.nii")));
    assert_eq!(cache.resolve(&String::from("b.nii")), Some(image(vec![1], vec![2.0])));
    assert_eq!(cache.resolve(&String::from("c.nii")), None);
    assert_eq!(cache.into_header(), Some(1));
}

#[test]
fn reduce_mean_and_median() {
    let files = [("a.nii", vec![2, 2], vec![1.0, 2.0, 3.0, 4.0])];
    let (out, _) = run(&["a.nii", "a.nii", "reduce_mean", "sub"], &files).unwrap();
    assert_eq!(out, image(vec![2, 2], vec![-1.5, -0.5, 0.5, 1.5]));
    let (out, _) = run(&["a.nii", "a.nii", "reduce_median", "mul"], &files).unwrap();
    assert_eq!(out, image(vec![2, 2], vec![2.5, 5.0, 7.5, 10.0]));
}

#[test]
fn reduce_of_a_scalar_fails() {
    assert_eq!(run(&["2.0", "reduce_mean"], &[]), Err(EvalError::TypeMismatch));
}

#[test]
fn result_must_be_one_image() {
    let files = [("a.nii", vec![1], vec![1.0])];
    assert_eq!(run(&[], &files), Err(EvalError::InvalidResult));
    assert_eq!(run(&["2.0"], &files), Err(EvalError::InvalidResult));
    assert_eq!(run(&["a.nii", "a.nii"], &files), Err(EvalError::InvalidResult));
    assert_eq!(run(&["a.nii", "reduce_max"], &files), Err(EvalError::InvalidResult));
}

#[test]
fn machine_reports_images_to_read() {
    let mut m: Machine<f64, u8> = Machine::new();
    let f = Formula::from_token("x.nii", None).unwrap();
    let path = m.step(f, &arith, &unary, &reduce).unwrap();
    assert_eq!(path, Some(String::from("x.nii")));
    assert!(!m.is_cached(&String::from("x.nii")));
    m.supply(String::from("x.nii"), image(vec![1], vec![4.0]), 9);
    assert!(m.is_cached(&String::from("x.nii")));
    let f = Formula::from_token("x.nii", None).unwrap();
    assert_eq!(m.step(f, &arith, &unary, &reduce), Ok(None));
    let f = Formula::from_token("add", None).unwrap();
    assert_eq!(m.step(f, &arith, &unary, &reduce), Ok(None));
    assert_eq!(m.finish(), Ok((image(vec![1], vec![8.0]), 9)));
}

#[test]
fn tokens_are_classified_in_order() {
    assert_eq!(
        Formula::<f64>::from_token("t1.nii.gz", None),
        Ok(Formula::ImagePath(String::from("t1.nii.gz")))
    );
    assert_eq!(
        Formula::<f64>::from_token("scan.nii", Some(1.0)),
        Ok(Formula::ImagePath(String::from("scan.nii")))
    );
    assert_eq!(Formula::from_token("1.5", Some(1.5)), Ok(Formula::Value(1.5)));
    assert_eq!(
        Formula::<f64>::from_token("sub", None),
        Ok(Formula::Op(Operator::Binary(BinaryOp::Sub)))
    );
    assert_eq!(
        Formula::<f64>::from_token("log10", None),
        Ok(Formula::Op(Operator::Unary(UnaryOp::Log10)))
    );
    assert_eq!(
        Formula::<f64>::from_token("reduce_median", None),
        Ok(Formula::Op(Operator::Reduce(ReduceOp::Median)))
    );
    assert_eq!(
        Formula::<f64>::from_token("scan.nii.gzip", None),
        Err(EvalError::UnknownToken(String::from("scan.nii.gzip")))
    );
    assert_eq!(
        Formula::<f64>::from_token("Add", None),
        Err(EvalError::UnknownToken(String::from("Add")))
    );
}

#[test]
fn vocabulary_is_complete() {
    let words = [
        "add", "sub", "mul", "div", "abs", "floor", "ceil", "round", "sqrt", "cbrt", "exp", "exp2",
        "ln", "log2", "log10", "sin", "cos", "tan", "asin", "acos", "atan", "sinh", "cosh", "tanh",
        "reduce_min", "reduce_max", "reduce_mean", "reduce_std", "reduce_median",
    ];
    for w in words {
        assert!(lookup_operator(&String::from(w)).is_some(), "{}", w);
    }
    assert_eq!(lookup_operator(&String::from("exp")), Some(Operator::Unary(UnaryOp::Exp)));
    assert_eq!(lookup_operator(&String::from("reduce")), None);
}

#[test]
fn datatype_names() {
    assert_eq!(DataType::from_name("u8"), Ok(DataType::U8));
    assert_eq!(DataType::from_name("i64"), Ok(DataType::I64));
    assert_eq!(DataType::from_name("f64"), Ok(DataType::F64));
    assert_eq!(
        DataType::from_name("f16"),
        Err(EvalError::UnsupportedDatatype(String::from("f16")))
    );
    assert_eq!(DataType::from_name("i16"), Ok(DataType::I16));
    assert_eq!(
        DataType::from_name("U8"),
        Err(EvalError::UnsupportedDatatype(String::from("U8")))
    );
}

#[test]
fn image_sizes_must_match_elements() {
    assert!(Image::new(vec![2, 3], vec![0.0f64; 6]).is_some());
    assert!(Image::new(vec![2, 3], vec![0.0f64; 5]).is_none());
    assert!(Image::new(vec![], vec![1.0f64]).is_some());
    assert!(Image::new(vec![4, 0, 5], Vec::<f64>::new()).is_some());
    assert!(Image::new(vec![usize::MAX, 2, 0], Vec::<f64>::new()).is_some());
    assert!(Image::new(vec![usize::MAX, 3], vec![1.0f64]).is_none());
    let img = Image::new(vec![1, 2], vec![3.0f64, 4.0]).unwrap();
    assert_eq!(img.shape(), &vec![1, 2]);
    let (shape, data) = img.into_parts();
    assert_eq!((shape, data), (vec![1, 2], vec![3.0, 4.0]));
}
