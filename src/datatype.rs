use vstd::prelude::*;

use crate::error::EvalError;

verus! {

/// The element types an output image can be written with.
#[derive(Clone, Copy, Debug, PartialEq, Eq, Structural)]
pub enum DataType {
    U8,
    I8,
    U16,
    I16,
    U32,
    I32,
    U64,
    I64,
    F32,
    F64,
}

/// The element type a name stands for, if any.
pub open spec fn datatype_of(w: Seq<char>) -> Option<DataType> {
    if w == "u8"@ {
        Some(DataType::U8)
    } else if w == "i8"@ {
        Some(DataType::I8)
    } else if w == "u16"@ {
        Some(DataType::U16)
    } else if w == "i16"@ {
        Some(DataType::I16)
    } else if w == "u32"@ {
        Some(DataType::U32)
    } else if w == "i32"@ {
        Some(DataType::I32)
    } else if w == "u64"@ {
        Some(DataType::U64)
    } else if w == "i64"@ {
        Some(DataType::I64)
    } else if w == "f32"@ {
        Some(DataType::F32)
    } else if w == "f64"@ {
        Some(DataType::F64)
    } else {
        None
    }
}

impl DataType {
    /// Reads the name of an output element type; any other name is an
    /// `UnsupportedDatatype`.
    pub fn from_name(name: &str) -> (r: Result<DataType, EvalError>)
        ensures
            datatype_of(name@) matches Some(d) ==> r == Ok::<DataType, EvalError>(d),
            datatype_of(name@) is None ==> (r matches Err(EvalError::UnsupportedDatatype(n))
                && n@ == name@),
    {
        let n: String = name.to_owned();
        if n.eq(&"u8".to_owned()) {
            Ok(DataType::U8)
        } else if n.eq(&"i8".to_owned()) {
            Ok(DataType::I8)
        } else if n.eq(&"u16".to_owned()) {
            Ok(DataType::U16)
        } else if n.eq(&"i16".to_owned()) {
            Ok(DataType::I16)
        } else if n.eq(&"u32".to_owned()) {
            Ok(DataType::U32)
        } else if n.eq(&"i32".to_owned()) {
            Ok(DataType::I32)
        } else if n.eq(&"u64".to_owned()) {
            Ok(DataType::U64)
        } else if n.eq(&"i64".to_owned()) {
            Ok(DataType::I64)
        } else if n.eq(&"f32".to_owned()) {
            Ok(DataType::F32)
        } else if n.eq(&"f64".to_owned()) {
            Ok(DataType::F64)
        } else {
            Err(EvalError::UnsupportedDatatype(n))
        }
    }
}

} // verus!
