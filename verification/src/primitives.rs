//! The scalar primitive types that declarations can name.

use vstd::prelude::*;
use crate::text::str_eq;

verus! {

/// A Rust scalar primitive.
#[derive(Clone, Copy, Debug, PartialEq, Eq, Structural)]
pub enum Primitive {
    Bool,
    F32,
    F64,
    I8,
    I16,
    I32,
    I64,
    U8,
    U16,
    U32,
    U64,
}

/// The Rust spelling of a primitive.
pub open spec fn primitive_name(p: Primitive) -> Seq<char> {
    match p {
        Primitive::Bool => "bool"@,
        Primitive::F32 => "f32"@,
        Primitive::F64 => "f64"@,
        Primitive::I8 => "i8"@,
        Primitive::I16 => "i16"@,
        Primitive::I32 => "i32"@,
        Primitive::I64 => "i64"@,
        Primitive::U8 => "u8"@,
        Primitive::U16 => "u16"@,
        Primitive::U32 => "u32"@,
        Primitive::U64 => "u64"@,
    }
}

/// The primitive spelled `name`, if any.
pub open spec fn primitive_named(name: Seq<char>) -> Option<Primitive> {
    if name == "bool"@ {
        Some(Primitive::Bool)
    } else if name == "f32"@ {
        Some(Primitive::F32)
    } else if name == "f64"@ {
        Some(Primitive::F64)
    } else if name == "i8"@ {
        Some(Primitive::I8)
    } else if name == "i16"@ {
        Some(Primitive::I16)
    } else if name == "i32"@ {
        Some(Primitive::I32)
    } else if name == "i64"@ {
        Some(Primitive::I64)
    } else if name == "u8"@ {
        Some(Primitive::U8)
    } else if name == "u16"@ {
        Some(Primitive::U16)
    } else if name == "u32"@ {
        Some(Primitive::U32)
    } else if name == "u64"@ {
        Some(Primitive::U64)
    } else {
        None
    }
}

impl Primitive {
    /// The Rust spelling of this primitive.
    pub fn name(&self) -> (r: String)
        ensures
            r@ == primitive_name(*self),
    {
        String::from_str(self.as_str())
    }

    /// The Rust spelling of this primitive, borrowed.
    pub fn as_str(&self) -> (r: &'static str)
        ensures
            r@ == primitive_name(*self),
    {
        match self {
            Primitive::Bool => "bool",
            Primitive::F32 => "f32",
            Primitive::F64 => "f64",
            Primitive::I8 => "i8",
            Primitive::I16 => "i16",
            Primitive::I32 => "i32",
            Primitive::I64 => "i64",
            Primitive::U8 => "u8",
            Primitive::U16 => "u16",
            Primitive::U32 => "u32",
            Primitive::U64 => "u64",
        }
    }

    /// The primitive spelled `name`, if any.
    pub fn from_name(name: &str) -> (r: Option<Primitive>)
        ensures
            r == primitive_named(name@),
    {
        if str_eq(name, "bool") {
            Some(Primitive::Bool)
        } else if str_eq(name, "f32") {
            Some(Primitive::F32)
        } else if str_eq(name, "f64") {
            Some(Primitive::F64)
        } else if str_eq(name, "i8") {
            Some(Primitive::I8)
        } else if str_eq(name, "i16") {
            Some(Primitive::I16)
        } else if str_eq(name, "i32") {
            Some(Primitive::I32)
        } else if str_eq(name, "i64") {
            Some(Primitive::I64)
        } else if str_eq(name, "u8") {
            Some(Primitive::U8)
        } else if str_eq(name, "u16") {
            Some(Primitive::U16)
        } else if str_eq(name, "u32") {
            Some(Primitive::U32)
        } else if str_eq(name, "u64") {
            Some(Primitive::U64)
        } else {
            None
        }
    }
}

} // verus!
