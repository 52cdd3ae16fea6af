//! The catalog of scalar types that an IR node can carry.

use vstd::prelude::*;
use crate::text::same_text;

verus! {

/// Scalar type of an IR node: a signed integer, an unsigned integer or a
/// float of the given bit width, or the unit marker.
#[derive(Debug, Clone, Copy, PartialEq, Eq, Structural)]
pub enum IRType {
    Int(usize),
    UInt(usize),
    Float(usize),
    Unit,
}

/// A host scalar type that has an IR type.
pub trait SquareType {
    /// The IR type that stands for the host type.
    spec fn spec_ir_type() -> IRType;

    fn ir_type() -> (ty: IRType)
        ensures
            ty == Self::spec_ir_type(),
    ;
}

impl SquareType for i16 {
    open spec fn spec_ir_type() -> IRType {
        IRType::Int(16)
    }

    fn ir_type() -> (ty: IRType) {
        IRType::Int(16)
    }
}

impl SquareType for i32 {
    open spec fn spec_ir_type() -> IRType {
        IRType::Int(32)
    }

    fn ir_type() -> (ty: IRType) {
        IRType::Int(32)
    }
}

impl SquareType for i64 {
    open spec fn spec_ir_type() -> IRType {
        IRType::Int(64)
    }

    fn ir_type() -> (ty: IRType) {
        IRType::Int(64)
    }
}

impl SquareType for u16 {
    open spec fn spec_ir_type() -> IRType {
        IRType::UInt(16)
    }

    fn ir_type() -> (ty: IRType) {
        IRType::UInt(16)
    }
}

impl SquareType for u32 {
    open spec fn spec_ir_type() -> IRType {
        IRType::UInt(32)
    }

    fn ir_type() -> (ty: IRType) {
        IRType::UInt(32)
    }
}

impl SquareType for u64 {
    open spec fn spec_ir_type() -> IRType {
        IRType::UInt(64)
    }

    fn ir_type() -> (ty: IRType) {
        IRType::UInt(64)
    }
}

/// Accepts exactly the host types that have an IR type: a call with any other
/// type argument does not compile.
pub fn assert_valid_type<T: SquareType>() {
}

/// The IR type that a host type name stands for, if the catalog has it.
pub open spec fn type_of_name(name: Seq<char>) -> Option<IRType> {
    if name == "i16"@ {
        Some(IRType::Int(16))
    } else if name == "i32"@ {
        Some(IRType::Int(32))
    } else if name == "i64"@ {
        Some(IRType::Int(64))
    } else if name == "u16"@ {
        Some(IRType::UInt(16))
    } else if name == "u32"@ {
        Some(IRType::UInt(32))
    } else if name == "u64"@ {
        Some(IRType::UInt(64))
    } else if name == "f32"@ {
        Some(IRType::Float(32))
    } else if name == "f64"@ {
        Some(IRType::Float(64))
    } else {
        None
    }
}

/// Every entry of the catalog is reachable: the eight host names are
/// pairwise different, so each one stands for the type written in it.
pub proof fn lemma_type_of_name_entries()
    ensures
        type_of_name("i16"@) == Some(IRType::Int(16)),
        type_of_name("i32"@) == Some(IRType::Int(32)),
        type_of_name("i64"@) == Some(IRType::Int(64)),
        type_of_name("u16"@) == Some(IRType::UInt(16)),
        type_of_name("u32"@) == Some(IRType::UInt(32)),
        type_of_name("u64"@) == Some(IRType::UInt(64)),
        type_of_name("f32"@) == Some(IRType::Float(32)),
        type_of_name("f64"@) == Some(IRType::Float(64)),
        type_of_name(""@) is None,
{
    reveal_strlit("i16");
    reveal_strlit("i32");
    reveal_strlit("i64");
    reveal_strlit("u16");
    reveal_strlit("u32");
    reveal_strlit("u64");
    reveal_strlit("f32");
    reveal_strlit("f64");
    reveal_strlit("");
    assert(""@.len() == 0 && "i16"@.len() == 3 && "i32"@.len() == 3 && "i64"@.len() == 3);
    assert("u16"@.len() == 3 && "u32"@.len() == 3 && "u64"@.len() == 3);
    assert("f32"@.len() == 3 && "f64"@.len() == 3);
    assert("i16"@[0] == 'i' && "i16"@[1] == '1');
    assert("i32"@[0] == 'i' && "i32"@[1] == '3');
    assert("i64"@[0] == 'i' && "i64"@[1] == '6');
    assert("u16"@[0] == 'u' && "u16"@[1] == '1');
    assert("u32"@[0] == 'u' && "u32"@[1] == '3');
    assert("u64"@[0] == 'u' && "u64"@[1] == '6');
    assert("f32"@[0] == 'f' && "f32"@[1] == '3');
    assert("f64"@[0] == 'f' && "f64"@[1] == '6');
}

impl IRType {
    /// Looks a host type name up in the catalog.
    pub fn from_name(name: &str) -> (ty: Option<IRType>)
        ensures
            ty == type_of_name(name@),
    {
        if same_text(name, "i16") {
            Some(IRType::Int(16))
        } else if same_text(name, "i32") {
            Some(IRType::Int(32))
        } else if same_text(name, "i64") {
            Some(IRType::Int(64))
        } else if same_text(name, "u16") {
            Some(IRType::UInt(16))
        } else if same_text(name, "u32") {
            Some(IRType::UInt(32))
        } else if same_text(name, "u64") {
            Some(IRType::UInt(64))
        } else if same_text(name, "f32") {
            Some(IRType::Float(32))
        } else if same_text(name, "f64") {
            Some(IRType::Float(64))
        } else {
            None
        }
    }
}

} // verus!
