//! Logical types of the managed runtime and their native representations.
//!
//! A foreign type name is resolved by exact match against a closed alias
//! table (keyword form, display form, fully qualified form) to a
//! `Type`; anything else resolves to `Type::Unknown` rather than failing.
//! Each `Type` then maps to exactly one native type token.

use vstd::prelude::*;

use crate::strutil::str_eq;

verus! {

/// Canonical, runtime-agnostic classification of a managed type name.
#[derive(Copy, Clone, Eq, PartialEq, Hash, Debug, Structural)]
pub enum Type {
    I8,
    U8,
    I16,
    U16,
    I32,
    U32,
    I64,
    U64,
    F32,
    F64,
    ISize,
    Usize,
    String,
    Object,
    Unit,
    Unknown,
}

/// True exactly when `s` is one of the recognized alias spellings.
pub open spec fn is_alias(s: Seq<char>) -> bool {
    resolve_spec(s) != Type::Unknown
}

/// The alias table: maps a managed type-name string to its logical type.
/// Matching is exact; no case or whitespace normalization is applied.
pub open spec fn resolve_spec(s: Seq<char>) -> Type {
    if s == "sbyte"@ || s == "SByte"@ || s == "System.SByte"@ {
        Type::I8
    } else if s == "byte"@ || s == "Byte"@ || s == "System.Byte"@ || s == "bool"@ || s
        == "Boolean"@ || s == "System.Boolean"@ {
        Type::U8
    } else if s == "short"@ || s == "Int16"@ || s == "System.Int16"@ {
        Type::I16
    } else if s == "ushort"@ || s == "UInt16"@ || s == "System.UInt16"@ || s == "char"@ || s
        == "Char"@ || s == "System.Char"@ {
        Type::U16
    } else if s == "int"@ || s == "Int32"@ || s == "System.Int32"@ {
        Type::I32
    } else if s == "uint"@ || s == "UInt32"@ || s == "System.UInt32"@ {
        Type::U32
    } else if s == "long"@ || s == "Int64"@ || s == "System.Int64"@ {
        Type::I64
    } else if s == "ulong"@ || s == "UInt64"@ || s == "System.UInt64"@ {
        Type::U64
    } else if s == "float"@ || s == "Float"@ || s == "System.Float"@ {
        Type::F32
    } else if s == "double"@ || s == "Double"@ || s == "System.Double"@ {
        Type::F64
    } else if s == "IntPtr"@ || s == "System.IntPtr"@ {
        Type::ISize
    } else if s == "UintPtr"@ || s == "System.UIntPtr"@ {
        Type::Usize
    } else if s == "string"@ || s == "String"@ || s == "System.String"@ {
        Type::String
    } else if s == "object"@ || s == "Object"@ || s == "System.Object"@ {
        Type::Object
    } else if s == "void"@ || s == "Void"@ || s == "System.Void"@ {
        Type::Unit
    } else {
        Type::Unknown
    }
}

/// The native type token each logical type is rendered as. Managed string
/// and object references become distinct non-owning raw pointer types;
/// `Unknown` becomes an opaque raw pointer; `Unit` becomes the empty type.
pub open spec fn native_repr_spec(t: Type) -> Seq<char> {
    match t {
        Type::I8 => "i8"@,
        Type::U8 => "u8"@,
        Type::I16 => "i16"@,
        Type::U16 => "u16"@,
        Type::I32 => "i32"@,
        Type::U32 => "u32"@,
        Type::I64 => "i64"@,
        Type::U64 => "u64"@,
        Type::F32 => "f32"@,
        Type::F64 => "f64"@,
        Type::ISize => "isize"@,
        Type::Usize => "usize"@,
        Type::String => "*mut symphony_il2cpp::types::Il2CppString"@,
        Type::Object => "*mut symphony_il2cpp::types::Il2CppObject"@,
        Type::Unit => "()"@,
        Type::Unknown => "*mut std::ffi::c_void"@,
    }
}

/// Position of each logical type in the closed enumeration; used as a
/// tie-breaker when ordering fields that share a name.
pub open spec fn spec_rank(t: Type) -> int {
    match t {
        Type::I8 => 0,
        Type::U8 => 1,
        Type::I16 => 2,
        Type::U16 => 3,
        Type::I32 => 4,
        Type::U32 => 5,
        Type::I64 => 6,
        Type::U64 => 7,
        Type::F32 => 8,
        Type::F64 => 9,
        Type::ISize => 10,
        Type::Usize => 11,
        Type::String => 12,
        Type::Object => 13,
        Type::Unit => 14,
        Type::Unknown => 15,
    }
}

impl Type {
    /// Resolve a managed type-name string; total, never fails.
    pub fn from_name(s: &str) -> (t: Type)
        ensures
            t == resolve_spec(s@),
    {
        if str_eq(s, "sbyte") || str_eq(s, "SByte") || str_eq(s, "System.SByte") {
            Type::I8
        } else if str_eq(s, "byte") || str_eq(s, "Byte") || str_eq(s, "System.Byte") || str_eq(
            s,
            "bool",
        ) || str_eq(s, "Boolean") || str_eq(s, "System.Boolean") {
            Type::U8
        } else if str_eq(s, "short") || str_eq(s, "Int16") || str_eq(s, "System.Int16") {
            Type::I16
        } else if str_eq(s, "ushort") || str_eq(s, "UInt16") || str_eq(s, "System.UInt16")
            || str_eq(s, "char") || str_eq(s, "Char") || str_eq(s, "System.Char") {
            Type::U16
        } else if str_eq(s, "int") || str_eq(s, "Int32") || str_eq(s, "System.Int32") {
            Type::I32
        } else if str_eq(s, "uint") || str_eq(s, "UInt32") || str_eq(s, "System.UInt32") {
            Type::U32
        } else if str_eq(s, "long") || str_eq(s, "Int64") || str_eq(s, "System.Int64") {
            Type::I64
        } else if str_eq(s, "ulong") || str_eq(s, "UInt64") || str_eq(s, "System.UInt64") {
            Type::U64
        } else if str_eq(s, "float") || str_eq(s, "Float") || str_eq(s, "System.Float") {
            Type::F32
        } else if str_eq(s, "double") || str_eq(s, "Double") || str_eq(s, "System.Double") {
            Type::F64
        } else if str_eq(s, "IntPtr") || str_eq(s, "System.IntPtr") {
            Type::ISize
        } else if str_eq(s, "UintPtr") || str_eq(s, "System.UIntPtr") {
            Type::Usize
        } else if str_eq(s, "string") || str_eq(s, "String") || str_eq(s, "System.String") {
            Type::String
        } else if str_eq(s, "object") || str_eq(s, "Object") || str_eq(s, "System.Object") {
            Type::Object
        } else if str_eq(s, "void") || str_eq(s, "Void") || str_eq(s, "System.Void") {
            Type::Unit
        } else {
            Type::Unknown
        }
    }

    /// The native type token this logical type is rendered as.
    pub fn native_str(self) -> (r: &'static str)
        ensures
            r@ == native_repr_spec(self),
    {
        match self {
            Type::I8 => "i8",
            Type::U8 => "u8",
            Type::I16 => "i16",
            Type::U16 => "u16",
            Type::I32 => "i32",
            Type::U32 => "u32",
            Type::I64 => "i64",
            Type::U64 => "u64",
            Type::F32 => "f32",
            Type::F64 => "f64",
            Type::ISize => "isize",
            Type::Usize => "usize",
            Type::String => "*mut symphony_il2cpp::types::Il2CppString",
            Type::Object => "*mut symphony_il2cpp::types::Il2CppObject",
            Type::Unit => "()",
            Type::Unknown => "*mut std::ffi::c_void",
        }
    }

    /// Position of this logical type in the closed enumeration.
    pub fn rank(self) -> (r: u8)
        ensures
            r as int == spec_rank(self),
    {
        match self {
            Type::I8 => 0,
            Type::U8 => 1,
            Type::I16 => 2,
            Type::U16 => 3,
            Type::I32 => 4,
            Type::U32 => 5,
            Type::I64 => 6,
            Type::U64 => 7,
            Type::F32 => 8,
            Type::F64 => 9,
            Type::ISize => 10,
            Type::Usize => 11,
            Type::String => 12,
            Type::Object => 13,
            Type::Unit => 14,
            Type::Unknown => 15,
        }
    }
}

/// Alias invariance: names that resolve to the same logical type are given
/// the same native representation.
pub proof fn lemma_alias_invariance(a: Seq<char>, b: Seq<char>)
    requires
        resolve_spec(a) == resolve_spec(b),
    ensures
        native_repr_spec(resolve_spec(a)) == native_repr_spec(resolve_spec(b)),
{
}

/// Fallback policy: any name outside the alias table resolves to `Unknown`;
/// resolution never fails.
pub proof fn lemma_resolve_unrecognized(s: Seq<char>)
    requires
        !is_alias(s),
    ensures
        resolve_spec(s) == Type::Unknown,
{
}

/// The enumeration position distinguishes the logical types: no two share one.
pub proof fn lemma_rank_injective(a: Type, b: Type)
    requires
        spec_rank(a) == spec_rank(b),
    ensures
        a == b,
{
}

} // verus!
