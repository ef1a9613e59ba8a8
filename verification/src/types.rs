//! The closed set of types of the source language.

use vstd::prelude::*;

use crate::list::DeepClone;
use crate::span::Identifier;

verus! {

/// A fixed bit width, signed or unsigned.
#[derive(Debug, Clone, Copy, PartialEq, Eq, Structural)]
pub enum IntegerType {
    U8,
    U16,
    U32,
    U64,
    U128,
    I8,
    I16,
    I32,
    I64,
    I128,
}

/// A type annotation of the source language. `SelfType` resolves contextually
/// to the enclosing circuit type; `Unresolved` is the placeholder used before
/// inference completes.
#[derive(Debug, PartialEq, Eq)]
pub enum Type {
    Boolean,
    IntegerType(IntegerType),
    Field,
    Group,
    Array(Box<Type>, usize),
    Circuit(Identifier),
    Function(Identifier),
    SelfType,
    Unresolved,
}

impl DeepClone for Type {
    fn deep_clone(&self) -> (r: Self)
        ensures
            r == *self,
        decreases self,
    {
        match self {
            Type::Boolean => Type::Boolean,
            Type::IntegerType(t) => Type::IntegerType(*t),
            Type::Field => Type::Field,
            Type::Group => Type::Group,
            Type::Array(t, n) => Type::Array(Box::new(t.deep_clone()), *n),
            Type::Circuit(id) => Type::Circuit(id.deep_clone()),
            Type::Function(id) => Type::Function(id.deep_clone()),
            Type::SelfType => Type::SelfType,
            Type::Unresolved => Type::Unresolved,
        }
    }
}

} // verus!
