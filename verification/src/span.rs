//! Source positions and names. A span is attached to every syntax node and to
//! every error; an identifier is compared by its name alone.

use vstd::prelude::*;

use crate::list::DeepClone;

verus! {

/// A slice of the source text: line, start and end offsets.
#[derive(Debug, Clone, Copy, PartialEq, Eq, Structural)]
pub struct Span {
    pub line: usize,
    pub start: usize,
    pub end: usize,
}

/// A name together with the span where it was written.
#[derive(Debug, PartialEq, Eq)]
pub struct Identifier {
    pub name: String,
    pub span: Span,
}

impl Identifier {
    /// Identifiers are compared by name only; spans carry no meaning here.
    pub fn name_eq(&self, other: &Identifier) -> (r: bool)
        ensures
            r == (self.name@ == other.name@),
    {
        self.name == other.name
    }

    /// True when this identifier's name equals the given string.
    pub fn named(&self, name: &String) -> (r: bool)
        ensures
            r == (self.name@ == name@),
    {
        self.name == *name
    }
}

impl DeepClone for Identifier {
    fn deep_clone(&self) -> (r: Self)
        ensures
            r == *self,
    {
        Identifier { name: self.name.clone(), span: self.span }
    }
}

} // verus!
