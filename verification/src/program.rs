//! The environment of a compilation: a mutable registry binding scoped names
//! to compiled values. Declarations and variables share one store, keyed by a
//! scope string and a name; a later binding of the same key shadows an
//! earlier one, which realizes assignment semantics.

use vstd::prelude::*;
use vstd::string::StringExecFns;

use crate::list::DeepClone;
use crate::value::ConstrainedValue;

verus! {

/// One binding of the environment.
#[derive(Debug, PartialEq, Eq)]
pub struct Binding {
    pub scope: String,
    pub name: String,
    pub value: ConstrainedValue,
}

/// The last value bound under the given scope and name, if any.
pub open spec fn lookup(s: Seq<Binding>, scope: Seq<char>, name: Seq<char>) -> Option<
    ConstrainedValue,
>
    decreases s.len(),
{
    if s.len() == 0 {
        None
    } else if s.last().scope@ == scope && s.last().name@ == name {
        Some(s.last().value)
    } else {
        lookup(s.drop_last(), scope, name)
    }
}

/// Resolution order: the local function scope first, then the file scope.
pub open spec fn resolve_spec(
    s: Seq<Binding>,
    file_scope: Seq<char>,
    function_scope: Seq<char>,
    name: Seq<char>,
) -> Option<ConstrainedValue> {
    match lookup(s, function_scope, name) {
        Some(v) => Some(v),
        None => lookup(s, file_scope, name),
    }
}

/// The state of one compilation: the environment of bindings. Created at
/// compile start, mutated by every statement and expression, discarded after
/// the program's output values are extracted.
#[derive(Debug)]
pub struct ConstrainedProgram {
    pub identifiers: Vec<Binding>,
}

impl ConstrainedProgram {
    /// An empty environment.
    pub fn new() -> (r: ConstrainedProgram)
        ensures
            r.identifiers@ == Seq::<Binding>::empty(),
    {
        ConstrainedProgram { identifiers: Vec::new() }
    }

    /// Binds a value under the given scope and name, shadowing any earlier
    /// binding of the same key.
    pub fn store(&mut self, scope: String, name: String, value: ConstrainedValue)
        ensures
            final(self).identifiers@ == old(self).identifiers@.push(
                Binding { scope, name, value },
            ),
    {
        self.identifiers.push(Binding { scope, name, value });
    }

    /// The value bound under the given scope and name, if any, as a copy.
    pub fn get(&self, scope: &String, name: &String) -> (r: Option<ConstrainedValue>)
        ensures
            r == lookup(self.identifiers@, scope@, name@),
    {
        let mut i: usize = self.identifiers.len();
        proof {
            assert(self.identifiers@.take(i as int) =~= self.identifiers@);
        }
        while i > 0
            invariant
                i <= self.identifiers@.len(),
                lookup(self.identifiers@.take(i as int), scope@, name@) == lookup(
                    self.identifiers@,
                    scope@,
                    name@,
                ),
            decreases i,
        {
            i = i - 1;
            let b = &self.identifiers[i];
            proof {
                assert(self.identifiers@.take(i + 1).last() == self.identifiers@[i as int]);
                assert(self.identifiers@.take(i + 1).drop_last() =~= self.identifiers@.take(
                    i as int,
                ));
            }
            if b.scope == *scope && b.name == *name {
                return Some(b.value.deep_clone());
            }
        }
        proof {
            assert(self.identifiers@.take(0) =~= Seq::<Binding>::empty());
        }
        None
    }

    /// Resolves a name: the local function scope first, then the file scope.
    pub fn resolve(&self, file_scope: &String, function_scope: &String, name: &String) -> (r:
        Option<ConstrainedValue>)
        ensures
            r == resolve_spec(self.identifiers@, file_scope@, function_scope@, name@),
    {
        match self.get(function_scope, name) {
            Some(v) => Some(v),
            None => self.get(file_scope, name),
        }
    }
}

/// The scope string of a function compiled under an enclosing scope.
pub fn new_scope(outer: &String, name: &String) -> (r: String)
    ensures
        r@ == outer@ + "_"@ + name@,
{
    outer.clone().concat("_").concat(name.as_str())
}

} // verus!
