//! Function-call enforcement: parameter binding, body compilation, and the
//! reduction of the body's return candidates to one value.

use vstd::prelude::*;
use vstd::string::StringExecFns;

use crate::ast::{Circuit, Function, FunctionInput, Program};
use crate::errors::{CompilerError, FunctionError};
use crate::list::{DeepClone, List};
use crate::program::{new_scope, ConstrainedProgram};
use crate::r1cs::{indicator_value, Bit, R1CS};
use crate::span::Span;
use crate::value::{check_value_type, ConstrainedValue};

verus! {

/// The candidate a return reduction selects: the value of the first pair
/// whose indicator cannot be proven false.
pub open spec fn select_spec(s: Seq<(Option<Bit>, ConstrainedValue)>) -> Option<ConstrainedValue>
    decreases s.len(),
{
    if s.len() == 0 {
        None
    } else if indicator_value(s[0].0) != Some(false) {
        Some(s[0].1)
    } else {
        select_spec(s.drop_first())
    }
}

/// Reduces a list of `(indicator, value)` return candidates to the first one
/// whose indicator cannot be proven false, in declaration order.
pub fn select_return(candidates: &Vec<(Option<Bit>, ConstrainedValue)>, span: Span) -> (r: Result<
    ConstrainedValue,
    FunctionError,
>)
    ensures
        match r {
            Ok(v) => select_spec(candidates@) == Some(v),
            Err(e) => select_spec(candidates@) is None && e == FunctionError::MissingReturn(span),
        },
{
    let mut i: usize = 0;
    proof {
        assert(candidates@.skip(0) =~= candidates@);
    }
    while i < candidates.len()
        invariant
            i <= candidates@.len(),
            select_spec(candidates@.skip(i as int)) == select_spec(candidates@),
        decreases candidates@.len() - i,
    {
        proof {
            assert(candidates@.skip(i as int)[0] == candidates@[i as int]);
            assert(candidates@.skip(i as int).drop_first() =~= candidates@.skip(i + 1));
        }
        let live = match &candidates[i].0 {
            None => true,
            Some(b) => match crate::r1cs::bit_witness(b) {
                Some(false) => false,
                _ => true,
            },
        };
        if live {
            return Ok(candidates[i].1.deep_clone());
        }
        i = i + 1;
    }
    proof {
        assert(candidates@.skip(i as int) =~= Seq::<(Option<Bit>, ConstrainedValue)>::empty());
    }
    Err(FunctionError::MissingReturn(span))
}

/// The outcome of binding argument values against declared parameters:
/// the first type mismatch, an arity mismatch, or nothing.
pub open spec fn bind_outcome(
    inputs: List<FunctionInput>,
    arguments: List<ConstrainedValue>,
    span: Span,
) -> Option<FunctionError>
    decreases inputs,
{
    match (inputs, arguments) {
        (List::Nil, List::Nil) => None,
        (List::Cons(input, in_rest), List::Cons(arg, arg_rest)) => if !crate::value::value_matches_type(
            *arg,
            input.type_,
        ) {
            Some(FunctionError::InputTypeMismatch(input.identifier.name, span))
        } else {
            bind_outcome(*in_rest, *arg_rest, span)
        },
        _ => Some(FunctionError::ArityMismatch(span)),
    }
}

/// The function declared under the given name, if any; a later declaration
/// of the same name shadows an earlier one.
pub open spec fn find_function_spec(functions: List<Function>, name: Seq<char>) -> Option<Function>
    decreases functions,
{
    match functions {
        List::Nil => None,
        List::Cons(f, rest) => match find_function_spec(*rest, name) {
            Some(g) => Some(g),
            None => if f.function_name.name@ == name {
                Some(*f)
            } else {
                None
            },
        },
    }
}

/// Looks the entry function up among the declared functions.
fn find_function<'a>(functions: &'a List<Function>, name: &String) -> (r: Option<&'a Function>)
    ensures
        match r {
            Some(f) => find_function_spec(*functions, name@) == Some(*f),
            None => find_function_spec(*functions, name@) is None,
        },
    decreases functions,
{
    match functions {
        List::Nil => None,
        List::Cons(f, rest) => match find_function(rest, name) {
            Some(g) => Some(g),
            None => {
                if f.function_name.named(name) {
                    Some(f)
                } else {
                    None
                }
            },
        },
    }
}

impl ConstrainedProgram {
    /// Binds each argument value under its declared parameter name in the
    /// callee scope, after checking it against the declared type. A parameter
    /// tagged mutable is bound re-assignable.
    fn bind_inputs(
        &mut self,
        scope: &String,
        inputs: &List<FunctionInput>,
        arguments: &List<ConstrainedValue>,
        span: Span,
    ) -> (r: Result<(), FunctionError>)
        ensures
            r == (match bind_outcome(*inputs, *arguments, span) {
                Some(e) => Err::<(), FunctionError>(e),
                None => Ok::<(), FunctionError>(()),
            }),
        decreases inputs,
    {
        match (inputs, arguments) {
            (List::Nil, List::Nil) => Ok(()),
            (List::Cons(input, in_rest), List::Cons(arg, arg_rest)) => {
                if !check_value_type(arg, &input.type_) {
                    return Err(
                        FunctionError::InputTypeMismatch(input.identifier.name.clone(), span),
                    );
                }
                let value = if input.mutable {
                    ConstrainedValue::Mutable(Box::new(arg.deep_clone()))
                } else {
                    arg.deep_clone()
                };
                self.store(scope.clone(), input.identifier.name.clone(), value);
                self.bind_inputs(scope, in_rest, arg_rest, span)
            },
            _ => Err(FunctionError::ArityMismatch(span)),
        }
    }

    /// Compiles one call of a function: binds `Self` and `self` when the
    /// function belongs to a circuit, binds the evaluated arguments into a
    /// fresh function scope, compiles the body, and reduces the collected
    /// return candidates to one `Return` value.
    pub fn enforce_function(
        &mut self,
        cs: &mut R1CS,
        file_scope: &String,
        function: &Function,
        self_circuit: Option<&Circuit>,
        bound_self: Option<ConstrainedValue>,
        arguments: &List<ConstrainedValue>,
        fuel: u64,
    ) -> (r: Result<ConstrainedValue, FunctionError>)
        ensures
            r matches Ok(v) ==> v is Return,
            bind_outcome(function.inputs, *arguments, function.span) matches Some(e) ==> r == Err::<
                ConstrainedValue,
                FunctionError,
            >(e),
            r matches Ok(_) ==> bind_outcome(function.inputs, *arguments, function.span) is None,
            (bind_outcome(function.inputs, *arguments, function.span) is None
                && crate::statement::literal_return_body(function.statements, function.returns)
                && !(function.statements is Nil)) ==> r is Ok,
            (function.statements is Nil && bind_outcome(
                function.inputs,
                *arguments,
                function.span,
            ) is None) ==> r == (if function.returns is Nil {
                Ok::<ConstrainedValue, FunctionError>(ConstrainedValue::Return(List::Nil))
            } else {
                Err::<ConstrainedValue, FunctionError>(
                    FunctionError::MissingReturn(function.span),
                )
            }),
            final(cs).next_variable >= old(cs).next_variable,
            final(cs).num_constraints >= old(cs).num_constraints,
        decreases fuel, 3int, function,
    {
        let function_scope = new_scope(file_scope, &function.function_name.name);
        if let Some(circuit) = self_circuit {
            self.store(
                function_scope.clone(),
                String::from_str("Self"),
                ConstrainedValue::CircuitDefinition(circuit.deep_clone()),
            );
        }
        if let Some(instance) = bound_self {
            self.store(function_scope.clone(), String::from_str("self"), instance);
        }
        self.bind_inputs(&function_scope, &function.inputs, arguments, function.span)?;
        let candidates = match self.evaluate_branch(
            cs,
            file_scope,
            &function_scope,
            None,
            &function.statements,
            &function.returns,
            fuel,
        ) {
            Ok(c) => c,
            Err(e) => {
                return Err(FunctionError::StatementError(e));
            },
        };
        if candidates.len() == 0 && function.returns.is_empty() {
            return Ok(ConstrainedValue::Return(List::Nil));
        }
        proof {
            if crate::statement::literal_return_body(function.statements, function.returns)
                && !(function.statements is Nil) {
                crate::statement::lemma_literal_implies_all_returns(
                    function.statements,
                    function.returns,
                );
                match &function.statements {
                    List::Cons(first, _) => {
                        assert(crate::statement::min_candidates_stmt(**first) == 1);
                        assert(crate::statement::min_candidates_stmts(function.statements) >= 1);
                    },
                    List::Nil => {},
                }
                assert(candidates@[0].0 == None::<Bit>);
                assert(candidates@[0].1 is Return);
                assert(select_spec(candidates@) == Some(candidates@[0].1));
            }
        }
        let selected = select_return(&candidates, function.span)?;
        match selected {
            // Each candidate was already checked against the declared return
            // types at its return statement.
            ConstrainedValue::Return(values) => Ok(ConstrainedValue::Return(values)),
            _ => Err(FunctionError::MissingReturn(function.span)),
        }
    }

    /// Registers every circuit declaration at file scope.
    fn declare_circuits(&mut self, scope: &String, circuits: &List<Circuit>)
        decreases circuits,
    {
        match circuits {
            List::Nil => {},
            List::Cons(c, rest) => {
                self.store(
                    scope.clone(),
                    c.circuit_name.name.clone(),
                    ConstrainedValue::CircuitDefinition(c.deep_clone()),
                );
                self.declare_circuits(scope, rest);
            },
        }
    }

    /// Registers every function declaration at file scope.
    fn declare_functions(&mut self, scope: &String, functions: &List<Function>)
        decreases functions,
    {
        match functions {
            List::Nil => {},
            List::Cons(f, rest) => {
                self.store(
                    scope.clone(),
                    f.function_name.name.clone(),
                    ConstrainedValue::Function(None, Box::new(f.deep_clone())),
                );
                self.declare_functions(scope, rest);
            },
        }
    }
}

/// Compiles a whole program: pre-populates the environment with the declared
/// circuits and functions, then compiles one call of the named entry
/// function on the given argument values. The result is the entry function's
/// terminal `Return` value; the constraint system is left fully populated.
/// `fuel` bounds the depth of nested function calls.
pub fn compile_program(
    program: &Program,
    cs: &mut R1CS,
    entry: &String,
    arguments: &List<ConstrainedValue>,
    fuel: u64,
) -> (r: Result<ConstrainedValue, CompilerError>)
    ensures
        r matches Ok(v) ==> v is Return,
        (r matches Err(e) && e is UndefinedEntry) <==> find_function_spec(
            program.functions,
            entry@,
        ) is None,
        find_function_spec(program.functions, entry@) matches Some(f) ==> (bind_outcome(
            f.inputs,
            *arguments,
            f.span,
        ) matches Some(e) ==> r == Err::<ConstrainedValue, CompilerError>(
            CompilerError::FunctionError(e),
        )),
        find_function_spec(program.functions, entry@) matches Some(f) ==> ((bind_outcome(
            f.inputs,
            *arguments,
            f.span,
        ) is None && crate::statement::literal_return_body(f.statements, f.returns) && !(
        f.statements is Nil)) ==> r is Ok),
        find_function_spec(program.functions, entry@) matches Some(f) ==> ((f.statements is Nil
            && bind_outcome(f.inputs, *arguments, f.span) is None) ==> r == (if f.returns is Nil {
            Ok::<ConstrainedValue, CompilerError>(ConstrainedValue::Return(List::Nil))
        } else {
            Err::<ConstrainedValue, CompilerError>(
                CompilerError::FunctionError(FunctionError::MissingReturn(f.span)),
            )
        })),
        final(cs).next_variable >= old(cs).next_variable,
        final(cs).num_constraints >= old(cs).num_constraints,
{
    let mut state = ConstrainedProgram::new();
    state.declare_circuits(&program.name, &program.circuits);
    state.declare_functions(&program.name, &program.functions);
    let main_function = match find_function(&program.functions, entry) {
        Some(f) => f.deep_clone(),
        None => {
            return Err(CompilerError::UndefinedEntry(entry.clone()));
        },
    };
    match state.enforce_function(cs, &program.name, &main_function, None, None, arguments, fuel) {
        Ok(v) => Ok(v),
        Err(e) => Err(CompilerError::FunctionError(e)),
    }
}

} // verus!
