//! Expression enforcement: literals, identifiers, operators, arrays,
//! circuit construction, member resolution and function calls.

use vstd::prelude::*;
use vstd::string::StringExecFns;

use crate::ast::{Circuit, CircuitFieldDefinition, CircuitMember, Expression, Function};
use crate::errors::{ExpressionError, FunctionError};
use crate::list::{DeepClone, List};
use crate::program::{resolve_spec, ConstrainedProgram};
use crate::r1cs::{bit_and, bit_eq, bit_not, bit_or, bit_select, bit_witness, Bit, R1CS};
use crate::span::{Identifier, Span};
use crate::types::{IntegerType, Type};
use crate::value::{
    arith_result, find_member, find_member_spec, integer_arith, integer_eq, integer_from_literal,
    strip_mutable, ArithmeticOp, ConstrainedCircuitMember, ConstrainedValue, Integer,
    IntegerOpError,
};

verus! {

/// The function member of the given name among a circuit's declared
/// members, with its static tag, if any.
pub open spec fn find_circuit_function_spec(members: List<CircuitMember>, name: Seq<char>) -> Option<
    (bool, Function),
>
    decreases members,
{
    match members {
        List::Nil => None,
        List::Cons(m, rest) => match *m {
            CircuitMember::CircuitFunction(is_static, f) => if f.function_name.name@ == name {
                Some((is_static, f))
            } else {
                find_circuit_function_spec(*rest, name)
            },
            CircuitMember::CircuitField(_, _) => find_circuit_function_spec(*rest, name),
        },
    }
}

/// Looks a declared circuit function up by name.
pub fn find_circuit_function<'a>(members: &'a List<CircuitMember>, name: &String) -> (r: Option<
    (bool, &'a Function),
>)
    ensures
        match r {
            Some((is_static, f)) => find_circuit_function_spec(*members, name@) == Some(
                (is_static, *f),
            ),
            None => find_circuit_function_spec(*members, name@) is None,
        },
    decreases members,
{
    match members {
        List::Nil => None,
        List::Cons(m, rest) => match &**m {
            CircuitMember::CircuitFunction(is_static, f) => {
                if f.function_name.named(name) {
                    Some((*is_static, f))
                } else {
                    find_circuit_function(rest, name)
                }
            },
            CircuitMember::CircuitField(_, _) => find_circuit_function(rest, name),
        },
    }
}

/// Builds an array value of `n` copies of one compiled element.
fn replicate_value(value: &ConstrainedValue, n: usize) -> (r: List<ConstrainedValue>)
    ensures
        r.seq().len() == n,
        forall|k: int| 0 <= k < n ==> r.seq()[k] == *value,
    decreases n,
{
    if n == 0 {
        List::Nil
    } else {
        let rest = replicate_value(value, n - 1);
        let res = List::Cons(Box::new(value.deep_clone()), Box::new(rest));
        proof {
            assert(res.seq()[0] == *value);
            assert(forall|k: int| 1 <= k < n ==> res.seq()[k] == res.seq().drop_first()[k - 1]);
        }
        res
    }
}

/// Takes the element at the given index as a copy.
fn list_element(elements: &List<ConstrainedValue>, index: usize) -> (r: Option<ConstrainedValue>)
    ensures
        match r {
            Some(v) => index < elements.seq().len() && v == elements.seq()[index as int],
            None => index >= elements.seq().len(),
        },
    decreases elements,
{
    match elements {
        List::Nil => None,
        List::Cons(h, rest) => {
            if index == 0 {
                Some(h.deep_clone())
            } else {
                let r = list_element(rest, index - 1);
                proof {
                    assert(elements.seq().drop_first() =~= rest.seq());
                }
                r
            }
        },
    }
}

/// The width an unsuffixed integer literal takes from the expected types:
/// the first expected type, when it is an integer type.
pub open spec fn hint_width(expected: List<Type>) -> Option<IntegerType> {
    match expected {
        List::Cons(t, _) => match *t {
            Type::IntegerType(it) => Some(it),
            _ => None,
        },
        List::Nil => None,
    }
}

/// The exec view of `hint_width`.
fn hinted_width(expected: &List<Type>) -> (r: Option<IntegerType>)
    ensures
        r == hint_width(*expected),
{
    match expected {
        List::Cons(t, _) => match &**t {
            Type::IntegerType(it) => Some(*it),
            _ => None,
        },
        List::Nil => None,
    }
}

impl ConstrainedProgram {
    /// Evaluates each member expression of a circuit construction.
    fn eval_field_definitions(
        &mut self,
        cs: &mut R1CS,
        file_scope: &String,
        function_scope: &String,
        fields: &List<CircuitFieldDefinition>,
        fuel: u64,
    ) -> (r: Result<List<ConstrainedCircuitMember>, ExpressionError>)
        ensures
            final(cs).next_variable >= old(cs).next_variable,
            final(cs).num_constraints >= old(cs).num_constraints,
        decreases fuel, 1int, fields,
    {
        match fields {
            List::Nil => Ok(List::Nil),
            List::Cons(field, rest) => {
                let value = self.enforce_expression(
                    cs,
                    file_scope,
                    function_scope,
                    &List::Nil,
                    &field.expression,
                    fuel,
                )?;
                let tail = self.eval_field_definitions(
                    cs,
                    file_scope,
                    function_scope,
                    rest,
                    fuel,
                )?;
                Ok(
                    List::Cons(
                        Box::new(
                            ConstrainedCircuitMember(field.identifier.deep_clone(), value),
                        ),
                        Box::new(tail),
                    ),
                )
            },
        }
    }

    /// Assembles a circuit instance's members: one entry per declared field,
    /// in declaration order, taken from the provided members by name.
    /// Associated functions contribute no instance member.
    fn assemble_members(
        &self,
        declared: &List<CircuitMember>,
        provided: &List<ConstrainedCircuitMember>,
        span: Span,
    ) -> (r: Result<List<ConstrainedCircuitMember>, ExpressionError>)
        ensures
            r matches Ok(members) ==> crate::value::member_names(members)
                == crate::value::declared_field_names(*declared),
        decreases declared,
    {
        match declared {
            List::Nil => Ok(List::Nil),
            List::Cons(member, rest) => match &**member {
                CircuitMember::CircuitField(identifier, _type) => {
                    let value = match find_member(provided, &identifier.name) {
                        Some(v) => v.deep_clone(),
                        None => {
                            return Err(
                                ExpressionError::MissingCircuitMember(
                                    identifier.name.clone(),
                                    span,
                                ),
                            );
                        },
                    };
                    let tail = self.assemble_members(rest, provided, span)?;
                    Ok(
                        List::Cons(
                            Box::new(ConstrainedCircuitMember(identifier.deep_clone(), value)),
                            Box::new(tail),
                        ),
                    )
                },
                CircuitMember::CircuitFunction(_, _) => self.assemble_members(
                    rest,
                    provided,
                    span,
                ),
            },
        }
    }

    /// Evaluates call arguments pairwise against the declared parameters.
    fn eval_arguments(
        &mut self,
        cs: &mut R1CS,
        file_scope: &String,
        function_scope: &String,
        inputs: &List<crate::ast::FunctionInput>,
        arguments: &List<Expression>,
        span: Span,
        fuel: u64,
    ) -> (r: Result<List<ConstrainedValue>, ExpressionError>)
        ensures
            final(cs).next_variable >= old(cs).next_variable,
            final(cs).num_constraints >= old(cs).num_constraints,
        decreases fuel, 1int, arguments,
    {
        match (arguments, inputs) {
            (List::Nil, List::Nil) => Ok(List::Nil),
            (List::Cons(arg, arg_rest), List::Cons(input, in_rest)) => {
                let expected = List::Cons(Box::new(input.type_.deep_clone()), Box::new(List::Nil));
                let value = self.enforce_expression(
                    cs,
                    file_scope,
                    function_scope,
                    &expected,
                    arg,
                    fuel,
                )?;
                let tail = self.eval_arguments(
                    cs,
                    file_scope,
                    function_scope,
                    in_rest,
                    arg_rest,
                    span,
                    fuel,
                )?;
                Ok(List::Cons(Box::new(value), Box::new(tail)))
            },
            _ => Err(ExpressionError::FunctionError(Box::new(FunctionError::ArityMismatch(span)))),
        }
    }

    /// Calls a resolved function on evaluated argument values and unwraps a
    /// single-value return.
    fn enforce_call(
        &mut self,
        cs: &mut R1CS,
        file_scope: &String,
        function: &Function,
        self_circuit: Option<&Circuit>,
        bound_self: Option<ConstrainedValue>,
        argument_values: &List<ConstrainedValue>,
        span: Span,
        fuel: u64,
    ) -> (r: Result<ConstrainedValue, ExpressionError>)
        ensures
            final(cs).next_variable >= old(cs).next_variable,
            final(cs).num_constraints >= old(cs).num_constraints,
        decreases fuel, 0int, function,
    {
        if fuel == 0 {
            return Err(ExpressionError::CallDepthExceeded(span));
        }
        let result = match self.enforce_function(
            cs,
            file_scope,
            function,
            self_circuit,
            bound_self,
            argument_values,
            fuel - 1,
        ) {
            Ok(v) => v,
            Err(e) => {
                return Err(ExpressionError::FunctionError(Box::new(e)));
            },
        };
        match result {
            ConstrainedValue::Return(values) => match values {
                List::Cons(single, rest) => match *rest {
                    List::Nil => Ok(*single),
                    more => Ok(
                        ConstrainedValue::Return(List::Cons(single, Box::new(more))),
                    ),
                },
                List::Nil => Ok(ConstrainedValue::Return(List::Nil)),
            },
            other => Ok(other),
        }
    }

    /// Resolves a circuit declaration by name.
    fn resolve_circuit(
        &self,
        file_scope: &String,
        function_scope: &String,
        name: &String,
        span: Span,
    ) -> (r: Result<Circuit, ExpressionError>)
        ensures
            r == (match resolve_spec(self.identifiers@, file_scope@, function_scope@, name@) {
                Some(ConstrainedValue::CircuitDefinition(c)) => Ok::<Circuit, ExpressionError>(c),
                _ => Err::<Circuit, ExpressionError>(
                    ExpressionError::UndefinedCircuit(*name, span),
                ),
            }),
    {
        match self.resolve(file_scope, function_scope, name) {
            Some(ConstrainedValue::CircuitDefinition(circuit)) => Ok(circuit),
            _ => Err(ExpressionError::UndefinedCircuit(name.clone(), span)),
        }
    }

    /// Compiles an expression into a value, against an optional list of
    /// expected types used to disambiguate unsuffixed integer literals.
    pub fn enforce_expression(
        &mut self,
        cs: &mut R1CS,
        file_scope: &String,
        function_scope: &String,
        expected_types: &List<Type>,
        expression: &Expression,
        fuel: u64,
    ) -> (r: Result<ConstrainedValue, ExpressionError>)
        ensures
            expression matches Expression::Boolean(b, s) ==> r == Ok::<
                ConstrainedValue,
                ExpressionError,
            >(ConstrainedValue::Boolean(Bit::Constant(*b))),
            expression matches Expression::Integer(suffix, value, span) ==> (match (match suffix {
                Some(w) => Some(*w),
                None => hint_width(*expected_types),
            }) {
                Some(w) => {
                    if crate::value::fits_width(*value as int, w) {
                        r matches Ok(v) && v matches ConstrainedValue::Integer(i)
                            && crate::value::integer_type_of(i) == w
                            && crate::value::integer_value(i) == *value as int
                    } else {
                        r == Err::<ConstrainedValue, ExpressionError>(
                            ExpressionError::LiteralOutOfRange(*span),
                        )
                    }
                },
                None => r == Err::<ConstrainedValue, ExpressionError>(
                    ExpressionError::AmbiguousLiteral(*span),
                ),
            }),
            expression matches Expression::Identifier(id) ==> (match resolve_spec(
                old(self).identifiers@,
                file_scope@,
                function_scope@,
                id.name@,
            ) {
                Some(value) => r == Ok::<ConstrainedValue, ExpressionError>(strip_mutable(value)),
                None => (if id.name@ == "self"@ {
                    r == Err::<ConstrainedValue, ExpressionError>(
                        ExpressionError::UndefinedSelf(id.span),
                    )
                } else {
                    r == Err::<ConstrainedValue, ExpressionError>(
                        ExpressionError::UndefinedIdentifier(id.name, id.span),
                    )
                }),
            }),
            (expression is Boolean || expression is Integer || expression is Identifier) ==> (
            final(self).identifiers@ == old(self).identifiers@ && *final(cs) == *old(cs)),
            expression matches Expression::Circuit(cid, _fields, cspan) ==> (match resolve_spec(
                old(self).identifiers@,
                file_scope@,
                function_scope@,
                cid.name@,
            ) {
                Some(bound) => (match bound {
                    ConstrainedValue::CircuitDefinition(c) => (r matches Ok(v) ==> v matches
                        ConstrainedValue::CircuitExpression(name, members) && name
                        == c.circuit_name && crate::value::member_names(members)
                        == crate::value::declared_field_names(c.members)),
                    _ => r == Err::<ConstrainedValue, ExpressionError>(
                        ExpressionError::UndefinedCircuit(cid.name, *cspan),
                    ),
                }),
                None => r == Err::<ConstrainedValue, ExpressionError>(
                    ExpressionError::UndefinedCircuit(cid.name, *cspan),
                ),
            }),
            expression matches Expression::CircuitMemberAccess(target, member, mspan) ==> ((
            **target) matches Expression::Identifier(tid) ==> (match resolve_spec(
                old(self).identifiers@,
                file_scope@,
                function_scope@,
                tid.name@,
            ) {
                Some(bound) => (match strip_mutable(bound) {
                    ConstrainedValue::CircuitExpression(cname, members) => (match find_member_spec(
                        members,
                        member.name@,
                    ) {
                        Some(mv) => r == Ok::<ConstrainedValue, ExpressionError>(mv),
                        None => (match resolve_spec(
                            old(self).identifiers@,
                            file_scope@,
                            function_scope@,
                            cname.name@,
                        ) {
                            Some(ConstrainedValue::CircuitDefinition(c)) => (match
                                find_circuit_function_spec(c.members, member.name@) {
                                Some((true, _)) => r == Err::<ConstrainedValue, ExpressionError>(
                                    ExpressionError::InvalidStaticAccess(member.name, *mspan),
                                ),
                                Some((false, f)) => (r matches Ok(v) && v matches
                                    ConstrainedValue::Function(oid, g) && oid == Some(*member)
                                    && *g == f),
                                None => (r matches Err(e) && e matches
                                    ExpressionError::UndefinedMember(n, _, s2) && n@
                                    == member.name@ && s2 == *mspan),
                            }),
                            _ => (r matches Err(e) && e matches
                                ExpressionError::UndefinedMember(n, _, s2) && n@ == member.name@
                                && s2 == *mspan),
                        }),
                    }),
                    _ => r == Err::<ConstrainedValue, ExpressionError>(
                        ExpressionError::InvalidMemberTarget(*mspan),
                    ),
                }),
                None => r is Err,
            })),
            expression matches Expression::CircuitStaticFunctionAccess(target, member, mspan)
                ==> (match (**target) {
                Expression::Identifier(tid) => (match resolve_spec(
                    old(self).identifiers@,
                    file_scope@,
                    function_scope@,
                    tid.name@,
                ) {
                    Some(ConstrainedValue::CircuitDefinition(c)) => (match
                        find_circuit_function_spec(c.members, member.name@) {
                        Some((true, f)) => (r matches Ok(v) && v matches
                            ConstrainedValue::Static(inner) && (*inner) matches
                            ConstrainedValue::Function(oid, g) && oid == Some(*member) && *g
                            == f),
                        Some((false, _)) => r == Err::<ConstrainedValue, ExpressionError>(
                            ExpressionError::InvalidStaticAccess(member.name, *mspan),
                        ),
                        None => r == Err::<ConstrainedValue, ExpressionError>(
                            ExpressionError::UndefinedStaticAccess(member.name, *mspan),
                        ),
                    }),
                    _ => r == Err::<ConstrainedValue, ExpressionError>(
                        ExpressionError::UndefinedCircuit(tid.name, *mspan),
                    ),
                }),
                _ => r == Err::<ConstrainedValue, ExpressionError>(
                    ExpressionError::InvalidMemberTarget(*mspan),
                ),
            }),
            final(cs).next_variable >= old(cs).next_variable,
            final(cs).num_constraints >= old(cs).num_constraints,
        decreases fuel, 1int, expression,
    {
        match expression {
            Expression::Boolean(b, _span) => Ok(ConstrainedValue::Boolean(Bit::Constant(*b))),
            Expression::Integer(suffix, value, span) => {
                let width = match suffix {
                    Some(w) => *w,
                    None => match hinted_width(expected_types) {
                        Some(w) => w,
                        None => {
                            return Err(ExpressionError::AmbiguousLiteral(*span));
                        },
                    },
                };
                match integer_from_literal(&width, *value) {
                    Some(i) => Ok(ConstrainedValue::Integer(i)),
                    None => Err(ExpressionError::LiteralOutOfRange(*span)),
                }
            },
            Expression::Identifier(identifier) => {
                match self.resolve(file_scope, function_scope, &identifier.name) {
                    Some(value) => Ok(crate::value::unwrap_mutable(value)),
                    None => {
                        if identifier.named(&String::from_str("self")) {
                            Err(ExpressionError::UndefinedSelf(identifier.span))
                        } else {
                            Err(
                                ExpressionError::UndefinedIdentifier(
                                    identifier.name.clone(),
                                    identifier.span,
                                ),
                            )
                        }
                    },
                }
            },
            Expression::Not(inner, span) => {
                let value = self.enforce_expression(
                    cs,
                    file_scope,
                    function_scope,
                    expected_types,
                    inner,
                    fuel,
                )?;
                match value {
                    ConstrainedValue::Boolean(b) => Ok(ConstrainedValue::Boolean(bit_not(&b))),
                    _ => Err(ExpressionError::InvalidOperands(*span)),
                }
            },
            Expression::And(left, right, span) => {
                let l = self.enforce_expression(
                    cs,
                    file_scope,
                    function_scope,
                    expected_types,
                    left,
                    fuel,
                )?;
                let r_ = self.enforce_expression(
                    cs,
                    file_scope,
                    function_scope,
                    expected_types,
                    right,
                    fuel,
                )?;
                match (l, r_) {
                    (ConstrainedValue::Boolean(a), ConstrainedValue::Boolean(b)) => {
                        match bit_and(cs, &a, &b) {
                            Ok(c) => Ok(ConstrainedValue::Boolean(c)),
                            Err(_) => Err(ExpressionError::SynthesisFailure(*span)),
                        }
                    },
                    _ => Err(ExpressionError::InvalidOperands(*span)),
                }
            },
            Expression::Or(left, right, span) => {
                let l = self.enforce_expression(
                    cs,
                    file_scope,
                    function_scope,
                    expected_types,
                    left,
                    fuel,
                )?;
                let r_ = self.enforce_expression(
                    cs,
                    file_scope,
                    function_scope,
                    expected_types,
                    right,
                    fuel,
                )?;
                match (l, r_) {
                    (ConstrainedValue::Boolean(a), ConstrainedValue::Boolean(b)) => {
                        match bit_or(cs, &a, &b) {
                            Ok(c) => Ok(ConstrainedValue::Boolean(c)),
                            Err(_) => Err(ExpressionError::SynthesisFailure(*span)),
                        }
                    },
                    _ => Err(ExpressionError::InvalidOperands(*span)),
                }
            },
            Expression::Eq(left, right, span) => {
                let l = self.enforce_expression(
                    cs,
                    file_scope,
                    function_scope,
                    expected_types,
                    left,
                    fuel,
                )?;
                let r_ = self.enforce_expression(
                    cs,
                    file_scope,
                    function_scope,
                    expected_types,
                    right,
                    fuel,
                )?;
                match (l, r_) {
                    (ConstrainedValue::Boolean(a), ConstrainedValue::Boolean(b)) => {
                        match bit_eq(cs, &a, &b) {
                            Ok(c) => Ok(ConstrainedValue::Boolean(c)),
                            Err(_) => Err(ExpressionError::SynthesisFailure(*span)),
                        }
                    },
                    (ConstrainedValue::Integer(a), ConstrainedValue::Integer(b)) => {
                        match integer_eq(&a, &b) {
                            Ok(eq) => Ok(ConstrainedValue::Boolean(Bit::Constant(eq))),
                            Err(_) => Err(ExpressionError::IntegerWidthMismatch(*span)),
                        }
                    },
                    _ => Err(ExpressionError::InvalidOperands(*span)),
                }
            },
            Expression::Add(left, right, span) => {
                let l = self.enforce_expression(
                    cs,
                    file_scope,
                    function_scope,
                    expected_types,
                    left,
                    fuel,
                )?;
                let r_ = self.enforce_expression(
                    cs,
                    file_scope,
                    function_scope,
                    expected_types,
                    right,
                    fuel,
                )?;
                enforce_arith_values(cs, ArithmeticOp::Add, l, r_, *span)
            },
            Expression::Sub(left, right, span) => {
                let l = self.enforce_expression(
                    cs,
                    file_scope,
                    function_scope,
                    expected_types,
                    left,
                    fuel,
                )?;
                let r_ = self.enforce_expression(
                    cs,
                    file_scope,
                    function_scope,
                    expected_types,
                    right,
                    fuel,
                )?;
                enforce_arith_values(cs, ArithmeticOp::Sub, l, r_, *span)
            },
            Expression::Mul(left, right, span) => {
                let l = self.enforce_expression(
                    cs,
                    file_scope,
                    function_scope,
                    expected_types,
                    left,
                    fuel,
                )?;
                let r_ = self.enforce_expression(
                    cs,
                    file_scope,
                    function_scope,
                    expected_types,
                    right,
                    fuel,
                )?;
                enforce_arith_values(cs, ArithmeticOp::Mul, l, r_, *span)
            },
            Expression::IfElse(condition, first, second, span) => {
                // Both outcomes are compiled; the condition's witness value
                // selects among them.
                let guard = self.enforce_expression(
                    cs,
                    file_scope,
                    function_scope,
                    &List::Cons(Box::new(Type::Boolean), Box::new(List::Nil)),
                    condition,
                    fuel,
                )?;
                let guard_bit = match guard {
                    ConstrainedValue::Boolean(b) => b,
                    _ => {
                        return Err(ExpressionError::InvalidOperands(*span));
                    },
                };
                let first_value = self.enforce_expression(
                    cs,
                    file_scope,
                    function_scope,
                    expected_types,
                    first,
                    fuel,
                )?;
                let second_value = self.enforce_expression(
                    cs,
                    file_scope,
                    function_scope,
                    expected_types,
                    second,
                    fuel,
                )?;
                match bit_witness(&guard_bit) {
                    Some(true) => Ok(first_value),
                    Some(false) => Ok(second_value),
                    // An undetermined guard still selects between boolean
                    // bits through the select gadget; other values have no
                    // witness-undetermined form in this model.
                    None => match (first_value, second_value) {
                        (ConstrainedValue::Boolean(xb), ConstrainedValue::Boolean(yb)) => {
                            match bit_select(cs, &guard_bit, &xb, &yb) {
                                Ok(c) => Ok(ConstrainedValue::Boolean(c)),
                                Err(_) => Err(ExpressionError::SynthesisFailure(*span)),
                            }
                        },
                        _ => Err(ExpressionError::UnknownWitnessSelection(*span)),
                    },
                }
            },
            Expression::ArrayInline(elements, _span) => {
                let values = self.eval_expression_list(
                    cs,
                    file_scope,
                    function_scope,
                    elements,
                    fuel,
                )?;
                Ok(ConstrainedValue::Array(values))
            },
            Expression::ArrayInitializer(element, count, _span) => {
                let value = self.enforce_expression(
                    cs,
                    file_scope,
                    function_scope,
                    expected_types,
                    element,
                    fuel,
                )?;
                Ok(ConstrainedValue::Array(replicate_value(&value, *count)))
            },
            Expression::ArrayAccess(array, index, span) => {
                let array_value = self.enforce_expression(
                    cs,
                    file_scope,
                    function_scope,
                    &List::Nil,
                    array,
                    fuel,
                )?;
                let index_value = self.enforce_expression(
                    cs,
                    file_scope,
                    function_scope,
                    &List::Nil,
                    index,
                    fuel,
                )?;
                let elements = match array_value {
                    ConstrainedValue::Array(elements) => elements,
                    _ => {
                        return Err(ExpressionError::InvalidIndexTarget(*span));
                    },
                };
                let position = match index_value {
                    ConstrainedValue::Integer(i) => i,
                    _ => {
                        return Err(ExpressionError::NonConstantIndex(*span));
                    },
                };
                let position = match integer_as_index(&position) {
                    Some(p) => p,
                    None => {
                        return Err(ExpressionError::NonConstantIndex(*span));
                    },
                };
                match list_element(&elements, position) {
                    Some(v) => Ok(v),
                    None => Err(ExpressionError::IndexOutOfBounds(*span)),
                }
            },
            Expression::Circuit(identifier, fields, span) => {
                let circuit = self.resolve_circuit(
                    file_scope,
                    function_scope,
                    &identifier.name,
                    *span,
                )?;
                let provided = self.eval_field_definitions(
                    cs,
                    file_scope,
                    function_scope,
                    fields,
                    fuel,
                )?;
                let members = self.assemble_members(&circuit.members, &provided, *span)?;
                Ok(ConstrainedValue::CircuitExpression(circuit.circuit_name, members))
            },
            Expression::CircuitMemberAccess(target, member, span) => {
                let target_value = self.enforce_expression(
                    cs,
                    file_scope,
                    function_scope,
                    &List::Nil,
                    target,
                    fuel,
                )?;
                let (circuit_name, members) = match target_value {
                    ConstrainedValue::CircuitExpression(name, members) => (name, members),
                    _ => {
                        return Err(ExpressionError::InvalidMemberTarget(*span));
                    },
                };
                if let Some(value) = find_member(&members, &member.name) {
                    return Ok(value.deep_clone());
                }
                // A function member lives in the circuit's declaration, not
                // in the instance.
                match self.resolve(file_scope, function_scope, &circuit_name.name) {
                    Some(ConstrainedValue::CircuitDefinition(circuit)) => {
                        match find_circuit_function(&circuit.members, &member.name) {
                            Some((true, _)) => Err(
                                ExpressionError::InvalidStaticAccess(member.name.clone(), *span),
                            ),
                            Some((false, f)) => Ok(
                                ConstrainedValue::Function(
                                    Some(member.deep_clone()),
                                    Box::new(f.deep_clone()),
                                ),
                            ),
                            None => Err(
                                ExpressionError::UndefinedMember(
                                    member.name.clone(),
                                    crate::value::collect_member_names(&members),
                                    *span,
                                ),
                            ),
                        }
                    },
                    _ => Err(
                        ExpressionError::UndefinedMember(
                            member.name.clone(),
                            crate::value::collect_member_names(&members),
                            *span,
                        ),
                    ),
                }
            },
            Expression::CircuitStaticFunctionAccess(target, member, span) => {
                let circuit_name = match &**target {
                    Expression::Identifier(id) => id,
                    _ => {
                        return Err(ExpressionError::InvalidMemberTarget(*span));
                    },
                };
                let circuit = self.resolve_circuit(
                    file_scope,
                    function_scope,
                    &circuit_name.name,
                    *span,
                )?;
                match find_circuit_function(&circuit.members, &member.name) {
                    Some((true, f)) => Ok(
                        ConstrainedValue::Static(
                            Box::new(
                                ConstrainedValue::Function(
                                    Some(member.deep_clone()),
                                    Box::new(f.deep_clone()),
                                ),
                            ),
                        ),
                    ),
                    Some((false, _)) => Err(
                        ExpressionError::InvalidStaticAccess(member.name.clone(), *span),
                    ),
                    None => Err(
                        ExpressionError::UndefinedStaticAccess(member.name.clone(), *span),
                    ),
                }
            },
            Expression::FunctionCall(callee, arguments, span) => {
                match &**callee {
                    Expression::Identifier(id) => {
                        match self.resolve(file_scope, function_scope, &id.name) {
                            Some(ConstrainedValue::Function(_, f)) => {
                                let argument_values = self.eval_arguments(
                                    cs,
                                    file_scope,
                                    function_scope,
                                    &f.inputs,
                                    arguments,
                                    *span,
                                    fuel,
                                )?;
                                self.enforce_call(
                                    cs,
                                    file_scope,
                                    &f,
                                    None,
                                    None,
                                    &argument_values,
                                    *span,
                                    fuel,
                                )
                            },
                            Some(_) => Err(ExpressionError::NotAFunction(*span)),
                            None => Err(
                                ExpressionError::UndefinedIdentifier(id.name.clone(), id.span),
                            ),
                        }
                    },
                    Expression::CircuitMemberAccess(target, member, member_span) => {
                        let target_value = self.enforce_expression(
                            cs,
                            file_scope,
                            function_scope,
                            &List::Nil,
                            target,
                            fuel,
                        )?;
                        let instance_name = match &target_value {
                            ConstrainedValue::CircuitExpression(name, _) => name.deep_clone(),
                            _ => {
                                return Err(ExpressionError::InvalidMemberTarget(*member_span));
                            },
                        };
                        let circuit = self.resolve_circuit(
                            file_scope,
                            function_scope,
                            &instance_name.name,
                            *member_span,
                        )?;
                        let function = match find_circuit_function(&circuit.members, &member.name) {
                            Some((true, _)) => {
                                return Err(
                                    ExpressionError::InvalidStaticAccess(
                                        member.name.clone(),
                                        *member_span,
                                    ),
                                );
                            },
                            Some((false, f)) => f.deep_clone(),
                            None => {
                                let names = match &target_value {
                                    ConstrainedValue::CircuitExpression(_, members) => {
                                        crate::value::collect_member_names(members)
                                    },
                                    _ => List::Nil,
                                };
                                return Err(
                                    ExpressionError::UndefinedMember(
                                        member.name.clone(),
                                        names,
                                        *member_span,
                                    ),
                                );
                            },
                        };
                        let argument_values = self.eval_arguments(
                            cs,
                            file_scope,
                            function_scope,
                            &function.inputs,
                            arguments,
                            *span,
                            fuel,
                        )?;
                        self.enforce_call(
                            cs,
                            file_scope,
                            &function,
                            Some(&circuit),
                            Some(target_value),
                            &argument_values,
                            *span,
                            fuel,
                        )
                    },
                    Expression::CircuitStaticFunctionAccess(target, member, member_span) => {
                        let circuit_name = match &**target {
                            Expression::Identifier(id) => id,
                            _ => {
                                return Err(ExpressionError::InvalidMemberTarget(*member_span));
                            },
                        };
                        let circuit = self.resolve_circuit(
                            file_scope,
                            function_scope,
                            &circuit_name.name,
                            *member_span,
                        )?;
                        let function = match find_circuit_function(&circuit.members, &member.name) {
                            Some((true, f)) => f.deep_clone(),
                            Some((false, _)) => {
                                return Err(
                                    ExpressionError::InvalidStaticAccess(
                                        member.name.clone(),
                                        *member_span,
                                    ),
                                );
                            },
                            None => {
                                return Err(
                                    ExpressionError::UndefinedStaticAccess(
                                        member.name.clone(),
                                        *member_span,
                                    ),
                                );
                            },
                        };
                        let argument_values = self.eval_arguments(
                            cs,
                            file_scope,
                            function_scope,
                            &function.inputs,
                            arguments,
                            *span,
                            fuel,
                        )?;
                        self.enforce_call(
                            cs,
                            file_scope,
                            &function,
                            Some(&circuit),
                            None,
                            &argument_values,
                            *span,
                            fuel,
                        )
                    },
                    other => {
                        let callee_value = self.enforce_expression(
                            cs,
                            file_scope,
                            function_scope,
                            &List::Nil,
                            other,
                            fuel,
                        )?;
                        let function = match callee_value {
                            ConstrainedValue::Function(_, f) => f,
                            ConstrainedValue::Static(inner) => match *inner {
                                ConstrainedValue::Function(_, f) => f,
                                _ => {
                                    return Err(ExpressionError::NotAFunction(*span));
                                },
                            },
                            _ => {
                                return Err(ExpressionError::NotAFunction(*span));
                            },
                        };
                        let argument_values = self.eval_arguments(
                            cs,
                            file_scope,
                            function_scope,
                            &function.inputs,
                            arguments,
                            *span,
                            fuel,
                        )?;
                        self.enforce_call(
                            cs,
                            file_scope,
                            &function,
                            None,
                            None,
                            &argument_values,
                            *span,
                            fuel,
                        )
                    },
                }
            },
        }
    }

    /// Evaluates a list of expressions, in order.
    fn eval_expression_list(
        &mut self,
        cs: &mut R1CS,
        file_scope: &String,
        function_scope: &String,
        expressions: &List<Expression>,
        fuel: u64,
    ) -> (r: Result<List<ConstrainedValue>, ExpressionError>)
        ensures
            final(cs).next_variable >= old(cs).next_variable,
            final(cs).num_constraints >= old(cs).num_constraints,
        decreases fuel, 1int, expressions,
    {
        match expressions {
            List::Nil => Ok(List::Nil),
            List::Cons(e, rest) => {
                let value = self.enforce_expression(
                    cs,
                    file_scope,
                    function_scope,
                    &List::Nil,
                    e,
                    fuel,
                )?;
                let tail = self.eval_expression_list(cs, file_scope, function_scope, rest, fuel)?;
                Ok(List::Cons(Box::new(value), Box::new(tail)))
            },
        }
    }

}

/// Compiles a binary arithmetic operation over two compiled operands:
/// integer operands of one width compute the checked result; field handles
/// allocate a constrained result handle; anything else is rejected.
fn enforce_arith_values(
    cs: &mut R1CS,
    op: ArithmeticOp,
    l: ConstrainedValue,
    r_: ConstrainedValue,
    span: Span,
) -> (r: Result<ConstrainedValue, ExpressionError>)
    ensures
        match (l, r_) {
            (ConstrainedValue::Integer(a), ConstrainedValue::Integer(b)) => {
                (crate::value::integer_type_of(a) == crate::value::integer_type_of(b)
                    && crate::value::fits_width(
                    arith_result(
                        op,
                        crate::value::integer_value(a),
                        crate::value::integer_value(b),
                    ),
                    crate::value::integer_type_of(a),
                )) ==> (r matches Ok(c) && c matches ConstrainedValue::Integer(ci)
                    && crate::value::integer_value(ci) == arith_result(
                    op,
                    crate::value::integer_value(a),
                    crate::value::integer_value(b),
                ) && crate::value::integer_type_of(ci) == crate::value::integer_type_of(a))
            },
            _ => true,
        },
        final(cs).next_variable >= old(cs).next_variable,
        final(cs).num_constraints >= old(cs).num_constraints,
{
    {
        match (l, r_) {
            (ConstrainedValue::Integer(a), ConstrainedValue::Integer(b)) => {
                match integer_arith(op, &a, &b) {
                    Ok(c) => Ok(ConstrainedValue::Integer(c)),
                    Err(IntegerOpError::WidthMismatch) => Err(
                        ExpressionError::IntegerWidthMismatch(span),
                    ),
                    Err(IntegerOpError::Overflow) => Err(ExpressionError::IntegerOverflow(span)),
                }
            },
            (ConstrainedValue::Field(a), ConstrainedValue::Field(b)) => {
                match (op, crate::r1cs::allocate_field_op(cs, a, b)) {
                    (ArithmeticOp::Sub, _) => Err(ExpressionError::InvalidOperands(span)),
                    (_, Ok(h)) => Ok(ConstrainedValue::Field(h)),
                    (_, Err(_)) => Err(ExpressionError::SynthesisFailure(span)),
                }
            },
            _ => Err(ExpressionError::InvalidOperands(span)),
        }
    }
}

/// The usize index a compiled integer denotes, if it fits.
fn integer_as_index(i: &Integer) -> (r: Option<usize>)
    ensures
        match r {
            Some(p) => p as int == crate::value::integer_value(*i),
            None => crate::value::integer_value(*i) < 0 || crate::value::integer_value(*i)
                > usize::MAX,
        },
{
    match i {
        Integer::U8(x) => Some(*x as usize),
        Integer::U16(x) => Some(*x as usize),
        Integer::U32(x) => Some(*x as usize),
        Integer::U64(x) => {
            if *x <= usize::MAX as u64 {
                Some(*x as usize)
            } else {
                None
            }
        },
        Integer::U128(x) => {
            if *x <= usize::MAX as u128 {
                Some(*x as usize)
            } else {
                None
            }
        },
        Integer::I8(x) => {
            if *x >= 0 {
                Some(*x as usize)
            } else {
                None
            }
        },
        Integer::I16(x) => {
            if *x >= 0 {
                Some(*x as usize)
            } else {
                None
            }
        },
        Integer::I32(x) => {
            if *x >= 0 {
                Some(*x as usize)
            } else {
                None
            }
        },
        Integer::I64(x) => {
            if *x >= 0 && (*x as u64) <= usize::MAX as u64 {
                Some(*x as usize)
            } else {
                None
            }
        },
        Integer::I128(x) => {
            if *x >= 0 && *x <= usize::MAX as i128 {
                Some(*x as usize)
            } else {
                None
            }
        },
    }
}

} // verus!
