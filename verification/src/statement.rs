//! Statement enforcement. Every statement may mutate the environment and
//! the constraint system; only `return` statements (and the conditionals
//! containing them) contribute `(indicator, value)` return candidates.
//!
//! The gating contract runs through every function here: a returned
//! candidate can only be live when the indicator it was compiled under is
//! live.

use vstd::prelude::*;

use crate::ast::{ConditionalNestedOrEndStatement, ConditionalStatement, Declare, Expression, Statement};
use crate::errors::{ExpressionError, StatementError};
use crate::list::{DeepClone, List};
use crate::program::ConstrainedProgram;
use crate::r1cs::{bit_witness, gated_by, indicator_value, Bit, R1CS};
use crate::span::Span;
use crate::types::{IntegerType, Type};
use crate::value::{
    check_value_type, integer_eq, integer_from_literal, ConstrainedValue, Integer,
};

verus! {

/// Every candidate in the sequence is gated by the given indicator value.
pub open spec fn all_gated(res: Seq<(Option<Bit>, ConstrainedValue)>, gate: Option<bool>) -> bool {
    forall|k: int|
        0 <= k < res.len() ==> gated_by(indicator_value(#[trigger] res[k].0), gate)
}

/// The number of return candidates a statement sequence is certain to
/// produce: one for each return statement, summed through every branch of
/// every conditional — both branches always, since both are always compiled.
pub open spec fn min_candidates_stmts(statements: List<Statement>) -> nat
    decreases statements,
{
    match statements {
        List::Nil => 0,
        List::Cons(s, rest) => min_candidates_stmt(*s) + min_candidates_stmts(*rest),
    }
}

/// The number of return candidates one statement is certain to produce.
/// Iterations contribute none, since a loop's range may be empty.
pub open spec fn min_candidates_stmt(statement: Statement) -> nat
    decreases statement,
{
    match statement {
        Statement::Return(_, _) => 1,
        Statement::Conditional(c, _) => min_candidates_cond(c),
        _ => 0,
    }
}

/// The number of return candidates a conditional is certain to produce:
/// the primary body's count plus the continuation's, whatever the
/// condition's witness value.
pub open spec fn min_candidates_cond(c: ConditionalStatement) -> nat
    decreases c,
{
    min_candidates_stmts(c.statements) + min_candidates_next(c.next)
}

/// The number of return candidates a conditional's continuation is certain
/// to produce.
pub open spec fn min_candidates_next(next: Option<ConditionalNestedOrEndStatement>) -> nat
    decreases next,
{
    match next {
        Some(ConditionalNestedOrEndStatement::Nested(n)) => min_candidates_cond(*n),
        Some(ConditionalNestedOrEndStatement::End(s)) => min_candidates_stmts(s),
        None => 0,
    }
}

/// Whether an expression is a literal that inhabits the given type: a
/// boolean literal against the boolean type, or a suffixed integer literal
/// within its width.
pub open spec fn literal_fits(e: Expression, t: Type) -> bool {
    match e {
        Expression::Boolean(_, _) => t is Boolean,
        Expression::Integer(suffix, v, _) => (match (suffix, t) {
            (Some(w), Type::IntegerType(tw)) => w == tw && crate::value::fits_width(v as int, w),
            _ => false,
        }),
        _ => false,
    }
}

/// Whether a return expression list is literals fitting the declared types,
/// pairwise.
pub open spec fn literals_fit(es: List<Expression>, ts: List<Type>) -> bool
    decreases es,
{
    match (es, ts) {
        (List::Nil, List::Nil) => true,
        (List::Cons(e, e_rest), List::Cons(t, t_rest)) => literal_fits(*e, *t) && literals_fit(
            *e_rest,
            *t_rest,
        ),
        _ => false,
    }
}

/// The integer a suffixed literal compiles to.
pub open spec fn integer_of(w: IntegerType, v: u128) -> Integer {
    match w {
        IntegerType::U8 => Integer::U8(v as u8),
        IntegerType::U16 => Integer::U16(v as u16),
        IntegerType::U32 => Integer::U32(v as u32),
        IntegerType::U64 => Integer::U64(v as u64),
        IntegerType::U128 => Integer::U128(v),
        IntegerType::I8 => Integer::I8(v as i8),
        IntegerType::I16 => Integer::I16(v as i16),
        IntegerType::I32 => Integer::I32(v as i32),
        IntegerType::I64 => Integer::I64(v as i64),
        IntegerType::I128 => Integer::I128(v as i128),
    }
}

/// The value a fitting literal compiles to. Meaningful only for literals.
pub open spec fn literal_value(e: Expression) -> ConstrainedValue {
    match e {
        Expression::Boolean(b, _) => ConstrainedValue::Boolean(Bit::Constant(b)),
        Expression::Integer(Some(w), v, _) => ConstrainedValue::Integer(integer_of(w, v)),
        _ => ConstrainedValue::Return(List::Nil),
    }
}

/// A return statement's value and a compiled pair's value agree: the pair
/// carries the returns of exactly the statement's literal values.
pub open spec fn pair_is_literal_return(st: Statement, v: ConstrainedValue) -> bool {
    match st {
        Statement::Return(es, _) => v matches ConstrainedValue::Return(vals) && vals.seq().len()
            == es.seq().len() && (forall|k: int|
            0 <= k < vals.seq().len() ==> vals.seq()[k] == literal_value(#[trigger] es.seq()[k])),
        _ => false,
    }
}

/// Whether a statement sequence consists only of returns of literals
/// fitting the declared types. Such a body always compiles: no lookup,
/// call or gadget can fail in it.
pub open spec fn literal_return_body(statements: List<Statement>, types: List<Type>) -> bool
    decreases statements,
{
    match statements {
        List::Nil => true,
        List::Cons(st, rest) => (match *st {
            Statement::Return(es, _) => literals_fit(es, types),
            _ => false,
        }) && literal_return_body(*rest, types),
    }
}

/// A body of returns of fitting literals is in particular a body of
/// returns alone.
pub proof fn lemma_literal_implies_all_returns(statements: List<Statement>, types: List<Type>)
    requires
        literal_return_body(statements, types),
    ensures
        all_returns(statements),
    decreases statements,
{
    match statements {
        List::Nil => {},
        List::Cons(_, rest) => {
            lemma_literal_implies_all_returns(*rest, types);
        },
    }
}

/// Whether a statement sequence consists of return statements alone.
pub open spec fn all_returns(statements: List<Statement>) -> bool
    decreases statements,
{
    match statements {
        List::Nil => true,
        List::Cons(s, rest) => (*s is Return) && all_returns(*rest),
    }
}

/// The compile-time value of a loop bound, if the expression compiled to a
/// known non-negative integer.
pub open spec fn known_bound(v: ConstrainedValue) -> Option<(IntegerType, u128)> {
    match v {
        ConstrainedValue::Integer(i) => {
            if crate::value::integer_value(i) >= 0 {
                Some((crate::value::integer_type_of(i), crate::value::integer_value(i) as u128))
            } else {
                None
            }
        },
        _ => None,
    }
}

impl ConstrainedProgram {
    /// The compile-time value of a loop bound: a known non-negative integer,
    /// anything else is a non-constant bound.
    fn bound_value(&self, v: &ConstrainedValue, span: Span) -> (r: Result<
        (IntegerType, u128),
        StatementError,
    >)
        ensures
            match r {
                Ok(b) => known_bound(*v) == Some(b),
                Err(e) => known_bound(*v) is None && e == StatementError::NonConstantLoopBound(
                    span,
                ),
            },
    {
        match v {
            ConstrainedValue::Integer(i) => match i {
                Integer::U8(x) => Ok((IntegerType::U8, *x as u128)),
                Integer::U16(x) => Ok((IntegerType::U16, *x as u128)),
                Integer::U32(x) => Ok((IntegerType::U32, *x as u128)),
                Integer::U64(x) => Ok((IntegerType::U64, *x as u128)),
                Integer::U128(x) => Ok((IntegerType::U128, *x)),
                Integer::I8(x) => {
                    if *x >= 0 {
                        Ok((IntegerType::I8, *x as u128))
                    } else {
                        Err(StatementError::NonConstantLoopBound(span))
                    }
                },
                Integer::I16(x) => {
                    if *x >= 0 {
                        Ok((IntegerType::I16, *x as u128))
                    } else {
                        Err(StatementError::NonConstantLoopBound(span))
                    }
                },
                Integer::I32(x) => {
                    if *x >= 0 {
                        Ok((IntegerType::I32, *x as u128))
                    } else {
                        Err(StatementError::NonConstantLoopBound(span))
                    }
                },
                Integer::I64(x) => {
                    if *x >= 0 {
                        Ok((IntegerType::I64, *x as u128))
                    } else {
                        Err(StatementError::NonConstantLoopBound(span))
                    }
                },
                Integer::I128(x) => {
                    if *x >= 0 {
                        Ok((IntegerType::I128, *x as u128))
                    } else {
                        Err(StatementError::NonConstantLoopBound(span))
                    }
                },
            },
            _ => Err(StatementError::NonConstantLoopBound(span)),
        }
    }

    /// Evaluates the expressions of a `return` statement against the
    /// declared return types, in order.
    fn eval_return_expressions(
        &mut self,
        cs: &mut R1CS,
        file_scope: &String,
        function_scope: &String,
        expressions: &List<Expression>,
        types: &List<Type>,
        span: Span,
        fuel: u64,
    ) -> (r: Result<List<ConstrainedValue>, StatementError>)
        ensures
            literals_fit(*expressions, *types) ==> (r matches Ok(vals) && vals.seq().len()
                == expressions.seq().len() && (forall|k: int|
                0 <= k < vals.seq().len() ==> vals.seq()[k] == literal_value(
                    #[trigger] expressions.seq()[k],
                ))),
            final(cs).next_variable >= old(cs).next_variable,
            final(cs).num_constraints >= old(cs).num_constraints,
        decreases fuel, 1int, expressions,
    {
        match (expressions, types) {
            (List::Nil, List::Nil) => Ok(List::Nil),
            (List::Cons(e, e_rest), List::Cons(t, t_rest)) => {
                let expected = List::Cons(Box::new(t.deep_clone()), Box::new(List::Nil));
                let value = match self.enforce_expression(
                    cs,
                    file_scope,
                    function_scope,
                    &expected,
                    e,
                    fuel,
                ) {
                    Ok(v) => v,
                    Err(err) => {
                        return Err(StatementError::ExpressionError(err));
                    },
                };
                if !check_value_type(&value, t) {
                    return Err(
                        StatementError::ExpressionError(ExpressionError::TypeMismatch(span)),
                    );
                }
                let rest = self.eval_return_expressions(
                    cs,
                    file_scope,
                    function_scope,
                    e_rest,
                    t_rest,
                    span,
                    fuel,
                )?;
                let out = List::Cons(Box::new(value), Box::new(rest));
                proof {
                    if literals_fit(*expressions, *types) {
                        assert(expressions.seq() =~= seq![**e] + e_rest.seq());
                        assert(out.seq() =~= seq![value] + rest.seq());
                        match **e {
                            Expression::Integer(Some(w), v, _) => {
                                crate::value::lemma_integer_pinned(
                                    value->Integer_0,
                                    integer_of(w, v),
                                );
                            },
                            _ => {},
                        }
                        assert(value == literal_value(**e));
                        assert forall|k: int|
                            0 <= k < out.seq().len() implies out.seq()[k] == literal_value(
                            #[trigger] expressions.seq()[k],
                        ) by {
                            if k > 0 {
                                assert(out.seq()[k] == rest.seq()[k - 1]);
                                assert(expressions.seq()[k] == e_rest.seq()[k - 1]);
                            }
                        }
                    }
                }
                Ok(out)
            },
            _ => Err(StatementError::ReturnArity(span)),
        }
    }

    /// Enforces an equality assertion: values that are statically unequal in
    /// a context that is not statically dead fail the compile; otherwise the
    /// equality constraint is emitted.
    fn enforce_assert_eq(
        &mut self,
        cs: &mut R1CS,
        indicator: Option<Bit>,
        left: &ConstrainedValue,
        right: &ConstrainedValue,
        span: Span,
    ) -> (r: Result<(), StatementError>)
        ensures
            final(cs).next_variable >= old(cs).next_variable,
            final(cs).num_constraints >= old(cs).num_constraints,
    {
        let dead = match &indicator {
            Some(b) => match bit_witness(b) {
                Some(false) => true,
                _ => false,
            },
            None => false,
        };
        let statically_unequal = match (left, right) {
            (ConstrainedValue::Boolean(a), ConstrainedValue::Boolean(b)) => {
                match (bit_witness(a), bit_witness(b)) {
                    (Some(x), Some(y)) => x != y,
                    _ => false,
                }
            },
            (ConstrainedValue::Integer(a), ConstrainedValue::Integer(b)) => {
                match integer_eq(a, b) {
                    Ok(eq) => !eq,
                    Err(_) => {
                        return Err(
                            StatementError::ExpressionError(
                                ExpressionError::IntegerWidthMismatch(span),
                            ),
                        );
                    },
                }
            },
            (ConstrainedValue::Field(_), ConstrainedValue::Field(_)) => false,
            _ => {
                return Err(StatementError::InvalidAssertion(span));
            },
        };
        if statically_unequal && !dead {
            return Err(StatementError::AssertionFailed(span));
        }
        if cs.num_constraints == u64::MAX {
            return Err(StatementError::ConstraintSaturated(span));
        }
        cs.num_constraints = cs.num_constraints + 1;
        Ok(())
    }

    /// Enforces one statement under the inherited indicator, returning the
    /// `(indicator, value)` pairs of every `return` compiled inside it.
    #[verifier::loop_isolation(false)]
    pub fn enforce_statement(
        &mut self,
        cs: &mut R1CS,
        file_scope: &String,
        function_scope: &String,
        indicator: Option<Bit>,
        statement: &Statement,
        return_types: &List<Type>,
        fuel: u64,
    ) -> (r: Result<Vec<(Option<Bit>, ConstrainedValue)>, StatementError>)
        ensures
            r matches Ok(res) ==> all_gated(res@, indicator_value(indicator)),
            statement is Return ==> (r matches Ok(res) ==> res@.len() == 1 && res@[0].0
                == indicator && res@[0].1 is Return),
            statement matches Statement::Return(es, _) ==> (literals_fit(*es, *return_types)
                ==> (r matches Ok(res) && pair_is_literal_return(*statement, res@[0].1))),
            r matches Ok(res) ==> res@.len() >= min_candidates_stmt(*statement),
            (statement is Definition || statement is Assign || statement is AssertEq
                || statement is Expression) ==> (r matches Ok(res) ==> res@.len() == 0),
            statement matches Statement::Conditional(c, _) ==> (r matches Ok(res)
                ==> crate::conditional::conditional_post(indicator, *c, res@)),
            statement matches Statement::Conditional(c, _) ==> ((indicator is None
                && crate::conditional::literal_conditional(*c, *return_types)) ==> r is Ok),
            statement matches Statement::Assign(aid, _, aspan) ==> (match crate::program::resolve_spec(
                old(self).identifiers@,
                file_scope@,
                function_scope@,
                aid.name@,
            ) {
                None => r == Err::<Vec<(Option<Bit>, ConstrainedValue)>, StatementError>(
                    StatementError::UndefinedVariable(aid.name, *aspan),
                ),
                Some(bound) => !(bound is Mutable) ==> r == Err::<
                    Vec<(Option<Bit>, ConstrainedValue)>,
                    StatementError,
                >(StatementError::ImmutableAssignment(aid.name, *aspan)),
            }),
            statement matches Statement::Assign(aid2, _, _) ==> (r matches Ok(_)
                ==> final(self).identifiers@.len() >= 1
                && final(self).identifiers@.last().scope@ == function_scope@
                && final(self).identifiers@.last().name@ == aid2.name@
                && final(self).identifiers@.last().value is Mutable),
            statement matches Statement::Definition(_, _, dtype, dexpr, _) ==> (dtype is None
                ==> (dexpr matches Expression::Boolean(_, _) ==> r matches Ok(res) && res@.len()
                == 0)),
            statement matches Statement::Definition(decl, did, _, _, _) ==> (r matches Ok(_)
                ==> final(self).identifiers@.len() >= 1 && final(self).identifiers@.last().scope@
                == function_scope@ && final(self).identifiers@.last().name@ == did.name@ && (decl
                is LetMut ==> final(self).identifiers@.last().value is Mutable)),
            final(cs).next_variable >= old(cs).next_variable,
            final(cs).num_constraints >= old(cs).num_constraints,
        decreases fuel, 2int, statement,
    {
        match statement {
            Statement::Return(expressions, span) => {
                let values = self.eval_return_expressions(
                    cs,
                    file_scope,
                    function_scope,
                    expressions,
                    return_types,
                    *span,
                    fuel,
                )?;
                let mut res: Vec<(Option<Bit>, ConstrainedValue)> = Vec::new();
                res.push((indicator, ConstrainedValue::Return(values)));
                Ok(res)
            },
            Statement::Definition(declare, identifier, type_, expression, span) => {
                let expected = match type_ {
                    Some(t) => List::Cons(Box::new(t.deep_clone()), Box::new(List::Nil)),
                    None => List::Nil,
                };
                let value = match self.enforce_expression(
                    cs,
                    file_scope,
                    function_scope,
                    &expected,
                    expression,
                    fuel,
                ) {
                    Ok(v) => v,
                    Err(err) => {
                        return Err(StatementError::ExpressionError(err));
                    },
                };
                if let Some(t) = type_ {
                    if !check_value_type(&value, t) {
                        return Err(
                            StatementError::ExpressionError(ExpressionError::TypeMismatch(*span)),
                        );
                    }
                }
                let bound = match declare {
                    Declare::LetMut => ConstrainedValue::Mutable(Box::new(value)),
                    Declare::Let => value,
                };
                self.store(function_scope.clone(), identifier.name.clone(), bound);
                Ok(Vec::new())
            },
            Statement::Assign(identifier, expression, span) => {
                let current = self.resolve(file_scope, function_scope, &identifier.name);
                match current {
                    None => Err(
                        StatementError::UndefinedVariable(identifier.name.clone(), *span),
                    ),
                    Some(ConstrainedValue::Mutable(_)) => {
                        let value = match self.enforce_expression(
                            cs,
                            file_scope,
                            function_scope,
                            &List::Nil,
                            expression,
                            fuel,
                        ) {
                            Ok(v) => v,
                            Err(err) => {
                                return Err(StatementError::ExpressionError(err));
                            },
                        };
                        self.store(
                            function_scope.clone(),
                            identifier.name.clone(),
                            ConstrainedValue::Mutable(Box::new(value)),
                        );
                        Ok(Vec::new())
                    },
                    Some(_) => Err(
                        StatementError::ImmutableAssignment(identifier.name.clone(), *span),
                    ),
                }
            },
            Statement::Conditional(conditional, span) => {
                let res = self.enforce_conditional_statement(
                    cs,
                    file_scope,
                    function_scope,
                    indicator,
                    conditional,
                    return_types,
                    *span,
                    fuel,
                )?;
                proof {
                    crate::conditional::lemma_segments_gated_weaken(
                        indicator,
                        *conditional,
                        res@,
                    );
                }
                Ok(res)
            },
            Statement::For(identifier, from, to, body, span) => {
                let from_value = match self.enforce_expression(
                    cs,
                    file_scope,
                    function_scope,
                    &List::Nil,
                    from,
                    fuel,
                ) {
                    Ok(v) => v,
                    Err(err) => {
                        return Err(StatementError::ExpressionError(err));
                    },
                };
                let to_value = match self.enforce_expression(
                    cs,
                    file_scope,
                    function_scope,
                    &List::Nil,
                    to,
                    fuel,
                ) {
                    Ok(v) => v,
                    Err(err) => {
                        return Err(StatementError::ExpressionError(err));
                    },
                };
                let (width, from_bound) = self.bound_value(&from_value, *span)?;
                let (to_width, to_bound) = self.bound_value(&to_value, *span)?;
                if width != to_width {
                    return Err(
                        StatementError::ExpressionError(
                            ExpressionError::IntegerWidthMismatch(*span),
                        ),
                    );
                }
                let mut results: Vec<(Option<Bit>, ConstrainedValue)> = Vec::new();
                let mut index: u128 = from_bound;
                while index < to_bound
                    invariant
                        all_gated(results@, indicator_value(indicator)),
                        cs.next_variable >= old(cs).next_variable,
                        cs.num_constraints >= old(cs).num_constraints,
                    decreases to_bound - index,
                {
                    let bound_var = match integer_from_literal(&width, index) {
                        Some(i) => i,
                        None => {
                            return Err(StatementError::NonConstantLoopBound(*span));
                        },
                    };
                    self.store(
                        function_scope.clone(),
                        identifier.name.clone(),
                        ConstrainedValue::Integer(bound_var),
                    );
                    let mut iteration = self.evaluate_branch(
                        cs,
                        file_scope,
                        function_scope,
                        indicator,
                        body,
                        return_types,
                        fuel,
                    )?;
                    proof {
                        assert(all_gated(
                            results@ + iteration@,
                            indicator_value(indicator),
                        )) by {
                            assert(forall|k: int|
                                0 <= k < results@.len() ==> (results@ + iteration@)[k]
                                    == results@[k]);
                            assert(forall|k: int|
                                results@.len() <= k < results@.len() + iteration@.len() ==> (
                                results@ + iteration@)[k] == iteration@[k - results@.len()]);
                        }
                    }
                    results.append(&mut iteration);
                    index = index + 1;
                }
                Ok(results)
            },
            Statement::AssertEq(left, right, span) => {
                let left_value = match self.enforce_expression(
                    cs,
                    file_scope,
                    function_scope,
                    &List::Nil,
                    left,
                    fuel,
                ) {
                    Ok(v) => v,
                    Err(err) => {
                        return Err(StatementError::ExpressionError(err));
                    },
                };
                let right_value = match self.enforce_expression(
                    cs,
                    file_scope,
                    function_scope,
                    &List::Nil,
                    right,
                    fuel,
                ) {
                    Ok(v) => v,
                    Err(err) => {
                        return Err(StatementError::ExpressionError(err));
                    },
                };
                self.enforce_assert_eq(cs, indicator, &left_value, &right_value, *span)?;
                Ok(Vec::new())
            },
            Statement::Expression(expression, span) => {
                match self.enforce_expression(
                    cs,
                    file_scope,
                    function_scope,
                    &List::Nil,
                    expression,
                    fuel,
                ) {
                    Ok(_) => Ok(Vec::new()),
                    Err(err) => Err(StatementError::ExpressionError(err)),
                }
            },
        }
    }

    /// Compiles a statement sequence under the given indicator, accumulating
    /// every return candidate. There is no early exit: statements after a
    /// `return` in the same sequence are still compiled, preserving the
    /// fixed-topology requirement.
    pub fn evaluate_branch(
        &mut self,
        cs: &mut R1CS,
        file_scope: &String,
        function_scope: &String,
        indicator: Option<Bit>,
        statements: &List<Statement>,
        return_types: &List<Type>,
        fuel: u64,
    ) -> (r: Result<Vec<(Option<Bit>, ConstrainedValue)>, StatementError>)
        ensures
            r matches Ok(res) ==> all_gated(res@, indicator_value(indicator)),
            r matches Ok(res) ==> res@.len() >= min_candidates_stmts(*statements),
            statements is Nil ==> (r matches Ok(res) && res@.len() == 0),
            all_returns(*statements) ==> (r matches Ok(res) ==> res@.len()
                == min_candidates_stmts(*statements) && (forall|k: int|
                0 <= k < res@.len() ==> ((#[trigger] res@[k].0) == indicator && res@[k].1
                    is Return))),
            literal_return_body(*statements, *return_types) ==> (r matches Ok(res)
                && res@.len() == statements.seq().len() && (forall|j: int|
                0 <= j < res@.len() ==> pair_is_literal_return(
                    #[trigger] statements.seq()[j],
                    res@[j].1,
                ))),
            final(cs).next_variable >= old(cs).next_variable,
            final(cs).num_constraints >= old(cs).num_constraints,
        decreases fuel, 2int, statements,
    {
        match statements {
            List::Nil => Ok(Vec::new()),
            List::Cons(statement, rest) => {
                let mut results = self.enforce_statement(
                    cs,
                    file_scope,
                    function_scope,
                    indicator,
                    statement,
                    return_types,
                    fuel,
                )?;
                let mut tail = self.evaluate_branch(
                    cs,
                    file_scope,
                    function_scope,
                    indicator,
                    rest,
                    return_types,
                    fuel,
                )?;
                proof {
                    assert(forall|k: int|
                        0 <= k < results@.len() ==> (results@ + tail@)[k] == results@[k]);
                    assert(forall|k: int|
                        results@.len() <= k < results@.len() + tail@.len() ==> (results@ + tail@)[
                        k] == tail@[k - results@.len()]);
                    assert(all_gated(results@ + tail@, indicator_value(indicator)));
                    if all_returns(*statements) {
                        assert forall|k: int|
                            0 <= k < (results@ + tail@).len() implies ((#[trigger] (results@
                            + tail@)[k].0) == indicator && (results@ + tail@)[k].1
                            is Return) by {
                            if k < results@.len() {
                                assert((results@ + tail@)[k] == results@[k]);
                            } else {
                                assert((results@ + tail@)[k] == tail@[k - results@.len()]);
                            }
                        }
                    }
                }
                results.append(&mut tail);
                Ok(results)
            },
        }
    }
}

} // verus!
