//! The conditional enforcer. A data-dependent branch cannot be taken in a
//! rank-1 constraint system, so every branch of every conditional is
//! compiled unconditionally, and an indicator bit derived from the enclosing
//! indicator and the condition selects the live branch's results.

use vstd::prelude::*;
use vstd::string::StringExecFns;

use crate::ast::{ConditionalNestedOrEndStatement, ConditionalStatement, Expression};
use crate::errors::StatementError;
use crate::list::List;
use crate::program::ConstrainedProgram;
use crate::r1cs::{
    bit_and, bit_not, gated_by, indicator_to_string, indicator_value, opt_and, opt_not,
    bit_value, Bit, R1CS,
};
use crate::span::Span;
use crate::types::Type;
use crate::value::ConstrainedValue;

verus! {

/// The shape of a conditional's results: a first segment gated by
/// `outer AND condition`, then a second segment gated by
/// `outer AND NOT condition`, for the witness value `cv` of the condition.
pub open spec fn segments_gated(
    outer: Option<bool>,
    cv: Option<bool>,
    n1: int,
    res: Seq<(Option<Bit>, ConstrainedValue)>,
) -> bool {
    &&& 0 <= n1 <= res.len()
    &&& forall|k: int|
        0 <= k < n1 ==> gated_by(indicator_value(#[trigger] res[k].0), opt_and(outer, cv))
    &&& forall|k: int|
        n1 <= k < res.len() ==> gated_by(
            indicator_value(#[trigger] res[k].0),
            opt_and(outer, opt_not(cv)),
        )
}

/// The split of a compiled conditional's results: the first segment, gated
/// by `outer AND cv`, holds at least the primary body's certain candidates;
/// the rest, gated by `outer AND NOT cv`, holds at least the continuation's.
/// The count bounds keep the split from degenerating to an empty segment
/// whenever a branch is certain to contribute.
pub open spec fn conditional_split(
    outer: Option<bool>,
    statement: ConditionalStatement,
    cv: Option<bool>,
    n1: int,
    res: Seq<(Option<Bit>, ConstrainedValue)>,
) -> bool {
    &&& segments_gated(outer, cv, n1, res)
    &&& crate::statement::min_candidates_stmts(statement.statements) as int <= n1
    &&& crate::statement::min_candidates_next(statement.next) as int <= res.len() - n1
}

/// The contract of a compiled conditional: some witness value of its
/// condition splits the results into the two bounded, gated segments.
pub open spec fn conditional_post(
    indicator: Option<Bit>,
    statement: ConditionalStatement,
    res: Seq<(Option<Bit>, ConstrainedValue)>,
) -> bool {
    exists|cv: Option<bool>, n1: int| conditional_split(
        indicator_value(indicator),
        statement,
        cv,
        n1,
        res,
    )
}

/// The exact shape of a two-way conditional over plain return bodies: every
/// pair's indicator value equals the conjunction of the outer liveness with
/// the condition's witness value, or with its negation.
pub open spec fn two_way_exact(
    outer: Option<bool>,
    cv: Option<bool>,
    n1: int,
    res: Seq<(Option<Bit>, ConstrainedValue)>,
) -> bool {
    &&& 0 <= n1 <= res.len()
    &&& forall|k: int|
        0 <= k < n1 ==> indicator_value(#[trigger] res[k].0) == opt_and(outer, cv)
    &&& forall|k: int|
        n1 <= k < res.len() ==> indicator_value(#[trigger] res[k].0) == opt_and(
            outer,
            opt_not(cv),
        )
}

/// The exact contract of a plain two-way conditional: the result holds
/// exactly the two bodies' candidates, split exactly after the primary
/// body's, the first segment's indicator values equal to `outer AND cv` and
/// the rest equal to `outer AND NOT cv`. Nothing here is existential but
/// the condition's witness value.
pub open spec fn two_way_post(
    indicator: Option<Bit>,
    statement: ConditionalStatement,
    cv: Option<bool>,
    res: Seq<(Option<Bit>, ConstrainedValue)>,
) -> bool {
    &&& res.len() == crate::statement::min_candidates_cond(statement)
    &&& two_way_exact(
        indicator_value(indicator),
        cv,
        crate::statement::min_candidates_stmts(statement.statements) as int,
        res,
    )
}

/// The exact contract of a plain two-way conditional, for some witness
/// value of its condition.
pub open spec fn two_way_post_some(
    indicator: Option<Bit>,
    statement: ConditionalStatement,
    res: Seq<(Option<Bit>, ConstrainedValue)>,
) -> bool {
    exists|cv: Option<bool>| two_way_post(indicator, statement, cv, res)
}

/// Whether a conditional is a plain two-way shape: both bodies are return
/// statements alone and the continuation is a terminal else or nothing.
pub open spec fn plain_two_way(statement: ConditionalStatement) -> bool {
    crate::statement::all_returns(statement.statements) && (match statement.next {
        Some(ConditionalNestedOrEndStatement::End(eb)) => crate::statement::all_returns(eb),
        None => true,
        Some(ConditionalNestedOrEndStatement::Nested(_)) => false,
    })
}

/// The contract of a compiled conditional whose condition value is known:
/// some split point divides the results into the two bounded, gated
/// segments for that value and its negation.
pub open spec fn conditional_post_with(
    indicator: Option<Bit>,
    statement: ConditionalStatement,
    cv: Option<bool>,
    res: Seq<(Option<Bit>, ConstrainedValue)>,
) -> bool {
    exists|n1: int| conditional_split(indicator_value(indicator), statement, cv, n1, res)
}

/// The owed-success shape: a literal boolean condition over bodies made of
/// returns of fitting literals, with a terminal or absent continuation.
/// Nothing in such a conditional can fail to compile under the outermost
/// context: the indicator gadgets fold constants and allocate nothing.
pub open spec fn literal_conditional(
    statement: ConditionalStatement,
    return_types: List<crate::types::Type>,
) -> bool {
    &&& statement.condition is Boolean
    &&& crate::statement::literal_return_body(statement.statements, return_types)
    &&& (match statement.next {
        Some(ConditionalNestedOrEndStatement::End(eb)) => crate::statement::literal_return_body(
            eb,
            return_types,
        ),
        None => true,
        Some(ConditionalNestedOrEndStatement::Nested(_)) => false,
    })
}

/// The values of a compiled literal two-way conditional: the first pairs
/// carry the primary body's return values in order, the rest the terminal
/// else-body's — both bodies' values are present whatever the condition.
pub open spec fn literal_two_way_values(
    statement: ConditionalStatement,
    res: Seq<(Option<Bit>, ConstrainedValue)>,
) -> bool {
    let n1 = statement.statements.seq().len() as int;
    &&& res.len() == n1 + (match statement.next {
        Some(ConditionalNestedOrEndStatement::End(eb)) => eb.seq().len() as int,
        _ => 0,
    })
    &&& forall|j: int|
        0 <= j < n1 ==> crate::statement::pair_is_literal_return(
            statement.statements.seq()[j],
            (#[trigger] res[j]).1,
        )
    &&& (match statement.next {
        Some(ConditionalNestedOrEndStatement::End(eb)) => forall|j: int|
            n1 <= j < res.len() ==> crate::statement::pair_is_literal_return(
                eb.seq()[j - n1],
                (#[trigger] res[j]).1,
            ),
        _ => true,
    })
}

/// A conditional's result pairs all stay gated by the enclosing indicator:
/// both segment indicators are conjunctions with it.
pub proof fn lemma_segments_gated_weaken(
    indicator: Option<Bit>,
    statement: ConditionalStatement,
    res: Seq<(Option<Bit>, ConstrainedValue)>,
)
    requires
        conditional_post(indicator, statement, res),
    ensures
        crate::statement::all_gated(res, indicator_value(indicator)),
{
    let outer = indicator_value(indicator);
    let (cv, n1) = choose|cv: Option<bool>, n1: int| conditional_split(
        outer,
        statement,
        cv,
        n1,
        res,
    );
    assert forall|k: int|
        0 <= k < res.len() implies gated_by(
        indicator_value(#[trigger] res[k].0),
        outer,
    ) by {
        if k < n1 {
            assert(gated_by(indicator_value(res[k].0), opt_and(outer, cv)));
        } else {
            assert(gated_by(indicator_value(res[k].0), opt_and(outer, opt_not(cv))));
        }
    }
}

impl ConstrainedProgram {
    /// Enforces a conditional statement with one or more branches. Every
    /// branch is compiled so that any input assignment meets a structurally
    /// complete circuit; only the indicator bits vary with the witness. The
    /// first branch runs under `outer AND condition`; the continuation — a
    /// nested conditional or a terminal else-body — runs under
    /// `outer AND NOT condition`. The caller selects among the concatenated
    /// results.
    pub fn enforce_conditional_statement(
        &mut self,
        cs: &mut R1CS,
        file_scope: &String,
        function_scope: &String,
        indicator: Option<Bit>,
        statement: &ConditionalStatement,
        return_types: &List<Type>,
        span: Span,
        fuel: u64,
    ) -> (r: Result<Vec<(Option<Bit>, ConstrainedValue)>, StatementError>)
        ensures
            r matches Ok(res) ==> conditional_post(indicator, *statement, res@),
            r matches Ok(res) ==> res@.len() >= crate::statement::min_candidates_cond(*statement),
            statement.condition matches Expression::Boolean(c, _) ==> (r matches Ok(res)
                ==> conditional_post_with(indicator, *statement, Some(c), res@)),
            plain_two_way(*statement) ==> (r matches Ok(res) ==> two_way_post_some(
                indicator,
                *statement,
                res@,
            )),
            plain_two_way(*statement) ==> (statement.condition matches Expression::Boolean(c, _)
                ==> (r matches Ok(res) ==> two_way_post(indicator, *statement, Some(c), res@))),
            (indicator is None && literal_conditional(*statement, *return_types)) ==> (r matches
                Ok(res) && literal_two_way_values(*statement, res@)),
            statement.condition matches Expression::Integer(suffix, value, _) ==> (suffix matches
                Some(w) ==> (crate::value::fits_width(value as int, w) ==> (r matches Err(e)
                && e matches StatementError::ConditionalBoolean(m, s2) && m@
                == crate::value::signed_decimal_digits(value as int) && s2 == span))),
            statement.condition matches Expression::Identifier(cid) ==> (match
                crate::program::resolve_spec(
                old(self).identifiers@,
                file_scope@,
                function_scope@,
                cid.name@,
            ) {
                None => r == Err::<Vec<(Option<Bit>, ConstrainedValue)>, StatementError>(
                    StatementError::ExpressionError(
                        if cid.name@ == "self"@ {
                            crate::errors::ExpressionError::UndefinedSelf(cid.span)
                        } else {
                            crate::errors::ExpressionError::UndefinedIdentifier(
                                cid.name,
                                cid.span,
                            )
                        },
                    ),
                ),
                Some(bound) => (match crate::value::strip_mutable(bound) {
                    ConstrainedValue::Boolean(bbit) => ((indicator is None && bbit is Allocated
                        && (old(cs).next_variable == u64::MAX || old(cs).num_constraints
                        == u64::MAX)) ==> (r matches Err(e) && e matches
                        StatementError::IndicatorCalculation(_, s2) && s2 == span)),
                    _ => (r matches Err(e) && e matches StatementError::ConditionalBoolean(m, s2)
                        && m@ == crate::value::value_text(crate::value::strip_mutable(bound))
                        && s2 == span),
                }),
            }),
            final(cs).next_variable >= old(cs).next_variable,
            final(cs).num_constraints >= old(cs).num_constraints,
        decreases fuel, 2int, statement,
    {
        // Inherit the indicator from the enclosing conditional, or assume
        // this is the outer parent.
        let outer_indicator = match indicator {
            Some(b) => b,
            None => Bit::Constant(true),
        };

        // Evaluate the conditional boolean as the inner indicator.
        let boolean_expected = List::Cons(Box::new(Type::Boolean), Box::new(List::Nil));
        let inner_indicator = match self.enforce_expression(
            cs,
            file_scope,
            function_scope,
            &boolean_expected,
            &statement.condition,
            fuel,
        ) {
            Ok(ConstrainedValue::Boolean(b)) => b,
            Ok(value) => {
                return Err(
                    StatementError::ConditionalBoolean(crate::value::value_to_string(&value), span),
                );
            },
            Err(err) => {
                return Err(StatementError::ExpressionError(err));
            },
        };

        // If outer_indicator AND inner_indicator, then select branch 1.
        let outer_indicator_string = indicator_to_string(&outer_indicator);
        let inner_indicator_string = indicator_to_string(&inner_indicator);
        let branch_1_name = String::from_str("branch indicator 1 ").concat(
            outer_indicator_string.as_str(),
        ).concat(" && ").concat(inner_indicator_string.as_str());
        let branch_1_indicator = match bit_and(cs, &outer_indicator, &inner_indicator) {
            Ok(b) => b,
            Err(_) => {
                return Err(StatementError::IndicatorCalculation(branch_1_name, span));
            },
        };

        let ghost cv = bit_value(inner_indicator);
        let ghost outer_v = indicator_value(indicator);

        // Evaluate branch 1.
        let mut results = self.evaluate_branch(
            cs,
            file_scope,
            function_scope,
            Some(branch_1_indicator),
            &statement.statements,
            return_types,
            fuel,
        )?;

        let ghost n1 = results@.len() as int;

        // If outer_indicator AND NOT inner_indicator, then select branch 2.
        let negated_inner = bit_not(&inner_indicator);
        let negated_inner_string = indicator_to_string(&negated_inner);
        let branch_2_name = String::from_str("branch indicator 2 ").concat(
            outer_indicator_string.as_str(),
        ).concat(" && ").concat(negated_inner_string.as_str());
        let branch_2_indicator = match bit_and(cs, &outer_indicator, &negated_inner) {
            Ok(b) => b,
            Err(_) => {
                return Err(StatementError::IndicatorCalculation(branch_2_name, span));
            },
        };

        // Evaluate branch 2: a nested conditional, a terminal else-body, or
        // nothing.
        let mut branch_2_results: Vec<(Option<Bit>, ConstrainedValue)> = match &statement.next {
            Some(ConditionalNestedOrEndStatement::Nested(nested)) => {
                let res = self.enforce_conditional_statement(
                    cs,
                    file_scope,
                    function_scope,
                    Some(branch_2_indicator),
                    nested,
                    return_types,
                    span,
                    fuel,
                )?;
                proof {
                    lemma_segments_gated_weaken(Some(branch_2_indicator), **nested, res@);
                }
                res
            },
            Some(ConditionalNestedOrEndStatement::End(statements)) => {
                self.evaluate_branch(
                    cs,
                    file_scope,
                    function_scope,
                    Some(branch_2_indicator),
                    statements,
                    return_types,
                    fuel,
                )?
            },
            None => Vec::new(),
        };

        // Return the results of both branches; the caller selects the one
        // live value.
        let ghost r1 = results@;
        let ghost r2 = branch_2_results@;
        results.append(&mut branch_2_results);
        proof {
            assert(results@ == r1 + r2);
            assert(indicator_value(Some(branch_1_indicator)) == opt_and(outer_v, cv));
            assert(indicator_value(Some(branch_2_indicator)) == opt_and(outer_v, opt_not(cv)));
            assert forall|k: int|
                0 <= k < n1 implies gated_by(
                indicator_value(#[trigger] results@[k].0),
                opt_and(outer_v, cv),
            ) by {
                assert(results@[k] == r1[k]);
                assert(gated_by(
                    indicator_value(r1[k].0),
                    indicator_value(Some(branch_1_indicator)),
                ));
            }
            assert forall|k: int|
                n1 <= k < results@.len() implies gated_by(
                indicator_value(#[trigger] results@[k].0),
                opt_and(outer_v, opt_not(cv)),
            ) by {
                assert(results@[k] == r2[k - n1]);
                assert(gated_by(
                    indicator_value(r2[k - n1].0),
                    indicator_value(Some(branch_2_indicator)),
                ));
            }
            assert(r1.len() >= crate::statement::min_candidates_stmts(statement.statements));
            assert(r2.len() >= crate::statement::min_candidates_next(statement.next));
            assert(conditional_split(indicator_value(indicator), *statement, cv, n1, results@));
            assert(conditional_post(indicator, *statement, results@));
            match statement.condition {
                Expression::Boolean(cb, _) => {
                    assert(cv == Some(cb));
                    assert(conditional_split(
                        indicator_value(indicator),
                        *statement,
                        Some(cb),
                        n1,
                        results@,
                    ));
                    assert(conditional_post_with(indicator, *statement, Some(cb), results@));
                },
                _ => {},
            }
            if plain_two_way(*statement) {
                assert forall|k: int|
                    0 <= k < n1 implies indicator_value(#[trigger] results@[k].0) == opt_and(
                    outer_v,
                    cv,
                ) by {
                    assert(results@[k] == r1[k]);
                    assert(r1[k].0 == Some(branch_1_indicator));
                }
                assert forall|k: int|
                    n1 <= k < results@.len() implies indicator_value(#[trigger] results@[k].0)
                    == opt_and(outer_v, opt_not(cv)) by {
                    assert(results@[k] == r2[k - n1]);
                    assert(r2[k - n1].0 == Some(branch_2_indicator));
                }
                assert(r1.len() == crate::statement::min_candidates_stmts(statement.statements));
                assert(r2.len() == crate::statement::min_candidates_next(statement.next));
                assert(two_way_exact(indicator_value(indicator), cv, n1, results@));
                assert(two_way_post(indicator, *statement, cv, results@));
                assert(two_way_post_some(indicator, *statement, results@));
            }
            if indicator is None && literal_conditional(*statement, *return_types) {
                assert(r1.len() == statement.statements.seq().len());
                assert forall|j: int|
                    0 <= j < n1 implies crate::statement::pair_is_literal_return(
                    statement.statements.seq()[j],
                    (#[trigger] results@[j]).1,
                ) by {
                    assert(results@[j] == r1[j]);
                }
                match &statement.next {
                    Some(ConditionalNestedOrEndStatement::End(eb)) => {
                        assert(r2.len() == eb.seq().len());
                        assert forall|j: int|
                            n1 <= j < results@.len() implies crate::statement::pair_is_literal_return(
                            eb.seq()[j - n1],
                            (#[trigger] results@[j]).1,
                        ) by {
                            assert(results@[j] == r2[j - n1]);
                        }
                    },
                    None => {},
                    Some(ConditionalNestedOrEndStatement::Nested(_)) => {},
                }
                assert(literal_two_way_values(*statement, results@));
            }
        }
        Ok(results)
    }
}

} // verus!
