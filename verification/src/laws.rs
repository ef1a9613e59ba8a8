//! The laws of the branch-unification protocol and of member resolution,
//! proved against the spec functions the engine's contracts are stated over.

use vstd::prelude::*;

use crate::ast::CircuitMember;
use crate::conditional::{segments_gated, two_way_exact};
use crate::function::select_spec;
use crate::list::List;
use crate::r1cs::{indicator_value, opt_and, opt_not, Bit};
use crate::value::{
    declared_field_names, find_member_spec, member_names, ConstrainedCircuitMember,
    ConstrainedValue,
};

verus! {

/// Indicator exclusivity: under a live outer indicator, the two branch
/// indicators of a two-way conditional carry the condition's witness value
/// and its negation — they are logical negations of each other for any
/// witness assignment to the condition.
pub proof fn indicator_exclusivity(c: bool)
    ensures
        opt_and(Some(true), Some(c)) == Some(c),
        opt_and(Some(true), opt_not(Some(c))) == Some(!c),
{
}

/// Indicator exclusivity at the enforcement level: a compiled two-segment
/// conditional under a live outer indicator never has a live result in both
/// segments.
pub proof fn conditional_branch_exclusivity(
    res: Seq<(Option<Bit>, ConstrainedValue)>,
    cv: Option<bool>,
    n1: int,
)
    requires
        segments_gated(Some(true), cv, n1, res),
    ensures
        forall|i: int, j: int|
            0 <= i < n1 <= j < res.len() ==> !(indicator_value(#[trigger] res[i].0) == Some(true)
                && indicator_value(#[trigger] res[j].0) == Some(true)),
{
    assert forall|i: int, j: int|
        0 <= i < n1 <= j < res.len() implies !(indicator_value(#[trigger] res[i].0) == Some(true)
        && indicator_value(#[trigger] res[j].0) == Some(true)) by {
        if indicator_value(res[i].0) == Some(true) && indicator_value(res[j].0) == Some(true) {
            assert(opt_and(Some(true), cv) == Some(true));
            assert(opt_and(Some(true), opt_not(cv)) == Some(true));
        }
    }
}

/// The two branch indicators of a plain two-way conditional under a live
/// outer indicator carry the condition's witness value and its negation:
/// for any witness assignment to the condition, one is true exactly when
/// the other is false. The premise is what the conditional enforcer's
/// contract gives for plain two-way shapes with a pinned condition value.
pub proof fn two_way_indicators_are_negations(
    res: Seq<(Option<Bit>, ConstrainedValue)>,
    c: bool,
    n1: int,
)
    requires
        two_way_exact(Some(true), Some(c), n1, res),
    ensures
        forall|i: int| 0 <= i < n1 ==> indicator_value(#[trigger] res[i].0) == Some(c),
        forall|j: int| n1 <= j < res.len() ==> indicator_value(#[trigger] res[j].0) == Some(!c),
{
}

/// The indicator of the `i`-th branch of an `if / else if / ... / else`
/// chain with the given condition witness values: the conjunction of the
/// outer liveness, the negations of every earlier condition, and the `i`-th
/// condition.
pub open spec fn chain_indicator(outer: bool, conds: Seq<bool>, i: int) -> bool
    decreases conds.len(),
{
    if conds.len() == 0 {
        false
    } else if i == 0 {
        outer && conds[0]
    } else {
        chain_indicator(outer && !conds[0], conds.drop_first(), i - 1)
    }
}

/// The indicator of the terminal `else` body: the outer liveness and the
/// negations of every condition.
pub open spec fn else_indicator(outer: bool, conds: Seq<bool>) -> bool
    decreases conds.len(),
{
    if conds.len() == 0 {
        outer
    } else {
        else_indicator(outer && !conds[0], conds.drop_first())
    }
}

/// A live branch indicator implies a live outer context.
pub proof fn lemma_chain_implies_outer(outer: bool, conds: Seq<bool>, i: int)
    ensures
        chain_indicator(outer, conds, i) ==> outer,
        else_indicator(outer, conds) ==> outer,
    decreases conds.len(),
{
    if conds.len() > 0 {
        lemma_chain_implies_outer(outer && !conds[0], conds.drop_first(), i - 1);
    }
}

/// Else-if chaining: with a live outer context, exactly one of the N + 1
/// indicators of an N-condition chain with a terminal else is true, for any
/// witness assignment to the conditions.
pub proof fn else_if_chaining(outer: bool, conds: Seq<bool>)
    ensures
        forall|i: int, j: int|
            0 <= i < j < conds.len() ==> !(#[trigger] chain_indicator(outer, conds, i)
                && #[trigger] chain_indicator(outer, conds, j)),
        forall|i: int|
            0 <= i < conds.len() ==> !(#[trigger] chain_indicator(outer, conds, i)
                && else_indicator(outer, conds)),
        outer ==> ((exists|i: int|
            0 <= i < conds.len() && #[trigger] chain_indicator(outer, conds, i))
            || else_indicator(outer, conds)),
    decreases conds.len(),
{
    if conds.len() == 0 {
    } else {
        let rest = conds.drop_first();
        let inner = outer && !conds[0];
        else_if_chaining(inner, rest);
        assert forall|i: int, j: int|
            0 <= i < j < conds.len() implies !(#[trigger] chain_indicator(outer, conds, i)
            && #[trigger] chain_indicator(outer, conds, j)) by {
            if i == 0 {
                if chain_indicator(outer, conds, 0) && chain_indicator(outer, conds, j) {
                    lemma_chain_implies_outer(inner, rest, j - 1);
                }
            } else {
                assert(chain_indicator(outer, conds, i) == chain_indicator(inner, rest, i - 1));
                assert(chain_indicator(outer, conds, j) == chain_indicator(inner, rest, j - 1));
            }
        }
        assert forall|i: int|
            0 <= i < conds.len() implies !(#[trigger] chain_indicator(outer, conds, i)
            && else_indicator(outer, conds)) by {
            if i == 0 {
                if chain_indicator(outer, conds, 0) && else_indicator(outer, conds) {
                    lemma_chain_implies_outer(inner, rest, 0);
                    assert(else_indicator(outer, conds) == else_indicator(inner, rest));
                    assert(else_indicator(inner, rest) ==> inner);
                }
            } else {
                assert(chain_indicator(outer, conds, i) == chain_indicator(inner, rest, i - 1));
                assert(else_indicator(outer, conds) == else_indicator(inner, rest));
            }
        }
        if outer {
            if conds[0] {
                assert(chain_indicator(outer, conds, 0));
            } else {
                assert(inner);
                if exists|i: int| 0 <= i < rest.len() && #[trigger] chain_indicator(
                    inner,
                    rest,
                    i,
                ) {
                    let i = choose|i: int|
                        0 <= i < rest.len() && #[trigger] chain_indicator(inner, rest, i);
                    assert(chain_indicator(outer, conds, i + 1));
                }
            }
        }
    }
}

/// Undefined members fail: member lookup finds no value exactly when the
/// attempted name is not among the instance's member names — it never
/// returns a default.
pub proof fn undefined_member_fails(members: List<ConstrainedCircuitMember>, name: Seq<char>)
    ensures
        (find_member_spec(members, name) is None) <==> !member_names(members).contains(name),
    decreases members,
{
    match members {
        List::Nil => {
            assert(member_names(members).len() == 0);
            if member_names(members).contains(name) {
                let k = choose|k: int|
                    0 <= k < member_names(members).len() && member_names(members)[k] == name;
                assert(false);
            }
        },
        List::Cons(m, rest) => {
            undefined_member_fails(*rest, name);
            assert(member_names(members) == seq![m.0.name@] + member_names(*rest));
            if m.0.name@ == name {
                assert(member_names(members)[0] == name);
                assert(member_names(members).contains(name));
            } else {
                if member_names(members).contains(name) {
                    let k = choose|k: int|
                        0 <= k < member_names(members).len() && member_names(members)[k] == name;
                    assert(k != 0);
                    assert(member_names(*rest)[k - 1] == name);
                    assert(member_names(*rest).contains(name));
                }
                if member_names(*rest).contains(name) {
                    let k = choose|k: int|
                        0 <= k < member_names(*rest).len() && member_names(*rest)[k] == name;
                    assert(member_names(members)[k + 1] == name);
                    assert(member_names(members).contains(name));
                }
            }
        },
    }
}

/// Whether every declared member of a circuit is an associated function.
pub open spec fn all_function_members(members: List<CircuitMember>) -> bool
    decreases members,
{
    match members {
        List::Nil => true,
        List::Cons(m, rest) => (*m is CircuitFunction) && all_function_members(*rest),
    }
}

/// Static dispatch round trip: a circuit whose declared members are all
/// associated functions — however many — compiles a member-less construction
/// to an instance whose member set is empty, equal to the construction
/// expression's member set.
pub proof fn static_circuit_instance_is_empty(members: List<CircuitMember>)
    requires
        all_function_members(members),
    ensures
        declared_field_names(members) == Seq::<Seq<char>>::empty(),
    decreases members,
{
    match members {
        List::Nil => {},
        List::Cons(m, rest) => {
            static_circuit_instance_is_empty(*rest);
        },
    }
}


/// The return reduction selects the unique live candidate: when every other
/// candidate's indicator is provably false, the reducer returns exactly the
/// value the live branch produced.
pub proof fn select_takes_unique_live(s: Seq<(Option<Bit>, ConstrainedValue)>, i: int)
    requires
        0 <= i < s.len(),
        indicator_value(s[i].0) != Some(false),
        forall|k: int|
            0 <= k < s.len() && k != i ==> indicator_value(#[trigger] s[k].0) == Some(false),
    ensures
        select_spec(s) == Some(s[i].1),
    decreases s.len(),
{
    if indicator_value(s[0].0) != Some(false) {
        assert(i == 0);
    } else {
        let rest = s.drop_first();
        assert forall|k: int|
            0 <= k < rest.len() && k != i - 1 implies indicator_value(#[trigger] rest[k].0)
            == Some(false) by {
            assert(rest[k] == s[k + 1]);
        }
        assert(rest[i - 1] == s[i]);
        select_takes_unique_live(rest, i - 1);
    }
}

} // verus!
