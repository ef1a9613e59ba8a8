//! The typed abstract syntax tree the engine compiles: expressions,
//! statements, conditional chains, functions and circuit declarations.

use vstd::prelude::*;

use crate::list::{DeepClone, List};
use crate::span::{Identifier, Span};
use crate::types::{IntegerType, Type};

verus! {

/// An expression node. Integer literals carry their suffix width when one was
/// written; an unsuffixed literal takes its width from the expected types.
#[derive(Debug, PartialEq, Eq)]
pub enum Expression {
    Boolean(bool, Span),
    Integer(Option<IntegerType>, u128, Span),
    Identifier(Identifier),
    Not(Box<Expression>, Span),
    And(Box<Expression>, Box<Expression>, Span),
    Or(Box<Expression>, Box<Expression>, Span),
    Eq(Box<Expression>, Box<Expression>, Span),
    Add(Box<Expression>, Box<Expression>, Span),
    Sub(Box<Expression>, Box<Expression>, Span),
    Mul(Box<Expression>, Box<Expression>, Span),
    IfElse(Box<Expression>, Box<Expression>, Box<Expression>, Span),
    ArrayInline(List<Expression>, Span),
    ArrayInitializer(Box<Expression>, usize, Span),
    ArrayAccess(Box<Expression>, Box<Expression>, Span),
    Circuit(Identifier, List<CircuitFieldDefinition>, Span),
    CircuitMemberAccess(Box<Expression>, Identifier, Span),
    CircuitStaticFunctionAccess(Box<Expression>, Identifier, Span),
    FunctionCall(Box<Expression>, List<Expression>, Span),
}

/// One named member inside a circuit construction expression.
#[derive(Debug, PartialEq, Eq)]
pub struct CircuitFieldDefinition {
    pub identifier: Identifier,
    pub expression: Expression,
}

/// Whether a variable definition may be re-assigned.
#[derive(Debug, Clone, Copy, PartialEq, Eq, Structural)]
pub enum Declare {
    Let,
    LetMut,
}

/// A statement node. Conditionals carry their own chained representation.
#[derive(Debug, PartialEq, Eq)]
pub enum Statement {
    Return(List<Expression>, Span),
    Definition(Declare, Identifier, Option<Type>, Expression, Span),
    Assign(Identifier, Expression, Span),
    Conditional(ConditionalStatement, Span),
    For(Identifier, Expression, Expression, List<Statement>, Span),
    AssertEq(Expression, Expression, Span),
    Expression(Expression, Span),
}

/// A conditional with a primary body and an optional continuation: a nested
/// conditional realizes `else if`, a terminal list realizes `else`.
#[derive(Debug, PartialEq, Eq)]
pub struct ConditionalStatement {
    pub condition: Expression,
    pub statements: List<Statement>,
    pub next: Option<ConditionalNestedOrEndStatement>,
}

/// The continuation of a conditional chain.
#[derive(Debug, PartialEq, Eq)]
pub enum ConditionalNestedOrEndStatement {
    Nested(Box<ConditionalStatement>),
    End(List<Statement>),
}

/// One typed function parameter, optionally re-assignable in the body.
#[derive(Debug, PartialEq, Eq)]
pub struct FunctionInput {
    pub identifier: Identifier,
    pub mutable: bool,
    pub type_: Type,
}

/// A function definition, immutable after registration.
#[derive(Debug, PartialEq, Eq)]
pub struct Function {
    pub function_name: Identifier,
    pub inputs: List<FunctionInput>,
    pub returns: List<Type>,
    pub statements: List<Statement>,
    pub span: Span,
}

/// One declared member of a circuit: a typed field, or an associated
/// function tagged with whether it is static.
#[derive(Debug, PartialEq, Eq)]
pub enum CircuitMember {
    CircuitField(Identifier, Type),
    CircuitFunction(bool, Function),
}

/// A circuit type declaration.
#[derive(Debug, PartialEq, Eq)]
pub struct Circuit {
    pub circuit_name: Identifier,
    pub members: List<CircuitMember>,
}

/// A whole compilation unit: the declarations the initial environment is
/// populated with.
#[derive(Debug, PartialEq, Eq)]
pub struct Program {
    pub name: String,
    pub circuits: List<Circuit>,
    pub functions: List<Function>,
}

impl DeepClone for Expression {
    fn deep_clone(&self) -> (r: Self)
        ensures
            r == *self,
        decreases self,
    {
        match self {
            Expression::Boolean(b, s) => Expression::Boolean(*b, *s),
            Expression::Integer(t, v, s) => Expression::Integer(*t, *v, *s),
            Expression::Identifier(id) => Expression::Identifier(id.deep_clone()),
            Expression::Not(e, s) => Expression::Not(Box::new(e.deep_clone()), *s),
            Expression::And(l, r, s) => Expression::And(
                Box::new(l.deep_clone()),
                Box::new(r.deep_clone()),
                *s,
            ),
            Expression::Or(l, r, s) => Expression::Or(
                Box::new(l.deep_clone()),
                Box::new(r.deep_clone()),
                *s,
            ),
            Expression::Eq(l, r, s) => Expression::Eq(
                Box::new(l.deep_clone()),
                Box::new(r.deep_clone()),
                *s,
            ),
            Expression::Add(l, r, s) => Expression::Add(
                Box::new(l.deep_clone()),
                Box::new(r.deep_clone()),
                *s,
            ),
            Expression::Sub(l, r, s) => Expression::Sub(
                Box::new(l.deep_clone()),
                Box::new(r.deep_clone()),
                *s,
            ),
            Expression::Mul(l, r, s) => Expression::Mul(
                Box::new(l.deep_clone()),
                Box::new(r.deep_clone()),
                *s,
            ),
            Expression::IfElse(c, a, b, s) => Expression::IfElse(
                Box::new(c.deep_clone()),
                Box::new(a.deep_clone()),
                Box::new(b.deep_clone()),
                *s,
            ),
            Expression::ArrayInline(elems, s) => Expression::ArrayInline(clone_expression_list(elems), *s),
            Expression::ArrayInitializer(e, n, s) => Expression::ArrayInitializer(
                Box::new(e.deep_clone()),
                *n,
                *s,
            ),
            Expression::ArrayAccess(a, i, s) => Expression::ArrayAccess(
                Box::new(a.deep_clone()),
                Box::new(i.deep_clone()),
                *s,
            ),
            Expression::Circuit(id, fields, s) => Expression::Circuit(
                id.deep_clone(),
                clone_field_def_list(fields),
                *s,
            ),
            Expression::CircuitMemberAccess(e, id, s) => Expression::CircuitMemberAccess(
                Box::new(e.deep_clone()),
                id.deep_clone(),
                *s,
            ),
            Expression::CircuitStaticFunctionAccess(e, id, s) => {
                Expression::CircuitStaticFunctionAccess(Box::new(e.deep_clone()), id.deep_clone(), *s)
            },
            Expression::FunctionCall(f, args, s) => Expression::FunctionCall(
                Box::new(f.deep_clone()),
                clone_expression_list(args),
                *s,
            ),
        }
    }
}

impl DeepClone for CircuitFieldDefinition {
    fn deep_clone(&self) -> (r: Self)
        ensures
            r == *self,
        decreases self,
    {
        CircuitFieldDefinition {
            identifier: self.identifier.deep_clone(),
            expression: self.expression.deep_clone(),
        }
    }
}

impl DeepClone for Statement {
    fn deep_clone(&self) -> (r: Self)
        ensures
            r == *self,
        decreases self,
    {
        match self {
            Statement::Return(exprs, s) => Statement::Return(clone_expression_list(exprs), *s),
            Statement::Definition(d, id, t, e, s) => Statement::Definition(
                *d,
                id.deep_clone(),
                match t {
                    Some(t) => Some(t.deep_clone()),
                    None => None,
                },
                e.deep_clone(),
                *s,
            ),
            Statement::Assign(id, e, s) => Statement::Assign(id.deep_clone(), e.deep_clone(), *s),
            Statement::Conditional(c, s) => Statement::Conditional(c.deep_clone(), *s),
            Statement::For(id, from, to, body, s) => Statement::For(
                id.deep_clone(),
                from.deep_clone(),
                to.deep_clone(),
                clone_statement_list(body),
                *s,
            ),
            Statement::AssertEq(l, r, s) => Statement::AssertEq(l.deep_clone(), r.deep_clone(), *s),
            Statement::Expression(e, s) => Statement::Expression(e.deep_clone(), *s),
        }
    }
}

impl DeepClone for ConditionalStatement {
    fn deep_clone(&self) -> (r: Self)
        ensures
            r == *self,
        decreases self,
    {
        ConditionalStatement {
            condition: self.condition.deep_clone(),
            statements: clone_statement_list(&self.statements),
            next: match &self.next {
                Some(n) => Some(n.deep_clone()),
                None => None,
            },
        }
    }
}

impl DeepClone for ConditionalNestedOrEndStatement {
    fn deep_clone(&self) -> (r: Self)
        ensures
            r == *self,
        decreases self,
    {
        match self {
            ConditionalNestedOrEndStatement::Nested(c) => ConditionalNestedOrEndStatement::Nested(
                Box::new(c.deep_clone()),
            ),
            ConditionalNestedOrEndStatement::End(stmts) => ConditionalNestedOrEndStatement::End(
                clone_statement_list(stmts),
            ),
        }
    }
}

impl DeepClone for FunctionInput {
    fn deep_clone(&self) -> (r: Self)
        ensures
            r == *self,
    {
        FunctionInput {
            identifier: self.identifier.deep_clone(),
            mutable: self.mutable,
            type_: self.type_.deep_clone(),
        }
    }
}

impl DeepClone for Function {
    fn deep_clone(&self) -> (r: Self)
        ensures
            r == *self,
        decreases self,
    {
        Function {
            function_name: self.function_name.deep_clone(),
            inputs: clone_input_list(&self.inputs),
            returns: clone_type_list(&self.returns),
            statements: clone_statement_list(&self.statements),
            span: self.span,
        }
    }
}

impl DeepClone for CircuitMember {
    fn deep_clone(&self) -> (r: Self)
        ensures
            r == *self,
        decreases self,
    {
        match self {
            CircuitMember::CircuitField(id, t) => CircuitMember::CircuitField(
                id.deep_clone(),
                t.deep_clone(),
            ),
            CircuitMember::CircuitFunction(is_static, f) => CircuitMember::CircuitFunction(
                *is_static,
                f.deep_clone(),
            ),
        }
    }
}

impl DeepClone for Circuit {
    fn deep_clone(&self) -> (r: Self)
        ensures
            r == *self,
        decreases self,
    {
        Circuit { circuit_name: self.circuit_name.deep_clone(), members: clone_member_list(&self.members) }
    }
}


/// Deep copies of the list shapes the syntax tree uses.
pub fn clone_expression_list(l: &List<Expression>) -> (r: List<Expression>)
    ensures
        r == *l,
    decreases l,
{
    match l {
        List::Nil => List::Nil,
        List::Cons(h, t) => List::Cons(Box::new(h.deep_clone()), Box::new(clone_expression_list(t))),
    }
}

pub fn clone_field_def_list(l: &List<CircuitFieldDefinition>) -> (r: List<CircuitFieldDefinition>)
    ensures
        r == *l,
    decreases l,
{
    match l {
        List::Nil => List::Nil,
        List::Cons(h, t) => List::Cons(Box::new(h.deep_clone()), Box::new(clone_field_def_list(t))),
    }
}

pub fn clone_statement_list(l: &List<Statement>) -> (r: List<Statement>)
    ensures
        r == *l,
    decreases l,
{
    match l {
        List::Nil => List::Nil,
        List::Cons(h, t) => List::Cons(Box::new(h.deep_clone()), Box::new(clone_statement_list(t))),
    }
}

pub fn clone_type_list(l: &List<Type>) -> (r: List<Type>)
    ensures
        r == *l,
    decreases l,
{
    match l {
        List::Nil => List::Nil,
        List::Cons(h, t) => List::Cons(Box::new(h.deep_clone()), Box::new(clone_type_list(t))),
    }
}

pub fn clone_input_list(l: &List<FunctionInput>) -> (r: List<FunctionInput>)
    ensures
        r == *l,
    decreases l,
{
    match l {
        List::Nil => List::Nil,
        List::Cons(h, t) => List::Cons(Box::new(h.deep_clone()), Box::new(clone_input_list(t))),
    }
}

pub fn clone_member_list(l: &List<CircuitMember>) -> (r: List<CircuitMember>)
    ensures
        r == *l,
    decreases l,
{
    match l {
        List::Nil => List::Nil,
        List::Cons(h, t) => List::Cons(Box::new(h.deep_clone()), Box::new(clone_member_list(t))),
    }
}

} // verus!
