//! The error hierarchy of the engine. Every error carries the span of the
//! construct it arose from; wrapping follows the call structure, and no error
//! is recovered from: any error aborts the whole compilation.

use vstd::prelude::*;

use crate::list::List;
use crate::span::Span;

verus! {

/// An error while compiling an expression.
#[derive(Debug, PartialEq, Eq)]
pub enum ExpressionError {
    /// An identifier that no scope binds.
    UndefinedIdentifier(String, Span),
    /// `self` used where no enclosing circuit binds it.
    UndefinedSelf(Span),
    /// A circuit construction naming an undeclared circuit type.
    UndefinedCircuit(String, Span),
    /// A member access naming no member; carries the attempted name and the
    /// declared member names for diagnostics.
    UndefinedMember(String, List<String>, Span),
    /// A static access naming no static function of the circuit.
    UndefinedStaticAccess(String, Span),
    /// A static access through the member-access form, or the converse.
    InvalidStaticAccess(String, Span),
    /// A member access on a value that is not a circuit instance.
    InvalidMemberTarget(Span),
    /// A call of a value that is not a function.
    NotAFunction(Span),
    /// A circuit construction missing a declared field.
    MissingCircuitMember(String, Span),
    /// Operand variants an operator does not accept.
    InvalidOperands(Span),
    /// Integer operands of differing bit width.
    IntegerWidthMismatch(Span),
    /// An arithmetic result outside its bit width.
    IntegerOverflow(Span),
    /// An integer literal outside the width it was given.
    LiteralOutOfRange(Span),
    /// An unsuffixed integer literal with no expected width to take.
    AmbiguousLiteral(Span),
    /// An array index outside the array's length.
    IndexOutOfBounds(Span),
    /// An array index that is not a compile-time-known integer.
    NonConstantIndex(Span),
    /// An array access on a value that is not an array.
    InvalidIndexTarget(Span),
    /// A ternary conditional whose guard only a later witness determines,
    /// selecting between values that are not boolean bits.
    UnknownWitnessSelection(Span),
    /// A gadget allocation failed in the underlying constraint system.
    SynthesisFailure(Span),
    /// A value against an expected type it does not inhabit.
    TypeMismatch(Span),
    /// The call depth budget was exhausted.
    CallDepthExceeded(Span),
    /// A failure inside a called function's body.
    FunctionError(Box<FunctionError>),
}

/// An error while enforcing a statement.
#[derive(Debug, PartialEq, Eq)]
pub enum StatementError {
    /// A failure while evaluating a sub-expression.
    ExpressionError(ExpressionError),
    /// A conditional guard that did not compile to a boolean; carries the
    /// offending value's printed form.
    ConditionalBoolean(String, Span),
    /// The branch indicator gadget failed to allocate; carries the branch
    /// name built from the indicator values.
    IndicatorCalculation(String, Span),
    /// An assignment to a binding not declared mutable.
    ImmutableAssignment(String, Span),
    /// An assignment to a name that no scope binds.
    UndefinedVariable(String, Span),
    /// An assertion between values that are statically unequal in a context
    /// that is not statically dead.
    AssertionFailed(Span),
    /// An assertion between values no constraint can compare.
    InvalidAssertion(Span),
    /// A loop bound that is not a compile-time-known integer.
    NonConstantLoopBound(Span),
    /// A constraint could not be emitted: the system is saturated.
    ConstraintSaturated(Span),
    /// A return statement whose expression count differs from the declared
    /// return types.
    ReturnArity(Span),
}

/// An error while compiling a function.
#[derive(Debug, PartialEq, Eq)]
pub enum FunctionError {
    /// A failure inside the function body.
    StatementError(StatementError),
    /// A call with an argument count differing from the parameter count.
    ArityMismatch(Span),
    /// An argument value outside its declared parameter type.
    InputTypeMismatch(String, Span),
    /// A body that produced no live return candidate for declared returns.
    MissingReturn(Span),
}

/// The top-level error of a compilation.
#[derive(Debug, PartialEq, Eq)]
pub enum CompilerError {
    FunctionError(FunctionError),
    /// The requested entry function is not declared.
    UndefinedEntry(String),
}

} // verus!
