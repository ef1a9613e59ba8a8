//! One input for each error the engine can report.

use leo_compiler::ast::{
    ConditionalStatement, Declare, Expression, Function, FunctionInput, Program, Statement,
};
use leo_compiler::errors::{CompilerError, ExpressionError, FunctionError, StatementError};
use leo_compiler::function::compile_program;
use leo_compiler::list::List;
use leo_compiler::program::ConstrainedProgram;
use leo_compiler::r1cs::R1CS;
use leo_compiler::span::{Identifier, Span};
use leo_compiler::types::{IntegerType, Type};
use leo_compiler::value::{ConstrainedValue, Integer};

fn sp() -> Span {
    Span { line: 0, start: 0, end: 0 }
}

fn id(name: &str) -> Identifier {
    Identifier { name: name.to_string(), span: sp() }
}

fn list<T>(items: Vec<T>) -> List<T> {
    let mut l = List::Nil;
    for item in items.into_iter().rev() {
        l = List::Cons(Box::new(item), Box::new(l));
    }
    l
}

fn u32_lit(v: u128) -> Expression {
    Expression::Integer(Some(IntegerType::U32), v, sp())
}

fn var(name: &str) -> Expression {
    Expression::Identifier(id(name))
}

fn ret(values: Vec<Expression>) -> Statement {
    Statement::Return(list(values), sp())
}

fn function(name: &str, inputs: Vec<FunctionInput>, returns: Vec<Type>, body: Vec<Statement>) -> Function {
    Function {
        function_name: id(name),
        inputs: list(inputs),
        returns: list(returns),
        statements: list(body),
        span: sp(),
    }
}

fn main_program(body: Vec<Statement>) -> Program {
    Program {
        name: "test".to_string(),
        circuits: List::Nil,
        functions: list(vec![function(
            "main",
            vec![],
            vec![Type::IntegerType(IntegerType::U32)],
            body,
        )]),
    }
}

fn compile(p: &Program) -> Result<ConstrainedValue, CompilerError> {
    let mut cs = R1CS::new();
    compile_program(p, &mut cs, &"main".to_string(), &List::Nil, 16)
}

fn expression_error(r: Result<ConstrainedValue, CompilerError>) -> ExpressionError {
    match r {
        Err(CompilerError::FunctionError(FunctionError::StatementError(
            StatementError::ExpressionError(e),
        ))) => e,
        other => panic!("expected an expression error, got {:?}", other),
    }
}

fn statement_error(r: Result<ConstrainedValue, CompilerError>) -> StatementError {
    match r {
        Err(CompilerError::FunctionError(FunctionError::StatementError(e))) => e,
        other => panic!("expected a statement error, got {:?}", other),
    }
}

/// An evaluation context with `a` and `b` bound to allocated boolean
/// variables whose witness values only an input assignment determines.
fn witnessless_state() -> (ConstrainedProgram, R1CS) {
    let mut state = ConstrainedProgram::new();
    let mut cs = R1CS::new();
    let a = leo_compiler::r1cs::allocate_bit(&mut cs, None).unwrap();
    let b = leo_compiler::r1cs::allocate_bit(&mut cs, None).unwrap();
    state.store("file".to_string(), "a".to_string(), ConstrainedValue::Boolean(a));
    state.store("file".to_string(), "b".to_string(), ConstrainedValue::Boolean(b));
    (state, cs)
}

fn eval(
    state: &mut ConstrainedProgram,
    cs: &mut R1CS,
    e: &Expression,
    fuel: u64,
) -> Result<ConstrainedValue, ExpressionError> {
    state.enforce_expression(cs, &"file".to_string(), &"file_main".to_string(), &List::Nil, e, fuel)
}

#[test]
fn undefined_self_outside_circuit() {
    let p = main_program(vec![ret(vec![var("self")])]);
    assert!(matches!(expression_error(compile(&p)), ExpressionError::UndefinedSelf(_)));
}

#[test]
fn assignment_to_undefined_variable() {
    let p = main_program(vec![
        Statement::Assign(id("x"), u32_lit(1), sp()),
        ret(vec![u32_lit(0)]),
    ]);
    assert!(matches!(
        statement_error(compile(&p)),
        StatementError::UndefinedVariable(_, _)
    ));
}

#[test]
fn definition_against_declared_type_is_checked() {
    let p = main_program(vec![
        Statement::Definition(Declare::Let, id("x"), Some(Type::Boolean), u32_lit(1), sp()),
        ret(vec![u32_lit(0)]),
    ]);
    assert!(matches!(expression_error(compile(&p)), ExpressionError::TypeMismatch(_)));
}

#[test]
fn suffixed_literal_out_of_range() {
    let p = main_program(vec![
        Statement::Definition(
            Declare::Let,
            id("x"),
            None,
            Expression::Integer(Some(IntegerType::U8), 256, sp()),
            sp(),
        ),
        ret(vec![u32_lit(0)]),
    ]);
    assert!(matches!(
        expression_error(compile(&p)),
        ExpressionError::LiteralOutOfRange(_)
    ));
}

#[test]
fn member_access_on_non_circuit() {
    let p = main_program(vec![ret(vec![Expression::CircuitMemberAccess(
        Box::new(u32_lit(1)),
        id("x"),
        sp(),
    )])]);
    assert!(matches!(
        expression_error(compile(&p)),
        ExpressionError::InvalidMemberTarget(_)
    ));
}

#[test]
fn call_of_non_function() {
    let p = main_program(vec![
        Statement::Definition(Declare::Let, id("x"), None, u32_lit(1), sp()),
        ret(vec![Expression::FunctionCall(Box::new(var("x")), List::Nil, sp())]),
    ]);
    assert!(matches!(expression_error(compile(&p)), ExpressionError::NotAFunction(_)));
}

#[test]
fn non_constant_array_index() {
    let p = main_program(vec![
        Statement::Definition(
            Declare::Let,
            id("a"),
            None,
            Expression::ArrayInitializer(Box::new(u32_lit(0)), 3, sp()),
            sp(),
        ),
        ret(vec![Expression::ArrayAccess(
            Box::new(var("a")),
            Box::new(Expression::Boolean(true, sp())),
            sp(),
        )]),
    ]);
    assert!(matches!(
        expression_error(compile(&p)),
        ExpressionError::NonConstantIndex(_)
    ));
}

#[test]
fn index_into_non_array() {
    let p = main_program(vec![ret(vec![Expression::ArrayAccess(
        Box::new(u32_lit(1)),
        Box::new(u32_lit(0)),
        sp(),
    )])]);
    assert!(matches!(
        expression_error(compile(&p)),
        ExpressionError::InvalidIndexTarget(_)
    ));
}

#[test]
fn mismatched_operand_variants() {
    let p = main_program(vec![ret(vec![Expression::Add(
        Box::new(u32_lit(1)),
        Box::new(Expression::Boolean(true, sp())),
        sp(),
    )])]);
    assert!(matches!(
        expression_error(compile(&p)),
        ExpressionError::InvalidOperands(_)
    ));
}

#[test]
fn assertion_between_incomparable_values() {
    let arr = Expression::ArrayInitializer(Box::new(u32_lit(0)), 2, sp());
    let arr2 = Expression::ArrayInitializer(Box::new(u32_lit(0)), 2, sp());
    let p = main_program(vec![
        Statement::AssertEq(arr, arr2, sp()),
        ret(vec![u32_lit(0)]),
    ]);
    assert!(matches!(
        statement_error(compile(&p)),
        StatementError::InvalidAssertion(_)
    ));
}

#[test]
fn return_arity_is_checked() {
    let p = main_program(vec![ret(vec![u32_lit(1), u32_lit(2)])]);
    assert!(matches!(statement_error(compile(&p)), StatementError::ReturnArity(_)));
}

#[test]
fn missing_return_for_declared_type() {
    let p = main_program(vec![Statement::Expression(u32_lit(1), sp())]);
    assert!(matches!(
        compile(&p),
        Err(CompilerError::FunctionError(FunctionError::MissingReturn(_)))
    ));
}

#[test]
fn call_arity_is_checked() {
    let echo = function(
        "echo",
        vec![FunctionInput {
            identifier: id("x"),
            mutable: false,
            type_: Type::IntegerType(IntegerType::U32),
        }],
        vec![Type::IntegerType(IntegerType::U32)],
        vec![ret(vec![var("x")])],
    );
    let p = Program {
        name: "test".to_string(),
        circuits: List::Nil,
        functions: list(vec![
            echo,
            function(
                "main",
                vec![],
                vec![Type::IntegerType(IntegerType::U32)],
                vec![ret(vec![Expression::FunctionCall(
                    Box::new(var("echo")),
                    List::Nil,
                    sp(),
                )])],
            ),
        ]),
    };
    assert!(matches!(
        expression_error(compile(&p)),
        ExpressionError::FunctionError(e) if matches!(*e, FunctionError::ArityMismatch(_))
    ));
}

#[test]
fn argument_type_is_checked() {
    let echo = function(
        "echo",
        vec![FunctionInput {
            identifier: id("x"),
            mutable: false,
            type_: Type::IntegerType(IntegerType::U32),
        }],
        vec![Type::IntegerType(IntegerType::U32)],
        vec![ret(vec![var("x")])],
    );
    let p = Program {
        name: "test".to_string(),
        circuits: List::Nil,
        functions: list(vec![
            echo,
            function(
                "main",
                vec![],
                vec![Type::IntegerType(IntegerType::U32)],
                vec![ret(vec![Expression::FunctionCall(
                    Box::new(var("echo")),
                    list(vec![Expression::Boolean(true, sp())]),
                    sp(),
                )])],
            ),
        ]),
    };
    assert!(matches!(
        expression_error(compile(&p)),
        ExpressionError::FunctionError(e) if matches!(*e, FunctionError::InputTypeMismatch(_, _))
    ));
}

#[test]
fn call_depth_budget_reports_exhaustion() {
    let f = function(
        "f",
        vec![],
        vec![Type::IntegerType(IntegerType::U32)],
        vec![ret(vec![u32_lit(1)])],
    );
    let mut state = ConstrainedProgram::new();
    let mut cs = R1CS::new();
    state.store(
        "file".to_string(),
        "f".to_string(),
        ConstrainedValue::Function(None, Box::new(f)),
    );
    let call = Expression::FunctionCall(Box::new(var("f")), List::Nil, sp());
    let r = eval(&mut state, &mut cs, &call, 0);
    assert!(matches!(r, Err(ExpressionError::CallDepthExceeded(_))));
    let ok = eval(&mut state, &mut cs, &call, 1);
    assert_eq!(ok.unwrap(), ConstrainedValue::Integer(Integer::U32(1)));
}

#[test]
fn ternary_on_witnessless_guard_is_rejected() {
    let (mut state, mut cs) = witnessless_state();
    let ternary = Expression::IfElse(
        Box::new(var("a")),
        Box::new(u32_lit(1)),
        Box::new(u32_lit(2)),
        sp(),
    );
    let r = eval(&mut state, &mut cs, &ternary, 4);
    assert!(matches!(r, Err(ExpressionError::UnknownWitnessSelection(_))));
}

#[test]
fn gadget_failure_in_saturated_system() {
    let (mut state, mut cs) = witnessless_state();
    cs.next_variable = u64::MAX;
    let conjunction = Expression::And(Box::new(var("a")), Box::new(var("b")), sp());
    let r = eval(&mut state, &mut cs, &conjunction, 4);
    assert!(matches!(r, Err(ExpressionError::SynthesisFailure(_))));
}

#[test]
fn indicator_calculation_failure_in_saturated_system() {
    let (mut state, mut cs) = witnessless_state();
    cs.next_variable = u64::MAX;
    let conditional = ConditionalStatement {
        condition: var("a"),
        statements: list(vec![ret(vec![u32_lit(1)])]),
        next: None,
    };
    let r = state.enforce_conditional_statement(
        &mut cs,
        &"file".to_string(),
        &"file_main".to_string(),
        None,
        &conditional,
        &list(vec![Type::IntegerType(IntegerType::U32)]),
        sp(),
        4,
    );
    assert!(matches!(r, Err(StatementError::IndicatorCalculation(_, _))));
}

#[test]
fn assertion_constraint_in_saturated_system() {
    let mut state = ConstrainedProgram::new();
    let mut cs = R1CS::new();
    cs.num_constraints = u64::MAX;
    let r = state.enforce_statement(
        &mut cs,
        &"file".to_string(),
        &"file_main".to_string(),
        None,
        &Statement::AssertEq(u32_lit(1), u32_lit(1), sp()),
        &list(vec![Type::IntegerType(IntegerType::U32)]),
        4,
    );
    assert!(matches!(r, Err(StatementError::ConstraintSaturated(_))));
}

#[test]
fn field_handles_combine_through_the_system() {
    let mut state = ConstrainedProgram::new();
    let mut cs = R1CS::new();
    state.store("file".to_string(), "p".to_string(), ConstrainedValue::Field(0));
    state.store("file".to_string(), "q".to_string(), ConstrainedValue::Field(1));
    let sum = Expression::Add(Box::new(var("p")), Box::new(var("q")), sp());
    let r = eval(&mut state, &mut cs, &sum, 4).unwrap();
    assert_eq!(r, ConstrainedValue::Field(0));
    assert_eq!(cs.num_constraints, 1);
    let difference = Expression::Sub(Box::new(var("p")), Box::new(var("q")), sp());
    let r = eval(&mut state, &mut cs, &difference, 4);
    assert!(matches!(r, Err(ExpressionError::InvalidOperands(_))));
}

#[test]
fn unknown_witness_equality_compiles_to_a_bit() {
    // Equality between two witness-undetermined bits is an equality gadget,
    // not a compile error.
    let (mut state, mut cs) = witnessless_state();
    let variables_before = cs.next_variable;
    let equality = Expression::Eq(Box::new(var("a")), Box::new(var("b")), sp());
    let r = eval(&mut state, &mut cs, &equality, 4).unwrap();
    match r {
        ConstrainedValue::Boolean(bit) => {
            assert_eq!(leo_compiler::r1cs::bit_witness(&bit), None);
        }
        other => panic!("expected a boolean bit, got {:?}", other),
    }
    assert!(cs.next_variable > variables_before);
}

#[test]
fn boolean_ternary_with_unknown_guard_compiles_to_a_bit() {
    // Selecting between boolean bits under a witness-undetermined guard is
    // a select gadget; only non-boolean selections are rejected.
    let (mut state, mut cs) = witnessless_state();
    let ternary = Expression::IfElse(
        Box::new(var("a")),
        Box::new(Expression::Boolean(true, sp())),
        Box::new(Expression::Boolean(false, sp())),
        sp(),
    );
    let r = eval(&mut state, &mut cs, &ternary, 4).unwrap();
    match r {
        ConstrainedValue::Boolean(bit) => {
            assert_eq!(leo_compiler::r1cs::bit_witness(&bit), None);
        }
        other => panic!("expected a boolean bit, got {:?}", other),
    }
}
