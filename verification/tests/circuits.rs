//! Circuit compilation: construction, member access, static dispatch, self.

use leo_compiler::ast::{
    Circuit, CircuitFieldDefinition, CircuitMember, Declare, Expression, Function, FunctionInput,
    Program, Statement,
};
use leo_compiler::errors::{CompilerError, ExpressionError, FunctionError, StatementError};
use leo_compiler::function::compile_program;
use leo_compiler::list::DeepClone;
use leo_compiler::list::List;
use leo_compiler::r1cs::R1CS;
use leo_compiler::span::{Identifier, Span};
use leo_compiler::types::{IntegerType, Type};
use leo_compiler::value::{ConstrainedCircuitMember, ConstrainedValue, Integer};

fn sp() -> Span {
    Span { line: 0, start: 0, end: 0 }
}

fn id(name: &str) -> Identifier {
    Identifier { name: name.to_string(), span: sp() }
}

fn list<T>(items: Vec<T>) -> List<T> {
    let mut l = List::Nil;
    for item in items.into_iter().rev() {
        l = List::Cons(Box::new(item), Box::new(l));
    }
    l
}

fn u32_lit(v: u128) -> Expression {
    Expression::Integer(Some(IntegerType::U32), v, sp())
}

fn var(name: &str) -> Expression {
    Expression::Identifier(id(name))
}

fn field_def(name: &str, e: Expression) -> CircuitFieldDefinition {
    CircuitFieldDefinition { identifier: id(name), expression: e }
}

fn construct(name: &str, fields: Vec<CircuitFieldDefinition>) -> Expression {
    Expression::Circuit(id(name), list(fields), sp())
}

fn member(target: Expression, name: &str) -> Expression {
    Expression::CircuitMemberAccess(Box::new(target), id(name), sp())
}

fn static_access(circuit: &str, name: &str) -> Expression {
    Expression::CircuitStaticFunctionAccess(Box::new(var(circuit)), id(name), sp())
}

fn call(callee: Expression, args: Vec<Expression>) -> Expression {
    Expression::FunctionCall(Box::new(callee), list(args), sp())
}

fn ret(values: Vec<Expression>) -> Statement {
    Statement::Return(list(values), sp())
}

fn let_stmt(name: &str, e: Expression) -> Statement {
    Statement::Definition(Declare::Let, id(name), None, e, sp())
}

fn function(name: &str, inputs: Vec<FunctionInput>, returns: Vec<Type>, body: Vec<Statement>) -> Function {
    Function {
        function_name: id(name),
        inputs: list(inputs),
        returns: list(returns),
        statements: list(body),
        span: sp(),
    }
}

fn input(name: &str, t: Type) -> FunctionInput {
    FunctionInput { identifier: id(name), mutable: false, type_: t }
}

fn circuit(name: &str, members: Vec<CircuitMember>) -> Circuit {
    Circuit { circuit_name: id(name), members: list(members) }
}

fn program(circuits: Vec<Circuit>, functions: Vec<Function>) -> Program {
    Program { name: "test".to_string(), circuits: list(circuits), functions: list(functions) }
}

fn compile(p: &Program) -> Result<ConstrainedValue, CompilerError> {
    let mut cs = R1CS::new();
    compile_program(p, &mut cs, &"main".to_string(), &List::Nil, 16)
}

fn returned_u32(v: u32) -> ConstrainedValue {
    ConstrainedValue::Return(list(vec![ConstrainedValue::Integer(Integer::U32(v))]))
}

fn expect_expression_error(r: Result<ConstrainedValue, CompilerError>) {
    match r {
        Err(CompilerError::FunctionError(FunctionError::StatementError(
            StatementError::ExpressionError(_),
        ))) => {}
        other => panic!("expected an expression error, got {:?}", other),
    }
}

// A circuit with one u32 field, used by most of the member tests.
fn foo_with_x() -> Circuit {
    circuit("Foo", vec![CircuitMember::CircuitField(id("x"), Type::IntegerType(IntegerType::U32))])
}

#[test]
fn test_inline() {
    // circuit Foo { x: u32 }  main() -> Foo { return Foo { x: 1u32 } }
    let p = program(
        vec![foo_with_x()],
        vec![function(
            "main",
            vec![],
            vec![Type::Circuit(id("Foo"))],
            vec![ret(vec![construct("Foo", vec![field_def("x", u32_lit(1))])])],
        )],
    );
    let expected = ConstrainedValue::Return(list(vec![ConstrainedValue::CircuitExpression(
        id("Foo"),
        list(vec![ConstrainedCircuitMember(
            id("x"),
            ConstrainedValue::Integer(Integer::U32(1)),
        )]),
    )]));
    assert_eq!(compile(&p).unwrap(), expected);
}

#[test]
fn test_inline_fail() {
    // The construction provides `y`, but `Foo` declares only `x`.
    let p = program(
        vec![foo_with_x()],
        vec![function(
            "main",
            vec![],
            vec![Type::Circuit(id("Foo"))],
            vec![ret(vec![construct("Foo", vec![field_def("y", u32_lit(0))])])],
        )],
    );
    expect_expression_error(compile(&p));
}

#[test]
fn test_inline_undefined() {
    // `Bar` is not declared anywhere.
    let p = program(
        vec![],
        vec![function(
            "main",
            vec![],
            vec![Type::Circuit(id("Bar"))],
            vec![ret(vec![construct("Bar", vec![])])],
        )],
    );
    match compile(&p) {
        Err(CompilerError::FunctionError(FunctionError::StatementError(
            StatementError::ExpressionError(ExpressionError::UndefinedCircuit(name, _)),
        ))) => assert_eq!(name, "Bar"),
        other => panic!("Expected undefined circuit error, got {:?}", other),
    }
}

#[test]
fn test_member_field() {
    // main: let foo = Foo { x: 1u32 }; return foo.x
    let p = program(
        vec![foo_with_x()],
        vec![function(
            "main",
            vec![],
            vec![Type::IntegerType(IntegerType::U32)],
            vec![
                let_stmt("foo", construct("Foo", vec![field_def("x", u32_lit(1))])),
                ret(vec![member(var("foo"), "x")]),
            ],
        )],
    );
    assert_eq!(compile(&p).unwrap(), returned_u32(1));
}

#[test]
fn test_member_field_fail() {
    // foo.y is not a member of Foo.
    let p = program(
        vec![foo_with_x()],
        vec![function(
            "main",
            vec![],
            vec![Type::IntegerType(IntegerType::U32)],
            vec![
                let_stmt("foo", construct("Foo", vec![field_def("x", u32_lit(1))])),
                ret(vec![member(var("foo"), "y")]),
            ],
        )],
    );
    expect_expression_error(compile(&p));
}

#[test]
fn test_member_field_and_function() {
    // circuit Foo { x: u32  function echo() -> u32 { return self.x } }
    let echo = function(
        "echo",
        vec![],
        vec![Type::IntegerType(IntegerType::U32)],
        vec![ret(vec![member(var("self"), "x")])],
    );
    let p = program(
        vec![circuit(
            "Foo",
            vec![
                CircuitMember::CircuitField(id("x"), Type::IntegerType(IntegerType::U32)),
                CircuitMember::CircuitFunction(false, echo),
            ],
        )],
        vec![function(
            "main",
            vec![],
            vec![Type::IntegerType(IntegerType::U32)],
            vec![
                let_stmt("foo", construct("Foo", vec![field_def("x", u32_lit(1))])),
                ret(vec![call(member(var("foo"), "echo"), vec![])]),
            ],
        )],
    );
    assert_eq!(compile(&p).unwrap(), returned_u32(1));
}

#[test]
fn test_member_function() {
    // circuit Foo { function echo(x: u32) -> u32 { return x } }
    let echo = function(
        "echo",
        vec![input("x", Type::IntegerType(IntegerType::U32))],
        vec![Type::IntegerType(IntegerType::U32)],
        vec![ret(vec![var("x")])],
    );
    let p = program(
        vec![circuit("Foo", vec![CircuitMember::CircuitFunction(false, echo)])],
        vec![function(
            "main",
            vec![],
            vec![Type::IntegerType(IntegerType::U32)],
            vec![
                let_stmt("foo", construct("Foo", vec![])),
                ret(vec![call(member(var("foo"), "echo"), vec![u32_lit(1)])]),
            ],
        )],
    );
    assert_eq!(compile(&p).unwrap(), returned_u32(1));
}

#[test]
fn test_member_function_fail() {
    // foo.echo_undefined is not declared by Foo.
    let p = program(
        vec![foo_with_x()],
        vec![function(
            "main",
            vec![],
            vec![Type::IntegerType(IntegerType::U32)],
            vec![
                let_stmt("foo", construct("Foo", vec![field_def("x", u32_lit(1))])),
                ret(vec![call(member(var("foo"), "echo_undefined"), vec![u32_lit(1)])]),
            ],
        )],
    );
    expect_expression_error(compile(&p));
}

#[test]
fn test_member_function_invalid() {
    // A static function cannot be called through an instance.
    let echo = function(
        "echo",
        vec![input("x", Type::IntegerType(IntegerType::U32))],
        vec![Type::IntegerType(IntegerType::U32)],
        vec![ret(vec![var("x")])],
    );
    let p = program(
        vec![circuit("Foo", vec![CircuitMember::CircuitFunction(true, echo)])],
        vec![function(
            "main",
            vec![],
            vec![Type::IntegerType(IntegerType::U32)],
            vec![
                let_stmt("foo", construct("Foo", vec![])),
                ret(vec![call(member(var("foo"), "echo"), vec![u32_lit(1)])]),
            ],
        )],
    );
    expect_expression_error(compile(&p));
}

#[test]
fn test_member_function_nested() {
    // circuit Foo { x: u32
    //   function add_x(y: u32) -> u32 { return self.x + y }
    //   function call_add_x(y: u32) -> u32 { return self.add_x(y) } }
    let add_x = function(
        "add_x",
        vec![input("y", Type::IntegerType(IntegerType::U32))],
        vec![Type::IntegerType(IntegerType::U32)],
        vec![ret(vec![Expression::Add(
            Box::new(member(var("self"), "x")),
            Box::new(var("y")),
            sp(),
        )])],
    );
    let call_add_x = function(
        "call_add_x",
        vec![input("y", Type::IntegerType(IntegerType::U32))],
        vec![Type::IntegerType(IntegerType::U32)],
        vec![ret(vec![call(member(var("self"), "add_x"), vec![var("y")])])],
    );
    let p = program(
        vec![circuit(
            "Foo",
            vec![
                CircuitMember::CircuitField(id("x"), Type::IntegerType(IntegerType::U32)),
                CircuitMember::CircuitFunction(false, add_x),
                CircuitMember::CircuitFunction(false, call_add_x),
            ],
        )],
        vec![function(
            "main",
            vec![],
            vec![Type::IntegerType(IntegerType::U32)],
            vec![
                let_stmt("foo", construct("Foo", vec![field_def("x", u32_lit(1))])),
                ret(vec![call(member(var("foo"), "call_add_x"), vec![u32_lit(1)])]),
            ],
        )],
    );
    assert_eq!(compile(&p).unwrap(), returned_u32(2));
}

#[test]
fn test_member_static_function() {
    // circuit Foo { static function echo(x: u32) -> u32 { return x } }
    let echo = function(
        "echo",
        vec![input("x", Type::IntegerType(IntegerType::U32))],
        vec![Type::IntegerType(IntegerType::U32)],
        vec![ret(vec![var("x")])],
    );
    let p = program(
        vec![circuit("Foo", vec![CircuitMember::CircuitFunction(true, echo)])],
        vec![function(
            "main",
            vec![],
            vec![Type::IntegerType(IntegerType::U32)],
            vec![ret(vec![call(static_access("Foo", "echo"), vec![u32_lit(1)])])],
        )],
    );
    assert_eq!(compile(&p).unwrap(), returned_u32(1));
}

#[test]
fn test_member_static_function_undefined() {
    let p = program(
        vec![foo_with_x()],
        vec![function(
            "main",
            vec![],
            vec![Type::IntegerType(IntegerType::U32)],
            vec![ret(vec![call(static_access("Foo", "undefined"), vec![])])],
        )],
    );
    expect_expression_error(compile(&p));
}

#[test]
fn test_member_static_function_invalid() {
    // A non-static function cannot be reached through the static form.
    let echo = function(
        "echo",
        vec![input("x", Type::IntegerType(IntegerType::U32))],
        vec![Type::IntegerType(IntegerType::U32)],
        vec![ret(vec![var("x")])],
    );
    let p = program(
        vec![circuit("Foo", vec![CircuitMember::CircuitFunction(false, echo)])],
        vec![function(
            "main",
            vec![],
            vec![Type::IntegerType(IntegerType::U32)],
            vec![ret(vec![call(static_access("Foo", "echo"), vec![u32_lit(1)])])],
        )],
    );
    expect_expression_error(compile(&p));
}

#[test]
fn test_self_member() {
    // circuit Foo { f: u32  function bar() -> u32 { return self.f } }
    let bar = function(
        "bar",
        vec![],
        vec![Type::IntegerType(IntegerType::U32)],
        vec![ret(vec![member(var("self"), "f")])],
    );
    let p = program(
        vec![circuit(
            "Foo",
            vec![
                CircuitMember::CircuitField(id("f"), Type::IntegerType(IntegerType::U32)),
                CircuitMember::CircuitFunction(false, bar),
            ],
        )],
        vec![function(
            "main",
            vec![],
            vec![Type::IntegerType(IntegerType::U32)],
            vec![
                let_stmt("foo", construct("Foo", vec![field_def("f", u32_lit(1))])),
                ret(vec![call(member(var("foo"), "bar"), vec![])]),
            ],
        )],
    );
    assert_eq!(compile(&p).unwrap(), returned_u32(1));
}

#[test]
fn test_self_no_member_fail() {
    // The method reads self.f, but Foo declares no member f.
    let bar = function(
        "bar",
        vec![],
        vec![Type::IntegerType(IntegerType::U32)],
        vec![ret(vec![member(var("self"), "f")])],
    );
    let p = program(
        vec![circuit("Foo", vec![CircuitMember::CircuitFunction(false, bar)])],
        vec![function(
            "main",
            vec![],
            vec![Type::IntegerType(IntegerType::U32)],
            vec![
                let_stmt("foo", construct("Foo", vec![])),
                ret(vec![call(member(var("foo"), "bar"), vec![])]),
            ],
        )],
    );
    assert!(compile(&p).is_err());
}

#[test]
fn test_self_member_fail() {
    // An instance method reached through the static form has no self.
    let bar = function(
        "bar",
        vec![],
        vec![Type::IntegerType(IntegerType::U32)],
        vec![ret(vec![member(var("self"), "f")])],
    );
    let p = program(
        vec![circuit(
            "Foo",
            vec![
                CircuitMember::CircuitField(id("f"), Type::IntegerType(IntegerType::U32)),
                CircuitMember::CircuitFunction(false, bar),
            ],
        )],
        vec![function(
            "main",
            vec![],
            vec![Type::IntegerType(IntegerType::U32)],
            vec![ret(vec![call(static_access("Foo", "bar"), vec![])])],
        )],
    );
    assert!(compile(&p).is_err());
}

#[test]
fn test_self_circuit() {
    // circuit Foo { static function new() -> Self { return Self { } } }
    // main() -> Foo { return Foo::new() }
    let new_fn = function(
        "new",
        vec![],
        vec![Type::SelfType],
        vec![ret(vec![construct("Self", vec![])])],
    );
    let p = program(
        vec![circuit("Foo", vec![CircuitMember::CircuitFunction(true, new_fn)])],
        vec![function(
            "main",
            vec![],
            vec![Type::Circuit(id("Foo"))],
            vec![ret(vec![call(static_access("Foo", "new"), vec![])])],
        )],
    );
    let expected = ConstrainedValue::Return(list(vec![ConstrainedValue::CircuitExpression(
        id("Foo"),
        List::Nil,
    )]));
    assert_eq!(compile(&p).unwrap(), expected);
}

#[test]
fn test_pedersen_mock() {
    // circuit PedersenHash {
    //     parameters: [u32; 512]
    //     static function new(parameters: [u32; 512]) -> Self {
    //         return Self { parameters: parameters }
    //     }
    //     function hash(bits: [bool; 512]) -> u32 {
    //         let mut digest: u32 = 0;
    //         for i in 0..512 { digest = digest + (if bits[i] then self.parameters[i] else 0) }
    //         return digest
    //     }
    // }
    // main() -> u32 { return PedersenHash::new([0u32; 512]).hash([true; 512]) }
    let u32_array = Type::Array(Box::new(Type::IntegerType(IntegerType::U32)), 512);
    let bool_array = Type::Array(Box::new(Type::Boolean), 512);
    let new_fn = function(
        "new",
        vec![input("parameters", u32_array.deep_clone())],
        vec![Type::SelfType],
        vec![ret(vec![construct("Self", vec![field_def("parameters", var("parameters"))])])],
    );
    let select = Expression::IfElse(
        Box::new(Expression::ArrayAccess(Box::new(var("bits")), Box::new(var("i")), sp())),
        Box::new(Expression::ArrayAccess(
            Box::new(member(var("self"), "parameters")),
            Box::new(var("i")),
            sp(),
        )),
        Box::new(u32_lit(0)),
        sp(),
    );
    let hash_fn = function(
        "hash",
        vec![input("bits", bool_array)],
        vec![Type::IntegerType(IntegerType::U32)],
        vec![
            Statement::Definition(
                Declare::LetMut,
                id("digest"),
                Some(Type::IntegerType(IntegerType::U32)),
                u32_lit(0),
                sp(),
            ),
            Statement::For(
                id("i"),
                u32_lit(0),
                u32_lit(512),
                list(vec![Statement::Assign(
                    id("digest"),
                    Expression::Add(Box::new(var("digest")), Box::new(select), sp()),
                    sp(),
                )]),
                sp(),
            ),
            ret(vec![var("digest")]),
        ],
    );
    let p = program(
        vec![circuit(
            "PedersenHash",
            vec![
                CircuitMember::CircuitField(id("parameters"), u32_array),
                CircuitMember::CircuitFunction(true, new_fn),
                CircuitMember::CircuitFunction(false, hash_fn),
            ],
        )],
        vec![function(
            "main",
            vec![],
            vec![Type::IntegerType(IntegerType::U32)],
            vec![
                let_stmt(
                    "parameters",
                    Expression::ArrayInitializer(Box::new(u32_lit(0)), 512, sp()),
                ),
                let_stmt(
                    "pedersen",
                    call(static_access("PedersenHash", "new"), vec![var("parameters")]),
                ),
                let_stmt(
                    "input",
                    Expression::ArrayInitializer(
                        Box::new(Expression::Boolean(true, sp())),
                        512,
                        sp(),
                    ),
                ),
                ret(vec![call(member(var("pedersen"), "hash"), vec![var("input")])]),
            ],
        )],
    );
    assert_eq!(compile(&p).unwrap(), returned_u32(0));
}
