//! The tagged union of every intermediate compiled value, and the arithmetic
//! over fixed-width integers the expression evaluator dispatches to.

use vstd::prelude::*;
use vstd::string::StringExecFns;

use crate::ast::{Circuit, CircuitMember, Function};
use crate::list::{DeepClone, List};
use crate::r1cs::Bit;
use crate::span::Identifier;
use crate::types::{IntegerType, Type};

verus! {

/// A compiled integer of a fixed bit width, with its witness value.
#[derive(Debug, Clone, Copy, PartialEq, Eq)]
pub enum Integer {
    U8(u8),
    U16(u16),
    U32(u32),
    U64(u64),
    U128(u128),
    I8(i8),
    I16(i16),
    I32(i32),
    I64(i64),
    I128(i128),
}

/// The mathematical value an integer carries.
pub open spec fn integer_value(i: Integer) -> int {
    match i {
        Integer::U8(v) => v as int,
        Integer::U16(v) => v as int,
        Integer::U32(v) => v as int,
        Integer::U64(v) => v as int,
        Integer::U128(v) => v as int,
        Integer::I8(v) => v as int,
        Integer::I16(v) => v as int,
        Integer::I32(v) => v as int,
        Integer::I64(v) => v as int,
        Integer::I128(v) => v as int,
    }
}

/// The width tag an integer carries.
pub open spec fn integer_type_of(i: Integer) -> IntegerType {
    match i {
        Integer::U8(_) => IntegerType::U8,
        Integer::U16(_) => IntegerType::U16,
        Integer::U32(_) => IntegerType::U32,
        Integer::U64(_) => IntegerType::U64,
        Integer::U128(_) => IntegerType::U128,
        Integer::I8(_) => IntegerType::I8,
        Integer::I16(_) => IntegerType::I16,
        Integer::I32(_) => IntegerType::I32,
        Integer::I64(_) => IntegerType::I64,
        Integer::I128(_) => IntegerType::I128,
    }
}

/// Two integers of one width carrying one value are the same integer.
pub proof fn lemma_integer_pinned(a: Integer, b: Integer)
    requires
        integer_type_of(a) == integer_type_of(b),
        integer_value(a) == integer_value(b),
    ensures
        a == b,
{
}

/// One named member of a compiled circuit instance.
#[derive(Debug, PartialEq, Eq)]
pub struct ConstrainedCircuitMember(pub Identifier, pub ConstrainedValue);

/// Any intermediate compiled value. Field and group elements are opaque
/// handles into the constraint system; `Static` marks a function resolved for
/// static dispatch; `Mutable` marks a re-assignable binding; `Return` is the
/// terminal result of a function body.
#[derive(Debug, PartialEq, Eq)]
pub enum ConstrainedValue {
    Boolean(Bit),
    Integer(Integer),
    Field(u64),
    Group(u64),
    Array(List<ConstrainedValue>),
    CircuitDefinition(Circuit),
    CircuitExpression(Identifier, List<ConstrainedCircuitMember>),
    Function(Option<Identifier>, Box<Function>),
    Static(Box<ConstrainedValue>),
    Mutable(Box<ConstrainedValue>),
    Unresolved(String),
    Return(List<ConstrainedValue>),
}

impl DeepClone for ConstrainedCircuitMember {
    fn deep_clone(&self) -> (r: Self)
        ensures
            r == *self,
        decreases self,
    {
        ConstrainedCircuitMember(self.0.deep_clone(), self.1.deep_clone())
    }
}

impl DeepClone for ConstrainedValue {
    fn deep_clone(&self) -> (r: Self)
        ensures
            r == *self,
        decreases self,
    {
        match self {
            ConstrainedValue::Boolean(b) => ConstrainedValue::Boolean(*b),
            ConstrainedValue::Integer(i) => ConstrainedValue::Integer(*i),
            ConstrainedValue::Field(h) => ConstrainedValue::Field(*h),
            ConstrainedValue::Group(h) => ConstrainedValue::Group(*h),
            ConstrainedValue::Array(elems) => ConstrainedValue::Array(clone_value_list(elems)),
            ConstrainedValue::CircuitDefinition(c) => ConstrainedValue::CircuitDefinition(
                c.deep_clone(),
            ),
            ConstrainedValue::CircuitExpression(id, members) => ConstrainedValue::CircuitExpression(
                id.deep_clone(),
                clone_ccm_list(members),
            ),
            ConstrainedValue::Function(id, f) => ConstrainedValue::Function(
                match id {
                    Some(id) => Some(id.deep_clone()),
                    None => None,
                },
                Box::new(f.deep_clone()),
            ),
            ConstrainedValue::Static(v) => ConstrainedValue::Static(Box::new(v.deep_clone())),
            ConstrainedValue::Mutable(v) => ConstrainedValue::Mutable(Box::new(v.deep_clone())),
            ConstrainedValue::Unresolved(s) => ConstrainedValue::Unresolved(s.clone()),
            ConstrainedValue::Return(vals) => ConstrainedValue::Return(clone_value_list(vals)),
        }
    }
}

/// Whether a compiled value inhabits a declared type. `SelfType` accepts any
/// circuit instance, since it is resolved against the enclosing circuit;
/// `Unresolved` accepts anything.
pub open spec fn value_matches_type(v: ConstrainedValue, t: Type) -> bool
    decreases t, 0int, t,
{
    match t {
        Type::Boolean => v is Boolean,
        Type::IntegerType(it) => v matches ConstrainedValue::Integer(i) && integer_type_of(i)
            == it,
        Type::Field => v is Field,
        Type::Group => v is Group,
        Type::Array(elem, n) => v matches ConstrainedValue::Array(elems) && array_elements_match(
            elems,
            *elem,
            n as int,
        ),
        Type::Circuit(id) => v matches ConstrainedValue::CircuitExpression(name, _)
            && name.name@ == id.name@,
        Type::Function(_) => v is Function || v is Static,
        Type::SelfType => v is CircuitExpression,
        Type::Unresolved => true,
    }
}

/// Every element of the array inhabits the element type, and the array has
/// the declared length.
pub open spec fn array_elements_match(elems: List<ConstrainedValue>, elem: Type, n: int) -> bool
    decreases elem, 1int, elems,
{
    match elems {
        List::Nil => n == 0,
        List::Cons(h, t) => n > 0 && value_matches_type(*h, elem) && array_elements_match(
            *t,
            elem,
            n - 1,
        ),
    }
}

/// The exec check for `value_matches_type`.
pub fn check_value_type(v: &ConstrainedValue, t: &Type) -> (r: bool)
    ensures
        r == value_matches_type(*v, *t),
    decreases t, 0int, t,
{
    match t {
        Type::Boolean => matches!(v, ConstrainedValue::Boolean(_)),
        Type::IntegerType(it) => match v {
            ConstrainedValue::Integer(i) => integer_type_matches(i, it),
            _ => false,
        },
        Type::Field => matches!(v, ConstrainedValue::Field(_)),
        Type::Group => matches!(v, ConstrainedValue::Group(_)),
        Type::Array(elem, n) => match v {
            ConstrainedValue::Array(elems) => check_array_type(elems, elem, *n),
            _ => false,
        },
        Type::Circuit(id) => match v {
            ConstrainedValue::CircuitExpression(name, _) => name.name_eq(id),
            _ => false,
        },
        Type::Function(_) => matches!(
            v,
            ConstrainedValue::Function(_, _) | ConstrainedValue::Static(_)
        ),
        Type::SelfType => matches!(v, ConstrainedValue::CircuitExpression(_, _)),
        Type::Unresolved => true,
    }
}

/// Checks every element of an array value against the element type and the
/// declared static length.
fn check_array_type(elems: &List<ConstrainedValue>, elem: &Type, n: usize) -> (r: bool)
    ensures
        r == array_elements_match(*elems, *elem, n as int),
    decreases elem, 1int, elems,
{
    match elems {
        List::Nil => n == 0,
        List::Cons(h, t) => {
            if n == 0 {
                false
            } else {
                let head_ok = check_value_type(h, elem);
                let tail_ok = check_array_type(t, elem, n - 1);
                head_ok && tail_ok
            }
        },
    }
}

/// True when the integer's width tag equals the given width.
pub fn integer_type_matches(i: &Integer, it: &IntegerType) -> (r: bool)
    ensures
        r == (integer_type_of(*i) == *it),
{
    match (i, it) {
        (Integer::U8(_), IntegerType::U8) => true,
        (Integer::U16(_), IntegerType::U16) => true,
        (Integer::U32(_), IntegerType::U32) => true,
        (Integer::U64(_), IntegerType::U64) => true,
        (Integer::U128(_), IntegerType::U128) => true,
        (Integer::I8(_), IntegerType::I8) => true,
        (Integer::I16(_), IntegerType::I16) => true,
        (Integer::I32(_), IntegerType::I32) => true,
        (Integer::I64(_), IntegerType::I64) => true,
        (Integer::I128(_), IntegerType::I128) => true,
        _ => false,
    }
}

/// The arithmetic operations the evaluator dispatches to.
#[derive(Debug, Clone, Copy, PartialEq, Eq, Structural)]
pub enum ArithmeticOp {
    Add,
    Sub,
    Mul,
}

/// The outcome of width-checked integer arithmetic.
#[derive(Debug, Clone, Copy, PartialEq, Eq)]
pub enum IntegerOpError {
    WidthMismatch,
    Overflow,
}

/// The mathematical result of an arithmetic operation.
pub open spec fn arith_result(op: ArithmeticOp, a: int, b: int) -> int {
    match op {
        ArithmeticOp::Add => a + b,
        ArithmeticOp::Sub => a - b,
        ArithmeticOp::Mul => a * b,
    }
}

/// True when the mathematical value fits in the given width.
pub open spec fn fits_width(v: int, it: IntegerType) -> bool {
    match it {
        IntegerType::U8 => 0 <= v <= u8::MAX,
        IntegerType::U16 => 0 <= v <= u16::MAX,
        IntegerType::U32 => 0 <= v <= u32::MAX,
        IntegerType::U64 => 0 <= v <= u64::MAX,
        IntegerType::U128 => 0 <= v <= u128::MAX,
        IntegerType::I8 => i8::MIN <= v <= i8::MAX,
        IntegerType::I16 => i16::MIN <= v <= i16::MAX,
        IntegerType::I32 => i32::MIN <= v <= i32::MAX,
        IntegerType::I64 => i64::MIN <= v <= i64::MAX,
        IntegerType::I128 => i128::MIN <= v <= i128::MAX,
    }
}

/// Width-checked integer arithmetic: operands of differing width are
/// rejected rather than silently widened, and a result outside the width is
/// an overflow error rather than a wrapped value.
pub fn integer_arith(op: ArithmeticOp, a: &Integer, b: &Integer) -> (r: Result<
    Integer,
    IntegerOpError,
>)
    ensures
        match r {
            Ok(c) => {
                &&& integer_type_of(*a) == integer_type_of(*b)
                &&& integer_type_of(c) == integer_type_of(*a)
                &&& integer_value(c) == arith_result(op, integer_value(*a), integer_value(*b))
            },
            Err(IntegerOpError::WidthMismatch) => integer_type_of(*a) != integer_type_of(*b),
            Err(IntegerOpError::Overflow) => {
                &&& integer_type_of(*a) == integer_type_of(*b)
                &&& !fits_width(
                    arith_result(op, integer_value(*a), integer_value(*b)),
                    integer_type_of(*a),
                )
            },
        },
{
    match (a, b) {
        (Integer::U8(x), Integer::U8(y)) => match checked_u8(op, *x, *y) {
            Some(v) => Ok(Integer::U8(v)),
            None => Err(IntegerOpError::Overflow),
        },
        (Integer::U16(x), Integer::U16(y)) => match checked_u16(op, *x, *y) {
            Some(v) => Ok(Integer::U16(v)),
            None => Err(IntegerOpError::Overflow),
        },
        (Integer::U32(x), Integer::U32(y)) => match checked_u32(op, *x, *y) {
            Some(v) => Ok(Integer::U32(v)),
            None => Err(IntegerOpError::Overflow),
        },
        (Integer::U64(x), Integer::U64(y)) => match checked_u64(op, *x, *y) {
            Some(v) => Ok(Integer::U64(v)),
            None => Err(IntegerOpError::Overflow),
        },
        (Integer::U128(x), Integer::U128(y)) => match checked_u128(op, *x, *y) {
            Some(v) => Ok(Integer::U128(v)),
            None => Err(IntegerOpError::Overflow),
        },
        (Integer::I8(x), Integer::I8(y)) => match checked_i8(op, *x, *y) {
            Some(v) => Ok(Integer::I8(v)),
            None => Err(IntegerOpError::Overflow),
        },
        (Integer::I16(x), Integer::I16(y)) => match checked_i16(op, *x, *y) {
            Some(v) => Ok(Integer::I16(v)),
            None => Err(IntegerOpError::Overflow),
        },
        (Integer::I32(x), Integer::I32(y)) => match checked_i32(op, *x, *y) {
            Some(v) => Ok(Integer::I32(v)),
            None => Err(IntegerOpError::Overflow),
        },
        (Integer::I64(x), Integer::I64(y)) => match checked_i64(op, *x, *y) {
            Some(v) => Ok(Integer::I64(v)),
            None => Err(IntegerOpError::Overflow),
        },
        (Integer::I128(x), Integer::I128(y)) => match checked_i128(op, *x, *y) {
            Some(v) => Ok(Integer::I128(v)),
            None => Err(IntegerOpError::Overflow),
        },
        _ => Err(IntegerOpError::WidthMismatch),
    }
}

/// True when two integers have the same width and the same witness value.
pub fn integer_eq(a: &Integer, b: &Integer) -> (r: Result<bool, IntegerOpError>)
    ensures
        match r {
            Ok(c) => integer_type_of(*a) == integer_type_of(*b) && c == (integer_value(*a)
                == integer_value(*b)),
            Err(_) => integer_type_of(*a) != integer_type_of(*b),
        },
{
    match (a, b) {
        (Integer::U8(x), Integer::U8(y)) => Ok(x == y),
        (Integer::U16(x), Integer::U16(y)) => Ok(x == y),
        (Integer::U32(x), Integer::U32(y)) => Ok(x == y),
        (Integer::U64(x), Integer::U64(y)) => Ok(x == y),
        (Integer::U128(x), Integer::U128(y)) => Ok(x == y),
        (Integer::I8(x), Integer::I8(y)) => Ok(x == y),
        (Integer::I16(x), Integer::I16(y)) => Ok(x == y),
        (Integer::I32(x), Integer::I32(y)) => Ok(x == y),
        (Integer::I64(x), Integer::I64(y)) => Ok(x == y),
        (Integer::I128(x), Integer::I128(y)) => Ok(x == y),
        _ => Err(IntegerOpError::WidthMismatch),
    }
}

fn checked_u8(op: ArithmeticOp, x: u8, y: u8) -> (r: Option<u8>)
    ensures
        match r {
            Some(v) => v as int == arith_result(op, x as int, y as int),
            None => !fits_width(arith_result(op, x as int, y as int), IntegerType::U8),
        },
{
    match op {
        ArithmeticOp::Add => x.checked_add(y),
        ArithmeticOp::Sub => x.checked_sub(y),
        ArithmeticOp::Mul => x.checked_mul(y),
    }
}

fn checked_u16(op: ArithmeticOp, x: u16, y: u16) -> (r: Option<u16>)
    ensures
        match r {
            Some(v) => v as int == arith_result(op, x as int, y as int),
            None => !fits_width(arith_result(op, x as int, y as int), IntegerType::U16),
        },
{
    match op {
        ArithmeticOp::Add => x.checked_add(y),
        ArithmeticOp::Sub => x.checked_sub(y),
        ArithmeticOp::Mul => x.checked_mul(y),
    }
}

fn checked_u32(op: ArithmeticOp, x: u32, y: u32) -> (r: Option<u32>)
    ensures
        match r {
            Some(v) => v as int == arith_result(op, x as int, y as int),
            None => !fits_width(arith_result(op, x as int, y as int), IntegerType::U32),
        },
{
    match op {
        ArithmeticOp::Add => x.checked_add(y),
        ArithmeticOp::Sub => x.checked_sub(y),
        ArithmeticOp::Mul => x.checked_mul(y),
    }
}

fn checked_u64(op: ArithmeticOp, x: u64, y: u64) -> (r: Option<u64>)
    ensures
        match r {
            Some(v) => v as int == arith_result(op, x as int, y as int),
            None => !fits_width(arith_result(op, x as int, y as int), IntegerType::U64),
        },
{
    match op {
        ArithmeticOp::Add => x.checked_add(y),
        ArithmeticOp::Sub => x.checked_sub(y),
        ArithmeticOp::Mul => x.checked_mul(y),
    }
}

fn checked_u128(op: ArithmeticOp, x: u128, y: u128) -> (r: Option<u128>)
    ensures
        match r {
            Some(v) => v as int == arith_result(op, x as int, y as int),
            None => !fits_width(arith_result(op, x as int, y as int), IntegerType::U128),
        },
{
    match op {
        ArithmeticOp::Add => x.checked_add(y),
        ArithmeticOp::Sub => x.checked_sub(y),
        ArithmeticOp::Mul => x.checked_mul(y),
    }
}

fn checked_i8(op: ArithmeticOp, x: i8, y: i8) -> (r: Option<i8>)
    ensures
        match r {
            Some(v) => v as int == arith_result(op, x as int, y as int),
            None => !fits_width(arith_result(op, x as int, y as int), IntegerType::I8),
        },
{
    match op {
        ArithmeticOp::Add => x.checked_add(y),
        ArithmeticOp::Sub => x.checked_sub(y),
        ArithmeticOp::Mul => x.checked_mul(y),
    }
}

fn checked_i16(op: ArithmeticOp, x: i16, y: i16) -> (r: Option<i16>)
    ensures
        match r {
            Some(v) => v as int == arith_result(op, x as int, y as int),
            None => !fits_width(arith_result(op, x as int, y as int), IntegerType::I16),
        },
{
    match op {
        ArithmeticOp::Add => x.checked_add(y),
        ArithmeticOp::Sub => x.checked_sub(y),
        ArithmeticOp::Mul => x.checked_mul(y),
    }
}

fn checked_i32(op: ArithmeticOp, x: i32, y: i32) -> (r: Option<i32>)
    ensures
        match r {
            Some(v) => v as int == arith_result(op, x as int, y as int),
            None => !fits_width(arith_result(op, x as int, y as int), IntegerType::I32),
        },
{
    match op {
        ArithmeticOp::Add => x.checked_add(y),
        ArithmeticOp::Sub => x.checked_sub(y),
        ArithmeticOp::Mul => x.checked_mul(y),
    }
}

fn checked_i64(op: ArithmeticOp, x: i64, y: i64) -> (r: Option<i64>)
    ensures
        match r {
            Some(v) => v as int == arith_result(op, x as int, y as int),
            None => !fits_width(arith_result(op, x as int, y as int), IntegerType::I64),
        },
{
    match op {
        ArithmeticOp::Add => x.checked_add(y),
        ArithmeticOp::Sub => x.checked_sub(y),
        ArithmeticOp::Mul => x.checked_mul(y),
    }
}

fn checked_i128(op: ArithmeticOp, x: i128, y: i128) -> (r: Option<i128>)
    ensures
        match r {
            Some(v) => v as int == arith_result(op, x as int, y as int),
            None => !fits_width(arith_result(op, x as int, y as int), IntegerType::I128),
        },
{
    match op {
        ArithmeticOp::Add => x.checked_add(y),
        ArithmeticOp::Sub => x.checked_sub(y),
        ArithmeticOp::Mul => x.checked_mul(y),
    }
}

/// Builds an integer of the given width from a literal value, if it fits.
pub fn integer_from_literal(it: &IntegerType, value: u128) -> (r: Option<Integer>)
    ensures
        match r {
            Some(i) => integer_type_of(i) == *it && integer_value(i) == value as int,
            None => !fits_width(value as int, *it),
        },
{
    match it {
        IntegerType::U8 => {
            if value <= u8::MAX as u128 {
                Some(Integer::U8(value as u8))
            } else {
                None
            }
        },
        IntegerType::U16 => {
            if value <= u16::MAX as u128 {
                Some(Integer::U16(value as u16))
            } else {
                None
            }
        },
        IntegerType::U32 => {
            if value <= u32::MAX as u128 {
                Some(Integer::U32(value as u32))
            } else {
                None
            }
        },
        IntegerType::U64 => {
            if value <= u64::MAX as u128 {
                Some(Integer::U64(value as u64))
            } else {
                None
            }
        },
        IntegerType::U128 => Some(Integer::U128(value)),
        IntegerType::I8 => {
            if value <= i8::MAX as u128 {
                Some(Integer::I8(value as i8))
            } else {
                None
            }
        },
        IntegerType::I16 => {
            if value <= i16::MAX as u128 {
                Some(Integer::I16(value as i16))
            } else {
                None
            }
        },
        IntegerType::I32 => {
            if value <= i32::MAX as u128 {
                Some(Integer::I32(value as i32))
            } else {
                None
            }
        },
        IntegerType::I64 => {
            if value <= i64::MAX as u128 {
                Some(Integer::I64(value as i64))
            } else {
                None
            }
        },
        IntegerType::I128 => {
            if value <= i128::MAX as u128 {
                Some(Integer::I128(value as i128))
            } else {
                None
            }
        },
    }
}

/// The names of a circuit's declared field members, in declaration order.
pub open spec fn declared_field_names(members: List<CircuitMember>) -> Seq<Seq<char>>
    decreases members,
{
    match members {
        List::Nil => Seq::empty(),
        List::Cons(m, rest) => match *m {
            CircuitMember::CircuitField(id, _) => seq![id.name@] + declared_field_names(*rest),
            CircuitMember::CircuitFunction(_, _) => declared_field_names(*rest),
        },
    }
}

/// The names of a compiled instance's members, in order.
pub open spec fn member_names(members: List<ConstrainedCircuitMember>) -> Seq<Seq<char>>
    decreases members,
{
    match members {
        List::Nil => Seq::empty(),
        List::Cons(m, rest) => seq![m.0.name@] + member_names(*rest),
    }
}


/// Deep copies of the list shapes compiled values use.
pub fn clone_value_list(l: &List<ConstrainedValue>) -> (r: List<ConstrainedValue>)
    ensures
        r == *l,
    decreases l,
{
    match l {
        List::Nil => List::Nil,
        List::Cons(h, t) => List::Cons(Box::new(h.deep_clone()), Box::new(clone_value_list(t))),
    }
}

pub fn clone_ccm_list(l: &List<ConstrainedCircuitMember>) -> (r: List<ConstrainedCircuitMember>)
    ensures
        r == *l,
    decreases l,
{
    match l {
        List::Nil => List::Nil,
        List::Cons(h, t) => List::Cons(Box::new(h.deep_clone()), Box::new(clone_ccm_list(t))),
    }
}


/// The member bound under the given name in a compiled instance, if any.
pub open spec fn find_member_spec(
    members: List<ConstrainedCircuitMember>,
    name: Seq<char>,
) -> Option<ConstrainedValue>
    decreases members,
{
    match members {
        List::Nil => None,
        List::Cons(m, rest) => if m.0.name@ == name {
            Some(m.1)
        } else {
            find_member_spec(*rest, name)
        },
    }
}

/// Looks a member up by name; an absent name is `None`, never a default.
pub fn find_member<'a>(members: &'a List<ConstrainedCircuitMember>, name: &String) -> (r: Option<
    &'a ConstrainedValue,
>)
    ensures
        match r {
            Some(v) => find_member_spec(*members, name@) == Some(*v),
            None => find_member_spec(*members, name@) is None,
        },
    decreases members,
{
    match members {
        List::Nil => None,
        List::Cons(m, rest) => {
            if m.0.named(name) {
                Some(&m.1)
            } else {
                find_member(rest, name)
            }
        },
    }
}

/// The declared member names of a compiled instance, for diagnostics.
pub fn collect_member_names(members: &List<ConstrainedCircuitMember>) -> (r: List<String>)
    ensures
        r.seq().len() == member_names(*members).len(),
        forall|k: int|
            0 <= k < r.seq().len() ==> (#[trigger] r.seq()[k])@ == member_names(*members)[k],
    decreases members,
{
    match members {
        List::Nil => List::Nil,
        List::Cons(m, rest) => {
            let tail = collect_member_names(rest);
            let r = List::Cons(Box::new(m.0.name.clone()), Box::new(tail));
            proof {
                assert(member_names(*members) =~= seq![m.0.name@] + member_names(**rest));
                assert forall|k: int| 0 <= k < r.seq().len() implies (#[trigger] r.seq()[k])@
                    == member_names(*members)[k] by {
                    if k > 0 {
                        assert(r.seq()[k] == r.seq().drop_first()[k - 1]);
                    }
                }
            }
            r
        },
    }
}

/// A re-assignable binding stands for the value it wraps.
pub open spec fn strip_mutable(v: ConstrainedValue) -> ConstrainedValue {
    match v {
        ConstrainedValue::Mutable(inner) => *inner,
        _ => v,
    }
}

/// Unwraps a re-assignable binding to the value it holds.
pub fn unwrap_mutable(v: ConstrainedValue) -> (r: ConstrainedValue)
    ensures
        r == strip_mutable(v),
{
    match v {
        ConstrainedValue::Mutable(inner) => *inner,
        other => other,
    }
}

/// The decimal digit character of a value below ten.
pub open spec fn digit_char(d: int) -> char {
    if d == 0 {
        '0'
    } else if d == 1 {
        '1'
    } else if d == 2 {
        '2'
    } else if d == 3 {
        '3'
    } else if d == 4 {
        '4'
    } else if d == 5 {
        '5'
    } else if d == 6 {
        '6'
    } else if d == 7 {
        '7'
    } else if d == 8 {
        '8'
    } else {
        '9'
    }
}

/// The decimal digit sequence of a value, most significant first.
pub open spec fn decimal_digits(v: nat) -> Seq<char>
    decreases v,
{
    if v < 10 {
        seq![digit_char(v as int)]
    } else {
        decimal_digits(v / 10) + seq![digit_char((v % 10) as int)]
    }
}

/// The decimal rendering of an unsigned value.
pub fn decimal_string(v: u128) -> (r: String)
    ensures
        r@ == decimal_digits(v as nat),
{
    proof {
        reveal_strlit("0");
        reveal_strlit("1");
        reveal_strlit("2");
        reveal_strlit("3");
        reveal_strlit("4");
        reveal_strlit("5");
        reveal_strlit("6");
        reveal_strlit("7");
        reveal_strlit("8");
        reveal_strlit("9");
    }
    if v == 0 {
        return String::from_str("0");
    }
    let mut rendered = String::new();
    let mut remaining = v;
    while remaining > 0
        invariant
            decimal_digits(v as nat) == (if remaining > 0 {
                decimal_digits(remaining as nat) + rendered@
            } else {
                rendered@
            }),
        decreases remaining,
    {
        let d = remaining % 10;
        let digit: &str = if d == 0 {
            "0"
        } else if d == 1 {
            "1"
        } else if d == 2 {
            "2"
        } else if d == 3 {
            "3"
        } else if d == 4 {
            "4"
        } else if d == 5 {
            "5"
        } else if d == 6 {
            "6"
        } else if d == 7 {
            "7"
        } else if d == 8 {
            "8"
        } else {
            "9"
        };
        proof {
            reveal_strlit("0");
            reveal_strlit("1");
            reveal_strlit("2");
            reveal_strlit("3");
            reveal_strlit("4");
            reveal_strlit("5");
            reveal_strlit("6");
            reveal_strlit("7");
            reveal_strlit("8");
            reveal_strlit("9");
            assert(digit@ =~= seq![digit_char(d as int)]);
            if remaining >= 10 {
                assert(decimal_digits(remaining as nat) == decimal_digits((remaining / 10) as nat)
                    + seq![digit_char(d as int)]);
                assert(decimal_digits(remaining as nat) + rendered@ =~= decimal_digits(
                    (remaining / 10) as nat,
                ) + (seq![digit_char(d as int)] + rendered@));
            } else {
                assert(decimal_digits(remaining as nat) =~= seq![digit_char(d as int)]);
            }
        }
        rendered = String::from_str(digit).concat(rendered.as_str());
        remaining = remaining / 10;
    }
    rendered
}

/// The decimal rendering of a signed value: a sign for negatives, then the
/// magnitude's digits.
pub open spec fn signed_decimal_digits(v: int) -> Seq<char> {
    if v >= 0 {
        decimal_digits(v as nat)
    } else {
        seq!['-'] + decimal_digits((-v) as nat)
    }
}

/// The decimal rendering of a signed value.
pub fn signed_decimal_string(v: i128) -> (r: String)
    ensures
        r@ == signed_decimal_digits(v as int),
{
    if v >= 0 {
        decimal_string(v as u128)
    } else {
        let magnitude: u128 = ((-(v + 1)) as u128) + 1;
        proof {
            assert(magnitude as int == -(v as int));
            reveal_strlit("-");
            assert("-"@ =~= seq!['-']);
        }
        String::from_str("-").concat(decimal_string(magnitude).as_str())
    }
}

/// The decimal text of a compiled integer's witness value.
pub open spec fn integer_text(i: Integer) -> Seq<char> {
    signed_decimal_digits(integer_value(i))
}

/// The textual form of a compiled integer: its witness value in decimal.
pub fn integer_to_string(i: &Integer) -> (r: String)
    ensures
        r@ == integer_text(*i),
{
    match i {
        Integer::U8(x) => decimal_string(*x as u128),
        Integer::U16(x) => decimal_string(*x as u128),
        Integer::U32(x) => decimal_string(*x as u128),
        Integer::U64(x) => decimal_string(*x as u128),
        Integer::U128(x) => decimal_string(*x),
        Integer::I8(x) => signed_decimal_string(*x as i128),
        Integer::I16(x) => signed_decimal_string(*x as i128),
        Integer::I32(x) => signed_decimal_string(*x as i128),
        Integer::I64(x) => signed_decimal_string(*x as i128),
        Integer::I128(x) => signed_decimal_string(*x),
    }
}

/// The textual form of a value: scalars render their witness value,
/// composites a summary around their name.
pub open spec fn value_text(v: ConstrainedValue) -> Seq<char>
    decreases v,
{
    match v {
        ConstrainedValue::Boolean(b) => (match crate::r1cs::bit_value(b) {
            Some(true) => "true"@,
            Some(false) => "false"@,
            None => "[input]"@,
        }),
        ConstrainedValue::Integer(i) => integer_text(i),
        ConstrainedValue::Field(h) => "field "@ + decimal_digits(h as nat),
        ConstrainedValue::Group(h) => "group "@ + decimal_digits(h as nat),
        ConstrainedValue::Array(_) => "array"@,
        ConstrainedValue::CircuitDefinition(c) => "circuit "@ + c.circuit_name.name@,
        ConstrainedValue::CircuitExpression(name, _) => "circuit "@ + name.name@,
        ConstrainedValue::Function(_, f) => "function "@ + f.function_name.name@,
        ConstrainedValue::Static(inner) => "static "@ + value_text(*inner),
        ConstrainedValue::Mutable(inner) => value_text(*inner),
        ConstrainedValue::Unresolved(name) => "unresolved "@ + name@,
        ConstrainedValue::Return(_) => "return"@,
    }
}

/// The textual form of a value, used in diagnostics.
pub fn value_to_string(v: &ConstrainedValue) -> (r: String)
    ensures
        r@ == value_text(*v),
    decreases v,
{
    match v {
        ConstrainedValue::Boolean(b) => crate::r1cs::indicator_to_string(b),
        ConstrainedValue::Integer(i) => integer_to_string(i),
        ConstrainedValue::Field(h) => String::from_str("field ").concat(
            decimal_string(*h as u128).as_str(),
        ),
        ConstrainedValue::Group(h) => String::from_str("group ").concat(
            decimal_string(*h as u128).as_str(),
        ),
        ConstrainedValue::Array(_) => String::from_str("array"),
        ConstrainedValue::CircuitDefinition(c) => String::from_str("circuit ").concat(
            c.circuit_name.name.as_str(),
        ),
        ConstrainedValue::CircuitExpression(name, _) => String::from_str("circuit ").concat(
            name.name.as_str(),
        ),
        ConstrainedValue::Function(_, f) => String::from_str("function ").concat(
            f.function_name.name.as_str(),
        ),
        ConstrainedValue::Static(inner) => String::from_str("static ").concat(
            value_to_string(inner).as_str(),
        ),
        ConstrainedValue::Mutable(inner) => value_to_string(inner),
        ConstrainedValue::Unresolved(name) => String::from_str("unresolved ").concat(
            name.as_str(),
        ),
        ConstrainedValue::Return(_) => String::from_str("return"),
    }
}

} // verus!
