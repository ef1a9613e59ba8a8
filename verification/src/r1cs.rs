//! The constraint-system capability the engine consumes: variable allocation,
//! boolean gadgets and field-handle arithmetic over an append-only rank-1
//! constraint system. The system is modeled by its two counters; a boolean
//! circuit variable carries its witness value when one is known.

use vstd::prelude::*;
use vstd::string::StringExecFns;

verus! {

/// An append-only rank-1 constraint system: a counter of allocated variables
/// and a counter of emitted constraints.
#[derive(Debug, Clone, Copy, PartialEq, Eq, Structural)]
pub struct R1CS {
    pub next_variable: u64,
    pub num_constraints: u64,
}

/// Allocation in the constraint system failed: a counter is saturated.
#[derive(Debug, Clone, Copy, PartialEq, Eq, Structural)]
pub struct SynthesisFault;

/// A boolean circuit variable, or the constant it folded to. An allocated bit
/// remembers its witness value when the witness is known; `None` stands for a
/// value that only a later witness assignment determines.
#[derive(Debug, Clone, Copy, PartialEq, Eq)]
pub enum Bit {
    Constant(bool),
    Allocated { variable: u64, value: Option<bool> },
}

/// The witness value a bit is known to take, if any.
pub open spec fn bit_value(b: Bit) -> Option<bool> {
    match b {
        Bit::Constant(c) => Some(c),
        Bit::Allocated { variable: _, value } => value,
    }
}

/// Conjunction of witness values: known only when both sides are known.
pub open spec fn opt_and(a: Option<bool>, b: Option<bool>) -> Option<bool> {
    match (a, b) {
        (Some(x), Some(y)) => Some(x && y),
        _ => None,
    }
}

/// Negation of a witness value.
pub open spec fn opt_not(a: Option<bool>) -> Option<bool> {
    match a {
        Some(x) => Some(!x),
        None => None,
    }
}

/// The liveness of a context: an absent indicator means the outermost
/// context, which is always live.
pub open spec fn indicator_value(i: Option<Bit>) -> Option<bool> {
    match i {
        None => Some(true),
        Some(b) => bit_value(b),
    }
}

/// A branch result can only be live when the indicator over it is live.
pub open spec fn gated_by(v: Option<bool>, over: Option<bool>) -> bool {
    v == Some(true) ==> over == Some(true)
}

impl R1CS {
    /// An empty constraint system.
    pub fn new() -> (r: R1CS)
        ensures
            r.next_variable == 0,
            r.num_constraints == 0,
    {
        R1CS { next_variable: 0, num_constraints: 0 }
    }

    /// True when one more variable and one more constraint fit.
    pub fn saturated(&self) -> (r: bool)
        ensures
            r == (self.next_variable == u64::MAX || self.num_constraints == u64::MAX),
    {
        self.next_variable == u64::MAX || self.num_constraints == u64::MAX
    }
}

/// Allocates one boolean variable carrying the given witness value and emits
/// the constraint that holds it to zero or one.
pub fn allocate_bit(cs: &mut R1CS, value: Option<bool>) -> (r: Result<Bit, SynthesisFault>)
    ensures
        match r {
            Ok(b) => {
                &&& b == (Bit::Allocated { variable: old(cs).next_variable, value })
                &&& final(cs).next_variable == old(cs).next_variable + 1
                &&& final(cs).num_constraints == old(cs).num_constraints + 1
                &&& old(cs).next_variable < u64::MAX
                &&& old(cs).num_constraints < u64::MAX
            },
            Err(_) => {
                &&& *final(cs) == *old(cs)
                &&& (old(cs).next_variable == u64::MAX || old(cs).num_constraints == u64::MAX)
            },
        },
{
    if cs.saturated() {
        Err(SynthesisFault)
    } else {
        let variable = cs.next_variable;
        cs.next_variable = cs.next_variable + 1;
        cs.num_constraints = cs.num_constraints + 1;
        Ok(Bit::Allocated { variable, value })
    }
}

/// The boolean AND gadget. Two constants fold without touching the system;
/// otherwise exactly one variable and one constraint are added, and the new
/// bit's witness value is the conjunction of the operands' witness values.
pub fn bit_and(cs: &mut R1CS, a: &Bit, b: &Bit) -> (r: Result<Bit, SynthesisFault>)
    ensures
        match r {
            Ok(c) => {
                &&& bit_value(c) == opt_and(bit_value(*a), bit_value(*b))
                &&& if a is Constant && b is Constant {
                    c is Constant && *final(cs) == *old(cs)
                } else {
                    &&& final(cs).next_variable == old(cs).next_variable + 1
                    &&& final(cs).num_constraints == old(cs).num_constraints + 1
                    &&& old(cs).next_variable < u64::MAX
                    &&& old(cs).num_constraints < u64::MAX
                }
            },
            Err(_) => *final(cs) == *old(cs),
        },
        (a is Constant && b is Constant) ==> r is Ok,
        r is Err ==> (old(cs).next_variable == u64::MAX || old(cs).num_constraints == u64::MAX),
{
    match (a, b) {
        (Bit::Constant(x), Bit::Constant(y)) => Ok(Bit::Constant(*x && *y)),
        _ => {
            let value = match (bit_witness(a), bit_witness(b)) {
                (Some(x), Some(y)) => Some(x && y),
                _ => None,
            };
            allocate_bit(cs, value)
        },
    }
}

/// The boolean OR gadget, with the same allocation behaviour as AND.
pub fn bit_or(cs: &mut R1CS, a: &Bit, b: &Bit) -> (r: Result<Bit, SynthesisFault>)
    ensures
        match r {
            Ok(c) => {
                &&& bit_value(c) == opt_not(opt_and(opt_not(bit_value(*a)), opt_not(bit_value(*b))))
                &&& if a is Constant && b is Constant {
                    c is Constant && *final(cs) == *old(cs)
                } else {
                    &&& final(cs).next_variable == old(cs).next_variable + 1
                    &&& final(cs).num_constraints == old(cs).num_constraints + 1
                    &&& old(cs).next_variable < u64::MAX
                    &&& old(cs).num_constraints < u64::MAX
                }
            },
            Err(_) => *final(cs) == *old(cs),
        },
        (a is Constant && b is Constant) ==> r is Ok,
        r is Err ==> (old(cs).next_variable == u64::MAX || old(cs).num_constraints == u64::MAX),
{
    match (a, b) {
        (Bit::Constant(x), Bit::Constant(y)) => Ok(Bit::Constant(*x || *y)),
        _ => {
            let value = match (bit_witness(a), bit_witness(b)) {
                (Some(x), Some(y)) => Some(x || y),
                _ => None,
            };
            allocate_bit(cs, value)
        },
    }
}

/// Equality of witness values: known only when both sides are known.
pub open spec fn opt_eq(a: Option<bool>, b: Option<bool>) -> Option<bool> {
    match (a, b) {
        (Some(x), Some(y)) => Some(x == y),
        _ => None,
    }
}

/// Selection between witness values: the chosen side when the guard is
/// known, undetermined until a witness assignment otherwise.
pub open spec fn opt_select(g: Option<bool>, x: Option<bool>, y: Option<bool>) -> Option<bool> {
    match g {
        Some(true) => x,
        Some(false) => y,
        None => None,
    }
}

/// The boolean equality gadget, with the same allocation behaviour as AND.
pub fn bit_eq(cs: &mut R1CS, a: &Bit, b: &Bit) -> (r: Result<Bit, SynthesisFault>)
    ensures
        match r {
            Ok(c) => {
                &&& bit_value(c) == opt_eq(bit_value(*a), bit_value(*b))
                &&& if a is Constant && b is Constant {
                    c is Constant && *final(cs) == *old(cs)
                } else {
                    &&& final(cs).next_variable == old(cs).next_variable + 1
                    &&& final(cs).num_constraints == old(cs).num_constraints + 1
                    &&& old(cs).next_variable < u64::MAX
                    &&& old(cs).num_constraints < u64::MAX
                }
            },
            Err(_) => *final(cs) == *old(cs),
        },
        (a is Constant && b is Constant) ==> r is Ok,
        r is Err ==> (old(cs).next_variable == u64::MAX || old(cs).num_constraints == u64::MAX),
{
    match (a, b) {
        (Bit::Constant(x), Bit::Constant(y)) => Ok(Bit::Constant(*x == *y)),
        _ => {
            let value = match (bit_witness(a), bit_witness(b)) {
                (Some(x), Some(y)) => Some(x == y),
                _ => None,
            };
            allocate_bit(cs, value)
        },
    }
}

/// The conditional-select gadget over boolean bits: one variable and one
/// constraint hold the result to the guarded side.
pub fn bit_select(cs: &mut R1CS, guard: &Bit, x: &Bit, y: &Bit) -> (r: Result<
    Bit,
    SynthesisFault,
>)
    ensures
        match r {
            Ok(c) => {
                &&& bit_value(c) == opt_select(bit_value(*guard), bit_value(*x), bit_value(*y))
                &&& final(cs).next_variable == old(cs).next_variable + 1
                &&& final(cs).num_constraints == old(cs).num_constraints + 1
                &&& old(cs).next_variable < u64::MAX
                &&& old(cs).num_constraints < u64::MAX
            },
            Err(_) => *final(cs) == *old(cs),
        },
        r is Err ==> (old(cs).next_variable == u64::MAX || old(cs).num_constraints == u64::MAX),
{
    let value = match bit_witness(guard) {
        Some(true) => bit_witness(x),
        Some(false) => bit_witness(y),
        None => None,
    };
    allocate_bit(cs, value)
}

/// The boolean NOT gadget: a derived bit over the same variable, no new
/// allocation. Indicators are never mutated in place.
pub fn bit_not(b: &Bit) -> (r: Bit)
    ensures
        bit_value(r) == opt_not(bit_value(*b)),
        b is Constant ==> r is Constant,
{
    match b {
        Bit::Constant(c) => Bit::Constant(!*c),
        Bit::Allocated { variable, value } => Bit::Allocated {
            variable: *variable,
            value: match value {
                Some(v) => Some(!*v),
                None => None,
            },
        },
    }
}

/// The exec view of a bit's witness value.
pub fn bit_witness(b: &Bit) -> (r: Option<bool>)
    ensures
        r == bit_value(*b),
{
    match b {
        Bit::Constant(c) => Some(*c),
        Bit::Allocated { variable: _, value } => *value,
    }
}

/// Allocates one field-element handle constrained as the sum or product of
/// two existing handles; which of the two it is does not change the counters.
pub fn allocate_field_op(cs: &mut R1CS, left: u64, right: u64) -> (r: Result<
    u64,
    SynthesisFault,
>)
    ensures
        match r {
            Ok(h) => {
                &&& h == old(cs).next_variable
                &&& final(cs).next_variable == old(cs).next_variable + 1
                &&& final(cs).num_constraints == old(cs).num_constraints + 1
            },
            Err(_) => {
                &&& *final(cs) == *old(cs)
                &&& (old(cs).next_variable == u64::MAX || old(cs).num_constraints == u64::MAX)
            },
        },
{
    if cs.saturated() {
        Err(SynthesisFault)
    } else {
        let handle = cs.next_variable;
        cs.next_variable = cs.next_variable + 1;
        cs.num_constraints = cs.num_constraints + 1;
        Ok(handle)
    }
}

/// The printed form of an indicator bit: its witness value, or a marker for a
/// bit that only an input assignment determines.
pub fn indicator_to_string(indicator: &Bit) -> (s: String)
    ensures
        bit_value(*indicator) == Some(true) ==> s@ == "true"@,
        bit_value(*indicator) == Some(false) ==> s@ == "false"@,
        bit_value(*indicator) is None ==> s@ == "[input]"@,
{
    match bit_witness(indicator) {
        Some(true) => String::from_str("true"),
        Some(false) => String::from_str("false"),
        None => String::from_str("[input]"),
    }
}

} // verus!
