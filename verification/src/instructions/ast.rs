//! Symbolic register values: expression trees over immediates and register
//! reads, built by running instructions on a machine whose registers hold
//! expressions rather than numbers. Operations on two immediates fold to an
//! immediate at once.
use core::ops::{BitAnd, BitOr, BitXor, Not, Shl, Shr};
use std::rc::Rc;
use vstd::prelude::*;
use crate::instructions::register::{lemma_and_63, Register};

verus! {

#[derive(Debug, Clone, Copy, PartialEq, Eq, Structural)]
pub enum ActionOp1 {
    Not,
    LogicalNot,
    Clz,
    Ctz,
    Pcnt,
}

#[derive(Debug, Clone, Copy, PartialEq, Eq, Structural)]
pub enum ActionOp2 {
    Add,
    Sub,
    Mul,
    Mulhsu,
    Bitand,
    Bitor,
    Bitxor,
    Shl,
    Eq,
    Rol,
    Ror,
    Slo,
    Sro,
}

#[derive(Debug, Clone, Copy, PartialEq, Eq, Structural)]
pub enum SignActionOp2 {
    Mulh,
    Div,
    Rem,
    Shr,
    Lt,
    Extend,
}

#[derive(Debug, Clone, Copy, PartialEq, Eq, Structural)]
pub enum ActionOp3 {
    Fsl,
    Fsr,
}

/// An expression over 64 bit register values.
#[derive(Debug)]
pub enum Value {
    Imm(u64),
    Register(usize),
    Op1(ActionOp1, Rc<Value>),
    Op2(ActionOp2, Rc<Value>, Rc<Value>),
    SignOp2(SignActionOp2, Rc<Value>, Rc<Value>, bool),
    Op3(ActionOp3, Rc<Value>, Rc<Value>, Rc<Value>),
    Cond(Rc<Value>, Rc<Value>, Rc<Value>),
    Load(Rc<Value>, u8),
}

/// `v` is the one-operand node `op` over `a`.
pub open spec fn is_op1(v: Value, op: ActionOp1, a: Value) -> bool {
    match v {
        Value::Op1(o, x) => o == op && *x == a,
        _ => false,
    }
}

/// `v` is the two-operand node `op` over `a` and `b`.
pub open spec fn is_op2(v: Value, op: ActionOp2, a: Value, b: Value) -> bool {
    match v {
        Value::Op2(o, x, y) => o == op && *x == a && *y == b,
        _ => false,
    }
}

/// `v` is the signedness-carrying node `op` over `a` and `b`.
pub open spec fn is_sign_op2(v: Value, op: SignActionOp2, a: Value, b: Value, signed: bool) -> bool {
    match v {
        Value::SignOp2(o, x, y, s) => o == op && *x == a && *y == b && s == signed,
        _ => false,
    }
}

impl Clone for Value {
    fn clone(&self) -> (r: Self)
        ensures
            r == *self,
        decreases self,
    {
        match self {
            Value::Imm(v) => Value::Imm(*v),
            Value::Register(i) => Value::Register(*i),
            Value::Op1(op, a) => Value::Op1(*op, Rc::new((**a).clone())),
            Value::Op2(op, a, b) => Value::Op2(*op, Rc::new((**a).clone()), Rc::new((**b).clone())),
            Value::SignOp2(op, a, b, s) => Value::SignOp2(
                *op,
                Rc::new((**a).clone()),
                Rc::new((**b).clone()),
                *s,
            ),
            Value::Op3(op, a, b, c) => Value::Op3(
                *op,
                Rc::new((**a).clone()),
                Rc::new((**b).clone()),
                Rc::new((**c).clone()),
            ),
            Value::Cond(a, b, c) => Value::Cond(
                Rc::new((**a).clone()),
                Rc::new((**b).clone()),
                Rc::new((**c).clone()),
            ),
            Value::Load(a, size) => Value::Load(Rc::new((**a).clone()), *size),
        }
    }
}

/// Folds a two-operand operation: on two immediates the result is the
/// immediate `folded`, otherwise the expression node `node`.
pub open spec fn fold2(a: Value, b: Value, folded: spec_fn(u64, u64) -> u64, node: Value) -> Value {
    match (a, b) {
        (Value::Imm(x), Value::Imm(y)) => Value::Imm(folded(x, y)),
        _ => node,
    }
}

impl Default for Value {
    fn default() -> (r: Value)
        ensures
            r == Value::Imm(0),
    {
        Value::zero()
    }
}

impl Not for Value {
    type Output = Value;

    fn not(self) -> Value {
        if let Value::Imm(imm) = self {
            return Value::Imm(!imm);
        }
        Value::Op1(ActionOp1::Not, Rc::new(self))
    }
}

impl vstd::std_specs::ops::NotSpecImpl for Value {
    open spec fn obeys_not_spec() -> bool {
        true
    }

    open spec fn not_req(self) -> bool {
        true
    }

    open spec fn not_spec(self) -> Value {
        match self {
            Value::Imm(a) => Value::Imm(!a),
            _ => Value::Op1(ActionOp1::Not, Rc::new(self)),
        }
    }
}

impl BitAnd for Value {
    type Output = Value;

    fn bitand(self, rhs: Value) -> Value {
        if let (Value::Imm(imm1), Value::Imm(imm2)) = (&self, &rhs) {
            return Value::Imm(*imm1 & *imm2);
        }
        Value::Op2(ActionOp2::Bitand, Rc::new(self), Rc::new(rhs))
    }
}

impl vstd::std_specs::ops::BitAndSpecImpl for Value {
    open spec fn obeys_bitand_spec() -> bool {
        true
    }

    open spec fn bitand_req(self, rhs: Value) -> bool {
        true
    }

    open spec fn bitand_spec(self, rhs: Value) -> Value {
        fold2(self, rhs, |x: u64, y: u64| x & y, Value::Op2(ActionOp2::Bitand, Rc::new(self), Rc::new(rhs)))
    }
}

impl BitOr for Value {
    type Output = Value;

    fn bitor(self, rhs: Value) -> Value {
        if let (Value::Imm(imm1), Value::Imm(imm2)) = (&self, &rhs) {
            return Value::Imm(*imm1 | *imm2);
        }
        Value::Op2(ActionOp2::Bitor, Rc::new(self), Rc::new(rhs))
    }
}

impl vstd::std_specs::ops::BitOrSpecImpl for Value {
    open spec fn obeys_bitor_spec() -> bool {
        true
    }

    open spec fn bitor_req(self, rhs: Value) -> bool {
        true
    }

    open spec fn bitor_spec(self, rhs: Value) -> Value {
        fold2(self, rhs, |x: u64, y: u64| x | y, Value::Op2(ActionOp2::Bitor, Rc::new(self), Rc::new(rhs)))
    }
}

impl BitXor for Value {
    type Output = Value;

    fn bitxor(self, rhs: Value) -> Value {
        if let (Value::Imm(imm1), Value::Imm(imm2)) = (&self, &rhs) {
            return Value::Imm(*imm1 ^ *imm2);
        }
        Value::Op2(ActionOp2::Bitxor, Rc::new(self), Rc::new(rhs))
    }
}

impl vstd::std_specs::ops::BitXorSpecImpl for Value {
    open spec fn obeys_bitxor_spec() -> bool {
        true
    }

    open spec fn bitxor_req(self, rhs: Value) -> bool {
        true
    }

    open spec fn bitxor_spec(self, rhs: Value) -> Value {
        fold2(self, rhs, |x: u64, y: u64| x ^ y, Value::Op2(ActionOp2::Bitxor, Rc::new(self), Rc::new(rhs)))
    }
}

/// Shifting two immediates folds to an unsigned shift by the amount taken
/// modulo 64.
impl Shl for Value {
    type Output = Value;

    fn shl(self, rhs: Value) -> Value {
        if let (Value::Imm(imm1), Value::Imm(imm2)) = (&self, &rhs) {
            return Value::Imm(<u64 as Register>::shl(imm1, imm2));
        }
        Value::Op2(ActionOp2::Shl, Rc::new(self), Rc::new(rhs))
    }
}

impl vstd::std_specs::ops::ShlSpecImpl for Value {
    open spec fn obeys_shl_spec() -> bool {
        true
    }

    open spec fn shl_req(self, rhs: Value) -> bool {
        true
    }

    open spec fn shl_spec(self, rhs: Value) -> Value {
        fold2(
            self,
            rhs,
            |x: u64, y: u64| <u64 as Register>::spec_shl(x, y),
            Value::Op2(ActionOp2::Shl, Rc::new(self), Rc::new(rhs)),
        )
    }
}

impl Shr for Value {
    type Output = Value;

    fn shr(self, rhs: Value) -> Value {
        if let (Value::Imm(imm1), Value::Imm(imm2)) = (&self, &rhs) {
            return Value::Imm(<u64 as Register>::shr(imm1, imm2));
        }
        Value::SignOp2(SignActionOp2::Shr, Rc::new(self), Rc::new(rhs), false)
    }
}

impl vstd::std_specs::ops::ShrSpecImpl for Value {
    open spec fn obeys_shr_spec() -> bool {
        true
    }

    open spec fn shr_req(self, rhs: Value) -> bool {
        true
    }

    open spec fn shr_spec(self, rhs: Value) -> Value {
        fold2(
            self,
            rhs,
            |x: u64, y: u64| <u64 as Register>::spec_shr(x, y),
            Value::SignOp2(SignActionOp2::Shr, Rc::new(self), Rc::new(rhs), false),
        )
    }
}

/// The register operations on expressions. Only additions, subtractions,
/// rotations, the shifts and the ones-shifts fold two immediates; every other
/// operation builds its node. Expressions have no concrete number: the
/// conversions to machine integers give zero.
impl Value {
    /// The number of bits of the registers expressions stand for.
    pub const BITS: u8 = 64;

    pub const SHIFT_MASK: u8 = 0x3F;

    pub fn zero() -> (r: Value)
        ensures
            r == Value::Imm(0),
    {
        Value::Imm(0)
    }

    pub fn one() -> (r: Value)
        ensures
            r == Value::Imm(1),
    {
        Value::Imm(1)
    }

    pub fn min_value() -> (r: Value)
        ensures
            r == Value::Imm(0),
    {
        Value::Imm(u64::MIN)
    }

    pub fn max_value() -> (r: Value)
        ensures
            r == Value::Imm(u64::MAX),
    {
        Value::Imm(u64::MAX)
    }

    pub fn eq(&self, other: &Value) -> (r: Value)
        ensures
            is_op2(r, ActionOp2::Eq, *self, *other),
    {
        Value::Op2(ActionOp2::Eq, Rc::new(self.clone()), Rc::new(other.clone()))
    }

    pub fn lt(&self, other: &Value) -> (r: Value)
        ensures
            is_sign_op2(r, SignActionOp2::Lt, *self, *other, false),
    {
        Value::SignOp2(SignActionOp2::Lt, Rc::new(self.clone()), Rc::new(other.clone()), false)
    }

    pub fn lt_s(&self, other: &Value) -> (r: Value)
        ensures
            is_sign_op2(r, SignActionOp2::Lt, *self, *other, true),
    {
        Value::SignOp2(SignActionOp2::Lt, Rc::new(self.clone()), Rc::new(other.clone()), true)
    }

    pub fn logical_not(&self) -> (r: Value)
        ensures
            is_op1(r, ActionOp1::LogicalNot, *self),
    {
        Value::Op1(ActionOp1::LogicalNot, Rc::new(self.clone()))
    }

    pub fn cond(&self, true_value: &Value, false_value: &Value) -> (r: Value)
        ensures
            r == Value::Cond(Rc::new(*self), Rc::new(*true_value), Rc::new(*false_value)),
    {
        Value::Cond(
            Rc::new(self.clone()),
            Rc::new(true_value.clone()),
            Rc::new(false_value.clone()),
        )
    }

    pub fn overflowing_add(&self, rhs: &Value) -> (r: Value)
        ensures
            r == fold2(
                *self,
                *rhs,
                |x: u64, y: u64| <u64 as Register>::spec_overflowing_add(x, y),
                Value::Op2(ActionOp2::Add, Rc::new(*self), Rc::new(*rhs)),
            ),
    {
        if let (Value::Imm(imm1), Value::Imm(imm2)) = (self, rhs) {
            return Value::Imm(<u64 as Register>::overflowing_add(imm1, imm2));
        }
        Value::Op2(ActionOp2::Add, Rc::new(self.clone()), Rc::new(rhs.clone()))
    }

    pub fn overflowing_sub(&self, rhs: &Value) -> (r: Value)
        ensures
            r == fold2(
                *self,
                *rhs,
                |x: u64, y: u64| <u64 as Register>::spec_overflowing_sub(x, y),
                Value::Op2(ActionOp2::Sub, Rc::new(*self), Rc::new(*rhs)),
            ),
    {
        if let (Value::Imm(imm1), Value::Imm(imm2)) = (self, rhs) {
            return Value::Imm(<u64 as Register>::overflowing_sub(imm1, imm2));
        }
        Value::Op2(ActionOp2::Sub, Rc::new(self.clone()), Rc::new(rhs.clone()))
    }

    pub fn overflowing_mul(&self, rhs: &Value) -> (r: Value)
        ensures
            is_op2(r, ActionOp2::Mul, *self, *rhs),
    {
        Value::Op2(ActionOp2::Mul, Rc::new(self.clone()), Rc::new(rhs.clone()))
    }

    pub fn overflowing_div(&self, rhs: &Value) -> (r: Value)
        ensures
            is_sign_op2(r, SignActionOp2::Div, *self, *rhs, false),
    {
        Value::SignOp2(SignActionOp2::Div, Rc::new(self.clone()), Rc::new(rhs.clone()), false)
    }

    pub fn overflowing_rem(&self, rhs: &Value) -> (r: Value)
        ensures
            is_sign_op2(r, SignActionOp2::Rem, *self, *rhs, false),
    {
        Value::SignOp2(SignActionOp2::Rem, Rc::new(self.clone()), Rc::new(rhs.clone()), false)
    }

    pub fn overflowing_div_signed(&self, rhs: &Value) -> (r: Value)
        ensures
            is_sign_op2(r, SignActionOp2::Div, *self, *rhs, true),
    {
        Value::SignOp2(SignActionOp2::Div, Rc::new(self.clone()), Rc::new(rhs.clone()), true)
    }

    pub fn overflowing_rem_signed(&self, rhs: &Value) -> (r: Value)
        ensures
            is_sign_op2(r, SignActionOp2::Rem, *self, *rhs, true),
    {
        Value::SignOp2(SignActionOp2::Rem, Rc::new(self.clone()), Rc::new(rhs.clone()), true)
    }

    pub fn overflowing_mul_high_signed(&self, rhs: &Value) -> (r: Value)
        ensures
            is_sign_op2(r, SignActionOp2::Mulh, *self, *rhs, true),
    {
        Value::SignOp2(SignActionOp2::Mulh, Rc::new(self.clone()), Rc::new(rhs.clone()), true)
    }

    pub fn overflowing_mul_high_unsigned(&self, rhs: &Value) -> (r: Value)
        ensures
            is_sign_op2(r, SignActionOp2::Mulh, *self, *rhs, false),
    {
        Value::SignOp2(SignActionOp2::Mulh, Rc::new(self.clone()), Rc::new(rhs.clone()), false)
    }

    pub fn overflowing_mul_high_signed_unsigned(&self, rhs: &Value) -> (r: Value)
        ensures
            is_op2(r, ActionOp2::Mulhsu, *self, *rhs),
    {
        Value::Op2(ActionOp2::Mulhsu, Rc::new(self.clone()), Rc::new(rhs.clone()))
    }

    pub fn clz(&self) -> (r: Value)
        ensures
            is_op1(r, ActionOp1::Clz, *self),
    {
        Value::Op1(ActionOp1::Clz, Rc::new(self.clone()))
    }

    pub fn ctz(&self) -> (r: Value)
        ensures
            is_op1(r, ActionOp1::Ctz, *self),
    {
        Value::Op1(ActionOp1::Ctz, Rc::new(self.clone()))
    }

    pub fn pcnt(&self) -> (r: Value)
        ensures
            is_op1(r, ActionOp1::Pcnt, *self),
    {
        Value::Op1(ActionOp1::Pcnt, Rc::new(self.clone()))
    }

    /// Rotation left; two immediates rotate by the amount modulo 64.
    pub fn rol(&self, rhs: &Value) -> (r: Value)
        ensures
            r == fold2(
                *self,
                *rhs,
                |x: u64, y: u64| <u64 as Register>::spec_rol(x, y),
                Value::Op2(ActionOp2::Rol, Rc::new(*self), Rc::new(*rhs)),
            ),
    {
        if let (Value::Imm(imm1), Value::Imm(imm2)) = (self, rhs) {
            return Value::Imm(<u64 as Register>::rol(imm1, imm2));
        }
        Value::Op2(ActionOp2::Rol, Rc::new(self.clone()), Rc::new(rhs.clone()))
    }

    /// Rotation right; two immediates rotate by the amount modulo 64.
    pub fn ror(&self, rhs: &Value) -> (r: Value)
        ensures
            r == fold2(
                *self,
                *rhs,
                |x: u64, y: u64| <u64 as Register>::spec_ror(x, y),
                Value::Op2(ActionOp2::Ror, Rc::new(*self), Rc::new(*rhs)),
            ),
    {
        if let (Value::Imm(imm1), Value::Imm(imm2)) = (self, rhs) {
            return Value::Imm(<u64 as Register>::ror(imm1, imm2));
        }
        Value::Op2(ActionOp2::Ror, Rc::new(self.clone()), Rc::new(rhs.clone()))
    }

    /// Shift left shifting in ones: the complement of the shifted complement,
    /// the amount taken modulo 64.
    pub fn slo(&self, rhs: &Value) -> (r: Value)
        ensures
            r == fold2(
                *self,
                *rhs,
                |x: u64, y: u64| !((!x) << (y & 63)),
                Value::Op2(ActionOp2::Slo, Rc::new(*self), Rc::new(*rhs)),
            ),
    {
        if let (Value::Imm(imm1), Value::Imm(imm2)) = (self, rhs) {
            let s: u64 = *imm2 & 63;
            proof {
                lemma_and_63(*imm2);
            }
            return Value::Imm(!((!*imm1) << s));
        }
        Value::Op2(ActionOp2::Slo, Rc::new(self.clone()), Rc::new(rhs.clone()))
    }

    /// Shift right shifting in ones, the amount taken modulo 64.
    pub fn sro(&self, rhs: &Value) -> (r: Value)
        ensures
            r == fold2(
                *self,
                *rhs,
                |x: u64, y: u64| !((!x) >> (y & 63)),
                Value::Op2(ActionOp2::Sro, Rc::new(*self), Rc::new(*rhs)),
            ),
    {
        if let (Value::Imm(imm1), Value::Imm(imm2)) = (self, rhs) {
            let s: u64 = *imm2 & 63;
            proof {
                lemma_and_63(*imm2);
            }
            return Value::Imm(!((!*imm1) >> s));
        }
        Value::Op2(ActionOp2::Sro, Rc::new(self.clone()), Rc::new(rhs.clone()))
    }

    pub fn fsl(&self, rhs: &Value, shift: &Value) -> (r: Value)
        ensures
            r == Value::Op3(ActionOp3::Fsl, Rc::new(*self), Rc::new(*rhs), Rc::new(*shift)),
    {
        Value::Op3(
            ActionOp3::Fsl,
            Rc::new(self.clone()),
            Rc::new(rhs.clone()),
            Rc::new(shift.clone()),
        )
    }

    pub fn fsr(&self, rhs: &Value, shift: &Value) -> (r: Value)
        ensures
            r == Value::Op3(ActionOp3::Fsr, Rc::new(*self), Rc::new(*rhs), Rc::new(*shift)),
    {
        Value::Op3(
            ActionOp3::Fsr,
            Rc::new(self.clone()),
            Rc::new(rhs.clone()),
            Rc::new(shift.clone()),
        )
    }

    /// A signed left shift is the unsigned one.
    pub fn signed_shl(&self, rhs: &Value) -> (r: Value)
        ensures
            r == fold2(
                *self,
                *rhs,
                |x: u64, y: u64| <u64 as Register>::spec_shl(x, y),
                Value::Op2(ActionOp2::Shl, Rc::new(*self), Rc::new(*rhs)),
            ),
    {
        self.clone().shl(rhs.clone())
    }

    /// Arithmetic shift right; two immediates shift as signed numbers by the
    /// amount modulo 64.
    pub fn signed_shr(&self, rhs: &Value) -> (r: Value)
        ensures
            r == fold2(
                *self,
                *rhs,
                |x: u64, y: u64| <u64 as Register>::spec_signed_shr(x, y),
                Value::SignOp2(SignActionOp2::Shr, Rc::new(*self), Rc::new(*rhs), true),
            ),
    {
        if let (Value::Imm(imm1), Value::Imm(imm2)) = (self, rhs) {
            return Value::Imm(<u64 as Register>::signed_shr(imm1, imm2));
        }
        Value::SignOp2(SignActionOp2::Shr, Rc::new(self.clone()), Rc::new(rhs.clone()), true)
    }

    pub fn zero_extend(&self, start_bit: &Value) -> (r: Value)
        ensures
            is_sign_op2(r, SignActionOp2::Extend, *self, *start_bit, false),
    {
        Value::SignOp2(
            SignActionOp2::Extend,
            Rc::new(self.clone()),
            Rc::new(start_bit.clone()),
            false,
        )
    }

    pub fn sign_extend(&self, start_bit: &Value) -> (r: Value)
        ensures
            is_sign_op2(r, SignActionOp2::Extend, *self, *start_bit, true),
    {
        Value::SignOp2(
            SignActionOp2::Extend,
            Rc::new(self.clone()),
            Rc::new(start_bit.clone()),
            true,
        )
    }

    pub fn to_i8(&self) -> (r: i8)
        ensures
            r == 0,
    {
        0
    }

    pub fn to_i16(&self) -> (r: i16)
        ensures
            r == 0,
    {
        0
    }

    pub fn to_i32(&self) -> (r: i32)
        ensures
            r == 0,
    {
        0
    }

    pub fn to_i64(&self) -> (r: i64)
        ensures
            r == 0,
    {
        0
    }

    pub fn to_u8(&self) -> (r: u8)
        ensures
            r == 0,
    {
        0
    }

    pub fn to_u16(&self) -> (r: u16)
        ensures
            r == 0,
    {
        0
    }

    pub fn to_u32(&self) -> (r: u32)
        ensures
            r == 0,
    {
        0
    }

    pub fn to_u64(&self) -> (r: u64)
        ensures
            r == 0,
    {
        0
    }

    /// Sign-extends `v` to 64 bits.
    pub fn from_i8(v: i8) -> (r: Value)
        ensures
            r == Value::Imm(v as u64),
    {
        Value::Imm(v as i64 as u64)
    }

    pub fn from_i16(v: i16) -> (r: Value)
        ensures
            r == Value::Imm(v as u64),
    {
        Value::Imm(v as i64 as u64)
    }

    pub fn from_i32(v: i32) -> (r: Value)
        ensures
            r == Value::Imm(v as u64),
    {
        Value::Imm(v as i64 as u64)
    }

    pub fn from_i64(v: i64) -> (r: Value)
        ensures
            r == Value::Imm(v as u64),
    {
        Value::Imm(v as u64)
    }

    pub fn from_u8(v: u8) -> (r: Value)
        ensures
            r == Value::Imm(v as u64),
    {
        Value::Imm(v as u64)
    }

    pub fn from_u16(v: u16) -> (r: Value)
        ensures
            r == Value::Imm(v as u64),
    {
        Value::Imm(v as u64)
    }

    pub fn from_u32(v: u32) -> (r: Value)
        ensures
            r == Value::Imm(v as u64),
    {
        Value::Imm(v as u64)
    }

    pub fn from_u64(v: u64) -> (r: Value)
        ensures
            r == Value::Imm(v),
    {
        Value::Imm(v)
    }
}


} // verus!
