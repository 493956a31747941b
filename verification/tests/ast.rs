use ckb_vm::instructions::ast::{ActionOp1, ActionOp2, SignActionOp2, Value};

fn imm(v: &Value) -> Option<u64> {
    match v {
        Value::Imm(x) => Some(*x),
        _ => None,
    }
}

#[test]
fn test_immediates_fold() {
    assert_eq!(imm(&Value::Imm(u64::MAX).overflowing_add(&Value::Imm(2))), Some(1));
    assert_eq!(imm(&Value::Imm(1).overflowing_sub(&Value::Imm(2))), Some(u64::MAX));
    assert_eq!(imm(&(Value::Imm(0b1100) & Value::Imm(0b1010))), Some(0b1000));
    assert_eq!(imm(&(Value::Imm(0b1100) | Value::Imm(0b1010))), Some(0b1110));
    assert_eq!(imm(&(Value::Imm(0b1100) ^ Value::Imm(0b1010))), Some(0b0110));
    assert_eq!(imm(&!Value::Imm(0)), Some(u64::MAX));
    assert_eq!(imm(&(Value::Imm(1) << Value::Imm(4))), Some(16));
    assert_eq!(imm(&(Value::Imm(1) << Value::Imm(68))), Some(16));
    assert_eq!(imm(&(Value::Imm(0x80) >> Value::Imm(3))), Some(0x10));
    assert_eq!(imm(&Value::Imm(0x8000_0000_0000_0001).rol(&Value::Imm(1))), Some(3));
    assert_eq!(imm(&Value::Imm(3).ror(&Value::Imm(1))), Some(0x8000_0000_0000_0001));
    assert_eq!(imm(&Value::Imm(0).slo(&Value::Imm(4))), Some(0xf));
    assert_eq!(imm(&Value::Imm(0).sro(&Value::Imm(4))), Some(0xf000_0000_0000_0000));
    assert_eq!(imm(&Value::Imm(u64::MAX << 60).signed_shr(&Value::Imm(4))), Some(0xFF00_0000_0000_0000));
    assert_eq!(imm(&Value::Imm(2).signed_shl(&Value::Imm(3))), Some(16));
}

#[test]
fn test_other_operations_build_nodes() {
    let r1 = Value::Register(1);
    let r2 = Value::Register(2);
    assert!(matches!(r1.overflowing_add(&r2), Value::Op2(ActionOp2::Add, _, _)));
    assert!(matches!(Value::Imm(2).overflowing_mul(&Value::Imm(3)), Value::Op2(ActionOp2::Mul, _, _)));
    assert!(matches!(r1.lt_s(&r2), Value::SignOp2(SignActionOp2::Lt, _, _, true)));
    assert!(matches!(r1.lt(&r2), Value::SignOp2(SignActionOp2::Lt, _, _, false)));
    assert!(matches!(r1.overflowing_div_signed(&r2), Value::SignOp2(SignActionOp2::Div, _, _, true)));
    assert!(matches!(r1.clz(), Value::Op1(ActionOp1::Clz, _)));
    assert!(matches!(!r1.clone(), Value::Op1(ActionOp1::Not, _)));
    assert!(matches!(r1.cond(&r2, &Value::Imm(0)), Value::Cond(_, _, _)));
    assert!(matches!(r1.clone() >> r2.clone(), Value::SignOp2(SignActionOp2::Shr, _, _, false)));
}

#[test]
fn test_constants_and_conversions() {
    assert_eq!(imm(&Value::zero()), Some(0));
    assert_eq!(imm(&Value::one()), Some(1));
    assert_eq!(imm(&Value::max_value()), Some(u64::MAX));
    assert_eq!(imm(&Value::default()), Some(0));
    assert_eq!(imm(&Value::from_i8(-1)), Some(u64::MAX));
    assert_eq!(imm(&Value::from_i32(-2)), Some(u64::MAX - 1));
    assert_eq!(imm(&Value::from_u32(7)), Some(7));
    assert_eq!(Value::Register(3).to_u64(), 0);
    assert_eq!(Value::BITS, 64);
}
