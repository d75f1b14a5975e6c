use lilcy::ir::builder::Builder;
use lilcy::ir::func::{Func, Signature};
use lilcy::ir::types::Type;
use lilcy::ir::value::ValueData;

#[test]
fn round_trip_function() {
    let func = Func::new(
        "f".to_string(),
        Signature { args: vec![Type::I32, Type::I32], ret: Some(Type::I32) },
    );
    let mut builder = Builder::new(func);
    let entry = builder.add_block();
    builder.set_insert_point(entry);
    let a0 = builder.get_arg(0);
    let a1 = builder.get_arg(1);
    let v = builder.add(a0, a1);
    let func = builder.finish();
    // The entry block is the one created block.
    assert_eq!(func.entry, Some(entry));
    // The result value belongs to the one instruction emitted (the first
    // instruction key minted) and carries the common operand type.
    match func.value_data(v) {
        ValueData::Inst { typ, inst } => {
            assert_eq!(*typ, Type::I32);
            assert_eq!(inst.0, 0);
        }
        ValueData::Arg { .. } => panic!("the result of add must be an instruction result"),
    }
}

#[test]
fn add_returns_the_common_operand_type() {
    let func = Func::new(
        "g".to_string(),
        Signature { args: vec![Type::I64, Type::I64], ret: Some(Type::I64) },
    );
    let mut builder = Builder::new(func);
    let entry = builder.add_block();
    builder.set_insert_point(entry);
    let a0 = builder.get_arg(0);
    let a1 = builder.get_arg(1);
    let v = builder.add(a0, a1);
    let w = builder.uadd(v, a0);
    let func = builder.finish();
    assert_eq!(func.value_data(v).get_type(), Type::I64);
    assert_eq!(func.value_data(w).get_type(), Type::I64);
}

#[test]
fn arguments_carry_their_declared_types() {
    let func = Func::new(
        "h".to_string(),
        Signature { args: vec![Type::I8, Type::Ptr], ret: None },
    );
    let a0 = func.get_arg(0);
    let a1 = func.get_arg(1);
    assert_eq!(func.value_data(a0).get_type(), Type::I8);
    assert_eq!(func.value_data(a1).get_type(), Type::Ptr);
    match func.value_data(a1) {
        ValueData::Arg { idx, .. } => assert_eq!(*idx, 1),
        ValueData::Inst { .. } => panic!("an argument value must be of argument kind"),
    }
}

#[test]
fn first_block_becomes_the_entry() {
    let func = Func::new("k".to_string(), Signature { args: vec![], ret: None });
    let mut builder = Builder::new(func);
    let b0 = builder.add_block();
    let b1 = builder.add_block();
    let func = builder.finish();
    assert_eq!(func.entry, Some(b0));
    assert_ne!(b0, b1);
}
