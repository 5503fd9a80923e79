use wasm_interp::parser::typing::plain_types;
use wasm_interp::parser::{
    BlockType, FuncIdx, FuncType, GlobalIdX, IBinOp, IRelOp, Instr, LabelIdX, LoadOp, LocalIdX,
    MemArg, PlainInstr, ResultType, StoreOp, TypingRuleError, TypingRules, ValType, Width,
    FRelOp, IUnOp,
};
use wasm_interp::runtime::Value;
use wasm_interp::testsuite::{
    const_to_val, parse_bits32, parse_bits64, remove_floats, same_values, ConstValue,
};

#[test]
fn numerals_are_bit_patterns() {
    assert_eq!(parse_bits32("0"), Some(0));
    assert_eq!(parse_bits32("4294967295"), Some(u32::MAX));
    assert_eq!(parse_bits32("4294967296"), None);
    assert_eq!(parse_bits32("-1"), Some(u32::MAX));
    assert_eq!(parse_bits32("-2147483648"), Some(0x8000_0000));
    assert_eq!(parse_bits32("-2147483649"), None);
    assert_eq!(parse_bits32("+17"), Some(17));
    assert_eq!(parse_bits32("-0"), Some(0));
    assert_eq!(parse_bits32("007"), Some(7));
    assert_eq!(parse_bits32(""), None);
    assert_eq!(parse_bits32("-"), None);
    assert_eq!(parse_bits32("+"), None);
    assert_eq!(parse_bits32("12a"), None);
    assert_eq!(parse_bits32("nan:canonical"), None);
    assert_eq!(parse_bits32("99999999999999999999999999999999999999999999"), None);
    assert_eq!(parse_bits64("18446744073709551615"), Some(u64::MAX));
    assert_eq!(parse_bits64("18446744073709551616"), None);
    assert_eq!(parse_bits64("-9223372036854775808"), Some(1 << 63));
    assert_eq!(parse_bits64("-9223372036854775809"), None);
    assert_eq!(parse_bits64("-1"), Some(u64::MAX));
}

#[test]
fn constants_become_values() {
    let consts = vec![
        ConstValue::I32 { value: "4294967295".to_string() },
        ConstValue::I32 { value: "-5".to_string() },
        ConstValue::I64 { value: "18446744073709551615".to_string() },
        ConstValue::F32 { value: "1065353216".to_string() },
        ConstValue::F64 { value: "4607182418800017408".to_string() },
    ];
    assert_eq!(
        const_to_val(&consts),
        Some(vec![
            Value::I32(-1),
            Value::I32(-5),
            Value::I64(-1),
            Value::F32(1.0f32.to_bits()),
            Value::F64(1.0f64.to_bits()),
        ])
    );
    let consts = vec![
        ConstValue::I32 { value: "1".to_string() },
        ConstValue::F32 { value: "nan:arithmetic".to_string() },
    ];
    assert_eq!(const_to_val(&consts), None);
    assert_eq!(const_to_val(&vec![]), Some(vec![]));
}

#[test]
fn floats_compare_by_their_bits() {
    let canonical = f32::NAN.to_bits();
    let other = canonical | 1;
    assert_eq!(
        remove_floats(vec![Value::F32(canonical), Value::F64(u64::MAX), Value::I32(3)]),
        vec![Value::I32(canonical as i32), Value::I64(-1), Value::I32(3)]
    );
    assert!(same_values(&vec![Value::F32(canonical)], &vec![Value::F32(canonical)]));
    assert!(!same_values(&vec![Value::F32(canonical)], &vec![Value::F32(other)]));
    // Zero and minus zero are different patterns.
    assert!(!same_values(
        &vec![Value::F64(0.0f64.to_bits())],
        &vec![Value::F64((-0.0f64).to_bits())]
    ));
    assert!(same_values(&vec![], &vec![]));
    assert!(!same_values(&vec![Value::I32(1)], &vec![Value::I32(1), Value::I32(1)]));
    assert!(!same_values(&vec![Value::I32(1)], &vec![Value::I64(1)]));
    // A float and the integer with its bits are the same once floats are removed.
    assert!(same_values(&vec![Value::F32(7)], &vec![Value::I32(7)]));
}

#[test]
fn value_types_have_names() {
    assert_eq!(Value::I32(0).as_str(), "i32");
    assert_eq!(Value::I64(0).as_str(), "i64");
    assert_eq!(Value::F32(0).as_str(), "f32");
    assert_eq!(Value::F64(0).as_str(), "f64");
    assert_eq!(Value::ExternRef(0).as_str(), "externref");
    assert_eq!(Value::FuncRef(0).as_str(), "funcref");
    assert_eq!(Value::BlockMarker.as_str(), "BlockLock");
}

fn rule(input: Vec<ValType>, output: Vec<ValType>) -> Result<TypingRules, TypingRuleError> {
    Ok(TypingRules { input, output })
}

#[test]
fn single_rules() {
    assert_eq!(
        TypingRules::single_input(ValType::I64),
        TypingRules { input: vec![ValType::I64], output: vec![] }
    );
    assert_eq!(
        TypingRules::single_output(ValType::F32),
        TypingRules { input: vec![], output: vec![ValType::F32] }
    );
}

#[test]
fn typing_rules_of_instructions() {
    let locals = [ValType::I32, ValType::F64];
    let globals = [ValType::I64];
    let f = FuncType {
        input: ResultType { types: vec![ValType::I32, ValType::I32] },
        output: ResultType { types: vec![ValType::I64] },
    };
    let types = [f.clone()];
    let funcs = [f.clone(), f];
    let t = |i: Instr| i.get_types(&locals, &funcs, &types, &globals);
    let p = |i: PlainInstr| Instr::Plain(i).get_types(&locals, &funcs, &types, &globals);

    assert_eq!(t(Instr::Block(BlockType::Empty, vec![])), rule(vec![], vec![]));
    assert_eq!(
        t(Instr::Loop(BlockType::Single(ValType::F32), vec![])),
        rule(vec![], vec![ValType::F32])
    );
    assert_eq!(
        t(Instr::Block(BlockType::TypeIndex(0), vec![])),
        rule(vec![ValType::I32, ValType::I32], vec![ValType::I64])
    );
    assert_eq!(
        t(Instr::Block(BlockType::TypeIndex(1), vec![])),
        Err(TypingRuleError::MissingFunction("block type"))
    );
    assert_eq!(t(Instr::IfElse(BlockType::Single(ValType::I32), vec![], None)), rule(vec![], vec![]));
    assert_eq!(t(Instr::BrTable(vec![], LabelIdX(0))), Err(TypingRuleError::NoRule));
    assert_eq!(p(PlainInstr::Return), rule(vec![], vec![]));
    assert_eq!(
        p(PlainInstr::Call(FuncIdx(1))),
        rule(vec![ValType::I32, ValType::I32], vec![ValType::I64])
    );
    assert_eq!(
        p(PlainInstr::Call(FuncIdx(2))),
        Err(TypingRuleError::MissingFunction("invalid call"))
    );
    assert_eq!(p(PlainInstr::LocalGet(LocalIdX(1))), rule(vec![], vec![ValType::F64]));
    assert_eq!(p(PlainInstr::LocalGet(LocalIdX(2))), Err(TypingRuleError::MissingLocal));
    assert_eq!(p(PlainInstr::LocalSet(LocalIdX(0))), rule(vec![ValType::I32], vec![]));
    assert_eq!(
        p(PlainInstr::LocalTee(LocalIdX(0))),
        rule(vec![ValType::I32], vec![ValType::I32])
    );
    assert_eq!(p(PlainInstr::LocalTee(LocalIdX(9))), Err(TypingRuleError::MissingLocal));
    assert_eq!(p(PlainInstr::GlobalGet(GlobalIdX(0))), rule(vec![], vec![ValType::I64]));
    assert_eq!(p(PlainInstr::GlobalSet(GlobalIdX(0))), rule(vec![ValType::I64], vec![]));
    assert_eq!(p(PlainInstr::GlobalSet(GlobalIdX(1))), Err(TypingRuleError::MissingGlobal));
    let m = MemArg { align: 0, offset: 0 };
    assert_eq!(p(PlainInstr::Load(LoadOp::I32Load8U, m)), rule(vec![], vec![ValType::I32]));
    assert_eq!(p(PlainInstr::Load(LoadOp::I64Load32S, m)), rule(vec![], vec![ValType::I64]));
    assert_eq!(p(PlainInstr::Load(LoadOp::F32, m)), rule(vec![], vec![ValType::F32]));
    assert_eq!(p(PlainInstr::Load(LoadOp::F64, m)), rule(vec![], vec![ValType::F64]));
    assert_eq!(p(PlainInstr::Store(StoreOp::I32, m)), rule(vec![ValType::I32], vec![]));
    assert_eq!(p(PlainInstr::Store(StoreOp::I64, m)), Err(TypingRuleError::NoRule));
    assert_eq!(p(PlainInstr::MemoryGrow), rule(vec![ValType::I32], vec![ValType::I32]));
    assert_eq!(p(PlainInstr::I32Const(1)), rule(vec![], vec![ValType::I32]));
    assert_eq!(p(PlainInstr::I64Const(1)), rule(vec![], vec![ValType::I64]));
    assert_eq!(p(PlainInstr::F32Const(1)), rule(vec![], vec![ValType::F32]));
    assert_eq!(p(PlainInstr::F64Const(1)), rule(vec![], vec![ValType::F64]));
    assert_eq!(p(PlainInstr::IEqz(Width::W32)), rule(vec![ValType::I32], vec![ValType::I32]));
    assert_eq!(
        p(PlainInstr::IRel(Width::W32, IRelOp::Eq)),
        rule(vec![ValType::I32, ValType::I32], vec![ValType::I32])
    );
    assert_eq!(
        p(PlainInstr::IRel(Width::W64, IRelOp::LtS)),
        rule(vec![ValType::I64, ValType::I64], vec![ValType::I32])
    );
    assert_eq!(
        p(PlainInstr::FRel(Width::W32, FRelOp::Gt)),
        rule(vec![ValType::F32, ValType::F32], vec![ValType::I32])
    );
    assert_eq!(
        p(PlainInstr::IUn(Width::W32, IUnOp::Ctz)),
        rule(vec![ValType::I32], vec![ValType::I32])
    );
    assert_eq!(
        p(PlainInstr::IBin(Width::W32, IBinOp::Add)),
        rule(vec![ValType::I32, ValType::I32], vec![ValType::I32])
    );
    assert_eq!(
        p(PlainInstr::IBin(Width::W64, IBinOp::Mul)),
        rule(vec![ValType::I64, ValType::I64], vec![ValType::I64])
    );
    assert_eq!(p(PlainInstr::Nop), Err(TypingRuleError::NoRule));
    assert_eq!(p(PlainInstr::Drop), Err(TypingRuleError::NoRule));
    assert_eq!(
        plain_types(PlainInstr::Unreachable, &locals, &funcs, &globals),
        Err(TypingRuleError::NoRule)
    );
}
