use wasm_interp::parser::{Cursor, Module, Parsable};
use wasm_interp::runtime::{Runtime, RuntimeError, Step, Value};
use wasm_interp::testsuite::{handle_action, Action, ActionError, ConstValue};

const HEADER: [u8; 8] = [0x00, 0x61, 0x73, 0x6D, 0x01, 0x00, 0x00, 0x00];

fn instantiate(sections: &[u8]) -> Runtime {
    let mut bytes = HEADER.to_vec();
    bytes.extend_from_slice(sections);
    let mut stack = Vec::new();
    let mut cursor = Cursor::new(&bytes);
    let module = Module::parse(&mut cursor, &mut stack).expect("module decodes");
    assert!(stack.is_empty());
    Runtime::new(module).expect("module instantiates")
}

fn i32s(values: &[i64]) -> Vec<ConstValue> {
    values.iter().map(|v| ConstValue::I32 { value: v.to_string() }).collect()
}

fn invoke(rt: &mut Runtime, field: &str, args: Vec<ConstValue>) -> Result<Vec<Value>, RuntimeError> {
    let action = Action::Invoke { module: None, field: field.to_string(), args };
    handle_action(rt, &action).expect("action starts");
    for _ in 0..1_000_000 {
        match rt.step()? {
            Step::Next => {}
            Step::Finished(values) => return Ok(values),
            other => panic!("unexpected step {:?}", other),
        }
    }
    panic!("did not finish");
}

fn binary_i32(opcode: u8) -> Vec<u8> {
    vec![
        0x01, 0x07, 0x01, 0x60, 0x02, 0x7F, 0x7F, 0x01, 0x7F, // type (i32, i32) -> i32
        0x03, 0x02, 0x01, 0x00, // function 0 has type 0
        0x07, 0x06, 0x01, 0x02, b'o', b'p', 0x00, 0x00, // export "op"
        0x0A, 0x09, 0x01, 0x07, 0x00, 0x20, 0x00, 0x20, 0x01, opcode, 0x0B,
    ]
}

fn binary_i64(opcode: u8) -> Vec<u8> {
    vec![
        0x01, 0x07, 0x01, 0x60, 0x02, 0x7E, 0x7E, 0x01, 0x7E, // type (i64, i64) -> i64
        0x03, 0x02, 0x01, 0x00,
        0x07, 0x06, 0x01, 0x02, b'o', b'p', 0x00, 0x00,
        0x0A, 0x09, 0x01, 0x07, 0x00, 0x20, 0x00, 0x20, 0x01, opcode, 0x0B,
    ]
}

fn op32(opcode: u8, a: i32, b: i32) -> Result<Vec<Value>, RuntimeError> {
    let mut rt = instantiate(&binary_i32(opcode));
    invoke(&mut rt, "op", i32s(&[a as i64, b as i64]))
}

fn op64(opcode: u8, a: i64, b: i64) -> Result<Vec<Value>, RuntimeError> {
    let mut rt = instantiate(&binary_i64(opcode));
    let args = vec![
        ConstValue::I64 { value: a.to_string() },
        ConstValue::I64 { value: b.to_string() },
    ];
    invoke(&mut rt, "op", args)
}

#[test]
fn add_two_and_three() {
    let sections = [
        0x01, 0x07, 0x01, 0x60, 0x02, 0x7F, 0x7F, 0x01, 0x7F,
        0x03, 0x02, 0x01, 0x00,
        0x07, 0x07, 0x01, 0x03, b'a', b'd', b'd', 0x00, 0x00,
        0x0A, 0x09, 0x01, 0x07, 0x00, 0x20, 0x00, 0x20, 0x01, 0x6A, 0x0B,
    ];
    let mut rt = instantiate(&sections);
    assert_eq!(invoke(&mut rt, "add", i32s(&[2, 3])), Ok(vec![Value::I32(5)]));
    // The runtime hosts several invocations in a row.
    assert_eq!(invoke(&mut rt, "add", i32s(&[-7, 3])), Ok(vec![Value::I32(-4)]));
    assert_eq!(rt.step(), Err(RuntimeError::NoFrame));
}

fn factorial_module() -> Vec<u8> {
    vec![
        0x01, 0x06, 0x01, 0x60, 0x01, 0x7E, 0x01, 0x7E, // type (i64) -> i64
        0x03, 0x02, 0x01, 0x00,
        0x07, 0x08, 0x01, 0x04, b'f', b'a', b'c', b't', 0x00, 0x00,
        0x0A, 0x27, 0x01, 0x25, // one body of 37 bytes
        0x01, 0x01, 0x7E, // one local of type i64
        0x42, 0x01, 0x21, 0x01, // local 1 = 1
        0x02, 0x40, // block
        0x03, 0x40, // loop
        0x20, 0x00, 0x50, 0x0D, 0x01, // br_if 1 when local 0 is zero
        0x20, 0x01, 0x20, 0x00, 0x7E, 0x21, 0x01, // local 1 *= local 0
        0x20, 0x00, 0x42, 0x01, 0x7D, 0x21, 0x00, // local 0 -= 1
        0x0C, 0x00, // br 0
        0x0B, 0x0B, // end of loop, end of block
        0x20, 0x01, 0x0B,
    ]
}

#[test]
fn factorial_of_ten() {
    let mut rt = instantiate(&factorial_module());
    let args = vec![ConstValue::I64 { value: "10".to_string() }];
    assert_eq!(invoke(&mut rt, "fact", args), Ok(vec![Value::I64(3628800)]));
    let args = vec![ConstValue::I64 { value: "0".to_string() }];
    assert_eq!(invoke(&mut rt, "fact", args), Ok(vec![Value::I64(1)]));
    // 21! wraps around.
    let args = vec![ConstValue::I64 { value: "21".to_string() }];
    assert_eq!(invoke(&mut rt, "fact", args), Ok(vec![Value::I64(-4249290049419214848)]));
}

#[test]
fn signed_division_traps() {
    assert_eq!(op32(0x6D, 1, 0), Err(RuntimeError::DivideByZero));
    assert_eq!(op32(0x6D, i32::MIN, -1), Err(RuntimeError::IntegerOverflow));
    assert_eq!(op32(0x6D, 7, 2), Ok(vec![Value::I32(3)]));
    assert_eq!(op32(0x6D, -7, 2), Ok(vec![Value::I32(-3)]));
    assert_eq!(op32(0x6D, 7, -2), Ok(vec![Value::I32(-3)]));
    assert_eq!(op32(0x6D, i32::MIN, 1), Ok(vec![Value::I32(i32::MIN)]));
    assert_eq!(op64(0x7F, i64::MIN, -1), Err(RuntimeError::IntegerOverflow));
    assert_eq!(op64(0x7F, 1, 0), Err(RuntimeError::DivideByZero));
}

#[test]
fn a_trap_clears_the_frames() {
    let mut rt = instantiate(&binary_i32(0x6D));
    assert_eq!(invoke(&mut rt, "op", i32s(&[1, 0])), Err(RuntimeError::DivideByZero));
    assert!(rt.stack.is_empty());
    assert_eq!(rt.step(), Err(RuntimeError::NoFrame));
}

fn memory_module() -> Vec<u8> {
    vec![
        0x01, 0x0B, 0x02, 0x60, 0x02, 0x7F, 0x7F, 0x00, 0x60, 0x01, 0x7F, 0x01, 0x7F,
        0x03, 0x04, 0x03, 0x00, 0x01, 0x01,
        0x05, 0x03, 0x01, 0x00, 0x01, // one memory of one page
        0x07, 0x1A, 0x03,
        0x05, b's', b't', b'o', b'r', b'e', 0x00, 0x00,
        0x07, b'l', b'o', b'a', b'd', b'8', b'_', b'u', 0x00, 0x01,
        0x04, b'l', b'o', b'a', b'd', 0x00, 0x02,
        0x0A, 0x1B, 0x03,
        0x09, 0x00, 0x20, 0x00, 0x20, 0x01, 0x36, 0x02, 0x00, 0x0B,
        0x07, 0x00, 0x20, 0x00, 0x2D, 0x00, 0x00, 0x0B,
        0x07, 0x00, 0x20, 0x00, 0x28, 0x02, 0x00, 0x0B,
    ]
}

#[test]
fn store_then_load_bytes() {
    let mut rt = instantiate(&memory_module());
    assert_eq!(invoke(&mut rt, "store", i32s(&[0, 0xDEADBEEF])), Ok(vec![]));
    assert_eq!(invoke(&mut rt, "load8_u", i32s(&[0])), Ok(vec![Value::I32(0xEF)]));
    assert_eq!(invoke(&mut rt, "load8_u", i32s(&[1])), Ok(vec![Value::I32(0xBE)]));
    assert_eq!(invoke(&mut rt, "load8_u", i32s(&[2])), Ok(vec![Value::I32(0xAD)]));
    assert_eq!(invoke(&mut rt, "load8_u", i32s(&[3])), Ok(vec![Value::I32(0xDE)]));
    assert_eq!(invoke(&mut rt, "load", i32s(&[0])), Ok(vec![Value::I32(0xDEADBEEFu32 as i32)]));
    assert_eq!(invoke(&mut rt, "load", i32s(&[65532])), Ok(vec![Value::I32(0)]));
    assert_eq!(
        invoke(&mut rt, "load", i32s(&[65533])),
        Err(RuntimeError::OutOfBoundsMemoryAccess)
    );
}

#[test]
fn a_store_across_the_end_writes_nothing() {
    let mut rt = instantiate(&memory_module());
    assert_eq!(
        invoke(&mut rt, "store", i32s(&[65534, -1])),
        Err(RuntimeError::OutOfBoundsMemoryAccess)
    );
    assert_eq!(rt.memory.data[65534], 0);
    assert_eq!(rt.memory.data[65535], 0);
    assert_eq!(invoke(&mut rt, "store", i32s(&[65532, -1])), Ok(vec![]));
    assert_eq!(rt.memory.data[65532..], [0xFF, 0xFF, 0xFF, 0xFF]);
}

fn if_module() -> Vec<u8> {
    vec![
        0x01, 0x06, 0x01, 0x60, 0x01, 0x7F, 0x01, 0x7F,
        0x03, 0x02, 0x01, 0x00,
        0x07, 0x05, 0x01, 0x01, b'f', 0x00, 0x00,
        0x0A, 0x11, 0x01, 0x0F,
        0x01, 0x01, 0x7F, // one local of type i32
        0x20, 0x00, // local.get 0
        0x04, 0x40, // if
        0x41, 0x07, 0x21, 0x01, // local 1 = 7
        0x0B, // end
        0x20, 0x01, 0x0B,
    ]
}

#[test]
fn if_without_else() {
    let mut rt = instantiate(&if_module());
    assert_eq!(invoke(&mut rt, "f", i32s(&[0])), Ok(vec![Value::I32(0)]));
    assert_eq!(invoke(&mut rt, "f", i32s(&[1])), Ok(vec![Value::I32(7)]));
}

#[test]
fn if_without_else_skips_past_its_end() {
    let mut rt = instantiate(&if_module());
    let action = Action::Invoke { module: None, field: "f".to_string(), args: i32s(&[0]) };
    handle_action(&mut rt, &action).unwrap();
    assert_eq!(rt.step(), Ok(Step::Next)); // local.get 0
    assert_eq!(rt.stack[0].stack, vec![Value::I32(0)]);
    assert_eq!(rt.step(), Ok(Step::Next)); // if
    // Row: 0 local.get, 1 if, 2 const, 3 local.set, 4 end, 5 local.get.
    assert_eq!(rt.stack[0].pc, 5);
    assert!(rt.stack[0].stack.is_empty());
    assert!(rt.stack[0].depth_stack.is_empty());

    let action = Action::Invoke { module: None, field: "f".to_string(), args: i32s(&[1]) };
    rt.abort();
    handle_action(&mut rt, &action).unwrap();
    assert_eq!(rt.step(), Ok(Step::Next));
    assert_eq!(rt.step(), Ok(Step::Next));
    assert_eq!(rt.stack[0].pc, 2);
    assert_eq!(rt.stack[0].stack, vec![Value::BlockMarker]);
    assert_eq!(rt.stack[0].depth_stack.len(), 1);
}

#[test]
fn wraparound() {
    assert_eq!(op32(0x6A, i32::MAX, 1), Ok(vec![Value::I32(i32::MIN)]));
    assert_eq!(op32(0x6B, i32::MIN, 1), Ok(vec![Value::I32(i32::MAX)]));
    assert_eq!(op32(0x6C, 0x10000, 0x10000), Ok(vec![Value::I32(0)]));
    assert_eq!(op32(0x6C, -3, 5), Ok(vec![Value::I32(-15)]));
    assert_eq!(op64(0x7C, i64::MAX, 1), Ok(vec![Value::I64(i64::MIN)]));
    assert_eq!(op64(0x7E, 1 << 32, 1 << 32), Ok(vec![Value::I64(0)]));
}

#[test]
fn unsigned_division_and_remainders() {
    assert_eq!(op32(0x6E, -1, 2), Ok(vec![Value::I32(0x7FFF_FFFF)]));
    assert_eq!(op32(0x6E, 1, 0), Err(RuntimeError::DivideByZero));
    assert_eq!(op32(0x6F, -7, 2), Ok(vec![Value::I32(-1)]));
    assert_eq!(op32(0x6F, 7, -2), Ok(vec![Value::I32(1)]));
    assert_eq!(op32(0x6F, i32::MIN, -1), Ok(vec![Value::I32(0)]));
    assert_eq!(op32(0x6F, 1, 0), Err(RuntimeError::DivideByZero));
    assert_eq!(op32(0x70, -1, 10), Ok(vec![Value::I32(5)]));
    assert_eq!(op32(0x70, 1, 0), Err(RuntimeError::DivideByZero));
    assert_eq!(op64(0x80, -1, 2), Ok(vec![Value::I64(i64::MAX)]));
    assert_eq!(op64(0x81, i64::MIN, -1), Ok(vec![Value::I64(0)]));
}

#[test]
fn bits_and_shifts() {
    assert_eq!(op32(0x71, 0b1100, 0b1010), Ok(vec![Value::I32(0b1000)]));
    assert_eq!(op32(0x72, 0b1100, 0b1010), Ok(vec![Value::I32(0b1110)]));
    assert_eq!(op32(0x73, 0b1100, 0b1010), Ok(vec![Value::I32(0b0110)]));
    assert_eq!(op32(0x74, 1, 33), Ok(vec![Value::I32(2)]));
    assert_eq!(op32(0x74, 1, 31), Ok(vec![Value::I32(i32::MIN)]));
    assert_eq!(op32(0x75, -8, 1), Ok(vec![Value::I32(-4)]));
    assert_eq!(op32(0x76, -8, 1), Ok(vec![Value::I32(0x7FFF_FFFC)]));
    assert_eq!(op32(0x77, 0x4000_0001u32 as i32, 2), Ok(vec![Value::I32(5)]));
    assert_eq!(op32(0x77, 5, 0), Ok(vec![Value::I32(5)]));
    assert_eq!(op32(0x78, 5, 2), Ok(vec![Value::I32(0x4000_0001)]));
    assert_eq!(op64(0x86, 1, 65), Ok(vec![Value::I64(2)]));
    assert_eq!(op64(0x88, -1, 63), Ok(vec![Value::I64(1)]));
    assert_eq!(op64(0x89, 1, 1), Ok(vec![Value::I64(2)]));
    assert_eq!(op64(0x8A, 1, 1), Ok(vec![Value::I64(i64::MIN)]));
}

#[test]
fn comparisons() {
    assert_eq!(op32(0x46, 3, 3), Ok(vec![Value::I32(1)]));
    assert_eq!(op32(0x47, 3, 3), Ok(vec![Value::I32(0)]));
    assert_eq!(op32(0x48, -1, 1), Ok(vec![Value::I32(1)]));
    assert_eq!(op32(0x49, -1, 1), Ok(vec![Value::I32(0)]));
    assert_eq!(op32(0x4A, -1, 1), Ok(vec![Value::I32(0)]));
    assert_eq!(op32(0x4B, -1, 1), Ok(vec![Value::I32(1)]));
    assert_eq!(op32(0x4C, 1, 1), Ok(vec![Value::I32(1)]));
    assert_eq!(op32(0x4D, 2, 1), Ok(vec![Value::I32(0)]));
    assert_eq!(op32(0x4E, 1, 2), Ok(vec![Value::I32(0)]));
    assert_eq!(op32(0x4F, -1, 2), Ok(vec![Value::I32(1)]));
}

#[test]
fn unknown_export_and_bad_arguments() {
    let mut rt = instantiate(&binary_i32(0x6A));
    let action = Action::Invoke { module: None, field: "nope".to_string(), args: vec![] };
    assert_eq!(handle_action(&mut rt, &action), Err(ActionError::NoFunction));
    let action = Action::Invoke {
        module: Some("other".to_string()),
        field: "op".to_string(),
        args: vec![],
    };
    assert_eq!(handle_action(&mut rt, &action), Err(ActionError::NamedModule));
    let action = Action::Get { module: None, field: "op".to_string() };
    assert_eq!(handle_action(&mut rt, &action), Err(ActionError::GetGlobal));
    let action = Action::Invoke {
        module: None,
        field: "op".to_string(),
        args: vec![ConstValue::I32 { value: "twelve".to_string() }],
    };
    assert_eq!(handle_action(&mut rt, &action), Err(ActionError::BadConstant));
    assert!(rt.stack.is_empty());
}

#[test]
fn too_few_operands_is_a_stack_underflow() {
    let mut rt = instantiate(&binary_i32(0x6A));
    // No arguments: the locals do not exist.
    let action = Action::Invoke { module: None, field: "op".to_string(), args: vec![] };
    handle_action(&mut rt, &action).unwrap();
    assert!(matches!(rt.step(), Err(RuntimeError::UnknownIndex(_, 0))));
}
