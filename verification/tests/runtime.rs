use wasm_interp::parser::{
    BlockType, Code, Cursor, Export, ExportDesc, Expr, FBinOp, FuncIdx, FuncType, IBinOp, Instr,
    LocalIdX, Locals, Module, Name, Parsable, ParseError, PlainInstr, ResultType, TypeIdX,
    ValType, Width,
};
use wasm_interp::runtime::{IndexSpace, Runtime, RuntimeError, Step, Value};
use wasm_interp::testsuite::{handle_action, Action, ActionError, ConstValue};

const I32: u8 = 0x7F;
const I64: u8 = 0x7E;
const F32: u8 = 0x7D;

fn uleb(n: u64) -> Vec<u8> {
    let mut out = Vec::new();
    leb128::write::unsigned(&mut out, n).unwrap();
    out
}

fn sleb(n: i64) -> Vec<u8> {
    let mut out = Vec::new();
    leb128::write::signed(&mut out, n).unwrap();
    out
}

fn items(list: &[Vec<u8>]) -> Vec<u8> {
    let mut out = uleb(list.len() as u64);
    for item in list {
        out.extend_from_slice(item);
    }
    out
}

fn section(id: u8, content: Vec<u8>) -> Vec<u8> {
    let mut out = vec![id];
    out.extend(uleb(content.len() as u64));
    out.extend(content);
    out
}

fn func_type(params: &[u8], results: &[u8]) -> Vec<u8> {
    let mut out = vec![0x60];
    out.extend(uleb(params.len() as u64));
    out.extend_from_slice(params);
    out.extend(uleb(results.len() as u64));
    out.extend_from_slice(results);
    out
}

fn body(locals: &[(u32, u8)], code: &[u8]) -> Vec<u8> {
    let mut inner = uleb(locals.len() as u64);
    for (n, t) in locals {
        inner.extend(uleb(*n as u64));
        inner.push(*t);
    }
    inner.extend_from_slice(code);
    inner.push(0x0B);
    let mut out = uleb(inner.len() as u64);
    out.extend(inner);
    out
}

fn export(name: &str, kind: u8, index: u32) -> Vec<u8> {
    let mut out = uleb(name.len() as u64);
    out.extend_from_slice(name.as_bytes());
    out.push(kind);
    out.extend(uleb(index as u64));
    out
}

fn import_func(module: &str, name: &str, ty: u32) -> Vec<u8> {
    let mut out = uleb(module.len() as u64);
    out.extend_from_slice(module.as_bytes());
    out.extend(uleb(name.len() as u64));
    out.extend_from_slice(name.as_bytes());
    out.push(0x00);
    out.extend(uleb(ty as u64));
    out
}

struct Wasm {
    types: Vec<Vec<u8>>,
    imports: Vec<Vec<u8>>,
    funcs: Vec<u32>,
    tables: Vec<Vec<u8>>,
    mems: Vec<Vec<u8>>,
    globals: Vec<Vec<u8>>,
    exports: Vec<Vec<u8>>,
    elems: Vec<Vec<u8>>,
    code: Vec<Vec<u8>>,
    datas: Vec<Vec<u8>>,
}

impl Wasm {
    fn new() -> Self {
        Wasm {
            types: vec![],
            imports: vec![],
            funcs: vec![],
            tables: vec![],
            mems: vec![],
            globals: vec![],
            exports: vec![],
            elems: vec![],
            code: vec![],
            datas: vec![],
        }
    }

    /// Adds a function with a type of its own and exports it.
    fn func(&mut self, name: &str, params: &[u8], results: &[u8], locals: &[(u32, u8)], code: &[u8]) -> u32 {
        let ty = self.types.len() as u32;
        self.types.push(func_type(params, results));
        let index = (self.imports.len() + self.funcs.len()) as u32;
        self.funcs.push(ty);
        self.code.push(body(locals, code));
        self.exports.push(export(name, 0x00, index));
        index
    }

    fn bytes(&self) -> Vec<u8> {
        let mut out = vec![0x00, 0x61, 0x73, 0x6D, 0x01, 0x00, 0x00, 0x00];
        let funcs: Vec<Vec<u8>> = self.funcs.iter().map(|t| uleb(*t as u64)).collect();
        let all: [(u8, &Vec<Vec<u8>>); 10] = [
            (1, &self.types),
            (2, &self.imports),
            (3, &funcs),
            (4, &self.tables),
            (5, &self.mems),
            (6, &self.globals),
            (7, &self.exports),
            (9, &self.elems),
            (10, &self.code),
            (11, &self.datas),
        ];
        for (id, list) in all {
            if !list.is_empty() {
                out.extend(section(id, items(list)));
            }
        }
        out
    }

    fn decode(&self) -> Result<Module, ParseError> {
        let bytes = self.bytes();
        let mut trail = Vec::new();
        let mut cursor = Cursor::new(&bytes);
        Module::parse(&mut cursor, &mut trail)
    }

    fn instantiate(&self) -> Result<Runtime, RuntimeError> {
        Runtime::new(self.decode().expect("module decodes"))
    }
}

fn i32s(values: &[i64]) -> Vec<ConstValue> {
    values.iter().map(|v| ConstValue::I32 { value: v.to_string() }).collect()
}

fn start(rt: &mut Runtime, field: &str, args: Vec<ConstValue>) {
    let action = Action::Invoke { module: None, field: field.to_string(), args };
    handle_action(rt, &action).expect("action starts");
}

fn finish(rt: &mut Runtime) -> Result<Vec<Value>, RuntimeError> {
    for _ in 0..1_000_000 {
        match rt.step()? {
            Step::Next => {}
            Step::Finished(values) => return Ok(values),
            other => panic!("unexpected step {:?}", other),
        }
    }
    panic!("did not finish");
}

fn call(rt: &mut Runtime, field: &str, args: &[i64]) -> Result<Vec<Value>, RuntimeError> {
    start(rt, field, i32s(args));
    finish(rt)
}

fn one(name: &str, params: &[u8], results: &[u8], locals: &[(u32, u8)], code: &[u8]) -> Runtime {
    let mut w = Wasm::new();
    w.func(name, params, results, locals, code);
    w.instantiate().unwrap()
}

#[test]
fn locals_start_at_zero() {
    let mut rt = one("f", &[I32], &[I64], &[(1, I32), (2, I64)], &[0x20, 0x03]);
    start(&mut rt, "f", i32s(&[9]));
    assert_eq!(
        rt.stack[0].locals,
        vec![Value::I32(9), Value::I32(0), Value::I64(0), Value::I64(0)]
    );
    assert_eq!(finish(&mut rt), Ok(vec![Value::I64(0)]));
}

#[test]
fn tee_select_and_drop() {
    // local.tee 1; local.get 1; i32.add
    let mut rt = one("f", &[I32], &[I32], &[(1, I32)], &[0x20, 0x00, 0x22, 0x01, 0x20, 0x01, 0x6A]);
    assert_eq!(call(&mut rt, "f", &[21]), Ok(vec![Value::I32(42)]));
    // i32.const 10; i32.const 20; local.get 0; select
    let mut rt = one("f", &[I32], &[I32], &[], &[0x41, 0x0A, 0x41, 0x14, 0x20, 0x00, 0x1B]);
    assert_eq!(call(&mut rt, "f", &[1]), Ok(vec![Value::I32(10)]));
    assert_eq!(call(&mut rt, "f", &[0]), Ok(vec![Value::I32(20)]));
    // i32.const 1; i32.const 2; drop
    let mut rt = one("f", &[], &[I32], &[], &[0x41, 0x01, 0x41, 0x02, 0x1A]);
    assert_eq!(call(&mut rt, "f", &[]), Ok(vec![Value::I32(1)]));
}

#[test]
fn unary_operators() {
    let clz = |x: i64| call(&mut one("f", &[I32], &[I32], &[], &[0x20, 0x00, 0x67]), "f", &[x]);
    let ctz = |x: i64| call(&mut one("f", &[I32], &[I32], &[], &[0x20, 0x00, 0x68]), "f", &[x]);
    let pop = |x: i64| call(&mut one("f", &[I32], &[I32], &[], &[0x20, 0x00, 0x69]), "f", &[x]);
    let eqz = |x: i64| call(&mut one("f", &[I32], &[I32], &[], &[0x20, 0x00, 0x45]), "f", &[x]);
    assert_eq!(clz(0), Ok(vec![Value::I32(32)]));
    assert_eq!(clz(1), Ok(vec![Value::I32(31)]));
    assert_eq!(clz(-1), Ok(vec![Value::I32(0)]));
    assert_eq!(ctz(0), Ok(vec![Value::I32(32)]));
    assert_eq!(ctz(8), Ok(vec![Value::I32(3)]));
    assert_eq!(pop(0), Ok(vec![Value::I32(0)]));
    assert_eq!(pop(-1), Ok(vec![Value::I32(32)]));
    assert_eq!(pop(0b1011), Ok(vec![Value::I32(3)]));
    assert_eq!(eqz(0), Ok(vec![Value::I32(1)]));
    assert_eq!(eqz(5), Ok(vec![Value::I32(0)]));
    // i64.popcnt of -1
    let mut rt = one("f", &[], &[I64], &[], &[0x42, 0x7F, 0x7B]);
    assert_eq!(call(&mut rt, "f", &[]), Ok(vec![Value::I64(64)]));
    // i64.clz of 1
    let mut rt = one("f", &[], &[I64], &[], &[0x42, 0x01, 0x79]);
    assert_eq!(call(&mut rt, "f", &[]), Ok(vec![Value::I64(63)]));
}

#[test]
fn conversions_between_integers() {
    // i64.extend_i32_s, i64.extend_i32_u
    let mut rt = one("s", &[I32], &[I64], &[], &[0x20, 0x00, 0xAC]);
    assert_eq!(call(&mut rt, "s", &[-1]), Ok(vec![Value::I64(-1)]));
    let mut rt = one("u", &[I32], &[I64], &[], &[0x20, 0x00, 0xAD]);
    assert_eq!(call(&mut rt, "u", &[-1]), Ok(vec![Value::I64(0xFFFF_FFFF)]));
    // i32.wrap_i64 of 2^32 + 5
    let mut code = vec![0x42];
    code.extend(sleb((1 << 32) + 5));
    code.push(0xA7);
    let mut rt = one("w", &[], &[I32], &[], &code);
    assert_eq!(call(&mut rt, "w", &[]), Ok(vec![Value::I32(5)]));
    // i32.extend8_s, i32.extend16_s
    let mut rt = one("e", &[I32], &[I32], &[], &[0x20, 0x00, 0xC0]);
    assert_eq!(call(&mut rt, "e", &[0x80]), Ok(vec![Value::I32(-128)]));
    assert_eq!(call(&mut rt, "e", &[0x17F]), Ok(vec![Value::I32(127)]));
    let mut rt = one("e", &[I32], &[I32], &[], &[0x20, 0x00, 0xC1]);
    assert_eq!(call(&mut rt, "e", &[0x8000]), Ok(vec![Value::I32(-32768)]));
    // f32.reinterpret_i32 keeps the bits, and so does the way back.
    let mut rt = one("r", &[I32], &[F32], &[], &[0x20, 0x00, 0xBE]);
    assert_eq!(call(&mut rt, "r", &[0x7FC0_0001]), Ok(vec![Value::F32(0x7FC0_0001)]));
    let mut rt = one("r", &[I32], &[I32], &[], &[0x20, 0x00, 0xBE, 0xBC]);
    assert_eq!(call(&mut rt, "r", &[-2]), Ok(vec![Value::I32(-2)]));
}

#[test]
fn operand_types_are_checked() {
    // i64.const 1; i32.eqz
    let mut rt = one("f", &[], &[I32], &[], &[0x42, 0x01, 0x45]);
    assert_eq!(call(&mut rt, "f", &[]), Err(RuntimeError::TypeMismatch("i32", "i64")));
    // i32.add with one operand
    let mut rt = one("f", &[], &[I32], &[], &[0x41, 0x01, 0x6A]);
    assert_eq!(call(&mut rt, "f", &[]), Err(RuntimeError::StackUnderflow));
    // A block cannot take what lies below its base.
    let mut rt = one("f", &[], &[I32], &[], &[0x41, 0x01, 0x02, 0x40, 0x1A, 0x0B]);
    assert_eq!(call(&mut rt, "f", &[]), Err(RuntimeError::StackUnderflow));
    // unreachable
    let mut rt = one("f", &[], &[], &[], &[0x00]);
    assert_eq!(call(&mut rt, "f", &[]), Err(RuntimeError::UnreachableExecuted));
    // A function that leaves too little.
    let mut rt = one("f", &[], &[I32], &[], &[0x01]);
    assert_eq!(call(&mut rt, "f", &[]), Err(RuntimeError::StackUnderflow));
}

#[test]
fn if_with_else() {
    // if (result i32) 1 else 2 end
    let code = [0x20, 0x00, 0x04, I32, 0x41, 0x01, 0x05, 0x41, 0x02, 0x0B];
    let mut rt = one("f", &[I32], &[I32], &[], &code);
    assert_eq!(call(&mut rt, "f", &[5]), Ok(vec![Value::I32(1)]));
    assert_eq!(call(&mut rt, "f", &[0]), Ok(vec![Value::I32(2)]));
}

#[test]
fn blocks_keep_the_height_law() {
    // i32.const 5; block (result i32) i32.const 1; i32.const 2; i32.const 3; br 0 end; i32.add
    let code = [0x41, 0x05, 0x02, I32, 0x41, 0x01, 0x41, 0x02, 0x41, 0x03, 0x0C, 0x00, 0x0B, 0x6A];
    let mut rt = one("f", &[], &[I32], &[], &code);
    start(&mut rt, "f", vec![]);
    assert_eq!(rt.step(), Ok(Step::Next)); // const 5
    let before = rt.stack[0].stack.len();
    assert_eq!(rt.step(), Ok(Step::Next)); // block
    assert_eq!(rt.stack[0].stack, vec![Value::I32(5), Value::BlockMarker]);
    assert_eq!(rt.stack[0].depth_stack[0].pos, 1);
    for _ in 0..4 {
        assert_eq!(rt.step(), Ok(Step::Next));
    }
    // The branch carries one value; the others and the marker are gone.
    assert_eq!(rt.stack[0].stack, vec![Value::I32(5), Value::I32(3)]);
    assert_eq!(rt.stack[0].stack.len(), before + 1);
    assert!(rt.stack[0].depth_stack.is_empty());
    assert_eq!(finish(&mut rt), Ok(vec![Value::I32(8)]));
}

#[test]
fn blocks_with_parameters() {
    let mut w = Wasm::new();
    // Type 0 is (i32, i32) -> (i32); function type 1 follows.
    w.types.push(func_type(&[I32, I32], &[I32]));
    // i32.const 3; i32.const 4; block (type 0) i32.mul end
    w.func("f", &[], &[I32], &[], &[0x41, 0x03, 0x41, 0x04, 0x02, 0x00, 0x6C, 0x0B]);
    let mut rt = w.instantiate().unwrap();
    start(&mut rt, "f", vec![]);
    rt.step().unwrap();
    rt.step().unwrap();
    rt.step().unwrap(); // block: the marker goes below its two operands
    assert_eq!(rt.stack[0].stack, vec![Value::BlockMarker, Value::I32(3), Value::I32(4)]);
    assert_eq!(rt.stack[0].depth_stack[0].pos, 0);
    assert_eq!(finish(&mut rt), Ok(vec![Value::I32(12)]));
}

#[test]
fn branch_out_of_nested_blocks() {
    // block block block br 2 end unreachable end unreachable end i32.const 7
    let code = [0x02, 0x40, 0x02, 0x40, 0x02, 0x40, 0x0C, 0x02, 0x0B, 0x00, 0x0B, 0x00, 0x0B, 0x41, 0x07];
    let mut rt = one("f", &[], &[I32], &[], &code);
    assert_eq!(call(&mut rt, "f", &[]), Ok(vec![Value::I32(7)]));
    // A branch to the function itself returns.
    let code = [0x41, 0x09, 0x02, 0x40, 0x41, 0x08, 0x0C, 0x01, 0x0B, 0x00];
    let mut rt = one("f", &[], &[I32], &[], &code);
    assert_eq!(call(&mut rt, "f", &[]), Ok(vec![Value::I32(8)]));
    // A label beyond that names nothing.
    let code = [0x02, 0x40, 0x0C, 0x05, 0x0B];
    let mut rt = one("f", &[], &[], &[], &code);
    assert_eq!(call(&mut rt, "f", &[]), Err(RuntimeError::UnknownIndex(IndexSpace::Label, 5)));
}

#[test]
fn return_from_inside_blocks() {
    // block loop i32.const 4 return end end i32.const 5
    let code = [0x02, 0x40, 0x03, 0x40, 0x41, 0x04, 0x0F, 0x0B, 0x0B, 0x41, 0x05];
    let mut rt = one("f", &[], &[I32], &[], &code);
    assert_eq!(call(&mut rt, "f", &[]), Ok(vec![Value::I32(4)]));
}

#[test]
fn branch_tables_choose_by_index() {
    // block block block local.get 0; br_table 0 1 2 end i32.const 10 return end i32.const 20 return end i32.const 30
    let code = [
        0x02, 0x40, 0x02, 0x40, 0x02, 0x40, 0x20, 0x00, 0x0E, 0x02, 0x00, 0x01, 0x02, 0x0B,
        0x41, 0x0A, 0x0F, 0x0B, 0x41, 0x14, 0x0F, 0x0B, 0x41, 0x1E,
    ];
    let mut rt = one("f", &[I32], &[I32], &[], &code);
    assert_eq!(call(&mut rt, "f", &[0]), Ok(vec![Value::I32(10)]));
    assert_eq!(call(&mut rt, "f", &[1]), Ok(vec![Value::I32(20)]));
    assert_eq!(call(&mut rt, "f", &[2]), Ok(vec![Value::I32(30)]));
    assert_eq!(call(&mut rt, "f", &[100]), Ok(vec![Value::I32(30)]));
    assert_eq!(call(&mut rt, "f", &[-1]), Ok(vec![Value::I32(30)]));
}

#[test]
fn calls_pass_arguments_in_order() {
    let mut w = Wasm::new();
    // sub(a, b) = a - b
    let sub = w.func("sub", &[I32, I32], &[I32], &[], &[0x20, 0x00, 0x20, 0x01, 0x6B]);
    // f(x) = sub(x, 1) * 2
    w.func("f", &[I32], &[I32], &[], &[0x20, 0x00, 0x41, 0x01, 0x10, sub as u8, 0x41, 0x02, 0x6C]);
    let mut rt = w.instantiate().unwrap();
    start(&mut rt, "f", i32s(&[10]));
    assert_eq!(rt.step(), Ok(Step::Next));
    assert_eq!(rt.step(), Ok(Step::Next));
    assert_eq!(rt.step(), Ok(Step::Next)); // call
    assert_eq!(rt.stack.len(), 2);
    assert_eq!(rt.stack[1].func_id, sub);
    assert_eq!(rt.stack[1].locals, vec![Value::I32(10), Value::I32(1)]);
    assert!(rt.stack[0].stack.is_empty());
    assert_eq!(rt.stack[0].pc, 3);
    assert_eq!(finish(&mut rt), Ok(vec![Value::I32(18)]));
}

#[test]
fn recursion() {
    let mut w = Wasm::new();
    // fib(n) = n < 2 ? n : fib(n - 1) + fib(n - 2)
    let code = [
        0x20, 0x00, 0x41, 0x02, 0x48, 0x04, I32, 0x20, 0x00, 0x05, 0x20, 0x00, 0x41, 0x01, 0x6B,
        0x10, 0x00, 0x20, 0x00, 0x41, 0x02, 0x6B, 0x10, 0x00, 0x6A, 0x0B,
    ];
    w.func("fib", &[I32], &[I32], &[], &code);
    let mut rt = w.instantiate().unwrap();
    assert_eq!(call(&mut rt, "fib", &[15]), Ok(vec![Value::I32(610)]));
}

#[test]
fn call_of_an_unknown_function() {
    let mut rt = one("f", &[], &[], &[], &[0x10, 0x07]);
    assert_eq!(call(&mut rt, "f", &[]), Err(RuntimeError::UnknownIndex(IndexSpace::Func, 7)));
}

#[test]
fn globals_hold_their_values() {
    let mut w = Wasm::new();
    w.globals.push(vec![I32, 0x01, 0x41, 0x2A, 0x0B]); // mutable i32 = 42
    w.globals.push(vec![I64, 0x00, 0x42, 0x7F, 0x0B]); // constant i64 = -1
    w.func("get", &[], &[I32], &[], &[0x23, 0x00]);
    w.func("set", &[I32], &[], &[], &[0x20, 0x00, 0x24, 0x00]);
    w.func("bad", &[], &[I32], &[], &[0x23, 0x05]);
    let mut rt = w.instantiate().unwrap();
    assert_eq!(rt.globals, vec![Value::I32(42), Value::I64(-1)]);
    assert_eq!(call(&mut rt, "get", &[]), Ok(vec![Value::I32(42)]));
    assert_eq!(call(&mut rt, "set", &[7]), Ok(vec![]));
    assert_eq!(call(&mut rt, "get", &[]), Ok(vec![Value::I32(7)]));
    assert_eq!(call(&mut rt, "bad", &[]), Err(RuntimeError::UnknownIndex(IndexSpace::Global, 5)));
}

#[test]
fn initializers_must_be_constants() {
    let mut w = Wasm::new();
    w.globals.push(vec![I32, 0x00, 0x41, 0x01, 0x41, 0x02, 0x6A, 0x0B]);
    assert_eq!(w.instantiate().err(), Some(RuntimeError::InvalidInitializer));
    let mut w = Wasm::new();
    w.globals.push(vec![I32, 0x00, 0x0B]);
    assert_eq!(w.instantiate().err(), Some(RuntimeError::InvalidInitializer));
    // The value of the last constant counts.
    let mut w = Wasm::new();
    w.globals.push(vec![I32, 0x00, 0x41, 0x01, 0x41, 0x02, 0x0B]);
    assert_eq!(w.instantiate().unwrap().globals, vec![Value::I32(2)]);
    // ref.func and ref.null
    let mut w = Wasm::new();
    w.globals.push(vec![0x70, 0x00, 0xD2, 0x03, 0x0B]);
    w.globals.push(vec![0x70, 0x00, 0xD0, 0x70, 0x0B]);
    assert_eq!(
        w.instantiate().unwrap().globals,
        vec![Value::FuncRef(3), Value::FuncRef(u32::MAX)]
    );
}

#[test]
fn memory_size_and_grow() {
    let mut w = Wasm::new();
    w.mems.push(vec![0x01, 0x01, 0x03]); // one page, at most three
    w.func("size", &[], &[I32], &[], &[0x3F, 0x00]);
    w.func("grow", &[I32], &[I32], &[], &[0x20, 0x00, 0x40, 0x00]);
    let mut rt = w.instantiate().unwrap();
    assert_eq!(rt.memory.data.len(), 65536);
    assert_eq!(call(&mut rt, "size", &[]), Ok(vec![Value::I32(1)]));
    assert_eq!(call(&mut rt, "grow", &[1]), Ok(vec![Value::I32(1)]));
    assert_eq!(call(&mut rt, "size", &[]), Ok(vec![Value::I32(2)]));
    assert_eq!(call(&mut rt, "grow", &[2]), Ok(vec![Value::I32(-1)]));
    assert_eq!(call(&mut rt, "size", &[]), Ok(vec![Value::I32(2)]));
    assert_eq!(call(&mut rt, "grow", &[0]), Ok(vec![Value::I32(2)]));
    assert_eq!(call(&mut rt, "grow", &[1]), Ok(vec![Value::I32(2)]));
    assert_eq!(call(&mut rt, "grow", &[-1]), Ok(vec![Value::I32(-1)]));
    assert_eq!(rt.memory.data.len(), 3 * 65536);
}

#[test]
fn memory_without_a_maximum_stops_at_65536_pages() {
    let mut w = Wasm::new();
    w.mems.push(vec![0x00, 0x00]);
    w.func("grow", &[I32], &[I32], &[], &[0x20, 0x00, 0x40, 0x00]);
    let mut rt = w.instantiate().unwrap();
    assert_eq!(call(&mut rt, "grow", &[65537]), Ok(vec![Value::I32(-1)]));
    assert_eq!(call(&mut rt, "grow", &[2]), Ok(vec![Value::I32(0)]));
    assert_eq!(call(&mut rt, "grow", &[65535]), Ok(vec![Value::I32(-1)]));
}

#[test]
fn a_module_without_memory_has_no_page() {
    let mut w = Wasm::new();
    w.func("size", &[], &[I32], &[], &[0x3F, 0x00]);
    w.func("grow", &[], &[I32], &[], &[0x41, 0x01, 0x40, 0x00]);
    w.func("load", &[], &[I32], &[], &[0x41, 0x00, 0x2D, 0x00, 0x00]);
    let mut rt = w.instantiate().unwrap();
    assert_eq!(call(&mut rt, "size", &[]), Ok(vec![Value::I32(0)]));
    assert_eq!(call(&mut rt, "grow", &[]), Ok(vec![Value::I32(-1)]));
    assert_eq!(call(&mut rt, "load", &[]), Err(RuntimeError::OutOfBoundsMemoryAccess));
}

#[test]
fn loads_extend_with_zeros_or_with_the_sign() {
    let mut w = Wasm::new();
    w.mems.push(vec![0x00, 0x01]);
    // Active segment at 16: 80 FF 01 02 03 04 05 F6
    w.datas.push(vec![0x00, 0x41, 0x10, 0x0B, 0x08, 0x80, 0xFF, 0x01, 0x02, 0x03, 0x04, 0x05, 0xF6]);
    let ops: [(&str, u8, u8); 14] = [
        ("i32.load", 0x28, I32), ("i64.load", 0x29, I64), ("f32.load", 0x2A, F32),
        ("i32.load8_s", 0x2C, I32), ("i32.load8_u", 0x2D, I32), ("i32.load16_s", 0x2E, I32),
        ("i32.load16_u", 0x2F, I32), ("i64.load8_s", 0x30, I64), ("i64.load8_u", 0x31, I64),
        ("i64.load16_s", 0x32, I64), ("i64.load16_u", 0x33, I64), ("i64.load32_s", 0x34, I64),
        ("i64.load32_u", 0x35, I64), ("offset", 0x2D, I32),
    ];
    for (name, op, result) in ops {
        let offset = if name == "offset" { 7 } else { 0 };
        w.func(name, &[I32], &[result], &[], &[0x20, 0x00, op, 0x00, offset]);
    }
    let mut rt = w.instantiate().unwrap();
    assert_eq!(call(&mut rt, "i32.load", &[16]), Ok(vec![Value::I32(0x0201FF80)]));
    assert_eq!(call(&mut rt, "i64.load", &[16]), Ok(vec![Value::I64(0xF605040302_01FF80u64 as i64)]));
    assert_eq!(call(&mut rt, "f32.load", &[16]), Ok(vec![Value::F32(0x0201FF80)]));
    assert_eq!(call(&mut rt, "i32.load8_s", &[16]), Ok(vec![Value::I32(-128)]));
    assert_eq!(call(&mut rt, "i32.load8_u", &[16]), Ok(vec![Value::I32(128)]));
    assert_eq!(call(&mut rt, "i32.load16_s", &[16]), Ok(vec![Value::I32(-128)]));
    assert_eq!(call(&mut rt, "i32.load16_u", &[16]), Ok(vec![Value::I32(0xFF80)]));
    assert_eq!(call(&mut rt, "i64.load8_s", &[23]), Ok(vec![Value::I64(-10)]));
    assert_eq!(call(&mut rt, "i64.load8_u", &[23]), Ok(vec![Value::I64(0xF6)]));
    assert_eq!(call(&mut rt, "i64.load16_s", &[16]), Ok(vec![Value::I64(-128)]));
    assert_eq!(call(&mut rt, "i64.load16_u", &[16]), Ok(vec![Value::I64(0xFF80)]));
    assert_eq!(call(&mut rt, "i64.load32_s", &[20]), Ok(vec![Value::I64(0xF6050403u32 as i32 as i64)]));
    assert_eq!(call(&mut rt, "i64.load32_u", &[20]), Ok(vec![Value::I64(0xF6050403)]));
    // The offset is added to the address without wrapping around.
    assert_eq!(call(&mut rt, "offset", &[16]), Ok(vec![Value::I32(0xF6)]));
    assert_eq!(call(&mut rt, "offset", &[-1]), Err(RuntimeError::OutOfBoundsMemoryAccess));
    assert_eq!(call(&mut rt, "i64.load", &[65528]), Ok(vec![Value::I64(0)]));
    assert_eq!(call(&mut rt, "i64.load", &[65529]), Err(RuntimeError::OutOfBoundsMemoryAccess));
}

#[test]
fn narrow_stores_write_the_lower_bytes() {
    let mut w = Wasm::new();
    w.mems.push(vec![0x00, 0x01]);
    w.func("store8", &[I32, I32], &[], &[], &[0x20, 0x00, 0x20, 0x01, 0x3A, 0x00, 0x00]);
    w.func("store16", &[I32, I32], &[], &[], &[0x20, 0x00, 0x20, 0x01, 0x3B, 0x00, 0x00]);
    w.func("store64", &[I32], &[], &[], &[0x20, 0x00, 0x42, 0x7E, 0x37, 0x00, 0x00]);
    w.func("store64_32", &[I32], &[], &[], &[0x20, 0x00, 0x42, 0x7D, 0x3E, 0x00, 0x00]);
    let mut rt = w.instantiate().unwrap();
    call(&mut rt, "store8", &[0, 0x1234]).unwrap();
    assert_eq!(rt.memory.data[..2], [0x34, 0x00]);
    call(&mut rt, "store16", &[4, 0x123456]).unwrap();
    assert_eq!(rt.memory.data[4..7], [0x56, 0x34, 0x00]);
    call(&mut rt, "store64", &[8]).unwrap();
    assert_eq!(rt.memory.data[8..17], [0xFE, 0xFF, 0xFF, 0xFF, 0xFF, 0xFF, 0xFF, 0xFF, 0x00]);
    call(&mut rt, "store64_32", &[20]).unwrap();
    assert_eq!(rt.memory.data[20..25], [0xFD, 0xFF, 0xFF, 0xFF, 0x00]);
    assert_eq!(call(&mut rt, "store16", &[65535, 1]), Err(RuntimeError::OutOfBoundsMemoryAccess));
    assert_eq!(rt.memory.data[65535], 0);
}

#[test]
fn bulk_memory() {
    let mut w = Wasm::new();
    w.mems.push(vec![0x00, 0x01]);
    w.datas.push(vec![0x01, 0x04, 0x01, 0x02, 0x03, 0x04]); // passive
    let three = [0x20, 0x00, 0x20, 0x01, 0x20, 0x02];
    let with = |tail: &[u8]| [&three[..], tail].concat();
    w.func("fill", &[I32, I32, I32], &[], &[], &with(&[0xFC, 0x0B, 0x00]));
    w.func("copy", &[I32, I32, I32], &[], &[], &with(&[0xFC, 0x0A, 0x00, 0x00]));
    w.func("init", &[I32, I32, I32], &[], &[], &with(&[0xFC, 0x08, 0x00, 0x00]));
    w.func("drop", &[], &[], &[], &[0xFC, 0x09, 0x00]);
    let mut rt = w.instantiate().unwrap();
    assert_eq!(rt.datas, vec![vec![1, 2, 3, 4]]);
    call(&mut rt, "fill", &[2, 0x1AB, 3]).unwrap();
    assert_eq!(rt.memory.data[..6], [0, 0, 0xAB, 0xAB, 0xAB, 0]);
    call(&mut rt, "init", &[10, 1, 3]).unwrap();
    assert_eq!(rt.memory.data[9..14], [0, 2, 3, 4, 0]);
    // Overlapping copy: the source is read before anything is written.
    call(&mut rt, "copy", &[11, 10, 3]).unwrap();
    assert_eq!(rt.memory.data[9..15], [0, 2, 2, 3, 4, 0]);
    // Out of bounds: nothing is written.
    assert_eq!(call(&mut rt, "fill", &[65530, 1, 7]), Err(RuntimeError::OutOfBoundsMemoryAccess));
    assert_eq!(rt.memory.data[65530..], [0; 6]);
    assert_eq!(call(&mut rt, "copy", &[0, 65530, 7]), Err(RuntimeError::OutOfBoundsMemoryAccess));
    assert_eq!(call(&mut rt, "init", &[0, 2, 3]), Err(RuntimeError::OutOfBoundsMemoryAccess));
    assert_eq!(rt.memory.data[..3], [0, 0, 0xAB]);
    // A dropped segment has no bytes left.
    call(&mut rt, "drop", &[]).unwrap();
    assert_eq!(rt.datas, vec![Vec::<u8>::new()]);
    assert_eq!(call(&mut rt, "init", &[0, 0, 1]), Err(RuntimeError::OutOfBoundsMemoryAccess));
    assert_eq!(call(&mut rt, "init", &[0, 0, 0]), Ok(vec![]));
}

#[test]
fn data_segments_must_fit() {
    let mut w = Wasm::new();
    w.mems.push(vec![0x00, 0x01]);
    let mut seg = vec![0x00, 0x41];
    seg.extend(sleb(65535));
    seg.extend([0x0B, 0x02, 0x01, 0x02]);
    w.datas.push(seg);
    assert_eq!(w.instantiate().err(), Some(RuntimeError::OutOfBoundsMemoryAccess));
    // An offset that is no i32.
    let mut w = Wasm::new();
    w.mems.push(vec![0x00, 0x01]);
    w.datas.push(vec![0x00, 0x42, 0x00, 0x0B, 0x00]);
    assert_eq!(w.instantiate().err(), Some(RuntimeError::InvalidInitializer));
    // A memory other than the first.
    let mut w = Wasm::new();
    w.mems.push(vec![0x00, 0x01]);
    w.datas.push(vec![0x02, 0x01, 0x41, 0x00, 0x0B, 0x00]);
    assert_eq!(w.instantiate().err(), Some(RuntimeError::UnknownIndex(IndexSpace::Memory, 1)));
    // Later segments write over earlier ones.
    let mut w = Wasm::new();
    w.mems.push(vec![0x00, 0x01]);
    w.datas.push(vec![0x00, 0x41, 0x00, 0x0B, 0x03, 0x01, 0x02, 0x03]);
    w.datas.push(vec![0x00, 0x41, 0x01, 0x0B, 0x01, 0x09]);
    let rt = w.instantiate().unwrap();
    assert_eq!(rt.memory.data[..4], [1, 9, 3, 0]);
    assert_eq!(rt.datas, vec![Vec::<u8>::new(), Vec::<u8>::new()]);
}

#[test]
fn modules_that_cannot_be_instantiated() {
    // An imported memory.
    let mut w = Wasm::new();
    w.imports.push(vec![0x01, b'm', 0x01, b'x', 0x02, 0x00, 0x01]);
    assert_eq!(w.instantiate().err(), Some(RuntimeError::UnsupportedImport));
    // More function types than bodies.
    let mut w = Wasm::new();
    w.types.push(func_type(&[], &[]));
    w.funcs.push(0);
    assert_eq!(w.instantiate().err(), Some(RuntimeError::MalformedModule));
    // Two memories.
    let mut w = Wasm::new();
    w.mems.push(vec![0x00, 0x01]);
    w.mems.push(vec![0x00, 0x01]);
    assert_eq!(w.instantiate().err(), Some(RuntimeError::MalformedModule));
    // More pages than a memory can have.
    let mut w = Wasm::new();
    let mut mem = vec![0x00];
    mem.extend(uleb(65537));
    w.mems.push(mem);
    assert_eq!(w.instantiate().err(), Some(RuntimeError::MalformedModule));
    // A minimum above the maximum.
    let mut w = Wasm::new();
    w.mems.push(vec![0x01, 0x02, 0x01]);
    assert_eq!(w.instantiate().err(), Some(RuntimeError::MalformedModule));
}

fn table_module() -> Wasm {
    let mut w = Wasm::new();
    w.tables.push(vec![0x70, 0x00, 0x04]); // four slots of funcref
    let seven = w.func("seven", &[], &[I32], &[], &[0x41, 0x07]);
    let double = w.func("double", &[I32], &[I32], &[], &[0x20, 0x00, 0x41, 0x02, 0x6C]);
    // Slots 1 and 2.
    w.elems.push(vec![0x00, 0x41, 0x01, 0x0B, 0x02, seven as u8, double as u8]);
    // via(i) = call_indirect (type of seven) i
    w.func("via", &[I32], &[I32], &[], &[0x20, 0x00, 0x11, 0x00, 0x00]);
    // set(i, f): table.set 0
    w.func("set", &[I32, I32], &[], &[], &[0x20, 0x00, 0xD2, double as u8, 0x26, 0x00]);
    w
}

#[test]
fn indirect_calls() {
    let mut rt = table_module().instantiate().unwrap();
    assert_eq!(
        rt.tables,
        vec![vec![
            Value::FuncRef(u32::MAX),
            Value::FuncRef(0),
            Value::FuncRef(1),
            Value::FuncRef(u32::MAX)
        ]]
    );
    assert_eq!(call(&mut rt, "via", &[1]), Ok(vec![Value::I32(7)]));
    assert_eq!(call(&mut rt, "via", &[2]), Err(RuntimeError::IndirectCallTypeMismatch));
    assert_eq!(call(&mut rt, "via", &[0]), Err(RuntimeError::UninitializedElement));
    assert_eq!(call(&mut rt, "via", &[4]), Err(RuntimeError::UndefinedElement));
    assert_eq!(call(&mut rt, "via", &[-1]), Err(RuntimeError::UndefinedElement));
    // table.set writes a slot.
    assert_eq!(call(&mut rt, "set", &[3, 0]), Ok(vec![]));
    assert_eq!(rt.tables[0][3], Value::FuncRef(1));
    assert_eq!(call(&mut rt, "set", &[4, 0]), Err(RuntimeError::UndefinedElement));
}

#[test]
fn element_segments_must_fit() {
    let mut w = table_module();
    w.elems.push(vec![0x00, 0x41, 0x03, 0x0B, 0x02, 0x00, 0x00]);
    assert_eq!(w.instantiate().err(), Some(RuntimeError::UndefinedElement));
    let mut w = Wasm::new();
    w.func("f", &[], &[], &[], &[]);
    w.elems.push(vec![0x00, 0x41, 0x00, 0x0B, 0x01, 0x00]);
    assert_eq!(w.instantiate().err(), Some(RuntimeError::UnknownIndex(IndexSpace::Table, 0)));
}

#[test]
fn the_host_prints_console_log() {
    let mut w = Wasm::new();
    w.types.push(func_type(&[I32, I32], &[]));
    w.imports.push(import_func("console", "log", 0));
    w.imports.push(import_func("console", "warn", 0));
    w.mems.push(vec![0x00, 0x01]);
    w.datas.push(vec![0x00, 0x41, 0x04, 0x0B, 0x05, b'h', b'e', b'l', b'l', b'o']);
    w.func("hi", &[], &[I32], &[], &[0x41, 0x04, 0x41, 0x05, 0x10, 0x00, 0x41, 0x01]);
    w.func("far", &[], &[], &[], &[0x41, 0x7C, 0x41, 0x05, 0x10, 0x00]);
    w.func("warn", &[], &[], &[], &[0x41, 0x04, 0x41, 0x05, 0x10, 0x01]);
    let mut rt = w.instantiate().unwrap();
    start(&mut rt, "hi", vec![]);
    assert_eq!(rt.step(), Ok(Step::Next));
    assert_eq!(rt.step(), Ok(Step::Next));
    assert_eq!(rt.step(), Ok(Step::Log(b"hello".to_vec())));
    assert!(rt.stack[0].stack.is_empty());
    assert_eq!(finish(&mut rt), Ok(vec![Value::I32(1)]));
    assert_eq!(call(&mut rt, "far", &[]), Err(RuntimeError::OutOfBoundsMemoryAccess));
    assert_eq!(call(&mut rt, "warn", &[]), Err(RuntimeError::UnknownHostFunction));
    // Nothing is exported under the name of the import.
    let action = Action::Invoke { module: None, field: "log".to_string(), args: vec![] };
    assert_eq!(handle_action(&mut rt, &action), Err(ActionError::NoFunction));
}

#[test]
fn only_functions_of_the_module_can_be_invoked() {
    let mut w = Wasm::new();
    w.types.push(func_type(&[I32, I32], &[]));
    w.imports.push(import_func("console", "log", 0));
    w.mems.push(vec![0x00, 0x01]);
    w.exports.push(export("log", 0x00, 0));
    w.exports.push(export("memory", 0x02, 0));
    w.exports.push(export("far", 0x00, 9));
    let mut rt = w.instantiate().unwrap();
    for field in ["log", "memory", "far"] {
        let action = Action::Invoke { module: None, field: field.to_string(), args: vec![] };
        assert_eq!(handle_action(&mut rt, &action), Err(ActionError::NotAFunction));
    }
    assert!(rt.stack.is_empty());
}

fn f32_const(x: f32) -> Vec<u8> {
    let mut code = vec![0x43];
    code.extend(x.to_bits().to_le_bytes());
    code
}

fn f64_const(x: f64) -> Vec<u8> {
    let mut code = vec![0x44];
    code.extend(x.to_bits().to_le_bytes());
    code
}

#[test]
fn comparisons_and_truncations_run_in_the_interpreter() {
    // f32.lt
    let code = [f32_const(1.5), f32_const(2.0), vec![0x5D]].concat();
    let mut rt = one("f", &[], &[I32], &[], &code);
    assert_eq!(call(&mut rt, "f", &[]), Ok(vec![Value::I32(1)]));
    // f64.ge with a NaN
    let code = [f64_const(f64::NAN), f64_const(2.0), vec![0x66]].concat();
    let mut rt = one("f", &[], &[I32], &[], &code);
    assert_eq!(call(&mut rt, "f", &[]), Ok(vec![Value::I32(0)]));
    // i32.trunc_f32_s
    let code = [f32_const(-7.9), vec![0xA8]].concat();
    let mut rt = one("f", &[], &[I32], &[], &code);
    assert_eq!(call(&mut rt, "f", &[]), Ok(vec![Value::I32(-7)]));
    let code = [f32_const(f32::NAN), vec![0xA8]].concat();
    let mut rt = one("f", &[], &[I32], &[], &code);
    assert_eq!(call(&mut rt, "f", &[]), Err(RuntimeError::InvalidConversion));
    assert!(rt.stack.is_empty());
    let code = [f64_const(2147483648.0), vec![0xAA]].concat();
    let mut rt = one("f", &[], &[I32], &[], &code);
    assert_eq!(call(&mut rt, "f", &[]), Err(RuntimeError::IntegerOverflow));
    // i64.trunc_f64_u
    let code = [f64_const(18446744073709549568.0), vec![0xB1]].concat();
    let mut rt = one("f", &[], &[I64], &[], &code);
    assert_eq!(call(&mut rt, "f", &[]), Ok(vec![Value::I64(-2048)]));
    // i32.trunc_sat_f64_s and i64.trunc_sat_f32_u
    let code = [f64_const(1e300), vec![0xFC, 0x02]].concat();
    let mut rt = one("f", &[], &[I32], &[], &code);
    assert_eq!(call(&mut rt, "f", &[]), Ok(vec![Value::I32(i32::MAX)]));
    let code = [f32_const(-3.0), vec![0xFC, 0x05]].concat();
    let mut rt = one("f", &[], &[I64], &[], &code);
    assert_eq!(call(&mut rt, "f", &[]), Ok(vec![Value::I64(0)]));
    let code = [f64_const(f64::NAN), vec![0xFC, 0x06]].concat();
    let mut rt = one("f", &[], &[I64], &[], &code);
    assert_eq!(call(&mut rt, "f", &[]), Ok(vec![Value::I64(0)]));
    // f64.neg, f32.abs, f64.copysign, f32.min
    let code = [f64_const(2.5), vec![0x9A]].concat();
    let mut rt = one("f", &[], &[0x7C], &[], &code);
    assert_eq!(call(&mut rt, "f", &[]), Ok(vec![Value::F64((-2.5f64).to_bits())]));
    let code = [f32_const(-2.5), vec![0x8B]].concat();
    let mut rt = one("f", &[], &[F32], &[], &code);
    assert_eq!(call(&mut rt, "f", &[]), Ok(vec![Value::F32(2.5f32.to_bits())]));
    let code = [f64_const(2.5), f64_const(-0.0), vec![0xA6]].concat();
    let mut rt = one("f", &[], &[0x7C], &[], &code);
    assert_eq!(call(&mut rt, "f", &[]), Ok(vec![Value::F64((-2.5f64).to_bits())]));
    let code = [f32_const(4.0), f32_const(-1.0), vec![0x96]].concat();
    let mut rt = one("f", &[], &[F32], &[], &code);
    assert_eq!(call(&mut rt, "f", &[]), Ok(vec![Value::F32((-1.0f32).to_bits())]));
    // The operands of a comparison must both be floats of the width.
    let code = [f32_const(1.0), vec![0x41, 0x01, 0x5B]].concat();
    let mut rt = one("f", &[], &[I32], &[], &code);
    assert_eq!(call(&mut rt, "f", &[]), Err(RuntimeError::TypeMismatch("f32", "i32")));
}

#[test]
fn a_module_comes_back_as_it_was_written() {
    let mut w = Wasm::new();
    // block (result i32) local.get 0; i32.const -5; i32.add end
    let code = [0x02, I32, 0x20, 0x00, 0x41, 0x7B, 0x6A, 0x0B];
    w.func("f", &[I32], &[I32], &[(2, I64)], &code);
    let m = w.decode().unwrap();
    assert_eq!(
        m.types.function_types,
        vec![FuncType {
            input: ResultType { types: vec![ValType::I32] },
            output: ResultType { types: vec![ValType::I32] },
        }]
    );
    assert_eq!(m.funcs.types, vec![TypeIdX(0)]);
    assert_eq!(
        m.exports.exports,
        vec![Export { nm: Name("f".to_string()), d: ExportDesc::Func(FuncIdx(0)) }]
    );
    assert_eq!(
        m.code.code,
        vec![Code {
            size: 12,
            locals: vec![Locals { n: 2, t: ValType::I64 }],
            body: Expr {
                instrs: vec![Instr::Block(
                    BlockType::Single(ValType::I32),
                    vec![
                        Instr::Plain(PlainInstr::LocalGet(LocalIdX(0))),
                        Instr::Plain(PlainInstr::I32Const(-5)),
                        Instr::Plain(PlainInstr::IBin(Width::W32, IBinOp::Add)),
                    ]
                )]
            },
        }]
    );
    assert_eq!(m.types.size, 6);
    assert_eq!(m.funcs.size, 2);
    assert_eq!(m.exports.size, 5);
    assert_eq!(m.code.size, 14);
    assert!(m.imports.imports.is_empty() && m.datas.data.is_empty());
}

#[test]
fn floating_point_goes_to_the_host() {
    // f32.const 1.5; f32.const 2.25; f32.add
    let mut code = vec![0x43];
    code.extend(1.5f32.to_bits().to_le_bytes());
    code.push(0x43);
    code.extend(2.25f32.to_bits().to_le_bytes());
    code.push(0x92);
    let mut rt = one("f", &[], &[F32], &[], &code);
    start(&mut rt, "f", vec![]);
    assert_eq!(rt.step(), Ok(Step::Next));
    assert_eq!(rt.step(), Ok(Step::Next));
    let step = rt.step().unwrap();
    assert_eq!(
        step,
        Step::Float(
            PlainInstr::FBin(Width::W32, FBinOp::Add),
            Value::F32(1.5f32.to_bits()),
            Some(Value::F32(2.25f32.to_bits()))
        )
    );
    assert!(rt.stack[0].stack.is_empty());
    // The host computes and hands the result back.
    let sum = 1.5f32 + 2.25f32;
    rt.push_value(Value::F32(sum.to_bits())).unwrap();
    assert_eq!(finish(&mut rt), Ok(vec![Value::F32(3.75f32.to_bits())]));
    // Without a frame there is nowhere to put a value.
    assert_eq!(rt.push_value(Value::I32(0)), Err(RuntimeError::NoFrame));
    // The operand must be a float.
    let mut rt = one("f", &[], &[F32], &[], &[0x41, 0x01, 0x8B]);
    assert_eq!(call(&mut rt, "f", &[]), Err(RuntimeError::TypeMismatch("f32", "i32")));
}

#[test]
fn decoding_what_the_writer_wrote() {
    // Numbers written by the outside writer come back as they were.
    for n in [0u64, 1, 127, 128, 300, 16383, 16384, 0xFFFF_FFFF] {
        let bytes = uleb(n);
        let mut c = Cursor::new(&bytes);
        assert_eq!(wasm_interp::parser::varint::read_u32(&mut c), Ok(n as u32));
        assert_eq!(c.pos, bytes.len());
    }
    for n in [0i64, -1, 63, 64, -64, -65, i32::MAX as i64, i32::MIN as i64] {
        let bytes = sleb(n);
        let mut c = Cursor::new(&bytes);
        assert_eq!(wasm_interp::parser::varint::read_i32(&mut c), Ok(n as i32));
        assert_eq!(c.pos, bytes.len());
    }
    for n in [i64::MAX, i64::MIN, 1 << 40, -(1 << 40)] {
        let bytes = sleb(n);
        let mut c = Cursor::new(&bytes);
        assert_eq!(wasm_interp::parser::varint::read_i64(&mut c), Ok(n));
    }
    let bytes = uleb(0x1_0000_0000);
    let mut c = Cursor::new(&bytes);
    assert_eq!(wasm_interp::parser::varint::read_u32(&mut c), Err(ParseError::Leb128Overflow));
}
