use vstd::prelude::*;
use vstd::slice::slice_to_vec;
use super::blocktype::BlockType;
use super::functype::FuncType;
use super::instr::Instr;
use super::ops::{LoadOp, StoreOp, Width};
use super::plain::PlainInstr;
use super::valtype::ValType;

verus! {

/// Why an instruction has no typing rule.
#[derive(Debug, Clone, Copy, PartialEq, Eq)]
pub enum TypingRuleError {
    /// A function type that the instruction names does not exist; the
    /// string says where it was looked for.
    MissingFunction(&'static str),
    /// A local that the instruction names does not exist.
    MissingLocal,
    /// A global that the instruction names does not exist.
    MissingGlobal,
    /// No rule is known for the instruction.
    NoRule,
}

/// The typing rule of an instruction: what it takes from the stack and
/// what it leaves there.
#[derive(Debug, Clone, PartialEq, Eq)]
pub struct TypingRules {
    pub input: Vec<ValType>,
    pub output: Vec<ValType>,
}

impl View for TypingRules {
    type V = (Seq<ValType>, Seq<ValType>);

    open spec fn view(&self) -> (Seq<ValType>, Seq<ValType>) {
        (self.input@, self.output@)
    }
}

/// The integer type of a width.
pub open spec fn spec_int_type(w: Width) -> ValType {
    match w {
        Width::W32 => ValType::I32,
        Width::W64 => ValType::I64,
    }
}

/// The floating-point type of a width.
pub open spec fn spec_float_type(w: Width) -> ValType {
    match w {
        Width::W32 => ValType::F32,
        Width::W64 => ValType::F64,
    }
}

/// The type of the value that a load leaves.
pub open spec fn spec_load_type(op: LoadOp) -> ValType {
    match op {
        LoadOp::I32 | LoadOp::I32Load8S | LoadOp::I32Load8U | LoadOp::I32Load16S
        | LoadOp::I32Load16U => ValType::I32,
        LoadOp::F32 => ValType::F32,
        LoadOp::F64 => ValType::F64,
        _ => ValType::I64,
    }
}

/// The typing rule of an instruction, as what it takes and what it leaves.
///
/// A block or a loop has the rule of its block type; a call that of the
/// function; an access to a local or a global takes or leaves a value of its
/// type; a load leaves a value and the store of 32 bits takes one; a
/// constant leaves its value; a test, a comparison and an operator take
/// their operands and leave their result. An `if` and a `return` take and
/// leave nothing.
pub open spec fn spec_get_types(
    i: Instr,
    locals: Seq<ValType>,
    function_types: Seq<FuncType>,
    raw_types: Seq<FuncType>,
    globals: Seq<ValType>,
) -> Result<(Seq<ValType>, Seq<ValType>), TypingRuleError> {
    match i {
        Instr::Block(bt, _) | Instr::Loop(bt, _) => match bt {
            BlockType::Empty => Ok((Seq::empty(), Seq::empty())),
            BlockType::Single(t) => Ok((Seq::empty(), seq![t])),
            BlockType::TypeIndex(x) => if x < raw_types.len() {
                Ok((raw_types[x as int].input.types@, raw_types[x as int].output.types@))
            } else {
                Err(TypingRuleError::MissingFunction("block type"))
            },
        },
        Instr::IfElse(_, _, _) => Ok((Seq::empty(), Seq::empty())),
        Instr::BrTable(_, _) => Err(TypingRuleError::NoRule),
        Instr::Plain(p) => spec_plain_types(p, locals, function_types, globals),
    }
}

/// The typing rule of a plain instruction.
pub open spec fn spec_plain_types(
    p: PlainInstr,
    locals: Seq<ValType>,
    function_types: Seq<FuncType>,
    globals: Seq<ValType>,
) -> Result<(Seq<ValType>, Seq<ValType>), TypingRuleError> {
    match p {
        PlainInstr::Return => Ok((Seq::empty(), Seq::empty())),
        PlainInstr::Call(x) => if x.0 < function_types.len() {
            Ok(
                (
                    function_types[x.0 as int].input.types@,
                    function_types[x.0 as int].output.types@,
                ),
            )
        } else {
            Err(TypingRuleError::MissingFunction("invalid call"))
        },
        PlainInstr::LocalGet(x) => if x.0 < locals.len() {
            Ok((Seq::empty(), seq![locals[x.0 as int]]))
        } else {
            Err(TypingRuleError::MissingLocal)
        },
        PlainInstr::LocalSet(x) => if x.0 < locals.len() {
            Ok((seq![locals[x.0 as int]], Seq::empty()))
        } else {
            Err(TypingRuleError::MissingLocal)
        },
        PlainInstr::LocalTee(x) => if x.0 < locals.len() {
            Ok((seq![locals[x.0 as int]], seq![locals[x.0 as int]]))
        } else {
            Err(TypingRuleError::MissingLocal)
        },
        PlainInstr::GlobalGet(x) => if x.0 < globals.len() {
            Ok((Seq::empty(), seq![globals[x.0 as int]]))
        } else {
            Err(TypingRuleError::MissingGlobal)
        },
        PlainInstr::GlobalSet(x) => if x.0 < globals.len() {
            Ok((seq![globals[x.0 as int]], Seq::empty()))
        } else {
            Err(TypingRuleError::MissingGlobal)
        },
        PlainInstr::Load(op, _) => Ok((Seq::empty(), seq![spec_load_type(op)])),
        PlainInstr::Store(StoreOp::I32, _) => Ok((seq![ValType::I32], Seq::empty())),
        PlainInstr::MemoryGrow => Ok((seq![ValType::I32], seq![ValType::I32])),
        PlainInstr::I32Const(_) => Ok((Seq::empty(), seq![ValType::I32])),
        PlainInstr::I64Const(_) => Ok((Seq::empty(), seq![ValType::I64])),
        PlainInstr::F32Const(_) => Ok((Seq::empty(), seq![ValType::F32])),
        PlainInstr::F64Const(_) => Ok((Seq::empty(), seq![ValType::F64])),
        PlainInstr::IEqz(w) => Ok((seq![spec_int_type(w)], seq![ValType::I32])),
        PlainInstr::IRel(w, _) => Ok(
            (seq![spec_int_type(w), spec_int_type(w)], seq![ValType::I32]),
        ),
        PlainInstr::FRel(w, _) => Ok(
            (seq![spec_float_type(w), spec_float_type(w)], seq![ValType::I32]),
        ),
        PlainInstr::IUn(w, _) => Ok((seq![spec_int_type(w)], seq![spec_int_type(w)])),
        PlainInstr::IBin(w, _) => Ok(
            (seq![spec_int_type(w), spec_int_type(w)], seq![spec_int_type(w)]),
        ),
        _ => Err(TypingRuleError::NoRule),
    }
}

fn int_type(w: Width) -> (t: ValType)
    ensures
        t == spec_int_type(w),
{
    match w {
        Width::W32 => ValType::I32,
        Width::W64 => ValType::I64,
    }
}

fn float_type(w: Width) -> (t: ValType)
    ensures
        t == spec_float_type(w),
{
    match w {
        Width::W32 => ValType::F32,
        Width::W64 => ValType::F64,
    }
}

fn load_type(op: LoadOp) -> (t: ValType)
    ensures
        t == spec_load_type(op),
{
    match op {
        LoadOp::I32 | LoadOp::I32Load8S | LoadOp::I32Load8U | LoadOp::I32Load16S
        | LoadOp::I32Load16U => ValType::I32,
        LoadOp::F32 => ValType::F32,
        LoadOp::F64 => ValType::F64,
        _ => ValType::I64,
    }
}

impl TypingRules {
    /// The rule that takes and leaves nothing.
    pub fn empty() -> (r: TypingRules)
        ensures
            r@ == (Seq::<ValType>::empty(), Seq::<ValType>::empty()),
    {
        TypingRules { input: Vec::new(), output: Vec::new() }
    }

    /// The rule that takes one value of the type and leaves nothing.
    pub fn single_input(valtype: ValType) -> (r: TypingRules)
        ensures
            r@ == (seq![valtype], Seq::<ValType>::empty()),
    {
        let mut input = Vec::new();
        input.push(valtype);
        assert(input@ =~= seq![valtype]);
        TypingRules { input, output: Vec::new() }
    }

    /// The rule that takes nothing and leaves one value of the type.
    pub fn single_output(valtype: ValType) -> (r: TypingRules)
        ensures
            r@ == (Seq::<ValType>::empty(), seq![valtype]),
    {
        let mut output = Vec::new();
        output.push(valtype);
        assert(output@ =~= seq![valtype]);
        TypingRules { input: Vec::new(), output }
    }

    /// The rule that takes one value and leaves one.
    fn unary(operand: ValType, result: ValType) -> (r: TypingRules)
        ensures
            r@ == (seq![operand], seq![result]),
    {
        let mut input = Vec::new();
        input.push(operand);
        let mut output = Vec::new();
        output.push(result);
        assert(input@ =~= seq![operand]);
        assert(output@ =~= seq![result]);
        TypingRules { input, output }
    }

    /// The rule that takes two values of one type and leaves one value.
    fn binary(operand: ValType, result: ValType) -> (r: TypingRules)
        ensures
            r@ == (seq![operand, operand], seq![result]),
    {
        let mut input = Vec::new();
        input.push(operand);
        input.push(operand);
        let mut output = Vec::new();
        output.push(result);
        assert(input@ =~= seq![operand, operand]);
        assert(output@ =~= seq![result]);
        TypingRules { input, output }
    }

    /// The rule of a function type.
    fn of(ft: &FuncType) -> (r: TypingRules)
        ensures
            r@ == (ft.input.types@, ft.output.types@),
    {
        TypingRules {
            input: slice_to_vec(ft.input.types.as_slice()),
            output: slice_to_vec(ft.output.types.as_slice()),
        }
    }
}

impl Instr {
    /// The typing rule of the instruction in a function with the given
    /// locals, in a module with the given function types (by function index
    /// and by type index) and globals.
    pub fn get_types(
        &self,
        locals: &[ValType],
        function_types: &[FuncType],
        raw_types: &[FuncType],
        globals: &[ValType],
    ) -> (r: Result<TypingRules, TypingRuleError>)
        ensures
            match spec_get_types(*self, locals@, function_types@, raw_types@, globals@) {
                Ok(rule) => r is Ok && r->Ok_0@ == rule,
                Err(e) => r is Err && r->Err_0 == e,
            },
    {
        match self {
            Instr::Block(bt, _) | Instr::Loop(bt, _) => match bt {
                BlockType::Empty => Ok(TypingRules::empty()),
                BlockType::Single(t) => Ok(TypingRules::single_output(*t)),
                BlockType::TypeIndex(x) => {
                    if (*x as usize) < raw_types.len() {
                        Ok(TypingRules::of(&raw_types[*x as usize]))
                    } else {
                        Err(TypingRuleError::MissingFunction("block type"))
                    }
                },
            },
            Instr::IfElse(_, _, _) => Ok(TypingRules::empty()),
            Instr::BrTable(_, _) => Err(TypingRuleError::NoRule),
            Instr::Plain(p) => plain_types(*p, locals, function_types, globals),
        }
    }
}

/// The typing rule of a plain instruction.
pub fn plain_types(
    p: PlainInstr,
    locals: &[ValType],
    function_types: &[FuncType],
    globals: &[ValType],
) -> (r: Result<TypingRules, TypingRuleError>)
    ensures
        match spec_plain_types(p, locals@, function_types@, globals@) {
            Ok(rule) => r is Ok && r->Ok_0@ == rule,
            Err(e) => r is Err && r->Err_0 == e,
        },
{
    match p {
        PlainInstr::Return => Ok(TypingRules::empty()),
        PlainInstr::Call(x) => {
            if (x.0 as usize) < function_types.len() {
                Ok(TypingRules::of(&function_types[x.0 as usize]))
            } else {
                Err(TypingRuleError::MissingFunction("invalid call"))
            }
        },
        PlainInstr::LocalGet(x) => {
            if (x.0 as usize) < locals.len() {
                Ok(TypingRules::single_output(locals[x.0 as usize]))
            } else {
                Err(TypingRuleError::MissingLocal)
            }
        },
        PlainInstr::LocalSet(x) => {
            if (x.0 as usize) < locals.len() {
                Ok(TypingRules::single_input(locals[x.0 as usize]))
            } else {
                Err(TypingRuleError::MissingLocal)
            }
        },
        PlainInstr::LocalTee(x) => {
            if (x.0 as usize) < locals.len() {
                let t = locals[x.0 as usize];
                Ok(TypingRules::unary(t, t))
            } else {
                Err(TypingRuleError::MissingLocal)
            }
        },
        PlainInstr::GlobalGet(x) => {
            if (x.0 as usize) < globals.len() {
                Ok(TypingRules::single_output(globals[x.0 as usize]))
            } else {
                Err(TypingRuleError::MissingGlobal)
            }
        },
        PlainInstr::GlobalSet(x) => {
            if (x.0 as usize) < globals.len() {
                Ok(TypingRules::single_input(globals[x.0 as usize]))
            } else {
                Err(TypingRuleError::MissingGlobal)
            }
        },
        PlainInstr::Load(op, _) => Ok(TypingRules::single_output(load_type(op))),
        PlainInstr::Store(StoreOp::I32, _) => Ok(TypingRules::single_input(ValType::I32)),
        PlainInstr::MemoryGrow => Ok(
            TypingRules::unary(ValType::I32, ValType::I32),
        ),
        PlainInstr::I32Const(_) => Ok(TypingRules::single_output(ValType::I32)),
        PlainInstr::I64Const(_) => Ok(TypingRules::single_output(ValType::I64)),
        PlainInstr::F32Const(_) => Ok(TypingRules::single_output(ValType::F32)),
        PlainInstr::F64Const(_) => Ok(TypingRules::single_output(ValType::F64)),
        PlainInstr::IEqz(w) => Ok(TypingRules::unary(int_type(w), ValType::I32)),
        PlainInstr::IRel(w, _) => Ok(
            TypingRules::binary(int_type(w), ValType::I32),
        ),
        PlainInstr::FRel(w, _) => Ok(
            TypingRules::binary(float_type(w), ValType::I32),
        ),
        PlainInstr::IUn(w, _) => Ok(TypingRules::unary(int_type(w), int_type(w))),
        PlainInstr::IBin(w, _) => Ok(
            TypingRules::binary(int_type(w), int_type(w)),
        ),
        _ => Err(TypingRuleError::NoRule),
    }
}

} // verus!
