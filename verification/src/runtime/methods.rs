use vstd::prelude::*;
use vstd::slice::slice_to_vec;
use vstd::string::StringExecFns;
use crate::parser::functype::FuncType;
use crate::parser::importdesc::ImportDesc;
use crate::parser::instr::BT;
use crate::parser::locals::Locals;
use crate::parser::plain::PlainInstr;
use crate::parser::valtype::ValType;
use super::clean_model::{Model, Op, OpV};
use super::control::{arity, spec_after, spec_arity, spec_branch, spec_enter, spec_leave};
use super::error::{IndexSpace, RuntimeError};
use super::floats::{
    exec_bits, fbin, float_type, fun, spec_bits, spec_fbin, spec_float_type, spec_fun,
    spec_trunc_target, trunc_target,
};
use super::frame::{
    spec_pop_i32, spec_pop_typed, spec_take, spec_zero, zero, Frame, FrameV,
};
use super::local::{exec_local, spec_local};
use super::memory::in_bounds;
use super::numeric::{cvt_source, spec_cvt_source};
use super::state::spec_state;
use super::value::Value;
use super::{Runtime, StoreV};

verus! {

/// What one step of a running module comes to.
#[derive(Debug, PartialEq)]
pub enum Step {
    /// An instruction was executed; there is more to do.
    Next,
    /// The outermost function has returned these values.
    Finished(Vec<Value>),
    /// The module asks its host to print these bytes.
    Log(Vec<u8>),
    /// The module asks its host for floating-point arithmetic: the
    /// instruction and its operands, the left one first. The host puts the
    /// result on the stack.
    Float(PlainInstr, Value, Option<Value>),
}

/// `Step` as a mathematical value.
pub enum StepV {
    Next,
    Finished(Seq<Value>),
    Log(Seq<u8>),
    Float(PlainInstr, Value, Option<Value>),
}

impl View for Step {
    type V = StepV;

    open spec fn view(&self) -> StepV {
        match self {
            Step::Next => StepV::Next,
            Step::Finished(v) => StepV::Finished(v@),
            Step::Log(b) => StepV::Log(b@),
            Step::Float(i, a, b) => StepV::Float(*i, *a, *b),
        }
    }
}

/// What the innermost frame asks of the frames around it.
pub enum Flow {
    Next,
    Log(Vec<u8>),
    Float(PlainInstr, Value, Option<Value>),
    /// A function was called: its frame.
    Call(Frame),
    /// The function has returned these values.
    Return(Vec<Value>),
}

/// `Flow` as a mathematical value.
pub enum FlowV {
    Next,
    Log(Seq<u8>),
    Float(PlainInstr, Value, Option<Value>),
    Call(FrameV),
    Return(Seq<Value>),
}

impl View for Flow {
    type V = FlowV;

    open spec fn view(&self) -> FlowV {
        match self {
            Flow::Next => FlowV::Next,
            Flow::Log(b) => FlowV::Log(b@),
            Flow::Float(i, a, b) => FlowV::Float(*i, *a, *b),
            Flow::Call(f) => FlowV::Call(f@),
            Flow::Return(v) => FlowV::Return(v@),
        }
    }
}

/// One operand of type `t` handed to the host with the instruction.
pub open spec fn spec_float1(ins: PlainInstr, f: FrameV, t: ValType) -> Result<
    (FrameV, FlowV),
    RuntimeError,
> {
    match spec_pop_typed(f.stack, t) {
        Err(e) => Err(e),
        Ok((a, s)) => Ok((f.next(s), FlowV::Float(ins, a, None))),
    }
}

/// Two operands of type `t` handed to the host with the instruction.
pub open spec fn spec_float2(ins: PlainInstr, f: FrameV, t: ValType) -> Result<
    (FrameV, FlowV),
    RuntimeError,
> {
    match spec_pop_typed(f.stack, t) {
        Err(e) => Err(e),
        Ok((b, s1)) => match spec_pop_typed(s1, t) {
            Err(e) => Err(e),
            Ok((a, s2)) => Ok((f.next(s2), FlowV::Float(ins, a, Some(b)))),
        },
    }
}

/// What an instruction whose result has to be rounded to the nearest
/// floating-point number makes of the frame: its operands leave the stack and
/// go to the host with the instruction. These are the four arithmetic
/// operators, the square root, and the conversions to a floating-point type.
/// `None` for every other instruction.
pub open spec fn spec_float(ins: PlainInstr, f: FrameV) -> Option<
    Result<(FrameV, FlowV), RuntimeError>,
> {
    match ins {
        PlainInstr::FUn(w, op) => if spec_fun(op, Value::F32(0)) is None {
            Some(spec_float1(ins, f, spec_float_type(w)))
        } else {
            None
        },
        PlainInstr::FBin(w, op) => if spec_fbin(op, Value::F32(0), Value::F32(0)) is None {
            Some(spec_float2(ins, f, spec_float_type(w)))
        } else {
            None
        },
        PlainInstr::Cvt(op) => if spec_trunc_target(op) is None {
            Some(spec_float1(ins, f, spec_cvt_source(op)))
        } else {
            None
        },
        _ => None,
    }
}

/// The zeros that the declared locals of a function begin with.
pub open spec fn spec_zeros(runs: Seq<Locals>) -> Seq<Value>
    decreases runs.len(),
{
    if runs.len() == 0 {
        Seq::empty()
    } else {
        spec_zeros(runs.drop_last()) + Seq::new(
            runs.last().n as nat,
            |i: int| spec_zero(runs.last().t),
        )
    }
}

/// The locals of a call: the arguments, then a zero for each declared local.
pub fn make_locals(args: Vec<Value>, runs: &Vec<Locals>) -> (r: Vec<Value>)
    ensures
        r@ == args@ + spec_zeros(runs@),
{
    let mut out = args;
    let mut i: usize = 0;
    proof {
        assert(runs@.take(0) =~= Seq::<Locals>::empty());
        assert(out@ =~= args@ + spec_zeros(runs@.take(0)));
    }
    while i < runs.len()
        invariant
            i <= runs@.len(),
            out@ == args@ + spec_zeros(runs@.take(i as int)),
        decreases runs@.len() - i,
    {
        let run = runs[i];
        let v = zero(run.t);
        let ghost before = out@;
        let mut j: u32 = 0;
        while j < run.n
            invariant
                j <= run.n,
                v == spec_zero(run.t),
                out@ == before + Seq::new(j as nat, |k: int| spec_zero(run.t)),
            decreases run.n - j,
        {
            out.push(v);
            j = j + 1;
            proof {
                assert(out@ =~= before + Seq::new(j as nat, |k: int| spec_zero(run.t)));
            }
        }
        i = i + 1;
        proof {
            assert(runs@.take(i as int).drop_last() =~= runs@.take(i - 1));
            assert(runs@.take(i as int).last() == run);
            assert(out@ =~= args@ + spec_zeros(runs@.take(i as int)));
        }
    }
    proof {
        assert(runs@.take(runs@.len() as int) =~= runs@);
    }
    out
}

/// True when the string holds the characters of the literal.
fn is_str(s: &String, lit: &str) -> (b: bool)
    ensures
        b == (s@ == lit@),
{
    let other = String::from_str(lit);
    *s == other
}

impl Model {
    /// The function that a frame runs: its place among the functions that
    /// the module defines.
    pub open spec fn spec_defined(&self, func_id: u32) -> Result<int, RuntimeError> {
        if func_id < self.imports@.len() || func_id - self.imports@.len() >= self.funcs@.len() {
            Err(RuntimeError::UnknownIndex(IndexSpace::Func, func_id))
        } else {
            Ok(func_id - self.imports@.len())
        }
    }

    /// The index of the type of the function `x`, imported or defined.
    pub open spec fn spec_type_index(&self, x: u32) -> Result<u32, RuntimeError> {
        if x < self.imports@.len() {
            match self.imports@[x as int].desc {
                ImportDesc::Func(t) => Ok(t.0),
                _ => Err(RuntimeError::UnknownIndex(IndexSpace::Func, x)),
            }
        } else {
            match self.spec_defined(x) {
                Err(e) => Err(e),
                Ok(i) => Ok(self.funcs@[i].ty.0),
            }
        }
    }

    /// The values that the function in `f` returns: as many of the newest
    /// operands as its type has results.
    pub open spec fn spec_return(&self, f: FrameV) -> Result<Seq<Value>, RuntimeError> {
        match self.spec_defined(f.func_id) {
            Err(e) => Err(e),
            Ok(i) => {
                let t = self.funcs@[i].ty.0;
                if t >= self.types@.len() {
                    Err(RuntimeError::UnknownIndex(IndexSpace::Type, t))
                } else {
                    match spec_take(f.stack, self.types@[t as int].output.types@.len()) {
                        Err(e) => Err(e),
                        Ok((top, _)) => Ok(top),
                    }
                }
            },
        }
    }

    /// What a call of the function `x` makes of the calling frame, which
    /// stands at the call. A function of the module gets a frame of its own,
    /// with the arguments taken off the caller's stack as its first locals and
    /// zeros as the others. An import is the host's: `console.log` takes a
    /// length and, below it, an address and hands the host the bytes there;
    /// any other import traps.
    pub open spec fn spec_call(&self, f: FrameV, memory: Seq<u8>, x: u32) -> Result<
        (FrameV, FlowV),
        RuntimeError,
    > {
        if x < self.imports@.len() {
            let import = self.imports@[x as int];
            if import.module@ == "console"@ && import.name@ == "log"@ {
                match spec_pop_i32(f.stack) {
                    Err(e) => Err(e),
                    Ok((len, s1)) => match spec_pop_i32(s1) {
                        Err(e) => Err(e),
                        Ok((ptr, s2)) => if !in_bounds(
                            memory.len(),
                            ptr as u32,
                            0,
                            (len as u32) as nat,
                        ) {
                            Err(RuntimeError::OutOfBoundsMemoryAccess)
                        } else {
                            Ok(
                                (
                                    f.next(s2),
                                    FlowV::Log(
                                        memory.subrange(
                                            (ptr as u32) as int,
                                            (ptr as u32) + (len as u32),
                                        ),
                                    ),
                                ),
                            )
                        },
                    },
                }
            } else {
                Err(RuntimeError::UnknownHostFunction)
            }
        } else {
            match self.spec_defined(x) {
                Err(e) => Err(e),
                Ok(i) => {
                    let t = self.funcs@[i].ty.0;
                    if t >= self.types@.len() {
                        Err(RuntimeError::UnknownIndex(IndexSpace::Type, t))
                    } else {
                        match spec_take(f.stack, self.types@[t as int].input.types@.len()) {
                            Err(e) => Err(e),
                            Ok((args, rest)) => Ok(
                                (
                                    f.next(rest),
                                    FlowV::Call(
                                        FrameV {
                                            func_id: x,
                                            pc: 0,
                                            stack: Seq::empty(),
                                            locals: args + spec_zeros(self.funcs@[i].locals@),
                                            depth_stack: Seq::empty(),
                                        },
                                    ),
                                ),
                            ),
                        }
                    }
                },
            }
        }
    }

    /// What a branch to the label `l` makes of the frame. The label just
    /// beyond the open blocks is the function itself: the branch returns.
    pub open spec fn spec_jump(&self, f: FrameV, l: u32) -> Result<(FrameV, FlowV), RuntimeError> {
        if l < f.depth_stack.len() {
            match spec_branch(self.types@, f, l) {
                Err(e) => Err(e),
                Ok(g) => Ok((g, FlowV::Next)),
            }
        } else if l == f.depth_stack.len() {
            match self.spec_return(f) {
                Err(e) => Err(e),
                Ok(vals) => Ok((f, FlowV::Return(vals))),
            }
        } else {
            Err(RuntimeError::UnknownIndex(IndexSpace::Label, l))
        }
    }
}

/// True when the two function types take and return the same types.
pub fn same_type(a: &FuncType, b: &FuncType) -> (r: bool)
    ensures
        r == (a.deep_view() == b.deep_view()),
{
    let r = same_types(&a.input.types, &b.input.types) && same_types(
        &a.output.types,
        &b.output.types,
    );
    proof {
        assert(a.input.types.deep_view() =~= a.input.types@);
        assert(b.input.types.deep_view() =~= b.input.types@);
        assert(a.output.types.deep_view() =~= a.output.types@);
        assert(b.output.types.deep_view() =~= b.output.types@);
    }
    r
}

/// True when the two lists hold the same types in the same order.
fn same_types(a: &Vec<ValType>, b: &Vec<ValType>) -> (r: bool)
    ensures
        r == (a@ == b@),
{
    if a.len() != b.len() {
        return false;
    }
    let mut i: usize = 0;
    while i < a.len()
        invariant
            i <= a@.len(),
            a@.len() == b@.len(),
            a@.take(i as int) == b@.take(i as int),
        decreases a@.len() - i,
    {
        if a[i] != b[i] {
            proof {
                assert(a@[i as int] != b@[i as int]);
            }
            return false;
        }
        i = i + 1;
        proof {
            assert(a@.take(i as int) =~= a@.take(i - 1).push(a@[i - 1]));
            assert(b@.take(i as int) =~= b@.take(i - 1).push(b@[i - 1]));
        }
    }
    proof {
        assert(a@.take(a@.len() as int) =~= a@);
        assert(b@.take(b@.len() as int) =~= b@);
    }
    true
}

/// Hands the operands of an instruction that computes on floating-point
/// numbers to the host. Returns `None`, with the frame as it was, for any
/// other instruction.
pub fn exec_float(ins: PlainInstr, f: &mut Frame) -> (r: Result<Option<Flow>, RuntimeError>)
    requires
        old(f).pc < usize::MAX,
    ensures
        match spec_float(ins, old(f)@) {
            None => r is Ok && r->Ok_0 is None && final(f)@ == old(f)@,
            Some(Ok((g, flow))) => r is Ok && r->Ok_0 is Some && r->Ok_0->Some_0@ == flow
                && final(f)@ == g,
            Some(Err(e)) => r is Err && r->Err_0 == e,
        },
{
    let (t, two) = match ins {
        PlainInstr::FUn(w, op) => {
            if fun(op, Value::F32(0)).is_some() {
                return Ok(None);
            }
            (float_type(w), false)
        },
        PlainInstr::FBin(w, op) => {
            if fbin(op, Value::F32(0), Value::F32(0)).is_some() {
                return Ok(None);
            }
            (float_type(w), true)
        },
        PlainInstr::Cvt(op) => {
            if trunc_target(op).is_some() {
                return Ok(None);
            }
            (cvt_source(op), false)
        },
        _ => {
            return Ok(None);
        },
    };
    if two {
        let b = f.pop_typed(t)?;
        let a = f.pop_typed(t)?;
        f.pc = f.pc + 1;
        Ok(Some(Flow::Float(ins, a, Some(b))))
    } else {
        let a = f.pop_typed(t)?;
        f.pc = f.pc + 1;
        Ok(Some(Flow::Float(ins, a, None)))
    }
}

impl Model {
    /// The place of the function `func_id` among the functions that the
    /// module defines.
    pub fn defined(&self, func_id: u32) -> (r: Result<usize, RuntimeError>)
        ensures
            match self.spec_defined(func_id) {
                Ok(i) => r == Ok::<usize, RuntimeError>(i as usize) && i < self.funcs@.len(),
                Err(e) => r == Err::<usize, RuntimeError>(e),
            },
    {
        let x = func_id as usize;
        let n = self.imports.len();
        if x < n || x - n >= self.funcs.len() {
            Err(RuntimeError::UnknownIndex(IndexSpace::Func, func_id))
        } else {
            Ok(x - n)
        }
    }

    /// The index of the type of the function `x`.
    pub fn type_index(&self, x: u32) -> (r: Result<u32, RuntimeError>)
        ensures
            r == self.spec_type_index(x),
    {
        if (x as usize) < self.imports.len() {
            match self.imports[x as usize].desc {
                ImportDesc::Func(t) => Ok(t.0),
                _ => Err(RuntimeError::UnknownIndex(IndexSpace::Func, x)),
            }
        } else {
            let i = self.defined(x)?;
            Ok(self.funcs[i].ty.0)
        }
    }

    /// Takes the values that the function in `f` returns off its stack.
    pub fn ret(&self, f: &mut Frame) -> (r: Result<Vec<Value>, RuntimeError>)
        ensures
            match self.spec_return(old(f)@) {
                Ok(vals) => r is Ok && r->Ok_0@ == vals,
                Err(e) => r is Err && r->Err_0 == e,
            },
    {
        let i = self.defined(f.func_id)?;
        let t = self.funcs[i].ty.0;
        if (t as usize) >= self.types.len() {
            return Err(RuntimeError::UnknownIndex(IndexSpace::Type, t));
        }
        f.take(self.types[t as usize].output.types.len())
    }

    /// Calls the function `x` from the frame `f`.
    pub fn call(&self, f: &mut Frame, memory: &super::memory::Memory, x: u32) -> (r: Result<
        Flow,
        RuntimeError,
    >)
        requires
            old(f).pc < usize::MAX,
        ensures
            match self.spec_call(old(f)@, memory@, x) {
                Ok((g, flow)) => r is Ok && r->Ok_0@ == flow && final(f)@ == g,
                Err(e) => r is Err && r->Err_0 == e,
            },
    {
        if (x as usize) < self.imports.len() {
            let import = &self.imports[x as usize];
            if is_str(&import.module.0, "console") && is_str(&import.name.0, "log") {
                let len = f.pop_i32()?;
                let ptr = f.pop_i32()?;
                let bytes = memory.read(
                    #[verifier::truncate] (ptr as u32),
                    0,
                    (#[verifier::truncate] (len as u32)) as usize,
                )?;
                f.pc = f.pc + 1;
                Ok(Flow::Log(slice_to_vec(bytes)))
            } else {
                Err(RuntimeError::UnknownHostFunction)
            }
        } else {
            let i = self.defined(x)?;
            let t = self.funcs[i].ty.0;
            if (t as usize) >= self.types.len() {
                return Err(RuntimeError::UnknownIndex(IndexSpace::Type, t));
            }
            let args = f.take(self.types[t as usize].input.types.len())?;
            f.pc = f.pc + 1;
            let locals = make_locals(args, &self.funcs[i].locals);
            Ok(Flow::Call(Frame::new(x, locals)))
        }
    }

    /// Branches to the label `l`.
    pub fn jump(&self, f: &mut Frame, l: u32) -> (r: Result<Flow, RuntimeError>)
        ensures
            match self.spec_jump(old(f)@, l) {
                Ok((g, flow)) => r is Ok && r->Ok_0@ == flow && (flow is Return || final(f)@ == g),
                Err(e) => r is Err && r->Err_0 == e,
            },
    {
        let depth = f.depth_stack.len();
        if (l as usize) < depth {
            f.branch(&self.types, l)?;
            Ok(Flow::Next)
        } else if l as usize == depth {
            Ok(Flow::Return(self.ret(f)?))
        } else {
            Err(RuntimeError::UnknownIndex(IndexSpace::Label, l))
        }
    }
}

/// What an indirect call through slot `i` of table `x` makes of the frame:
/// the slot must lie in the table and hold a function, and the type of that
/// function must be the type number `t`; then the function is called.
pub open spec fn spec_call_indirect(m: Model, f: FrameV, st: StoreV, t: u32, x: u32) -> Result<
    (FrameV, FlowV),
    RuntimeError,
> {
    match spec_pop_i32(f.stack) {
        Err(e) => Err(e),
        Ok((i, s)) => if x >= st.tables.len() {
            Err(RuntimeError::UnknownIndex(IndexSpace::Table, x))
        } else if (i as u32) >= st.tables[x as int].len() {
            Err(RuntimeError::UndefinedElement)
        } else {
            match st.tables[x as int][(i as u32) as int] {
                Value::FuncRef(callee) => if callee == u32::MAX {
                    Err(RuntimeError::UninitializedElement)
                } else {
                    match m.spec_type_index(callee) {
                        Err(e) => Err(e),
                        Ok(ct) => if t >= m.types@.len() {
                            Err(RuntimeError::UnknownIndex(IndexSpace::Type, t))
                        } else if ct >= m.types@.len() {
                            Err(RuntimeError::UnknownIndex(IndexSpace::Type, ct))
                        } else if m.types@[ct as int].deep_view() != m.types@[t as int].deep_view() {
                            Err(RuntimeError::IndirectCallTypeMismatch)
                        } else {
                            m.spec_call(f.with_stack(s), st.memory, callee)
                        },
                    }
                },
                _ => Err(RuntimeError::UninitializedElement),
            }
        },
    }
}

/// What a plain instruction makes of the innermost frame and of what the
/// frames share.
pub open spec fn spec_run_plain(m: Model, ins: PlainInstr, f: FrameV, st: StoreV) -> Result<
    (FrameV, StoreV, FlowV),
    RuntimeError,
> {
    match ins {
        PlainInstr::Br(l) => match m.spec_jump(f, l.0) {
            Err(e) => Err(e),
            Ok((g, flow)) => Ok((g, st, flow)),
        },
        PlainInstr::BrIf(l) => match spec_pop_i32(f.stack) {
            Err(e) => Err(e),
            Ok((c, s)) => if c != 0 {
                match m.spec_jump(f.with_stack(s), l.0) {
                    Err(e) => Err(e),
                    Ok((g, flow)) => Ok((g, st, flow)),
                }
            } else {
                Ok((f.next(s), st, FlowV::Next))
            },
        },
        PlainInstr::Return => match m.spec_return(f) {
            Err(e) => Err(e),
            Ok(vals) => Ok((f, st, FlowV::Return(vals))),
        },
        PlainInstr::Call(x) => match m.spec_call(f, st.memory, x.0) {
            Err(e) => Err(e),
            Ok((g, flow)) => Ok((g, st, flow)),
        },
        PlainInstr::CallIndirect(t, x) => match spec_call_indirect(m, f, st, t.0, x.0) {
            Err(e) => Err(e),
            Ok((g, flow)) => Ok((g, st, flow)),
        },
        _ => match spec_local(ins, f) {
            Some(Err(e)) => Err(e),
            Some(Ok(g)) => Ok((g, st, FlowV::Next)),
            None => match spec_bits(ins, f) {
                Some(Err(e)) => Err(e),
                Some(Ok(g)) => Ok((g, st, FlowV::Next)),
                None => match spec_state(ins, f, st) {
                    Some(Err(e)) => Err(e),
                    Some(Ok((g, st2))) => Ok((g, st2, FlowV::Next)),
                    None => match spec_float(ins, f) {
                        Some(Err(e)) => Err(e),
                        Some(Ok((g, flow))) => Ok((g, st, flow)),
                        None => Err(RuntimeError::UnreachableExecuted),
                    },
                },
            },
        },
    }
}

/// What the next instruction of the innermost frame makes of the frame and
/// of what the frames share. A frame that stands behind the last instruction
/// of its function returns.
pub open spec fn spec_run(m: Model, f: FrameV, st: StoreV) -> Result<
    (FrameV, StoreV, FlowV),
    RuntimeError,
> {
    match m.spec_defined(f.func_id) {
        Err(e) => Err(e),
        Ok(i) => {
            let code = m.funcs@[i].code@;
            if f.pc >= code.len() {
                match m.spec_return(f) {
                    Err(e) => Err(e),
                    Ok(vals) => Ok((f, st, FlowV::Return(vals))),
                }
            } else {
                match code[f.pc as int]@ {
                    OpV::BlockStart(kind, end, bt) => match spec_arity(m.types@, bt) {
                        Err(e) => Err(e),
                        Ok((k, _)) => match spec_enter(
                            f,
                            kind,
                            bt,
                            k,
                            f.pc,
                            end,
                            (f.pc + 1) as usize,
                        ) {
                            Err(e) => Err(e),
                            Ok(g) => Ok((g, st, FlowV::Next)),
                        },
                    },
                    OpV::IfStart(other, end, bt) => match spec_pop_i32(f.stack) {
                        Err(e) => Err(e),
                        Ok((c, s)) => match spec_arity(m.types@, bt) {
                            Err(e) => Err(e),
                            Ok((k, _)) => if c != 0 || other is Some {
                                let next = if c != 0 {
                                    (f.pc + 1) as usize
                                } else {
                                    spec_after(other->Some_0)
                                };
                                match spec_enter(
                                    f.with_stack(s),
                                    BT::Block,
                                    bt,
                                    k,
                                    f.pc,
                                    end,
                                    next,
                                ) {
                                    Err(e) => Err(e),
                                    Ok(g) => Ok((g, st, FlowV::Next)),
                                }
                            } else {
                                Ok(
                                    (
                                        FrameV { pc: spec_after(end), ..f.with_stack(s) },
                                        st,
                                        FlowV::Next,
                                    ),
                                )
                            },
                        },
                    },
                    OpV::Else(end) => match spec_leave(m.types@, f, spec_after(end)) {
                        Err(e) => Err(e),
                        Ok(g) => Ok((g, st, FlowV::Next)),
                    },
                    OpV::BlockEnd(_, _, _) => match spec_leave(
                        m.types@,
                        f,
                        (f.pc + 1) as usize,
                    ) {
                        Err(e) => Err(e),
                        Ok(g) => Ok((g, st, FlowV::Next)),
                    },
                    OpV::BrTable(table, default) => match spec_pop_i32(f.stack) {
                        Err(e) => Err(e),
                        Ok((i, s)) => {
                            let l = if (i as u32) < table.len() {
                                table[(i as u32) as int]
                            } else {
                                default
                            };
                            match m.spec_jump(f.with_stack(s), l.0) {
                                Err(e) => Err(e),
                                Ok((g, flow)) => Ok((g, st, flow)),
                            }
                        },
                    },
                    OpV::Plain(ins) => spec_run_plain(m, ins, f, st),
                }
            }
        },
    }
}

/// What one step makes of a running module: the frames and what they share
/// afterwards, and what the step comes to. A trap leaves no frame, and
/// leaves what the frames share as it was.
pub open spec fn spec_step(m: Model, frames: Seq<FrameV>, st: StoreV) -> (
    Seq<FrameV>,
    StoreV,
    Result<StepV, RuntimeError>,
) {
    if frames.len() == 0 {
        (frames, st, Err(RuntimeError::NoFrame))
    } else {
        let below = frames.drop_last();
        match spec_run(m, frames.last(), st) {
            Err(e) => (Seq::empty(), st, Err(e)),
            Ok((g, st2, flow)) => match flow {
                FlowV::Next => (below.push(g), st2, Ok(StepV::Next)),
                FlowV::Log(b) => (below.push(g), st2, Ok(StepV::Log(b))),
                FlowV::Float(i, a, b) => (below.push(g), st2, Ok(StepV::Float(i, a, b))),
                FlowV::Call(callee) => (below.push(g).push(callee), st2, Ok(StepV::Next)),
                FlowV::Return(vals) => if below.len() == 0 {
                    (below, st2, Ok(StepV::Finished(vals)))
                } else {
                    let caller = below.last();
                    (
                        below.drop_last().push(caller.with_stack(caller.stack + vals)),
                        st2,
                        Ok(StepV::Next),
                    )
                },
            },
        }
    }
}

impl Runtime {
    /// Calls a function through a table.
    fn call_indirect(&self, f: &mut Frame, t: u32, x: u32) -> (r: Result<Flow, RuntimeError>)
        requires
            old(f).pc < usize::MAX,
        ensures
            match spec_call_indirect(self.module, old(f)@, self.store(), t, x) {
                Ok((g, flow)) => r is Ok && r->Ok_0@ == flow && final(f)@ == g,
                Err(e) => r is Err && r->Err_0 == e,
            },
    {
        let i = f.pop_i32()?;
        let at = (#[verifier::truncate] (i as u32)) as usize;
        if (x as usize) >= self.tables.len() {
            return Err(RuntimeError::UnknownIndex(IndexSpace::Table, x));
        }
        if at >= self.tables[x as usize].len() {
            return Err(RuntimeError::UndefinedElement);
        }
        match self.tables[x as usize][at] {
            Value::FuncRef(callee) => {
                if callee == u32::MAX {
                    return Err(RuntimeError::UninitializedElement);
                }
                let ct = self.module.type_index(callee)?;
                if (t as usize) >= self.module.types.len() {
                    return Err(RuntimeError::UnknownIndex(IndexSpace::Type, t));
                }
                if (ct as usize) >= self.module.types.len() {
                    return Err(RuntimeError::UnknownIndex(IndexSpace::Type, ct));
                }
                if !same_type(&self.module.types[ct as usize], &self.module.types[t as usize]) {
                    return Err(RuntimeError::IndirectCallTypeMismatch);
                }
                self.module.call(f, &self.memory, callee)
            },
            _ => Err(RuntimeError::UninitializedElement),
        }
    }

    /// Executes a plain instruction in the frame `f`.
    fn run_plain(&mut self, ins: PlainInstr, f: &mut Frame) -> (r: Result<Flow, RuntimeError>)
        requires
            old(self).wf(),
            old(f).pc < usize::MAX,
        ensures
            final(self).wf(),
            final(self).module == old(self).module,
            final(self).stack == old(self).stack,
            match spec_run_plain(old(self).module, ins, old(f)@, old(self).store()) {
                Ok((g, st, flow)) => r is Ok && r->Ok_0@ == flow && (flow is Return || final(f)@
                    == g) && final(self).store() == st,
                Err(e) => r is Err && r->Err_0 == e && final(self).store() == old(self).store(),
            },
    {
        match ins {
            PlainInstr::Br(l) => self.module.jump(f, l.0),
            PlainInstr::BrIf(l) => {
                let c = f.pop_i32()?;
                if c != 0 {
                    self.module.jump(f, l.0)
                } else {
                    f.pc = f.pc + 1;
                    Ok(Flow::Next)
                }
            },
            PlainInstr::Return => Ok(Flow::Return(self.module.ret(f)?)),
            PlainInstr::Call(x) => self.module.call(f, &self.memory, x.0),
            PlainInstr::CallIndirect(t, x) => self.call_indirect(f, t.0, x.0),
            _ => {
                if exec_local(ins, f)? {
                    return Ok(Flow::Next);
                }
                if exec_bits(ins, f)? {
                    return Ok(Flow::Next);
                }
                if self.exec_state(ins, f)? {
                    return Ok(Flow::Next);
                }
                match exec_float(ins, f)? {
                    Some(flow) => Ok(flow),
                    None => Err(RuntimeError::UnreachableExecuted),
                }
            },
        }
    }

    /// Executes the next instruction of the frame `f`, which has been taken
    /// off the frames.
    fn run(&mut self, f: &mut Frame) -> (r: Result<Flow, RuntimeError>)
        requires
            old(self).wf(),
        ensures
            final(self).wf(),
            final(self).module == old(self).module,
            final(self).stack == old(self).stack,
            match spec_run(old(self).module, old(f)@, old(self).store()) {
                Ok((g, st, flow)) => r is Ok && r->Ok_0@ == flow && (flow is Return || final(f)@
                    == g) && final(self).store() == st,
                Err(e) => r is Err && r->Err_0 == e && final(self).store() == old(self).store(),
            },
    {
        let i = self.module.defined(f.func_id)?;
        let pc = f.pc;
        if pc >= self.module.funcs[i].code.len() {
            return Ok(Flow::Return(self.module.ret(f)?));
        }
        match &self.module.funcs[i].code[pc] {
            Op::BlockStart(kind, end, bt) => {
                let (k, _) = arity(&self.module.types, *bt)?;
                f.enter(*kind, *bt, k, pc, *end, pc + 1)?;
                Ok(Flow::Next)
            },
            Op::IfStart(other, end, bt) => {
                let c = f.pop_i32()?;
                let (k, _) = arity(&self.module.types, *bt)?;
                if c != 0 {
                    f.enter(BT::Block, *bt, k, pc, *end, pc + 1)?;
                } else {
                    match other {
                        Some(e) => {
                            f.enter(BT::Block, *bt, k, pc, *end, e.saturating_add(1))?;
                        },
                        None => {
                            f.pc = end.saturating_add(1);
                        },
                    }
                }
                Ok(Flow::Next)
            },
            Op::Else(end) => {
                f.leave(&self.module.types, end.saturating_add(1))?;
                Ok(Flow::Next)
            },
            Op::BlockEnd(_, _, _) => {
                f.leave(&self.module.types, pc + 1)?;
                Ok(Flow::Next)
            },
            Op::BrTable(table, default) => {
                let i = f.pop_i32()?;
                let at = (#[verifier::truncate] (i as u32)) as usize;
                let l = if at < table.len() {
                    table[at]
                } else {
                    *default
                };
                self.module.jump(f, l.0)
            },
            Op::Plain(ins) => {
                let ins = *ins;
                self.run_plain(ins, f)
            },
        }
    }

    /// Executes one instruction of the innermost frame.
    pub fn step(&mut self) -> (r: Result<Step, RuntimeError>)
        requires
            old(self).wf(),
        ensures
            final(self).wf(),
            final(self).module == old(self).module,
            ({
                let (frames, st, res) = spec_step(
                    old(self).module,
                    old(self).frames(),
                    old(self).store(),
                );
                &&& final(self).frames() == frames
                &&& final(self).store() == st
                &&& match res {
                    Ok(s) => r is Ok && r->Ok_0@ == s,
                    Err(e) => r is Err && r->Err_0 == e,
                }
            }),
    {
        let mut f = match self.stack.pop() {
            Some(f) => f,
            None => {
                assert(self.frames() =~= old(self).frames());
                return Err(RuntimeError::NoFrame);
            },
        };
        let ghost below = old(self).frames().drop_last();
        assert(self.frames() =~= below);
        assert(f@ == old(self).frames().last());
        match self.run(&mut f) {
            Err(e) => {
                self.stack.clear();
                assert(self.frames() =~= Seq::<FrameV>::empty());
                assert(self.store().tables =~= old(self).store().tables);
                assert(self.store().datas =~= old(self).store().datas);
                Err(e)
            },
            Ok(Flow::Next) => {
                self.stack.push(f);
                assert(self.frames() =~= below.push(f@));
                Ok(Step::Next)
            },
            Ok(Flow::Log(b)) => {
                self.stack.push(f);
                assert(self.frames() =~= below.push(f@));
                Ok(Step::Log(b))
            },
            Ok(Flow::Float(i, a, b)) => {
                self.stack.push(f);
                assert(self.frames() =~= below.push(f@));
                Ok(Step::Float(i, a, b))
            },
            Ok(Flow::Call(callee)) => {
                self.stack.push(f);
                self.stack.push(callee);
                assert(self.frames() =~= below.push(f@).push(callee@));
                Ok(Step::Next)
            },
            Ok(Flow::Return(vals)) => {
                let n = self.stack.len();
                if n == 0 {
                    Ok(Step::Finished(vals))
                } else {
                    let mut vals = vals;
                    let ghost given = vals@;
                    let caller: &mut Frame = &mut self.stack[n - 1];
                    caller.stack.append(&mut vals);
                    assert(self.frames() =~= below.drop_last().push(
                        below.last().with_stack(below.last().stack + given),
                    ));
                    Ok(Step::Next)
                }
            },
        }
    }
}

} // verus!
