use vstd::prelude::*;
use vstd::slice::slice_to_vec;
use crate::parser::data::{Data, DataMode};
use crate::parser::elem::Elem;

use crate::parser::global::Global;
use crate::parser::instr::Instr;
use crate::parser::memtype::MemType;
use crate::parser::module::Module;
use crate::parser::plain::PlainInstr;
use crate::parser::tabletype::TableType;
use crate::parser::valtype::{RefTyp, ValType};
use super::clean_model::{is_model_of, spec_model_error, Model};
use super::error::{IndexSpace, RuntimeError};
use super::frame::{spec_zero, zero, Frame, FrameV};
use super::local::spec_ref_type;
use super::memory::{in_bounds, overwrite, spec_grow, Memory};

use super::value::Value;
use super::{Runtime, StoreV};

verus! {

/// The value that a constant instruction stands for; none for any other
/// instruction.
pub open spec fn spec_const_value(i: Instr) -> Option<Value> {
    match i {
        Instr::Plain(PlainInstr::I32Const(v)) => Some(Value::I32(v)),
        Instr::Plain(PlainInstr::I64Const(v)) => Some(Value::I64(v)),
        Instr::Plain(PlainInstr::F32Const(v)) => Some(Value::F32(v)),
        Instr::Plain(PlainInstr::F64Const(v)) => Some(Value::F64(v)),
        Instr::Plain(PlainInstr::RefNull(t)) => Some(spec_zero(spec_ref_type(t))),
        Instr::Plain(PlainInstr::RefFunc(x)) => Some(Value::FuncRef(x.0)),
        _ => None,
    }
}

/// The value of an initializer: the value of its last instruction, where
/// there is one and every instruction is a constant.
pub open spec fn spec_const(instrs: Seq<Instr>) -> Result<Value, RuntimeError> {
    if instrs.len() == 0 || exists|i: int|
        0 <= i < instrs.len() && #[trigger] spec_const_value(instrs[i]) is None {
        Err(RuntimeError::InvalidInitializer)
    } else {
        Ok(spec_const_value(instrs.last())->Some_0)
    }
}

/// Evaluates an initializer.
pub fn eval_const(instrs: &Vec<Instr>) -> (r: Result<Value, RuntimeError>)
    ensures
        r == spec_const(instrs@),
{
    let n = instrs.len();
    if n == 0 {
        return Err(RuntimeError::InvalidInitializer);
    }
    let mut last = Value::BlockMarker;
    let mut i: usize = 0;
    while i < n
        invariant
            i <= n,
            n == instrs@.len(),
            forall|j: int| 0 <= j < i ==> #[trigger] spec_const_value(instrs@[j]) is Some,
            i > 0 ==> last == spec_const_value(instrs@[i - 1])->Some_0,
        decreases n - i,
    {
        let v = match &instrs[i] {
            Instr::Plain(PlainInstr::I32Const(v)) => Value::I32(*v),
            Instr::Plain(PlainInstr::I64Const(v)) => Value::I64(*v),
            Instr::Plain(PlainInstr::F32Const(v)) => Value::F32(*v),
            Instr::Plain(PlainInstr::F64Const(v)) => Value::F64(*v),
            Instr::Plain(PlainInstr::RefNull(t)) => match t {
                RefTyp::FuncRef => zero(ValType::FuncRef),
                RefTyp::ExternRef => zero(ValType::ExternRef),
            },
            Instr::Plain(PlainInstr::RefFunc(x)) => Value::FuncRef(x.0),
            _ => {
                proof {
                    assert(spec_const_value(instrs@[i as int]) is None);
                }
                return Err(RuntimeError::InvalidInitializer);
            },
        };
        last = v;
        i = i + 1;
    }
    Ok(last)
}

/// The first values of the globals.
pub open spec fn spec_globals(globals: Seq<Global>) -> Result<Seq<Value>, RuntimeError> {
    if exists|i: int|
        0 <= i < globals.len() && #[trigger] spec_const(globals[i].init.instrs@) is Err {
        Err(RuntimeError::InvalidInitializer)
    } else {
        Ok(Seq::new(globals.len(), |i: int| spec_const(globals[i].init.instrs@)->Ok_0))
    }
}

/// The tables before any element segment is written: as many null
/// references as the minimum of each table says.
pub open spec fn spec_tables(tables: Seq<TableType>) -> Seq<Seq<Value>> {
    Seq::new(
        tables.len(),
        |i: int| Seq::new(tables[i].lim.min as nat, |j: int| spec_zero(spec_ref_type(tables[i].et))),
    )
}

/// The tables after the element segment `e` has been written into table 0.
pub open spec fn spec_apply_elem(e: Elem, tables: Seq<Seq<Value>>) -> Result<
    Seq<Seq<Value>>,
    RuntimeError,
> {
    match spec_const(e.offset.instrs@) {
        Err(err) => Err(err),
        Ok(Value::I32(off)) => if tables.len() == 0 {
            Err(RuntimeError::UnknownIndex(IndexSpace::Table, 0))
        } else if (off as u32) + e.init@.len() > tables[0].len() {
            Err(RuntimeError::UndefinedElement)
        } else {
            Ok(
                tables.update(
                    0,
                    Seq::new(
                        tables[0].len(),
                        |j: int|
                            if (off as u32) <= j < (off as u32) + e.init@.len() {
                                Value::FuncRef(e.init@[j - (off as u32)].0)
                            } else {
                                tables[0][j]
                            },
                    ),
                ),
            )
        },
        Ok(_) => Err(RuntimeError::InvalidInitializer),
    }
}

/// The tables after the element segments have been written, in order.
pub open spec fn spec_elems(es: Seq<Elem>, tables: Seq<Seq<Value>>) -> Result<
    Seq<Seq<Value>>,
    RuntimeError,
>
    decreases es.len(),
{
    if es.len() == 0 {
        Ok(tables)
    } else {
        match spec_elems(es.drop_last(), tables) {
            Err(e) => Err(e),
            Ok(t) => spec_apply_elem(es.last(), t),
        }
    }
}

/// The memory after the data segment `d` has been written, and the bytes that
/// stay with the segment: all of them for a passive segment, none for an
/// active one.
pub open spec fn spec_apply_data(d: Data, memory: Seq<u8>) -> Result<
    (Seq<u8>, Seq<u8>),
    RuntimeError,
> {
    match d.mode {
        DataMode::Passive => Ok((memory, d.init@)),
        DataMode::Active(m, expr) => if m.0 != 0 {
            Err(RuntimeError::UnknownIndex(IndexSpace::Memory, m.0))
        } else {
            match spec_const(expr.instrs@) {
                Err(err) => Err(err),
                Ok(Value::I32(off)) => if !in_bounds(memory.len(), off as u32, 0, d.init@.len()) {
                    Err(RuntimeError::OutOfBoundsMemoryAccess)
                } else {
                    Ok((overwrite(memory, (off as u32) as int, d.init@), Seq::empty()))
                },
                Ok(_) => Err(RuntimeError::InvalidInitializer),
            }
        },
    }
}

/// The memory after the data segments have been written, in order, and the
/// bytes that stay with each segment.
pub open spec fn spec_datas(ds: Seq<Data>, memory: Seq<u8>) -> Result<
    (Seq<u8>, Seq<Seq<u8>>),
    RuntimeError,
>
    decreases ds.len(),
{
    if ds.len() == 0 {
        Ok((memory, Seq::empty()))
    } else {
        match spec_datas(ds.drop_last(), memory) {
            Err(e) => Err(e),
            Ok((m, kept)) => match spec_apply_data(ds.last(), m) {
                Err(e) => Err(e),
                Ok((m2, k)) => Ok((m2, kept.push(k))),
            },
        }
    }
}

/// The limits of the memory of a module: those of its one memory, or no
/// page at all where it has none.
pub open spec fn spec_mem_limits(mems: Seq<MemType>) -> Result<(u32, Option<u32>), RuntimeError> {
    if mems.len() == 0 {
        Ok((0, Some(0)))
    } else if mems.len() == 1 && spec_grow(0, mems[0].lim.max, mems[0].lim.min) is Some {
        Ok((mems[0].lim.min, mems[0].lim.max))
    } else {
        Err(RuntimeError::MalformedModule)
    }
}

/// What the frames of a module share when it starts to run: the memory of
/// the declared size with the active data segments written into it, the
/// globals with the values of their initializers, and the tables with the
/// element segments written into them.
pub open spec fn spec_instantiate(module: Module) -> Result<StoreV, RuntimeError> {
    match spec_model_error(module) {
        Some(e) => Err(e),
        None => match spec_mem_limits(module.mems.mems@) {
            Err(e) => Err(e),
            Ok((min, max)) => match spec_globals(module.globals.globals@) {
                Err(e) => Err(e),
                Ok(globals) => match spec_elems(
                    module.elems.elems@,
                    spec_tables(module.tables.tables@),
                ) {
                    Err(e) => Err(e),
                    Ok(tables) => match spec_datas(
                        module.datas.data@,
                        Seq::new(min as nat * 65536, |i: int| 0u8),
                    ) {
                        Err(e) => Err(e),
                        Ok((memory, datas)) => Ok(
                            StoreV { globals, memory, mem_max: max, tables, datas },
                        ),
                    },
                },
            },
        },
    }
}

/// The first values of the globals.
fn make_globals(globals: &Vec<Global>) -> (r: Result<Vec<Value>, RuntimeError>)
    ensures
        match spec_globals(globals@) {
            Ok(v) => r is Ok && r->Ok_0@ == v,
            Err(e) => r is Err && r->Err_0 == e,
        },
{
    let mut out: Vec<Value> = Vec::new();
    let mut i: usize = 0;
    while i < globals.len()
        invariant
            i <= globals@.len(),
            out@.len() == i,
            forall|j: int| 0 <= j < i ==> #[trigger] spec_const(globals@[j].init.instrs@) is Ok,
            forall|j: int|
                0 <= j < i ==> #[trigger] out@[j] == spec_const(globals@[j].init.instrs@)->Ok_0,
        decreases globals@.len() - i,
    {
        match eval_const(&globals[i].init.instrs) {
            Ok(v) => {
                out.push(v);
            },
            Err(_) => {
                proof {
                    assert(spec_const(globals@[i as int].init.instrs@) is Err);
                }
                return Err(RuntimeError::InvalidInitializer);
            },
        }
        i = i + 1;
    }
    proof {
        assert(out@ =~= Seq::new(
            globals@.len(),
            |i: int| spec_const(globals@[i].init.instrs@)->Ok_0,
        ));
    }
    Ok(out)
}

/// The tables before any element segment is written.
fn make_tables(tables: &Vec<TableType>) -> (r: Vec<Vec<Value>>)
    ensures
        Seq::new(r@.len(), |i: int| r@[i]@) == spec_tables(tables@),
{
    let mut out: Vec<Vec<Value>> = Vec::new();
    let mut i: usize = 0;
    while i < tables.len()
        invariant
            i <= tables@.len(),
            out@.len() == i,
            forall|j: int|
                0 <= j < i ==> #[trigger] out@[j]@ == Seq::new(
                    tables@[j].lim.min as nat,
                    |k: int| spec_zero(spec_ref_type(tables@[j].et)),
                ),
        decreases tables@.len() - i,
    {
        let t = tables[i];
        let null = match t.et {
            RefTyp::FuncRef => zero(ValType::FuncRef),
            RefTyp::ExternRef => zero(ValType::ExternRef),
        };
        let slots = vec![null; t.lim.min as usize];
        proof {
            assert(slots@ =~= Seq::new(
                t.lim.min as nat,
                |k: int| spec_zero(spec_ref_type(t.et)),
            ));
        }
        out.push(slots);
        i = i + 1;
    }
    proof {
        assert(Seq::new(out@.len(), |i: int| out@[i]@) =~= spec_tables(tables@));
    }
    out
}

/// Writes an element segment into table 0.
fn apply_elem(e: &Elem, tables: &mut Vec<Vec<Value>>) -> (r: Result<(), RuntimeError>)
    ensures
        match spec_apply_elem(*e, Seq::new(old(tables)@.len(), |i: int| old(tables)@[i]@)) {
            Ok(t) => r is Ok && Seq::new(final(tables)@.len(), |i: int| final(tables)@[i]@) == t,
            Err(err) => r is Err && r->Err_0 == err,
        },
{
    let off = match eval_const(&e.offset.instrs)? {
        Value::I32(off) => (#[verifier::truncate] (off as u32)) as usize,
        _ => {
            return Err(RuntimeError::InvalidInitializer);
        },
    };
    if tables.len() == 0 {
        return Err(RuntimeError::UnknownIndex(IndexSpace::Table, 0));
    }
    let n = e.init.len();
    let len = tables[0].len();
    if n > len || off > len - n {
        return Err(RuntimeError::UndefinedElement);
    }
    let ghost before = tables@[0]@;
    let mut j: usize = 0;
    while j < n
        invariant
            j <= n,
            n == e.init@.len(),
            off + n <= len,
            tables@.len() == old(tables)@.len(),
            tables@.len() > 0,
            tables@[0]@.len() == len,
            before == old(tables)@[0]@,
            forall|i: int| 1 <= i < tables@.len() ==> tables@[i] == old(tables)@[i],
            forall|k: int|
                0 <= k < len ==> #[trigger] tables@[0]@[k] == if off <= k < off + j {
                    Value::FuncRef(e.init@[k - off].0)
                } else {
                    before[k]
                },
        decreases n - j,
    {
        let slots: &mut Vec<Value> = &mut tables[0];
        slots.set(off + j, Value::FuncRef(e.init[j].0));
        j = j + 1;
    }
    proof {
        let pre = Seq::new(old(tables)@.len(), |i: int| old(tables)@[i]@);
        let want = spec_apply_elem(*e, pre)->Ok_0;
        let got = Seq::new(tables@.len(), |i: int| tables@[i]@);
        assert(got[0] =~= want[0]);
        assert(got =~= want);
    }
    Ok(())
}

/// Writes the element segments into the tables, in order.
fn apply_elems(es: &Vec<Elem>, tables: &mut Vec<Vec<Value>>) -> (r: Result<(), RuntimeError>)
    ensures
        match spec_elems(es@, Seq::new(old(tables)@.len(), |i: int| old(tables)@[i]@)) {
            Ok(t) => r is Ok && Seq::new(final(tables)@.len(), |i: int| final(tables)@[i]@) == t,
            Err(err) => r is Err && r->Err_0 == err,
        },
{
    let ghost start = Seq::new(old(tables)@.len(), |i: int| old(tables)@[i]@);
    let mut i: usize = 0;
    proof {
        assert(es@.take(0) =~= Seq::<Elem>::empty());
    }
    while i < es.len()
        invariant
            i <= es@.len(),
            start == Seq::new(old(tables)@.len(), |i: int| old(tables)@[i]@),
            spec_elems(es@.take(i as int), start) == Ok::<Seq<Seq<Value>>, RuntimeError>(
                Seq::new(tables@.len(), |i: int| tables@[i]@),
            ),
        decreases es@.len() - i,
    {
        proof {
            assert(es@.take(i + 1).drop_last() =~= es@.take(i as int));
            assert(es@.take(i + 1).last() == es@[i as int]);
        }
        match apply_elem(&es[i], tables) {
            Ok(()) => {},
            Err(e) => {
                proof {
                    lemma_elems_fail(es@, (i + 1) as nat, start);
                }
                return Err(e);
            },
        }
        i = i + 1;
    }
    proof {
        assert(es@.take(es@.len() as int) =~= es@);
    }
    Ok(())
}

/// Once a segment fails, the whole list fails with its error.
proof fn lemma_elems_fail(es: Seq<Elem>, i: nat, tables: Seq<Seq<Value>>)
    requires
        i <= es.len(),
        spec_elems(es.take(i as int), tables) is Err,
    ensures
        spec_elems(es, tables) == spec_elems(es.take(i as int), tables),
    decreases es.len(),
{
    if i < es.len() {
        assert(es.drop_last().take(i as int) =~= es.take(i as int));
        lemma_elems_fail(es.drop_last(), i, tables);
    } else {
        assert(es.take(i as int) =~= es);
    }
}

/// Once a segment fails, the whole list fails with its error.
proof fn lemma_datas_fail(ds: Seq<Data>, i: nat, memory: Seq<u8>)
    requires
        i <= ds.len(),
        spec_datas(ds.take(i as int), memory) is Err,
    ensures
        spec_datas(ds, memory) == spec_datas(ds.take(i as int), memory),
    decreases ds.len(),
{
    if i < ds.len() {
        assert(ds.drop_last().take(i as int) =~= ds.take(i as int));
        lemma_datas_fail(ds.drop_last(), i, memory);
    } else {
        assert(ds.take(i as int) =~= ds);
    }
}

/// Writes a data segment into the memory and returns the bytes that stay
/// with the segment.
fn apply_data(d: &Data, memory: &mut Memory) -> (r: Result<Vec<u8>, RuntimeError>)
    requires
        old(memory).wf(),
    ensures
        final(memory).wf(),
        final(memory).max == old(memory).max,
        match spec_apply_data(*d, old(memory)@) {
            Ok((m, kept)) => r is Ok && final(memory)@ == m && r->Ok_0@ == kept,
            Err(err) => r is Err && r->Err_0 == err,
        },
{
    match &d.mode {
        DataMode::Passive => Ok(slice_to_vec(d.init.as_slice())),
        DataMode::Active(m, expr) => {
            if m.0 != 0 {
                return Err(RuntimeError::UnknownIndex(IndexSpace::Memory, m.0));
            }
            match eval_const(&expr.instrs)? {
                Value::I32(off) => {
                    memory.write(#[verifier::truncate] (off as u32), 0, d.init.as_slice())?;
                    Ok(Vec::new())
                },
                _ => Err(RuntimeError::InvalidInitializer),
            }
        },
    }
}

/// Writes the data segments into the memory, in order.
fn apply_datas(ds: &Vec<Data>, memory: &mut Memory) -> (r: Result<Vec<Vec<u8>>, RuntimeError>)
    requires
        old(memory).wf(),
    ensures
        final(memory).wf(),
        final(memory).max == old(memory).max,
        match spec_datas(ds@, old(memory)@) {
            Ok((m, kept)) => r is Ok && final(memory)@ == m && Seq::new(
                r->Ok_0@.len(),
                |i: int| r->Ok_0@[i]@,
            ) == kept,
            Err(err) => r is Err && r->Err_0 == err,
        },
{
    let mut out: Vec<Vec<u8>> = Vec::new();
    let mut i: usize = 0;
    proof {
        assert(ds@.take(0) =~= Seq::<Data>::empty());
        assert(Seq::new(out@.len(), |i: int| out@[i]@) =~= Seq::<Seq<u8>>::empty());
    }
    while i < ds.len()
        invariant
            i <= ds@.len(),
            memory.wf(),
            memory.max == old(memory).max,
            spec_datas(ds@.take(i as int), old(memory)@) == Ok::<
                (Seq<u8>, Seq<Seq<u8>>),
                RuntimeError,
            >((memory@, Seq::new(out@.len(), |i: int| out@[i]@))),
        decreases ds@.len() - i,
    {
        proof {
            assert(ds@.take(i + 1).drop_last() =~= ds@.take(i as int));
            assert(ds@.take(i + 1).last() == ds@[i as int]);
        }
        let ghost kept = Seq::new(out@.len(), |i: int| out@[i]@);
        match apply_data(&ds[i], memory) {
            Ok(k) => {
                out.push(k);
                proof {
                    assert(Seq::new(out@.len(), |i: int| out@[i]@) =~= kept.push(k@));
                }
            },
            Err(e) => {
                proof {
                    lemma_datas_fail(ds@, (i + 1) as nat, old(memory)@);
                }
                return Err(e);
            },
        }
        i = i + 1;
    }
    proof {
        assert(ds@.take(ds@.len() as int) =~= ds@);
    }
    Ok(out)
}

impl Runtime {
    /// Makes a decoded module ready to run. There is no frame yet.
    pub fn new(module: Module) -> (r: Result<Runtime, RuntimeError>)
        ensures
            match spec_instantiate(module) {
                Ok(st) => r is Ok && r->Ok_0.wf() && r->Ok_0.store() == st && r->Ok_0.frames()
                    == Seq::<FrameV>::empty() && is_model_of(r->Ok_0.module, module),
                Err(e) => r is Err && r->Err_0 == e,
            },
    {
        let model = Model::new(module)?;
        let (min, max) = if model.mems.len() == 0 {
            (0u32, Some(0u32))
        } else if model.mems.len() == 1 {
            (model.mems[0].lim.min, model.mems[0].lim.max)
        } else {
            return Err(RuntimeError::MalformedModule);
        };
        let mut memory = match Memory::new(min, max) {
            Some(m) => m,
            None => {
                return Err(RuntimeError::MalformedModule);
            },
        };
        let globals = make_globals(&model.globals)?;
        let mut tables = make_tables(&model.tables);
        apply_elems(&model.elems, &mut tables)?;
        let datas = apply_datas(&model.datas, &mut memory)?;
        let rt = Runtime { module: model, stack: Vec::new(), globals, memory, tables, datas };
        proof {
            assert(rt.frames() =~= Seq::<FrameV>::empty());
        }
        Ok(rt)
    }

    /// Puts a value on the stack of the innermost frame: the result that the
    /// host has computed for the module.
    pub fn push_value(&mut self, v: Value) -> (r: Result<(), RuntimeError>)
        ensures
            final(self).module == old(self).module,
            final(self).store() == old(self).store(),
            old(self).wf() ==> final(self).wf(),
            old(self).frames().len() == 0 ==> r == Err::<(), RuntimeError>(RuntimeError::NoFrame)
                && final(self).frames() == old(self).frames(),
            old(self).frames().len() > 0 ==> r is Ok && final(self).frames() == old(
                self,
            ).frames().drop_last().push(
                old(self).frames().last().with_stack(old(self).frames().last().stack.push(v)),
            ),
    {
        let n = self.stack.len();
        if n == 0 {
            return Err(RuntimeError::NoFrame);
        }
        let top: &mut Frame = &mut self.stack[n - 1];
        top.push(v);
        proof {
            assert(self.frames() =~= old(self).frames().drop_last().push(
                old(self).frames().last().with_stack(old(self).frames().last().stack.push(v)),
            ));
            assert(self.store().tables =~= old(self).store().tables);
            assert(self.store().datas =~= old(self).store().datas);
        }
        Ok(())
    }

    /// Ends the invocation: no frame is left.
    pub fn abort(&mut self)
        ensures
            final(self).module == old(self).module,
            final(self).store() == old(self).store(),
            old(self).wf() ==> final(self).wf(),
            final(self).frames() == Seq::<FrameV>::empty(),
    {
        self.stack.clear();
        proof {
            assert(self.frames() =~= Seq::<FrameV>::empty());
            assert(self.store().tables =~= old(self).store().tables);
            assert(self.store().datas =~= old(self).store().datas);
        }
    }
}

} // verus!
