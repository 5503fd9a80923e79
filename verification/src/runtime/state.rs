use vstd::bytes::{
    spec_u16_from_le_bytes, spec_u16_to_le_bytes, spec_u32_from_le_bytes, spec_u32_to_le_bytes,
    spec_u64_from_le_bytes, spec_u64_to_le_bytes, u16_from_le_bytes, u16_to_le_bytes,
    u32_from_le_bytes, u32_to_le_bytes, u64_from_le_bytes, u64_to_le_bytes,
};
use vstd::prelude::*;
use vstd::slice::{slice_subrange, slice_to_vec};
use crate::parser::ops::{LoadOp, StoreOp};
use crate::parser::plain::PlainInstr;
use crate::parser::valtype::ValType;
use super::error::{IndexSpace, RuntimeError};
use super::frame::{spec_pop, spec_pop_i32, spec_pop_typed, Frame, FrameV};
use super::memory::{in_bounds, overwrite, spec_grow};
use super::value::Value;
use super::{Runtime, StoreV};

verus! {

/// The value that a load makes of the bytes it reads: the number they spell,
/// least significant byte first, widened with zeros or with its sign.
pub open spec fn spec_load_value(op: LoadOp, b: Seq<u8>) -> Value {
    match op {
        LoadOp::I32 => Value::I32(spec_u32_from_le_bytes(b) as i32),
        LoadOp::I64 => Value::I64(spec_u64_from_le_bytes(b) as i64),
        LoadOp::F32 => Value::F32(spec_u32_from_le_bytes(b)),
        LoadOp::F64 => Value::F64(spec_u64_from_le_bytes(b)),
        LoadOp::I32Load8S => Value::I32((b[0] as i8) as i32),
        LoadOp::I32Load8U => Value::I32(b[0] as i32),
        LoadOp::I32Load16S => Value::I32((spec_u16_from_le_bytes(b) as i16) as i32),
        LoadOp::I32Load16U => Value::I32(spec_u16_from_le_bytes(b) as i32),
        LoadOp::I64Load8S => Value::I64((b[0] as i8) as i64),
        LoadOp::I64Load8U => Value::I64(b[0] as i64),
        LoadOp::I64Load16S => Value::I64((spec_u16_from_le_bytes(b) as i16) as i64),
        LoadOp::I64Load16U => Value::I64(spec_u16_from_le_bytes(b) as i64),
        LoadOp::I64Load32S => Value::I64((spec_u32_from_le_bytes(b) as i32) as i64),
        LoadOp::I64Load32U => Value::I64(spec_u32_from_le_bytes(b) as i64),
    }
}

/// Makes a value of the bytes that a load has read.
pub fn load_value(op: LoadOp, b: &[u8]) -> (v: Value)
    requires
        b@.len() == op.spec_width(),
    ensures
        v == spec_load_value(op, b@),
{
    match op {
        LoadOp::I32 => Value::I32(#[verifier::truncate] (u32_from_le_bytes(b) as i32)),
        LoadOp::I64 => Value::I64(#[verifier::truncate] (u64_from_le_bytes(b) as i64)),
        LoadOp::F32 => Value::F32(u32_from_le_bytes(b)),
        LoadOp::F64 => Value::F64(u64_from_le_bytes(b)),
        LoadOp::I32Load8S => Value::I32((#[verifier::truncate] (b[0] as i8)) as i32),
        LoadOp::I32Load8U => Value::I32(b[0] as i32),
        LoadOp::I32Load16S => Value::I32(
            (#[verifier::truncate] (u16_from_le_bytes(b) as i16)) as i32,
        ),
        LoadOp::I32Load16U => Value::I32(u16_from_le_bytes(b) as i32),
        LoadOp::I64Load8S => Value::I64((#[verifier::truncate] (b[0] as i8)) as i64),
        LoadOp::I64Load8U => Value::I64(b[0] as i64),
        LoadOp::I64Load16S => Value::I64(
            (#[verifier::truncate] (u16_from_le_bytes(b) as i16)) as i64,
        ),
        LoadOp::I64Load16U => Value::I64(u16_from_le_bytes(b) as i64),
        LoadOp::I64Load32S => Value::I64(
            (#[verifier::truncate] (u32_from_le_bytes(b) as i32)) as i64,
        ),
        LoadOp::I64Load32U => Value::I64(u32_from_le_bytes(b) as i64),
    }
}

/// The type of the value that a store takes.
pub open spec fn spec_store_type(op: StoreOp) -> ValType {
    match op {
        StoreOp::I32 | StoreOp::I32Store8 | StoreOp::I32Store16 => ValType::I32,
        StoreOp::I64 | StoreOp::I64Store8 | StoreOp::I64Store16 | StoreOp::I64Store32 => ValType::I64,
        StoreOp::F32 => ValType::F32,
        StoreOp::F64 => ValType::F64,
    }
}

/// The type of the value that a store takes.
pub fn store_type(op: StoreOp) -> (t: ValType)
    ensures
        t == spec_store_type(op),
{
    match op {
        StoreOp::I32 | StoreOp::I32Store8 | StoreOp::I32Store16 => ValType::I32,
        StoreOp::I64 | StoreOp::I64Store8 | StoreOp::I64Store16 | StoreOp::I64Store32 => ValType::I64,
        StoreOp::F32 => ValType::F32,
        StoreOp::F64 => ValType::F64,
    }
}

/// The bytes that a store writes for a value: the lower bits of the number,
/// least significant byte first.
pub open spec fn spec_store_bytes(op: StoreOp, v: Value) -> Seq<u8> {
    match (op, v) {
        (StoreOp::I32, Value::I32(x)) => spec_u32_to_le_bytes(x as u32),
        (StoreOp::I64, Value::I64(x)) => spec_u64_to_le_bytes(x as u64),
        (StoreOp::F32, Value::F32(x)) => spec_u32_to_le_bytes(x),
        (StoreOp::F64, Value::F64(x)) => spec_u64_to_le_bytes(x),
        (StoreOp::I32Store8, Value::I32(x)) => seq![x as u8],
        (StoreOp::I32Store16, Value::I32(x)) => spec_u16_to_le_bytes(x as u16),
        (StoreOp::I64Store8, Value::I64(x)) => seq![x as u8],
        (StoreOp::I64Store16, Value::I64(x)) => spec_u16_to_le_bytes(x as u16),
        (StoreOp::I64Store32, Value::I64(x)) => spec_u32_to_le_bytes(x as u32),
        _ => Seq::empty(),
    }
}

/// The bytes that a store writes for a value.
pub fn store_bytes(op: StoreOp, v: Value) -> (b: Vec<u8>)
    ensures
        b@ == spec_store_bytes(op, v),
{
    match (op, v) {
        (StoreOp::I32, Value::I32(x)) => u32_to_le_bytes(#[verifier::truncate] (x as u32)),
        (StoreOp::I64, Value::I64(x)) => u64_to_le_bytes(#[verifier::truncate] (x as u64)),
        (StoreOp::F32, Value::F32(x)) => u32_to_le_bytes(x),
        (StoreOp::F64, Value::F64(x)) => u64_to_le_bytes(x),
        (StoreOp::I32Store8, Value::I32(x)) => {
            let mut b = Vec::new();
            b.push(#[verifier::truncate] (x as u8));
            assert(b@ =~= seq![x as u8]);
            b
        },
        (StoreOp::I32Store16, Value::I32(x)) => u16_to_le_bytes(#[verifier::truncate] (x as u16)),
        (StoreOp::I64Store8, Value::I64(x)) => {
            let mut b = Vec::new();
            b.push(#[verifier::truncate] (x as u8));
            assert(b@ =~= seq![x as u8]);
            b
        },
        (StoreOp::I64Store16, Value::I64(x)) => u16_to_le_bytes(#[verifier::truncate] (x as u16)),
        (StoreOp::I64Store32, Value::I64(x)) => u32_to_le_bytes(#[verifier::truncate] (x as u32)),
        _ => Vec::new(),
    }
}

/// Three numbers of 32 bits taken off the stack, the newest first.
pub open spec fn spec_pop3(s: Seq<Value>) -> Result<(i32, i32, i32, Seq<Value>), RuntimeError> {
    match spec_pop_i32(s) {
        Err(e) => Err(e),
        Ok((c, s1)) => match spec_pop_i32(s1) {
            Err(e) => Err(e),
            Ok((b, s2)) => match spec_pop_i32(s2) {
                Err(e) => Err(e),
                Ok((a, s3)) => Ok((c, b, a, s3)),
            },
        },
    }
}

/// What an instruction that reads or writes the globals, the memory, a table
/// or a data segment makes of the frame and of what the frames share.
/// `None` for every other instruction.
///
/// A store or a bulk operation that reaches beyond the memory traps and
/// writes nothing.
pub open spec fn spec_state(ins: PlainInstr, f: FrameV, st: StoreV) -> Option<
    Result<(FrameV, StoreV), RuntimeError>,
> {
    match ins {
        PlainInstr::GlobalGet(i) => Some(
            if i.0 < st.globals.len() {
                Ok((f.next(f.stack.push(st.globals[i.0 as int])), st))
            } else {
                Err(RuntimeError::UnknownIndex(IndexSpace::Global, i.0))
            },
        ),
        PlainInstr::GlobalSet(i) => Some(
            match spec_pop(f.stack) {
                Err(e) => Err(e),
                Ok((v, s)) => if i.0 < st.globals.len() {
                    Ok((f.next(s), StoreV { globals: st.globals.update(i.0 as int, v), ..st }))
                } else {
                    Err(RuntimeError::UnknownIndex(IndexSpace::Global, i.0))
                },
            },
        ),
        PlainInstr::TableSet(x) => Some(
            match spec_pop(f.stack) {
                Err(e) => Err(e),
                Ok((v, s1)) => match spec_pop_i32(s1) {
                    Err(e) => Err(e),
                    Ok((i, s2)) => if x.0 >= st.tables.len() {
                        Err(RuntimeError::UnknownIndex(IndexSpace::Table, x.0))
                    } else if (i as u32) >= st.tables[x.0 as int].len() {
                        Err(RuntimeError::UndefinedElement)
                    } else {
                        Ok(
                            (
                                f.next(s2),
                                StoreV {
                                    tables: st.tables.update(
                                        x.0 as int,
                                        st.tables[x.0 as int].update((i as u32) as int, v),
                                    ),
                                    ..st
                                },
                            ),
                        )
                    },
                },
            },
        ),
        PlainInstr::Load(op, m) => Some(
            match spec_pop_i32(f.stack) {
                Err(e) => Err(e),
                Ok((a, s)) => if !in_bounds(
                    st.memory.len(),
                    a as u32,
                    m.offset,
                    op.spec_width() as nat,
                ) {
                    Err(RuntimeError::OutOfBoundsMemoryAccess)
                } else {
                    let at = (a as u32) + m.offset;
                    Ok(
                        (
                            f.next(
                                s.push(
                                    spec_load_value(
                                        op,
                                        st.memory.subrange(at, at + op.spec_width()),
                                    ),
                                ),
                            ),
                            st,
                        ),
                    )
                },
            },
        ),
        PlainInstr::Store(op, m) => Some(
            match spec_pop_typed(f.stack, spec_store_type(op)) {
                Err(e) => Err(e),
                Ok((v, s1)) => match spec_pop_i32(s1) {
                    Err(e) => Err(e),
                    Ok((a, s2)) => {
                        let bytes = spec_store_bytes(op, v);
                        if !in_bounds(st.memory.len(), a as u32, m.offset, bytes.len()) {
                            Err(RuntimeError::OutOfBoundsMemoryAccess)
                        } else {
                            Ok(
                                (
                                    f.next(s2),
                                    StoreV {
                                        memory: overwrite(
                                            st.memory,
                                            (a as u32) + m.offset,
                                            bytes,
                                        ),
                                        ..st
                                    },
                                ),
                            )
                        }
                    },
                },
            },
        ),
        PlainInstr::MemorySize => Some(
            Ok((f.next(f.stack.push(Value::I32((st.memory.len() / 65536) as i32))), st)),
        ),
        PlainInstr::MemoryGrow => Some(
            match spec_pop_i32(f.stack) {
                Err(e) => Err(e),
                Ok((n, s)) => match spec_grow(st.memory.len(), st.mem_max, n as u32) {
                    None => Ok((f.next(s.push(Value::I32(-1i32))), st)),
                    Some(_) => Ok(
                        (
                            f.next(s.push(Value::I32((st.memory.len() / 65536) as i32))),
                            StoreV {
                                memory: st.memory + Seq::new(
                                    (n as u32) as nat * 65536,
                                    |i: int| 0u8,
                                ),
                                ..st
                            },
                        ),
                    ),
                },
            },
        ),
        PlainInstr::MemoryFill(_) => Some(
            match spec_pop3(f.stack) {
                Err(e) => Err(e),
                Ok((n, val, dst, s)) => if !in_bounds(
                    st.memory.len(),
                    dst as u32,
                    0,
                    (n as u32) as nat,
                ) {
                    Err(RuntimeError::OutOfBoundsMemoryAccess)
                } else {
                    Ok(
                        (
                            f.next(s),
                            StoreV {
                                memory: overwrite(
                                    st.memory,
                                    (dst as u32) as int,
                                    Seq::new((n as u32) as nat, |i: int| val as u8),
                                ),
                                ..st
                            },
                        ),
                    )
                },
            },
        ),
        PlainInstr::MemoryCopy(_, _) => Some(
            match spec_pop3(f.stack) {
                Err(e) => Err(e),
                Ok((n, src, dst, s)) => if !in_bounds(
                    st.memory.len(),
                    src as u32,
                    0,
                    (n as u32) as nat,
                ) || !in_bounds(st.memory.len(), dst as u32, 0, (n as u32) as nat) {
                    Err(RuntimeError::OutOfBoundsMemoryAccess)
                } else {
                    Ok(
                        (
                            f.next(s),
                            StoreV {
                                memory: overwrite(
                                    st.memory,
                                    (dst as u32) as int,
                                    st.memory.subrange(
                                        (src as u32) as int,
                                        (src as u32) + (n as u32),
                                    ),
                                ),
                                ..st
                            },
                        ),
                    )
                },
            },
        ),
        PlainInstr::MemoryInit(d, _) => Some(
            match spec_pop3(f.stack) {
                Err(e) => Err(e),
                Ok((n, src, dst, s)) => if d.0 >= st.datas.len() {
                    Err(RuntimeError::UnknownIndex(IndexSpace::Data, d.0))
                } else if (src as u32) + (n as u32) > st.datas[d.0 as int].len() || !in_bounds(
                    st.memory.len(),
                    dst as u32,
                    0,
                    (n as u32) as nat,
                ) {
                    Err(RuntimeError::OutOfBoundsMemoryAccess)
                } else {
                    Ok(
                        (
                            f.next(s),
                            StoreV {
                                memory: overwrite(
                                    st.memory,
                                    (dst as u32) as int,
                                    st.datas[d.0 as int].subrange(
                                        (src as u32) as int,
                                        (src as u32) + (n as u32),
                                    ),
                                ),
                                ..st
                            },
                        ),
                    )
                },
            },
        ),
        PlainInstr::DataDrop(d) => Some(
            if d.0 >= st.datas.len() {
                Err(RuntimeError::UnknownIndex(IndexSpace::Data, d.0))
            } else {
                Ok((f.next(f.stack), StoreV { datas: st.datas.update(d.0 as int, Seq::empty()), ..st }))
            },
        ),
        _ => None,
    }
}

impl Runtime {
    /// Executes an instruction that reads or writes what the frames share.
    /// Returns `false`, with everything as it was, for any other instruction.
    /// Where the instruction traps, what the frames share is as it was.
    pub fn exec_state(&mut self, ins: PlainInstr, f: &mut Frame) -> (r: Result<bool, RuntimeError>)
        requires
            old(self).wf(),
            old(f).pc < usize::MAX,
        ensures
            final(self).wf(),
            final(self).module == old(self).module,
            final(self).stack == old(self).stack,
            match spec_state(ins, old(f)@, old(self).store()) {
                None => r == Ok::<bool, RuntimeError>(false) && final(f)@ == old(f)@
                    && final(self).store() == old(self).store(),
                Some(Ok((g, st))) => r == Ok::<bool, RuntimeError>(true) && final(f)@ == g
                    && final(self).store() == st,
                Some(Err(e)) => r == Err::<bool, RuntimeError>(e) && final(self).store() == old(
                    self,
                ).store(),
            },
    {
        match ins {
            PlainInstr::GlobalGet(i) => {
                if (i.0 as usize) < self.globals.len() {
                    let v = self.globals[i.0 as usize];
                    f.push(v);
                } else {
                    return Err(RuntimeError::UnknownIndex(IndexSpace::Global, i.0));
                }
            },
            PlainInstr::GlobalSet(i) => {
                let v = f.pop()?;
                if (i.0 as usize) < self.globals.len() {
                    self.globals.set(i.0 as usize, v);
                    proof {
                        assert(self.store().tables =~= old(self).store().tables);
                        assert(self.store().datas =~= old(self).store().datas);
                    }
                } else {
                    return Err(RuntimeError::UnknownIndex(IndexSpace::Global, i.0));
                }
            },
            PlainInstr::TableSet(x) => {
                let v = f.pop()?;
                let i = f.pop_i32()?;
                let at = (#[verifier::truncate] (i as u32)) as usize;
                let t = x.0 as usize;
                if t >= self.tables.len() {
                    return Err(RuntimeError::UnknownIndex(IndexSpace::Table, x.0));
                }
                if at >= self.tables[t].len() {
                    return Err(RuntimeError::UndefinedElement);
                }
                let slots: &mut Vec<Value> = &mut self.tables[t];
                slots.set(at, v);
                proof {
                    assert(self.store().tables =~= old(self).store().tables.update(
                        t as int,
                        old(self).store().tables[t as int].update(at as int, v),
                    ));
                    assert(self.store().datas =~= old(self).store().datas);
                }
            },
            PlainInstr::Load(op, m) => {
                let a = f.pop_i32()?;
                let b = self.memory.read(
                    #[verifier::truncate] (a as u32),
                    m.offset,
                    op.width() as usize,
                )?;
                f.push(load_value(op, b));
            },
            PlainInstr::Store(op, m) => {
                let v = f.pop_typed(store_type(op))?;
                let a = f.pop_i32()?;
                let b = store_bytes(op, v);
                self.memory.write(#[verifier::truncate] (a as u32), m.offset, b.as_slice())?;
                proof {
                    assert(self.store().tables =~= old(self).store().tables);
                    assert(self.store().datas =~= old(self).store().datas);
                }
            },
            PlainInstr::MemorySize => {
                f.push(Value::I32(self.memory.size() as i32));
            },
            PlainInstr::MemoryGrow => {
                let n = f.pop_i32()?;
                let r = self.memory.grow(#[verifier::truncate] (n as u32));
                f.push(Value::I32(r));
                proof {
                    assert(self.store().tables =~= old(self).store().tables);
                    assert(self.store().datas =~= old(self).store().datas);
                }
            },
            PlainInstr::MemoryFill(_) => {
                let n = f.pop_i32()?;
                let val = f.pop_i32()?;
                let dst = f.pop_i32()?;
                let count = (#[verifier::truncate] (n as u32)) as usize;
                let _ = self.memory.read(#[verifier::truncate] (dst as u32), 0, count)?;
                let bytes = vec![#[verifier::truncate] (val as u8); count];
                proof {
                    assert(bytes@ =~= Seq::new((n as u32) as nat, |i: int| val as u8));
                }
                self.memory.write(#[verifier::truncate] (dst as u32), 0, bytes.as_slice())?;
                proof {
                    assert(self.store().tables =~= old(self).store().tables);
                    assert(self.store().datas =~= old(self).store().datas);
                }
            },
            PlainInstr::MemoryCopy(_, _) => {
                let n = f.pop_i32()?;
                let src = f.pop_i32()?;
                let dst = f.pop_i32()?;
                let count = (#[verifier::truncate] (n as u32)) as usize;
                let _ = self.memory.read(#[verifier::truncate] (dst as u32), 0, count)?;
                let from = self.memory.read(#[verifier::truncate] (src as u32), 0, count)?;
                let bytes = slice_to_vec(from);
                self.memory.write(#[verifier::truncate] (dst as u32), 0, bytes.as_slice())?;
                proof {
                    assert(self.store().tables =~= old(self).store().tables);
                    assert(self.store().datas =~= old(self).store().datas);
                }
            },
            PlainInstr::MemoryInit(d, _) => {
                let n = f.pop_i32()?;
                let src = f.pop_i32()?;
                let dst = f.pop_i32()?;
                let count = (#[verifier::truncate] (n as u32)) as usize;
                let from = (#[verifier::truncate] (src as u32)) as usize;
                let seg = d.0 as usize;
                if seg >= self.datas.len() {
                    return Err(RuntimeError::UnknownIndex(IndexSpace::Data, d.0));
                }
                let len = self.datas[seg].len();
                if count > len || from > len - count {
                    return Err(RuntimeError::OutOfBoundsMemoryAccess);
                }
                let bytes = slice_to_vec(
                    slice_subrange(self.datas[seg].as_slice(), from, from + count),
                );
                self.memory.write(#[verifier::truncate] (dst as u32), 0, bytes.as_slice())?;
                proof {
                    assert(self.store().tables =~= old(self).store().tables);
                    assert(self.store().datas =~= old(self).store().datas);
                }
            },
            PlainInstr::DataDrop(d) => {
                let seg = d.0 as usize;
                if seg >= self.datas.len() {
                    return Err(RuntimeError::UnknownIndex(IndexSpace::Data, d.0));
                }
                self.datas.set(seg, Vec::new());
                proof {
                    assert(self.store().tables =~= old(self).store().tables);
                    assert(self.store().datas =~= old(self).store().datas.update(
                        seg as int,
                        Seq::empty(),
                    ));
                }
            },
            _ => {
                return Ok(false);
            },
        }
        f.pc = f.pc + 1;
        Ok(true)
    }
}

} // verus!
