use vstd::prelude::*;
use super::cursor::{lemma_advance, Cursor};
use super::error::ParseError;
use super::fixed::{read_le_u32, read_le_u64, spec_le_u32, spec_le_u64};
use super::indices::{DataIdx, FuncIdx, GlobalIdX, LabelIdX, LocalIdX};
use super::memarg::MemArg;
use super::ops::{
    max_align, spec_max_align, CvtOp, FBinOp, FRelOp, FUnOp, IBinOp, IRelOp, IUnOp, LoadOp, StoreOp,
    TruncSatOp, Width,
};
use super::parsable::{decodes, spec_two_trail, trail_after, trail_of, Decoded, Parsable};
use super::tableidx::TableIdX;
use super::typeidx::TypeIdX;
use super::valtype::RefTyp;

verus! {

/// An instruction that holds no other instruction and no table of labels.
#[derive(Debug, Clone, Copy, PartialEq, Eq, Structural)]
pub enum PlainInstr {
    Unreachable,
    Nop,
    Br(LabelIdX),
    BrIf(LabelIdX),
    Return,
    Call(FuncIdx),
    CallIndirect(TypeIdX, TableIdX),
    Drop,
    Select,
    LocalGet(LocalIdX),
    LocalSet(LocalIdX),
    LocalTee(LocalIdX),
    GlobalGet(GlobalIdX),
    GlobalSet(GlobalIdX),
    TableSet(TableIdX),
    Load(LoadOp, MemArg),
    Store(StoreOp, MemArg),
    MemorySize,
    MemoryGrow,
    I32Const(i32),
    I64Const(i64),
    /// The constant's bit pattern.
    F32Const(u32),
    /// The constant's bit pattern.
    F64Const(u64),
    IEqz(Width),
    IRel(Width, IRelOp),
    FRel(Width, FRelOp),
    IUn(Width, IUnOp),
    IBin(Width, IBinOp),
    FUn(Width, FUnOp),
    FBin(Width, FBinOp),
    Cvt(CvtOp),
    RefNull(RefTyp),
    RefFunc(FuncIdx),
    TruncSat(TruncSatOp),
    MemoryInit(DataIdx, u8),
    DataDrop(DataIdx),
    MemoryCopy(u8, u8),
    MemoryFill(u8),
}

impl DeepView for PlainInstr {
    type V = PlainInstr;

    open spec fn deep_view(&self) -> PlainInstr {
        *self
    }
}

/// The instruction without immediates that the opcode `op` stands for.
pub open spec fn spec_simple(op: u8) -> Option<PlainInstr> {
    if op == 0x00 {
        Some(PlainInstr::Unreachable)
    } else if op == 0x01 {
        Some(PlainInstr::Nop)
    } else if op == 0x0F {
        Some(PlainInstr::Return)
    } else if op == 0x1A {
        Some(PlainInstr::Drop)
    } else if op == 0x1B {
        Some(PlainInstr::Select)
    } else if op == 0x45 {
        Some(PlainInstr::IEqz(Width::W32))
    } else if 0x46 <= op <= 0x4F {
        Some(PlainInstr::IRel(Width::W32, IRelOp::spec_from_index((op - 0x46) as u8)))
    } else if op == 0x50 {
        Some(PlainInstr::IEqz(Width::W64))
    } else if 0x51 <= op <= 0x5A {
        Some(PlainInstr::IRel(Width::W64, IRelOp::spec_from_index((op - 0x51) as u8)))
    } else if 0x5B <= op <= 0x60 {
        Some(PlainInstr::FRel(Width::W32, FRelOp::spec_from_index((op - 0x5B) as u8)))
    } else if 0x61 <= op <= 0x66 {
        Some(PlainInstr::FRel(Width::W64, FRelOp::spec_from_index((op - 0x61) as u8)))
    } else if 0x67 <= op <= 0x69 {
        Some(PlainInstr::IUn(Width::W32, IUnOp::spec_from_index((op - 0x67) as u8)))
    } else if 0x6A <= op <= 0x78 {
        Some(PlainInstr::IBin(Width::W32, IBinOp::spec_from_index((op - 0x6A) as u8)))
    } else if 0x79 <= op <= 0x7B {
        Some(PlainInstr::IUn(Width::W64, IUnOp::spec_from_index((op - 0x79) as u8)))
    } else if 0x7C <= op <= 0x8A {
        Some(PlainInstr::IBin(Width::W64, IBinOp::spec_from_index((op - 0x7C) as u8)))
    } else if 0x8B <= op <= 0x91 {
        Some(PlainInstr::FUn(Width::W32, FUnOp::spec_from_index((op - 0x8B) as u8)))
    } else if 0x92 <= op <= 0x98 {
        Some(PlainInstr::FBin(Width::W32, FBinOp::spec_from_index((op - 0x92) as u8)))
    } else if 0x99 <= op <= 0x9F {
        Some(PlainInstr::FUn(Width::W64, FUnOp::spec_from_index((op - 0x99) as u8)))
    } else if 0xA0 <= op <= 0xA6 {
        Some(PlainInstr::FBin(Width::W64, FBinOp::spec_from_index((op - 0xA0) as u8)))
    } else if 0xA7 <= op <= 0xC4 {
        Some(PlainInstr::Cvt(CvtOp::spec_from_index((op - 0xA7) as u8)))
    } else {
        None
    }
}

/// The instruction without immediates that the opcode `op` stands for.
pub fn simple(op: u8) -> (r: Option<PlainInstr>)
    ensures
        r == spec_simple(op),
{
    if op == 0x00 {
        Some(PlainInstr::Unreachable)
    } else if op == 0x01 {
        Some(PlainInstr::Nop)
    } else if op == 0x0F {
        Some(PlainInstr::Return)
    } else if op == 0x1A {
        Some(PlainInstr::Drop)
    } else if op == 0x1B {
        Some(PlainInstr::Select)
    } else if op == 0x45 {
        Some(PlainInstr::IEqz(Width::W32))
    } else if 0x46 <= op && op <= 0x4F {
        Some(PlainInstr::IRel(Width::W32, IRelOp::from_index(op - 0x46)))
    } else if op == 0x50 {
        Some(PlainInstr::IEqz(Width::W64))
    } else if 0x51 <= op && op <= 0x5A {
        Some(PlainInstr::IRel(Width::W64, IRelOp::from_index(op - 0x51)))
    } else if 0x5B <= op && op <= 0x60 {
        Some(PlainInstr::FRel(Width::W32, FRelOp::from_index(op - 0x5B)))
    } else if 0x61 <= op && op <= 0x66 {
        Some(PlainInstr::FRel(Width::W64, FRelOp::from_index(op - 0x61)))
    } else if 0x67 <= op && op <= 0x69 {
        Some(PlainInstr::IUn(Width::W32, IUnOp::from_index(op - 0x67)))
    } else if 0x6A <= op && op <= 0x78 {
        Some(PlainInstr::IBin(Width::W32, IBinOp::from_index(op - 0x6A)))
    } else if 0x79 <= op && op <= 0x7B {
        Some(PlainInstr::IUn(Width::W64, IUnOp::from_index(op - 0x79)))
    } else if 0x7C <= op && op <= 0x8A {
        Some(PlainInstr::IBin(Width::W64, IBinOp::from_index(op - 0x7C)))
    } else if 0x8B <= op && op <= 0x91 {
        Some(PlainInstr::FUn(Width::W32, FUnOp::from_index(op - 0x8B)))
    } else if 0x92 <= op && op <= 0x98 {
        Some(PlainInstr::FBin(Width::W32, FBinOp::from_index(op - 0x92)))
    } else if 0x99 <= op && op <= 0x9F {
        Some(PlainInstr::FUn(Width::W64, FUnOp::from_index(op - 0x99)))
    } else if 0xA0 <= op && op <= 0xA6 {
        Some(PlainInstr::FBin(Width::W64, FBinOp::from_index(op - 0xA0)))
    } else if 0xA7 <= op && op <= 0xC4 {
        Some(PlainInstr::Cvt(CvtOp::from_index(op - 0xA7)))
    } else {
        None
    }
}

/// The immediate of a memory access of `width` bytes: a `MemArg` whose
/// alignment exponent does not exceed the binary logarithm of the width.
pub open spec fn spec_access(s: Seq<u8>, width: u32) -> Decoded<MemArg> {
    match MemArg::spec_parse(s) {
        Err(e) => Err(e),
        Ok((m, n)) => if m.align > spec_max_align(width) {
            Err(ParseError::AlignmentError)
        } else {
            Ok((m, n))
        },
    }
}

/// The names that a failed decoding of the immediate of a memory access
/// leaves on the trail.
pub open spec fn spec_access_trail(s: Seq<u8>) -> Seq<&'static str> {
    match MemArg::spec_parse(s) {
        Err(_) => trail_of::<MemArg>(s),
        Ok(_) => Seq::empty(),
    }
}

/// Decodes the immediate of a memory access of `width` bytes. Where the
/// alignment is too large, nothing behind the immediate has been read.
pub fn parse_access(data: &mut Cursor<'_>, stack: &mut Vec<&'static str>, width: u32) -> (r: Result<
    MemArg,
    ParseError,
>)
    requires
        old(data).wf(),
    ensures
        decodes(*old(data), *final(data), r, spec_access(old(data).rest(), width)),
        trail_after(old(stack)@, final(stack)@, r is Ok, spec_access_trail(old(data).rest())),
        MemArg::spec_parse(old(data).rest()) matches Ok((m, n)) ==> final(data).pos == old(data).pos
            + n && (r is Err <==> m.align > spec_max_align(width)),
{
    let m = MemArg::parse(data, stack)?;
    if m.align > max_align(width) {
        Err(ParseError::AlignmentError)
    } else {
        Ok(m)
    }
}

/// The reserved byte behind `memory.size` and `memory.grow`: a zero.
pub open spec fn spec_reserved(s: Seq<u8>, then: PlainInstr) -> Decoded<PlainInstr> {
    if s.len() == 0 {
        Err(ParseError::UnexpectedEof)
    } else if s[0] != 0 {
        Err(ParseError::Unknown0x40(s[0]))
    } else {
        Ok((then, 1))
    }
}

/// An instruction made of what follows its opcode.
pub open spec fn with_opcode<T>(d: Decoded<T>, f: spec_fn(T) -> PlainInstr) -> Decoded<PlainInstr> {
    match d {
        Ok((v, n)) => Ok((f(v), 1 + n)),
        Err(e) => Err(e),
    }
}

/// Two items in a row.
pub open spec fn spec_pair<A: Parsable, B: Parsable>(s: Seq<u8>) -> Decoded<(A::V, B::V)> {
    match A::spec_parse(s) {
        Err(e) => Err(e),
        Ok((a, n)) => match B::spec_parse(s.skip(n as int)) {
            Err(e) => Err(e),
            Ok((b, m)) => Ok(((a, b), n + m)),
        },
    }
}

/// What follows the prefix `0xFC`: a sub-opcode and its immediates.
pub open spec fn spec_prefixed(s: Seq<u8>) -> Decoded<PlainInstr> {
    match u32::spec_parse(s) {
        Err(e) => Err(e),
        Ok((sub, n)) => {
            let t = s.skip(n as int);
            if sub <= 7 {
                Ok((PlainInstr::TruncSat(TruncSatOp::spec_from_index(sub as u8)), n))
            } else if sub == 8 {
                match spec_pair::<DataIdx, u8>(t) {
                    Err(e) => Err(e),
                    Ok(((d, m), k)) => Ok((PlainInstr::MemoryInit(d, m), n + k)),
                }
            } else if sub == 9 {
                match DataIdx::spec_parse(t) {
                    Err(e) => Err(e),
                    Ok((d, k)) => Ok((PlainInstr::DataDrop(d), n + k)),
                }
            } else if sub == 10 {
                match spec_pair::<u8, u8>(t) {
                    Err(e) => Err(e),
                    Ok(((a, b), k)) => Ok((PlainInstr::MemoryCopy(a, b), n + k)),
                }
            } else if sub == 11 {
                match u8::spec_parse(t) {
                    Err(e) => Err(e),
                    Ok((m, k)) => Ok((PlainInstr::MemoryFill(m), n + k)),
                }
            } else {
                Err(ParseError::UnknownOpcode0xFC(sub))
            }
        },
    }
}

/// The plain instruction at the head of `s`. The bytes `0x0B` and `0x05`
/// end a list of instructions and are reported as such.
pub open spec fn spec_plain(s: Seq<u8>) -> Decoded<PlainInstr> {
    if s.len() == 0 {
        Err(ParseError::UnexpectedEof)
    } else {
        let op = s[0];
        let t = s.skip(1);
        if spec_simple(op) is Some {
            Ok((spec_simple(op)->Some_0, 1))
        } else if op == 0x05 {
            Err(ParseError::ElseHit)
        } else if op == 0x0B {
            Err(ParseError::EndOfInstructions)
        } else if op == 0x0C {
            with_opcode(LabelIdX::spec_parse(t), |l: LabelIdX| PlainInstr::Br(l))
        } else if op == 0x0D {
            with_opcode(LabelIdX::spec_parse(t), |l: LabelIdX| PlainInstr::BrIf(l))
        } else if op == 0x10 {
            with_opcode(FuncIdx::spec_parse(t), |f: FuncIdx| PlainInstr::Call(f))
        } else if op == 0x11 {
            with_opcode(
                spec_pair::<TypeIdX, TableIdX>(t),
                |p: (TypeIdX, TableIdX)| PlainInstr::CallIndirect(p.0, p.1),
            )
        } else if op == 0x20 {
            with_opcode(LocalIdX::spec_parse(t), |l: LocalIdX| PlainInstr::LocalGet(l))
        } else if op == 0x21 {
            with_opcode(LocalIdX::spec_parse(t), |l: LocalIdX| PlainInstr::LocalSet(l))
        } else if op == 0x22 {
            with_opcode(LocalIdX::spec_parse(t), |l: LocalIdX| PlainInstr::LocalTee(l))
        } else if op == 0x23 {
            with_opcode(GlobalIdX::spec_parse(t), |g: GlobalIdX| PlainInstr::GlobalGet(g))
        } else if op == 0x24 {
            with_opcode(GlobalIdX::spec_parse(t), |g: GlobalIdX| PlainInstr::GlobalSet(g))
        } else if op == 0x26 {
            with_opcode(TableIdX::spec_parse(t), |x: TableIdX| PlainInstr::TableSet(x))
        } else if 0x28 <= op <= 0x35 {
            let l = LoadOp::spec_from_index((op - 0x28) as u8);
            with_opcode(spec_access(t, l.spec_width()), |m: MemArg| PlainInstr::Load(l, m))
        } else if 0x36 <= op <= 0x3E {
            let st = StoreOp::spec_from_index((op - 0x36) as u8);
            with_opcode(spec_access(t, st.spec_width()), |m: MemArg| PlainInstr::Store(st, m))
        } else if op == 0x3F {
            with_opcode(spec_reserved(t, PlainInstr::MemorySize), |i: PlainInstr| i)
        } else if op == 0x40 {
            with_opcode(spec_reserved(t, PlainInstr::MemoryGrow), |i: PlainInstr| i)
        } else if op == 0x41 {
            with_opcode(i32::spec_parse(t), |v: i32| PlainInstr::I32Const(v))
        } else if op == 0x42 {
            with_opcode(i64::spec_parse(t), |v: i64| PlainInstr::I64Const(v))
        } else if op == 0x43 {
            with_opcode(spec_le_u32(t), |v: u32| PlainInstr::F32Const(v))
        } else if op == 0x44 {
            with_opcode(spec_le_u64(t), |v: u64| PlainInstr::F64Const(v))
        } else if op == 0xD0 {
            with_opcode(RefTyp::spec_parse(t), |r: RefTyp| PlainInstr::RefNull(r))
        } else if op == 0xD2 {
            with_opcode(FuncIdx::spec_parse(t), |f: FuncIdx| PlainInstr::RefFunc(f))
        } else if op == 0xFC {
            with_opcode(spec_prefixed(t), |i: PlainInstr| i)
        } else {
            Err(ParseError::UnknownOpcode(op))
        }
    }
}

/// Decodes the reserved zero byte behind `memory.size` and `memory.grow`.
fn parse_reserved(data: &mut Cursor<'_>, then: PlainInstr) -> (r: Result<PlainInstr, ParseError>)
    requires
        old(data).wf(),
    ensures
        decodes(*old(data), *final(data), r, spec_reserved(old(data).rest(), then)),
{
    let b = data.read_u8()?;
    if b != 0 {
        Err(ParseError::Unknown0x40(b))
    } else {
        Ok(then)
    }
}

/// Decodes two items in a row.
pub fn parse_pair<A: Parsable, B: Parsable>(data: &mut Cursor<'_>, stack: &mut Vec<&'static str>) -> (r:
    Result<(A, B), ParseError>)
    requires
        old(data).wf(),
    ensures
        final(data).data == old(data).data,
        final(data).wf(),
        match spec_pair::<A, B>(old(data).rest()) {
            Ok(((a, b), n)) => r is Ok && r->Ok_0.0.deep_view() == a && r->Ok_0.1.deep_view() == b
                && final(data).pos == old(data).pos + n,
            Err(e) => r is Err && r->Err_0 == e,
        },
        trail_after(old(stack)@, final(stack)@, r is Ok, spec_two_trail::<A, B>(old(data).rest())),
{
    let ghost start = *data;
    let a = A::parse(data, stack)?;
    proof {
        lemma_advance(start, *data, (data.pos - start.pos) as nat);
    }
    let b = B::parse(data, stack)?;
    Ok((a, b))
}

/// The names that a failed decoding of what follows the prefix `0xFC`
/// leaves on the trail.
pub open spec fn spec_prefixed_trail(s: Seq<u8>) -> Seq<&'static str> {
    match u32::spec_parse(s) {
        Err(_) => trail_of::<u32>(s),
        Ok((sub, n)) => {
            let t = s.skip(n as int);
            if sub == 8 {
                spec_two_trail::<DataIdx, u8>(t)
            } else if sub == 9 {
                trail_of::<DataIdx>(t)
            } else if sub == 10 {
                spec_two_trail::<u8, u8>(t)
            } else if sub == 11 {
                trail_of::<u8>(t)
            } else {
                Seq::empty()
            }
        },
    }
}

/// The names that a failed decoding of a plain instruction leaves on the
/// trail: those of the immediate that fails.
pub open spec fn spec_plain_trail(s: Seq<u8>) -> Seq<&'static str> {
    if s.len() == 0 {
        Seq::empty()
    } else {
        let op = s[0];
        let t = s.skip(1);
        if op == 0x0C || op == 0x0D {
            trail_of::<LabelIdX>(t)
        } else if op == 0x10 || op == 0xD2 {
            trail_of::<FuncIdx>(t)
        } else if op == 0x11 {
            spec_two_trail::<TypeIdX, TableIdX>(t)
        } else if op == 0x20 || op == 0x21 || op == 0x22 {
            trail_of::<LocalIdX>(t)
        } else if op == 0x23 || op == 0x24 {
            trail_of::<GlobalIdX>(t)
        } else if op == 0x26 {
            trail_of::<TableIdX>(t)
        } else if 0x28 <= op <= 0x3E {
            spec_access_trail(t)
        } else if op == 0x41 {
            trail_of::<i32>(t)
        } else if op == 0x42 {
            trail_of::<i64>(t)
        } else if op == 0xD0 {
            trail_of::<RefTyp>(t)
        } else if op == 0xFC {
            spec_prefixed_trail(t)
        } else {
            Seq::empty()
        }
    }
}

/// Decodes what follows the prefix `0xFC`.
fn parse_prefixed(data: &mut Cursor<'_>, stack: &mut Vec<&'static str>) -> (r: Result<
    PlainInstr,
    ParseError,
>)
    requires
        old(data).wf(),
    ensures
        decodes(*old(data), *final(data), r, spec_prefixed(old(data).rest())),
        trail_after(old(stack)@, final(stack)@, r is Ok, spec_prefixed_trail(old(data).rest())),
{
    let ghost start = *data;
    let sub = u32::parse(data, stack)?;
    proof {
        lemma_advance(start, *data, (data.pos - start.pos) as nat);
    }
    if sub <= 7 {
        Ok(PlainInstr::TruncSat(TruncSatOp::from_index(sub as u8)))
    } else if sub == 8 {
        let (d, m) = parse_pair::<DataIdx, u8>(data, stack)?;
        Ok(PlainInstr::MemoryInit(d, m))
    } else if sub == 9 {
        Ok(PlainInstr::DataDrop(DataIdx::parse(data, stack)?))
    } else if sub == 10 {
        let (a, b) = parse_pair::<u8, u8>(data, stack)?;
        Ok(PlainInstr::MemoryCopy(a, b))
    } else if sub == 11 {
        Ok(PlainInstr::MemoryFill(u8::parse(data, stack)?))
    } else {
        Err(ParseError::UnknownOpcode0xFC(sub))
    }
}

/// Where a load or a store stands at `pre` with a well-formed immediate,
/// the decoder stops right behind that immediate, whether the alignment is
/// accepted or not.
pub open spec fn stops_behind_access(pre: Cursor, post: Cursor) -> bool {
    pre.rest().len() > 0 && 0x28 <= pre.rest()[0] <= 0x3E ==> (MemArg::spec_parse(
        pre.rest().skip(1),
    ) matches Ok((_, n)) ==> post.pos == pre.pos + 1 + n)
}

/// The natural width of the access that the opcode `op` stands for, in
/// bytes.
pub open spec fn spec_access_width(op: u8) -> u32 {
    if 0x28 <= op <= 0x35 {
        LoadOp::spec_from_index((op - 0x28) as u8).spec_width()
    } else {
        StoreOp::spec_from_index((op - 0x36) as u8).spec_width()
    }
}

/// The alignment guard: a load or a store whose immediate declares an
/// alignment above the binary logarithm of its width is an alignment error.
pub proof fn lemma_alignment_guard(s: Seq<u8>)
    requires
        s.len() > 0,
        0x28 <= s[0] <= 0x3E,
        MemArg::spec_parse(s.skip(1)) matches Ok((m, _)) && m.align > spec_max_align(
            spec_access_width(s[0]),
        ),
    ensures
        spec_plain(s) == Err::<(PlainInstr, nat), ParseError>(ParseError::AlignmentError),
{
}

/// Decodes one plain instruction.
pub fn parse_plain(data: &mut Cursor<'_>, stack: &mut Vec<&'static str>) -> (r: Result<
    PlainInstr,
    ParseError,
>)
    requires
        old(data).wf(),
    ensures
        decodes(*old(data), *final(data), r, spec_plain(old(data).rest())),
        trail_after(old(stack)@, final(stack)@, r is Ok, spec_plain_trail(old(data).rest())),
        stops_behind_access(*old(data), *final(data)),
{
    let ghost start = *data;
    let op = data.read_u8()?;
    proof {
        lemma_advance(start, *data, 1);
    }
    match simple(op) {
        Some(i) => {
            return Ok(i);
        },
        None => {},
    }
    if op == 0x05 {
        Err(ParseError::ElseHit)
    } else if op == 0x0B {
        Err(ParseError::EndOfInstructions)
    } else if op == 0x0C {
        Ok(PlainInstr::Br(LabelIdX::parse(data, stack)?))
    } else if op == 0x0D {
        Ok(PlainInstr::BrIf(LabelIdX::parse(data, stack)?))
    } else if op == 0x10 {
        Ok(PlainInstr::Call(FuncIdx::parse(data, stack)?))
    } else if op == 0x11 {
        let (t, x) = parse_pair::<TypeIdX, TableIdX>(data, stack)?;
        Ok(PlainInstr::CallIndirect(t, x))
    } else if op == 0x20 {
        Ok(PlainInstr::LocalGet(LocalIdX::parse(data, stack)?))
    } else if op == 0x21 {
        Ok(PlainInstr::LocalSet(LocalIdX::parse(data, stack)?))
    } else if op == 0x22 {
        Ok(PlainInstr::LocalTee(LocalIdX::parse(data, stack)?))
    } else if op == 0x23 {
        Ok(PlainInstr::GlobalGet(GlobalIdX::parse(data, stack)?))
    } else if op == 0x24 {
        Ok(PlainInstr::GlobalSet(GlobalIdX::parse(data, stack)?))
    } else if op == 0x26 {
        Ok(PlainInstr::TableSet(TableIdX::parse(data, stack)?))
    } else if 0x28 <= op && op <= 0x35 {
        let l = LoadOp::from_index(op - 0x28);
        Ok(PlainInstr::Load(l, parse_access(data, stack, l.width())?))
    } else if 0x36 <= op && op <= 0x3E {
        let st = StoreOp::from_index(op - 0x36);
        Ok(PlainInstr::Store(st, parse_access(data, stack, st.width())?))
    } else if op == 0x3F {
        parse_reserved(data, PlainInstr::MemorySize)
    } else if op == 0x40 {
        parse_reserved(data, PlainInstr::MemoryGrow)
    } else if op == 0x41 {
        Ok(PlainInstr::I32Const(i32::parse(data, stack)?))
    } else if op == 0x42 {
        Ok(PlainInstr::I64Const(i64::parse(data, stack)?))
    } else if op == 0x43 {
        Ok(PlainInstr::F32Const(read_le_u32(data)?))
    } else if op == 0x44 {
        Ok(PlainInstr::F64Const(read_le_u64(data)?))
    } else if op == 0xD0 {
        Ok(PlainInstr::RefNull(RefTyp::parse(data, stack)?))
    } else if op == 0xD2 {
        Ok(PlainInstr::RefFunc(FuncIdx::parse(data, stack)?))
    } else if op == 0xFC {
        parse_prefixed(data, stack)
    } else {
        Err(ParseError::UnknownOpcode(op))
    }
}

} // verus!
