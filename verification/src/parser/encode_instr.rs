use vstd::prelude::*;
use super::blocktype::BlockType;
use super::encode::{lemma_behind_byte, lemma_two, Encodable};
use super::error::ParseError;
use super::expr::Expr;
use super::fixed::{spec_le_u32, spec_le_u64};
use super::indices::{DataIdx, FuncIdx, GlobalIdX, LabelIdX, LocalIdX};
use super::instr::{spec_body, spec_instr, Instr, InstrV, Terminator};
use super::memarg::MemArg;
use super::ops::{spec_max_align, TruncSatOp, Width};
use super::parsable::Parsable;
use super::plain::{spec_plain, spec_prefixed, spec_simple, PlainInstr};
use super::tableidx::TableIdX;
use super::typeidx::TypeIdX;
use super::valtype::RefTyp;

verus! {

/// The four bytes that spell a number of 32 bits, least significant first.
pub open spec fn le_bytes32(v: u32) -> Seq<u8> {
    seq![
        (v % 0x100) as u8,
        ((v / 0x100) % 0x100) as u8,
        ((v / 0x1_0000) % 0x100) as u8,
        (v / 0x100_0000) as u8,
    ]
}

/// The eight bytes that spell a number of 64 bits, least significant first.
pub open spec fn le_bytes64(v: u64) -> Seq<u8> {
    seq![
        (v % 0x100) as u8,
        ((v / 0x100) % 0x100) as u8,
        ((v / 0x1_0000) % 0x100) as u8,
        ((v / 0x100_0000) % 0x100) as u8,
        ((v / 0x1_0000_0000) % 0x100) as u8,
        ((v / 0x100_0000_0000) % 0x100) as u8,
        ((v / 0x1_0000_0000_0000) % 0x100) as u8,
        (v / 0x100_0000_0000_0000) as u8,
    ]
}

/// The digits of a number to the base 256 add up to the number.
proof fn lemma_digits32(v: u32)
    by (bit_vector)
    ensures
        (v % 0x100) + 0x100 * ((v / 0x100) % 0x100) + 0x1_0000 * ((v / 0x1_0000) % 0x100)
            + 0x100_0000 * (v / 0x100_0000) == v,
        v / 0x100_0000 < 0x100,
{
}

/// The digits of a number to the base 256 add up to the number.
proof fn lemma_digits64(v: u64)
    by (bit_vector)
    ensures
        (v % 0x100) + 0x100 * ((v / 0x100) % 0x100) + 0x1_0000 * ((v / 0x1_0000) % 0x100)
            + 0x100_0000 * ((v / 0x100_0000) % 0x100) + 0x1_0000_0000 * ((v / 0x1_0000_0000)
            % 0x100) + 0x100_0000_0000 * ((v / 0x100_0000_0000) % 0x100) + 0x1_0000_0000_0000 * ((v
            / 0x1_0000_0000_0000) % 0x100) + 0x100_0000_0000_0000 * (v / 0x100_0000_0000_0000)
            == v,
        v / 0x100_0000_0000_0000 < 0x100,
{
}

/// The bytes of a number spell the number.
pub proof fn lemma_le32(v: u32, tail: Seq<u8>)
    ensures
        spec_le_u32(le_bytes32(v) + tail) == Ok::<(u32, nat), ParseError>((v, 4)),
        le_bytes32(v).len() == 4,
{
    let s = le_bytes32(v) + tail;
    lemma_digits32(v);
    assert(s[0] == (v % 0x100) as u8);
    assert(s[1] == ((v / 0x100) % 0x100) as u8);
    assert(s[2] == ((v / 0x1_0000) % 0x100) as u8);
    assert(s[3] == (v / 0x100_0000) as u8);
}

/// The bytes of a number spell the number.
pub proof fn lemma_le64(v: u64, tail: Seq<u8>)
    ensures
        spec_le_u64(le_bytes64(v) + tail) == Ok::<(u64, nat), ParseError>((v, 8)),
        le_bytes64(v).len() == 8,
{
    let s = le_bytes64(v) + tail;
    lemma_digits64(v);
    assert(s[0] == (v % 0x100) as u8);
    assert(s[1] == ((v / 0x100) % 0x100) as u8);
    assert(s[2] == ((v / 0x1_0000) % 0x100) as u8);
    assert(s[3] == ((v / 0x100_0000) % 0x100) as u8);
    assert(s[4] == ((v / 0x1_0000_0000) % 0x100) as u8);
    assert(s[5] == ((v / 0x100_0000_0000) % 0x100) as u8);
    assert(s[6] == ((v / 0x1_0000_0000_0000) % 0x100) as u8);
    assert(s[7] == (v / 0x100_0000_0000_0000) as u8);
}

/// The opcode of an instruction without immediates; none for any other
/// instruction.
pub open spec fn spec_opcode(p: PlainInstr) -> Option<u8> {
    match p {
        PlainInstr::Unreachable => Some(0x00),
        PlainInstr::Nop => Some(0x01),
        PlainInstr::Return => Some(0x0F),
        PlainInstr::Drop => Some(0x1A),
        PlainInstr::Select => Some(0x1B),
        PlainInstr::IEqz(Width::W32) => Some(0x45),
        PlainInstr::IEqz(Width::W64) => Some(0x50),
        PlainInstr::IRel(Width::W32, op) => Some((0x46 + op.index()) as u8),
        PlainInstr::IRel(Width::W64, op) => Some((0x51 + op.index()) as u8),
        PlainInstr::FRel(Width::W32, op) => Some((0x5B + op.index()) as u8),
        PlainInstr::FRel(Width::W64, op) => Some((0x61 + op.index()) as u8),
        PlainInstr::IUn(Width::W32, op) => Some((0x67 + op.index()) as u8),
        PlainInstr::IBin(Width::W32, op) => Some((0x6A + op.index()) as u8),
        PlainInstr::IUn(Width::W64, op) => Some((0x79 + op.index()) as u8),
        PlainInstr::IBin(Width::W64, op) => Some((0x7C + op.index()) as u8),
        PlainInstr::FUn(Width::W32, op) => Some((0x8B + op.index()) as u8),
        PlainInstr::FBin(Width::W32, op) => Some((0x92 + op.index()) as u8),
        PlainInstr::FUn(Width::W64, op) => Some((0x99 + op.index()) as u8),
        PlainInstr::FBin(Width::W64, op) => Some((0xA0 + op.index()) as u8),
        PlainInstr::Cvt(op) => Some((0xA7 + op.index()) as u8),
        _ => None,
    }
}

/// The opcode of an instruction without immediates stands for it.
pub proof fn lemma_opcode(p: PlainInstr)
    requires
        spec_opcode(p) is Some,
    ensures
        spec_simple(spec_opcode(p)->Some_0) == Some(p),
        spec_opcode(p)->Some_0 != 0x05,
        spec_opcode(p)->Some_0 != 0x0B,
{
    match p {
        PlainInstr::IRel(_, op) => op.lemma_index(),
        PlainInstr::FRel(_, op) => op.lemma_index(),
        PlainInstr::IUn(_, op) => op.lemma_index(),
        PlainInstr::IBin(_, op) => op.lemma_index(),
        PlainInstr::FUn(_, op) => op.lemma_index(),
        PlainInstr::FBin(_, op) => op.lemma_index(),
        PlainInstr::Cvt(op) => op.lemma_index(),
        _ => {},
    }
}

/// The bytes that spell a plain instruction: its opcode, then its
/// immediates.
pub open spec fn spec_encode_plain(p: PlainInstr) -> Seq<u8> {
    match p {
        PlainInstr::Br(l) => seq![0x0Cu8] + LabelIdX::spec_encode(l),
        PlainInstr::BrIf(l) => seq![0x0Du8] + LabelIdX::spec_encode(l),
        PlainInstr::Call(x) => seq![0x10u8] + FuncIdx::spec_encode(x),
        PlainInstr::CallIndirect(t, x) => seq![0x11u8] + TypeIdX::spec_encode(t)
            + TableIdX::spec_encode(x),
        PlainInstr::LocalGet(l) => seq![0x20u8] + LocalIdX::spec_encode(l),
        PlainInstr::LocalSet(l) => seq![0x21u8] + LocalIdX::spec_encode(l),
        PlainInstr::LocalTee(l) => seq![0x22u8] + LocalIdX::spec_encode(l),
        PlainInstr::GlobalGet(g) => seq![0x23u8] + GlobalIdX::spec_encode(g),
        PlainInstr::GlobalSet(g) => seq![0x24u8] + GlobalIdX::spec_encode(g),
        PlainInstr::TableSet(x) => seq![0x26u8] + TableIdX::spec_encode(x),
        PlainInstr::Load(op, m) => seq![(0x28 + op.index()) as u8] + MemArg::spec_encode(m),
        PlainInstr::Store(op, m) => seq![(0x36 + op.index()) as u8] + MemArg::spec_encode(m),
        PlainInstr::MemorySize => seq![0x3Fu8, 0x00u8],
        PlainInstr::MemoryGrow => seq![0x40u8, 0x00u8],
        PlainInstr::I32Const(v) => seq![0x41u8] + i32::spec_encode(v),
        PlainInstr::I64Const(v) => seq![0x42u8] + i64::spec_encode(v),
        PlainInstr::F32Const(v) => seq![0x43u8] + le_bytes32(v),
        PlainInstr::F64Const(v) => seq![0x44u8] + le_bytes64(v),
        PlainInstr::RefNull(t) => seq![0xD0u8] + RefTyp::spec_encode(t),
        PlainInstr::RefFunc(x) => seq![0xD2u8] + FuncIdx::spec_encode(x),
        PlainInstr::TruncSat(op) => seq![0xFCu8, op.index()],
        PlainInstr::MemoryInit(d, m) => seq![0xFCu8, 0x08u8] + DataIdx::spec_encode(d) + seq![m],
        PlainInstr::DataDrop(d) => seq![0xFCu8, 0x09u8] + DataIdx::spec_encode(d),
        PlainInstr::MemoryCopy(a, b) => seq![0xFCu8, 0x0Au8, a, b],
        PlainInstr::MemoryFill(m) => seq![0xFCu8, 0x0Bu8, m],
        _ => seq![spec_opcode(p)->Some_0],
    }
}

/// A plain instruction can be written: a load or a store declares no
/// alignment above the binary logarithm of its width.
pub open spec fn plain_encodable(p: PlainInstr) -> bool {
    match p {
        PlainInstr::Load(op, m) => m.align <= spec_max_align(op.spec_width()),
        PlainInstr::Store(op, m) => m.align <= spec_max_align(op.spec_width()),
        _ => true,
    }
}

proof fn lemma_plain_simple(p: PlainInstr, tail: Seq<u8>)
    requires
        spec_opcode(p) is Some,
    ensures
        spec_plain(spec_encode_plain(p) + tail) == Ok::<(PlainInstr, nat), ParseError>(
            (p, spec_encode_plain(p).len()),
        ),
{
    lemma_opcode(p);
    let s = spec_encode_plain(p) + tail;
    assert(s[0] == spec_opcode(p)->Some_0);
}

proof fn lemma_plain_index(p: PlainInstr, tail: Seq<u8>)
    requires
        p is Br || p is BrIf || p is Call || p is LocalGet || p is LocalSet || p is LocalTee
            || p is GlobalGet || p is GlobalSet || p is TableSet || p is RefFunc || p is RefNull
            || p is I32Const || p is I64Const,
    ensures
        spec_plain(spec_encode_plain(p) + tail) == Ok::<(PlainInstr, nat), ParseError>(
            (p, spec_encode_plain(p).len()),
        ),
{
    match p {
        PlainInstr::Br(l) => lemma_behind_byte::<LabelIdX>(0x0C, l, tail),
        PlainInstr::BrIf(l) => lemma_behind_byte::<LabelIdX>(0x0D, l, tail),
        PlainInstr::Call(x) => lemma_behind_byte::<FuncIdx>(0x10, x, tail),
        PlainInstr::LocalGet(l) => lemma_behind_byte::<LocalIdX>(0x20, l, tail),
        PlainInstr::LocalSet(l) => lemma_behind_byte::<LocalIdX>(0x21, l, tail),
        PlainInstr::LocalTee(l) => lemma_behind_byte::<LocalIdX>(0x22, l, tail),
        PlainInstr::GlobalGet(g) => lemma_behind_byte::<GlobalIdX>(0x23, g, tail),
        PlainInstr::GlobalSet(g) => lemma_behind_byte::<GlobalIdX>(0x24, g, tail),
        PlainInstr::TableSet(x) => lemma_behind_byte::<TableIdX>(0x26, x, tail),
        PlainInstr::RefFunc(x) => lemma_behind_byte::<FuncIdx>(0xD2, x, tail),
        PlainInstr::RefNull(t) => lemma_behind_byte::<RefTyp>(0xD0, t, tail),
        PlainInstr::I32Const(v) => lemma_behind_byte::<i32>(0x41, v, tail),
        PlainInstr::I64Const(v) => lemma_behind_byte::<i64>(0x42, v, tail),
        _ => {},
    }
}

proof fn lemma_plain_access(p: PlainInstr, tail: Seq<u8>)
    requires
        p is Load || p is Store,
        plain_encodable(p),
    ensures
        spec_plain(spec_encode_plain(p) + tail) == Ok::<(PlainInstr, nat), ParseError>(
            (p, spec_encode_plain(p).len()),
        ),
{
    match p {
        PlainInstr::Load(op, m) => {
            op.lemma_index();
            lemma_behind_byte::<MemArg>((0x28 + op.index()) as u8, m, tail);
        },
        PlainInstr::Store(op, m) => {
            op.lemma_index();
            lemma_behind_byte::<MemArg>((0x36 + op.index()) as u8, m, tail);
        },
        _ => {},
    }
}

proof fn lemma_plain_fixed(p: PlainInstr, tail: Seq<u8>)
    requires
        p is MemorySize || p is MemoryGrow || p is F32Const || p is F64Const || p is CallIndirect,
    ensures
        spec_plain(spec_encode_plain(p) + tail) == Ok::<(PlainInstr, nat), ParseError>(
            (p, spec_encode_plain(p).len()),
        ),
{
    let s = spec_encode_plain(p) + tail;
    match p {
        PlainInstr::MemorySize => {
            assert(s[0] == 0x3F);
            assert(s.skip(1)[0] == 0x00);
        },
        PlainInstr::MemoryGrow => {
            assert(s[0] == 0x40);
            assert(s.skip(1)[0] == 0x00);
        },
        PlainInstr::F32Const(v) => {
            lemma_le32(v, tail);
            assert(s[0] == 0x43);
            assert(s.skip(1) =~= le_bytes32(v) + tail);
        },
        PlainInstr::F64Const(v) => {
            lemma_le64(v, tail);
            assert(s[0] == 0x44);
            assert(s.skip(1) =~= le_bytes64(v) + tail);
        },
        PlainInstr::CallIndirect(t, x) => {
            lemma_two::<TypeIdX, TableIdX>(t, x, tail);
            assert(s[0] == 0x11);
            assert(s.skip(1) =~= TypeIdX::spec_encode(t) + TableIdX::spec_encode(x) + tail);
        },
        _ => {},
    }
}

proof fn lemma_prefixed_sat(op: TruncSatOp, tail: Seq<u8>)
    ensures
        spec_prefixed(seq![op.index()] + tail) == Ok::<(PlainInstr, nat), ParseError>(
            (PlainInstr::TruncSat(op), 1),
        ),
{
    op.lemma_index();
    u32::lemma_round_trip(op.index() as u32, tail);
    assert(seq![op.index()] =~= u32::spec_encode(op.index() as u32));
}

proof fn lemma_prefixed_init(d: DataIdx, m: u8, tail: Seq<u8>)
    ensures
        spec_prefixed(seq![0x08u8] + DataIdx::spec_encode(d) + seq![m] + tail) == Ok::<
            (PlainInstr, nat),
            ParseError,
        >((PlainInstr::MemoryInit(d, m), 1 + DataIdx::spec_encode(d).len() + 1)),
{
    let s = seq![0x08u8] + DataIdx::spec_encode(d) + seq![m] + tail;
    u32::lemma_round_trip(8, DataIdx::spec_encode(d) + seq![m] + tail);
    lemma_two::<DataIdx, u8>(d, m, tail);
    assert(seq![0x08u8] =~= u32::spec_encode(8));
    assert(s =~= u32::spec_encode(8) + (DataIdx::spec_encode(d) + seq![m] + tail));
    assert(s.skip(1) =~= DataIdx::spec_encode(d) + seq![m] + tail);
}

proof fn lemma_prefixed_drop(d: DataIdx, tail: Seq<u8>)
    ensures
        spec_prefixed(seq![0x09u8] + DataIdx::spec_encode(d) + tail) == Ok::<
            (PlainInstr, nat),
            ParseError,
        >((PlainInstr::DataDrop(d), 1 + DataIdx::spec_encode(d).len())),
{
    let s = seq![0x09u8] + DataIdx::spec_encode(d) + tail;
    u32::lemma_round_trip(9, DataIdx::spec_encode(d) + tail);
    DataIdx::lemma_round_trip(d, tail);
    assert(seq![0x09u8] =~= u32::spec_encode(9));
    assert(s =~= u32::spec_encode(9) + (DataIdx::spec_encode(d) + tail));
    assert(s.skip(1) =~= DataIdx::spec_encode(d) + tail);
}

proof fn lemma_prefixed_copy(a: u8, b: u8, tail: Seq<u8>)
    ensures
        spec_prefixed(seq![0x0Au8, a, b] + tail) == Ok::<(PlainInstr, nat), ParseError>(
            (PlainInstr::MemoryCopy(a, b), 3),
        ),
{
    let s = seq![0x0Au8, a, b] + tail;
    u32::lemma_round_trip(10, seq![a, b] + tail);
    lemma_two::<u8, u8>(a, b, tail);
    assert(seq![0x0Au8] =~= u32::spec_encode(10));
    assert(s =~= u32::spec_encode(10) + (seq![a, b] + tail));
    assert(s.skip(1) =~= seq![a] + seq![b] + tail);
}

proof fn lemma_prefixed_fill(m: u8, tail: Seq<u8>)
    ensures
        spec_prefixed(seq![0x0Bu8, m] + tail) == Ok::<(PlainInstr, nat), ParseError>(
            (PlainInstr::MemoryFill(m), 2),
        ),
{
    let s = seq![0x0Bu8, m] + tail;
    u32::lemma_round_trip(11, seq![m] + tail);
    u8::lemma_round_trip(m, tail);
    assert(seq![0x0Bu8] =~= u32::spec_encode(11));
    assert(s =~= u32::spec_encode(11) + (seq![m] + tail));
    assert(s.skip(1) =~= seq![m] + tail);
}

proof fn lemma_prefixed(p: PlainInstr, tail: Seq<u8>)
    requires
        p is TruncSat || p is MemoryInit || p is DataDrop || p is MemoryCopy || p is MemoryFill,
    ensures
        spec_prefixed(spec_encode_plain(p).skip(1) + tail) == Ok::<(PlainInstr, nat), ParseError>(
            (p, (spec_encode_plain(p).len() - 1) as nat),
        ),
        spec_encode_plain(p)[0] == 0xFC,
        spec_encode_plain(p).len() >= 2,
{
    let e = spec_encode_plain(p).skip(1);
    match p {
        PlainInstr::TruncSat(op) => {
            lemma_prefixed_sat(op, tail);
            assert(e =~= seq![op.index()]);
        },
        PlainInstr::MemoryInit(d, m) => {
            lemma_prefixed_init(d, m, tail);
            assert(e =~= seq![0x08u8] + DataIdx::spec_encode(d) + seq![m]);
        },
        PlainInstr::DataDrop(d) => {
            lemma_prefixed_drop(d, tail);
            assert(e =~= seq![0x09u8] + DataIdx::spec_encode(d));
        },
        PlainInstr::MemoryCopy(a, b) => {
            lemma_prefixed_copy(a, b, tail);
            assert(e =~= seq![0x0Au8, a, b]);
        },
        PlainInstr::MemoryFill(m) => {
            lemma_prefixed_fill(m, tail);
            assert(e =~= seq![0x0Bu8, m]);
        },
        _ => {},
    }
}

/// Decoding undoes the encoding of a plain instruction.
pub proof fn lemma_plain_round_trip(p: PlainInstr, tail: Seq<u8>)
    requires
        plain_encodable(p),
    ensures
        spec_plain(spec_encode_plain(p) + tail) == Ok::<(PlainInstr, nat), ParseError>(
            (p, spec_encode_plain(p).len()),
        ),
        spec_encode_plain(p).len() >= 1,
        !(spec_encode_plain(p)[0] == 0x0B || spec_encode_plain(p)[0] == 0x05
            || spec_encode_plain(p)[0] == 0x02 || spec_encode_plain(p)[0] == 0x03
            || spec_encode_plain(p)[0] == 0x04 || spec_encode_plain(p)[0] == 0x0E),
{
    if spec_opcode(p) is Some {
        lemma_plain_simple(p, tail);
        lemma_opcode(p);
    } else if p is Load || p is Store {
        lemma_plain_access(p, tail);
        match p {
            PlainInstr::Load(op, _) => op.lemma_index(),
            PlainInstr::Store(op, _) => op.lemma_index(),
            _ => {},
        }
    } else if p is MemorySize || p is MemoryGrow || p is F32Const || p is F64Const
        || p is CallIndirect {
        lemma_plain_fixed(p, tail);
    } else if p is TruncSat || p is MemoryInit || p is DataDrop || p is MemoryCopy
        || p is MemoryFill {
        lemma_prefixed(p, tail);
        let e = spec_encode_plain(p);
        let s = e + tail;
        assert(s[0] == 0xFC);
        assert(s.skip(1) =~= e.skip(1) + tail);
    } else {
        lemma_plain_index(p, tail);
    }
}

/// The byte that spells a terminator.
pub open spec fn terminator_byte(t: Terminator) -> u8 {
    match t {
        Terminator::End => 0x0B,
        Terminator::Else => 0x05,
    }
}

/// The bytes that spell an instruction. A structured instruction is its
/// opcode, its block type, the instructions inside it and `end`, with
/// `else` between the two arms of an `if` that has both.
pub open spec fn spec_encode_instr(i: InstrV) -> Seq<u8>
    decreases i, 0nat,
{
    match i {
        InstrV::Block(bt, body) => seq![0x02u8] + BlockType::spec_encode(bt) + spec_encode_body(
            body,
        ) + seq![0x0Bu8],
        InstrV::Loop(bt, body) => seq![0x03u8] + BlockType::spec_encode(bt) + spec_encode_body(
            body,
        ) + seq![0x0Bu8],
        InstrV::IfElse(bt, body, None) => seq![0x04u8] + BlockType::spec_encode(bt)
            + spec_encode_body(body) + seq![0x0Bu8],
        InstrV::IfElse(bt, body, Some(other)) => seq![0x04u8] + BlockType::spec_encode(bt)
            + spec_encode_body(body) + seq![0x05u8] + spec_encode_body(other) + seq![0x0Bu8],
        InstrV::BrTable(table, default) => seq![0x0Eu8] + Vec::<LabelIdX>::spec_encode(table)
            + LabelIdX::spec_encode(default),
        InstrV::Plain(p) => spec_encode_plain(p),
    }
}

/// The bytes that spell a list of instructions, without what ends it.
pub open spec fn spec_encode_body(v: Seq<InstrV>) -> Seq<u8>
    decreases v, 1nat,
{
    if v.len() == 0 {
        Seq::empty()
    } else {
        spec_encode_instr(v[0]) + spec_encode_body(v.drop_first())
    }
}

/// The instruction can be written.
pub open spec fn instr_encodable(i: InstrV) -> bool
    decreases i, 0nat,
{
    match i {
        InstrV::Block(_, body) => body_encodable(body),
        InstrV::Loop(_, body) => body_encodable(body),
        InstrV::IfElse(_, body, None) => body_encodable(body),
        InstrV::IfElse(_, body, Some(other)) => body_encodable(body) && body_encodable(other),
        InstrV::BrTable(table, _) => table.len() <= u32::MAX,
        InstrV::Plain(p) => plain_encodable(p),
    }
}

/// Every instruction of the list can be written.
pub open spec fn body_encodable(v: Seq<InstrV>) -> bool
    decreases v, 1nat,
{
    if v.len() == 0 {
        true
    } else {
        instr_encodable(v[0]) && body_encodable(v.drop_first())
    }
}

/// Behind a block type and a body that ends with `t`, decoding goes on
/// with what follows.
proof fn lemma_block_parts(op: u8, bt: BlockType, body: Seq<InstrV>, t: Terminator, tail: Seq<u8>)
    requires
        body_encodable(body),
    ensures
        ({
            let e = seq![op] + BlockType::spec_encode(bt) + spec_encode_body(body) + seq![
                terminator_byte(t),
            ];
            let s = e + tail;
            let n = BlockType::spec_encode(bt).len();
            &&& s.len() > 0
            &&& s[0] == op
            &&& BlockType::spec_parse(s.skip(1)) == Ok::<(BlockType, nat), ParseError>((bt, n))
            &&& 1 + n <= s.len()
            &&& spec_body(s.skip(1 + n as int)) == Ok::<((Seq<InstrV>, Terminator), nat), ParseError>(
                ((body, t), spec_encode_body(body).len() + 1),
            )
            &&& e.len() == 1 + n + spec_encode_body(body).len() + 1
            &&& s.skip((1 + n + spec_encode_body(body).len() + 1) as int) == tail
        }),
    decreases body, 2nat,
{
    let eb = BlockType::spec_encode(bt);
    let ebody = spec_encode_body(body);
    let tb = seq![terminator_byte(t)];
    let s = seq![op] + eb + ebody + tb + tail;
    BlockType::lemma_round_trip(bt, ebody + tb + tail);
    lemma_body_round_trip(body, t, tail);
    assert(s.skip(1) =~= eb + (ebody + tb + tail));
    assert(s.skip(1 + eb.len() as int) =~= ebody + tb + tail);
    assert(s.skip((1 + eb.len() + ebody.len() + 1) as int) =~= tail);
}

proof fn lemma_block_round_trip(op: u8, bt: BlockType, body: Seq<InstrV>, tail: Seq<u8>)
    requires
        body_encodable(body),
        op == 0x02 || op == 0x03,
    ensures
        ({
            let e = seq![op] + BlockType::spec_encode(bt) + spec_encode_body(body) + seq![0x0Bu8];
            spec_instr(e + tail) == Ok::<(InstrV, nat), ParseError>(
                (
                    if op == 0x02 {
                        InstrV::Block(bt, body)
                    } else {
                        InstrV::Loop(bt, body)
                    },
                    e.len(),
                ),
            )
        }),
    decreases body, 3nat,
{
    lemma_block_parts(op, bt, body, Terminator::End, tail);
}

proof fn lemma_if_round_trip(bt: BlockType, body: Seq<InstrV>, tail: Seq<u8>)
    requires
        body_encodable(body),
    ensures
        ({
            let e = seq![0x04u8] + BlockType::spec_encode(bt) + spec_encode_body(body) + seq![
                0x0Bu8,
            ];
            spec_instr(e + tail) == Ok::<(InstrV, nat), ParseError>(
                (InstrV::IfElse(bt, body, None), e.len()),
            )
        }),
    decreases body, 3nat,
{
    lemma_block_parts(0x04, bt, body, Terminator::End, tail);
}

proof fn lemma_if_else_round_trip(i: InstrV, tail: Seq<u8>)
    requires
        i matches InstrV::IfElse(_, _, Some(_)),
        instr_encodable(i),
    ensures
        spec_instr(spec_encode_instr(i) + tail) == Ok::<(InstrV, nat), ParseError>(
            (i, spec_encode_instr(i).len()),
        ),
        spec_encode_instr(i).len() >= 1,
        spec_encode_instr(i)[0] == 0x04,
    decreases i, 4nat,
{
    match i {
        InstrV::IfElse(bt, body, Some(other)) => {
            let rest = spec_encode_body(other) + seq![0x0Bu8] + tail;
            lemma_block_parts(0x04, bt, body, Terminator::Else, rest);
            lemma_body_round_trip(other, Terminator::End, tail);
            let first = seq![0x04u8] + BlockType::spec_encode(bt) + spec_encode_body(body) + seq![
                0x05u8,
            ];
            let e = first + spec_encode_body(other) + seq![0x0Bu8];
            assert(e + tail =~= first + rest);
        },
        _ => {},
    }
}

proof fn lemma_br_table_round_trip(table: Seq<LabelIdX>, default: LabelIdX, tail: Seq<u8>)
    requires
        table.len() <= u32::MAX,
    ensures
        ({
            let e = seq![0x0Eu8] + Vec::<LabelIdX>::spec_encode(table) + LabelIdX::spec_encode(
                default,
            );
            spec_instr(e + tail) == Ok::<(InstrV, nat), ParseError>(
                (InstrV::BrTable(table, default), e.len()),
            )
        }),
{
    assert(Vec::<LabelIdX>::encodable(table));
    lemma_two::<Vec<LabelIdX>, LabelIdX>(table, default, tail);
    let s = seq![0x0Eu8] + Vec::<LabelIdX>::spec_encode(table) + LabelIdX::spec_encode(default)
        + tail;
    assert(s[0] == 0x0E);
    assert(s.skip(1) =~= Vec::<LabelIdX>::spec_encode(table) + LabelIdX::spec_encode(default)
        + tail);
}

proof fn lemma_plain_instr_round_trip(p: PlainInstr, tail: Seq<u8>)
    requires
        plain_encodable(p),
    ensures
        spec_instr(spec_encode_plain(p) + tail) == Ok::<(InstrV, nat), ParseError>(
            (InstrV::Plain(p), spec_encode_plain(p).len()),
        ),
        spec_encode_plain(p).len() >= 1,
        spec_encode_plain(p)[0] != 0x0B,
        spec_encode_plain(p)[0] != 0x05,
{
    lemma_plain_round_trip(p, tail);
    let s = spec_encode_plain(p) + tail;
    assert(s[0] == spec_encode_plain(p)[0]);
}

/// Decoding undoes the encoding of an instruction.
pub proof fn lemma_instr_round_trip(i: InstrV, tail: Seq<u8>)
    requires
        instr_encodable(i),
    ensures
        spec_instr(spec_encode_instr(i) + tail) == Ok::<(InstrV, nat), ParseError>(
            (i, spec_encode_instr(i).len()),
        ),
        spec_encode_instr(i).len() >= 1,
        spec_encode_instr(i)[0] != 0x0B,
        spec_encode_instr(i)[0] != 0x05,
    decreases i, 5nat,
{
    match i {
        InstrV::Block(bt, body) => lemma_block_round_trip(0x02, bt, body, tail),
        InstrV::Loop(bt, body) => lemma_block_round_trip(0x03, bt, body, tail),
        InstrV::IfElse(bt, body, None) => lemma_if_round_trip(bt, body, tail),
        InstrV::IfElse(bt, body, Some(other)) => lemma_if_else_round_trip(i, tail),
        InstrV::BrTable(table, default) => lemma_br_table_round_trip(table, default, tail),
        InstrV::Plain(p) => lemma_plain_instr_round_trip(p, tail),
    }
}

/// Decoding undoes the encoding of a list of instructions that `t` ends.
pub proof fn lemma_body_round_trip(v: Seq<InstrV>, t: Terminator, tail: Seq<u8>)
    requires
        body_encodable(v),
    ensures
        spec_body(spec_encode_body(v) + seq![terminator_byte(t)] + tail) == Ok::<
            ((Seq<InstrV>, Terminator), nat),
            ParseError,
        >(((v, t), spec_encode_body(v).len() + 1)),
    decreases v, 1nat,
{
    let tb = seq![terminator_byte(t)];
    let s = spec_encode_body(v) + tb + tail;
    if v.len() == 0 {
        assert(s[0] == terminator_byte(t));
        assert(v =~= Seq::empty());
    } else {
        let e0 = spec_encode_instr(v[0]);
        let rest = v.drop_first();
        let er = spec_encode_body(rest);
        lemma_instr_round_trip(v[0], er + tb + tail);
        lemma_body_round_trip(rest, t, tail);
        assert(s =~= e0 + (er + tb + tail));
        assert(s[0] == e0[0]);
        assert(s.skip(e0.len() as int) =~= er + tb + tail);
        assert(seq![v[0]] + rest =~= v);
    }
}

impl Encodable for Instr {
    open spec fn spec_encode(v: InstrV) -> Seq<u8> {
        spec_encode_instr(v)
    }

    open spec fn encodable(v: InstrV) -> bool {
        instr_encodable(v)
    }

    proof fn lemma_round_trip(v: InstrV, tail: Seq<u8>) {
        lemma_instr_round_trip(v, tail);
    }
}

impl Encodable for Expr {
    open spec fn spec_encode(v: Seq<InstrV>) -> Seq<u8> {
        spec_encode_body(v) + seq![0x0Bu8]
    }

    open spec fn encodable(v: Seq<InstrV>) -> bool {
        body_encodable(v)
    }

    proof fn lemma_round_trip(v: Seq<InstrV>, tail: Seq<u8>) {
        lemma_body_round_trip(v, Terminator::End, tail);
    }
}

} // verus!
