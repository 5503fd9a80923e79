use vstd::prelude::*;
use super::blocktype::BlockType;
use super::error::ParseError;
use super::exportdesc::ExportDesc;
use super::globaltype::GlobalType;
use super::importdesc::ImportDesc;
use super::indices::{DataIdx, ElemIdx, FuncIdx, GlobalIdX, LabelIdX, LocalIdX};
use super::limits::Limits;
use super::locals::Locals;
use super::memarg::MemArg;
use super::memidx::MemIdX;
use super::memtype::MemType;
use super::parsable::{spec_parse_n, Parsable};
use super::tableidx::TableIdX;
use super::tabletype::TableType;
use super::typeidx::TypeIdX;
use super::valtype::{Mut, RefTyp, ValType};
use super::varint::{
    encode_signed, encode_unsigned, lemma_i32_round_trip, lemma_i64_round_trip,
    lemma_signed_round_trip, lemma_u32_round_trip, lemma_encode_signed_len, pow128,
};

verus! {

/// An item of the binary format that can be written as well as read.
pub trait Encodable: Parsable {
    /// The bytes that spell the value.
    spec fn spec_encode(v: Self::V) -> Seq<u8>;

    /// The value can be written: what it holds fits the format.
    spec fn encodable(v: Self::V) -> bool;

    /// Decoding undoes encoding: whatever follows the bytes of a value,
    /// the decoder finds the value in them and stops behind them.
    proof fn lemma_round_trip(v: Self::V, tail: Seq<u8>)
        requires
            Self::encodable(v),
        ensures
            Self::spec_parse(Self::spec_encode(v) + tail) == Ok::<(Self::V, nat), ParseError>(
                (v, Self::spec_encode(v).len()),
            ),
    ;
}

/// What decoding `a` and then `b` finds in their bytes in a row.
pub proof fn lemma_skip_first(a: Seq<u8>, b: Seq<u8>, tail: Seq<u8>)
    ensures
        (a + b) + tail == a + (b + tail),
        (a + (b + tail)).skip(a.len() as int) == b + tail,
        (a + b + tail).skip(a.len() as int) == b + tail,
{
    assert((a + b) + tail =~= a + (b + tail));
    assert((a + (b + tail)).skip(a.len() as int) =~= b + tail);
}

/// Two values in a row are read one after the other.
pub proof fn lemma_two<A: Encodable, B: Encodable>(a: A::V, b: B::V, tail: Seq<u8>)
    requires
        A::encodable(a),
        B::encodable(b),
    ensures
        ({
            let s = A::spec_encode(a) + B::spec_encode(b) + tail;
            let na = A::spec_encode(a).len();
            &&& A::spec_parse(s) == Ok::<(A::V, nat), ParseError>((a, na))
            &&& B::spec_parse(s.skip(na as int)) == Ok::<(B::V, nat), ParseError>(
                (b, B::spec_encode(b).len()),
            )
        }),
{
    let ea = A::spec_encode(a);
    let eb = B::spec_encode(b);
    A::lemma_round_trip(a, eb + tail);
    B::lemma_round_trip(b, tail);
    lemma_skip_first(ea, eb, tail);
}

/// Three values in a row are read one after the other.
pub proof fn lemma_three<A: Encodable, B: Encodable, C: Encodable>(
    a: A::V,
    b: B::V,
    c: C::V,
    tail: Seq<u8>,
)
    requires
        A::encodable(a),
        B::encodable(b),
        C::encodable(c),
    ensures
        ({
            let s = A::spec_encode(a) + B::spec_encode(b) + C::spec_encode(c) + tail;
            let na = A::spec_encode(a).len();
            let nb = B::spec_encode(b).len();
            &&& A::spec_parse(s) == Ok::<(A::V, nat), ParseError>((a, na))
            &&& B::spec_parse(s.skip(na as int)) == Ok::<(B::V, nat), ParseError>((b, nb))
            &&& C::spec_parse(s.skip((na + nb) as int)) == Ok::<(C::V, nat), ParseError>(
                (c, C::spec_encode(c).len()),
            )
        }),
{
    let ea = A::spec_encode(a);
    let eb = B::spec_encode(b);
    let ec = C::spec_encode(c);
    let s = ea + eb + ec + tail;
    A::lemma_round_trip(a, eb + ec + tail);
    B::lemma_round_trip(b, ec + tail);
    C::lemma_round_trip(c, tail);
    assert(s =~= ea + (eb + ec + tail));
    assert(s.skip(ea.len() as int) =~= eb + (ec + tail));
    assert(eb + ec + tail =~= eb + (ec + tail));
    assert(s.skip((ea.len() + eb.len()) as int) =~= ec + tail);
}

/// A value behind one byte is read behind that byte.
pub proof fn lemma_behind_byte<A: Encodable>(b: u8, a: A::V, tail: Seq<u8>)
    requires
        A::encodable(a),
    ensures
        ({
            let s = seq![b] + A::spec_encode(a) + tail;
            &&& s.len() > 0
            &&& s[0] == b
            &&& A::spec_parse(s.skip(1)) == Ok::<(A::V, nat), ParseError>(
                (a, A::spec_encode(a).len()),
            )
        }),
{
    A::lemma_round_trip(a, tail);
    let s = seq![b] + A::spec_encode(a) + tail;
    assert(s.skip(1) =~= A::spec_encode(a) + tail);
}

impl Encodable for u8 {
    open spec fn spec_encode(v: u8) -> Seq<u8> {
        seq![v]
    }

    open spec fn encodable(v: u8) -> bool {
        true
    }

    proof fn lemma_round_trip(v: u8, tail: Seq<u8>) {
        assert((seq![v] + tail)[0] == v);
    }
}

impl Encodable for u32 {
    open spec fn spec_encode(v: u32) -> Seq<u8> {
        encode_unsigned(v as nat)
    }

    open spec fn encodable(v: u32) -> bool {
        true
    }

    proof fn lemma_round_trip(v: u32, tail: Seq<u8>) {
        lemma_u32_round_trip(v, tail);
    }
}

impl Encodable for i32 {
    open spec fn spec_encode(v: i32) -> Seq<u8> {
        encode_signed(v as int)
    }

    open spec fn encodable(v: i32) -> bool {
        true
    }

    proof fn lemma_round_trip(v: i32, tail: Seq<u8>) {
        lemma_i32_round_trip(v, tail);
    }
}

impl Encodable for i64 {
    open spec fn spec_encode(v: i64) -> Seq<u8> {
        encode_signed(v as int)
    }

    open spec fn encodable(v: i64) -> bool {
        true
    }

    proof fn lemma_round_trip(v: i64, tail: Seq<u8>) {
        lemma_i64_round_trip(v, tail);
    }
}

impl Encodable for ValType {
    open spec fn spec_encode(v: ValType) -> Seq<u8> {
        seq![v.tag()]
    }

    open spec fn encodable(v: ValType) -> bool {
        true
    }

    proof fn lemma_round_trip(v: ValType, tail: Seq<u8>) {
        assert((seq![v.tag()] + tail)[0] == v.tag());
    }
}

impl Encodable for RefTyp {
    open spec fn spec_encode(v: RefTyp) -> Seq<u8> {
        seq![v.tag()]
    }

    open spec fn encodable(v: RefTyp) -> bool {
        true
    }

    proof fn lemma_round_trip(v: RefTyp, tail: Seq<u8>) {
        assert((seq![v.tag()] + tail)[0] == v.tag());
    }
}

impl Encodable for Mut {
    open spec fn spec_encode(v: Mut) -> Seq<u8> {
        seq![v.tag()]
    }

    open spec fn encodable(v: Mut) -> bool {
        true
    }

    proof fn lemma_round_trip(v: Mut, tail: Seq<u8>) {
        assert((seq![v.tag()] + tail)[0] == v.tag());
    }
}

impl Encodable for TypeIdX {
    open spec fn spec_encode(v: TypeIdX) -> Seq<u8> {
        encode_unsigned(v.0 as nat)
    }

    open spec fn encodable(v: TypeIdX) -> bool {
        true
    }

    proof fn lemma_round_trip(v: TypeIdX, tail: Seq<u8>) {
        lemma_u32_round_trip(v.0, tail);
    }
}

impl Encodable for TableIdX {
    open spec fn spec_encode(v: TableIdX) -> Seq<u8> {
        encode_unsigned(v.0 as nat)
    }

    open spec fn encodable(v: TableIdX) -> bool {
        true
    }

    proof fn lemma_round_trip(v: TableIdX, tail: Seq<u8>) {
        lemma_u32_round_trip(v.0, tail);
    }
}

impl Encodable for MemIdX {
    open spec fn spec_encode(v: MemIdX) -> Seq<u8> {
        encode_unsigned(v.0 as nat)
    }

    open spec fn encodable(v: MemIdX) -> bool {
        true
    }

    proof fn lemma_round_trip(v: MemIdX, tail: Seq<u8>) {
        lemma_u32_round_trip(v.0, tail);
    }
}

impl Encodable for FuncIdx {
    open spec fn spec_encode(v: FuncIdx) -> Seq<u8> {
        encode_unsigned(v.0 as nat)
    }

    open spec fn encodable(v: FuncIdx) -> bool {
        true
    }

    proof fn lemma_round_trip(v: FuncIdx, tail: Seq<u8>) {
        lemma_u32_round_trip(v.0, tail);
    }
}

impl Encodable for GlobalIdX {
    open spec fn spec_encode(v: GlobalIdX) -> Seq<u8> {
        encode_unsigned(v.0 as nat)
    }

    open spec fn encodable(v: GlobalIdX) -> bool {
        true
    }

    proof fn lemma_round_trip(v: GlobalIdX, tail: Seq<u8>) {
        lemma_u32_round_trip(v.0, tail);
    }
}

impl Encodable for LabelIdX {
    open spec fn spec_encode(v: LabelIdX) -> Seq<u8> {
        encode_unsigned(v.0 as nat)
    }

    open spec fn encodable(v: LabelIdX) -> bool {
        true
    }

    proof fn lemma_round_trip(v: LabelIdX, tail: Seq<u8>) {
        lemma_u32_round_trip(v.0, tail);
    }
}

impl Encodable for LocalIdX {
    open spec fn spec_encode(v: LocalIdX) -> Seq<u8> {
        encode_unsigned(v.0 as nat)
    }

    open spec fn encodable(v: LocalIdX) -> bool {
        true
    }

    proof fn lemma_round_trip(v: LocalIdX, tail: Seq<u8>) {
        lemma_u32_round_trip(v.0, tail);
    }
}

impl Encodable for DataIdx {
    open spec fn spec_encode(v: DataIdx) -> Seq<u8> {
        encode_unsigned(v.0 as nat)
    }

    open spec fn encodable(v: DataIdx) -> bool {
        true
    }

    proof fn lemma_round_trip(v: DataIdx, tail: Seq<u8>) {
        lemma_u32_round_trip(v.0, tail);
    }
}

impl Encodable for ElemIdx {
    open spec fn spec_encode(v: ElemIdx) -> Seq<u8> {
        encode_unsigned(v.0 as nat)
    }

    open spec fn encodable(v: ElemIdx) -> bool {
        true
    }

    proof fn lemma_round_trip(v: ElemIdx, tail: Seq<u8>) {
        lemma_u32_round_trip(v.0, tail);
    }
}

impl Encodable for MemArg {
    open spec fn spec_encode(v: MemArg) -> Seq<u8> {
        u32::spec_encode(v.align) + u32::spec_encode(v.offset)
    }

    open spec fn encodable(v: MemArg) -> bool {
        u32::encodable(v.align) && u32::encodable(v.offset)
    }

    proof fn lemma_round_trip(v: MemArg, tail: Seq<u8>) {
        lemma_two::<u32, u32>(v.align, v.offset, tail);
    }
}

impl Encodable for Locals {
    open spec fn spec_encode(v: Locals) -> Seq<u8> {
        u32::spec_encode(v.n) + ValType::spec_encode(v.t)
    }

    open spec fn encodable(v: Locals) -> bool {
        u32::encodable(v.n) && ValType::encodable(v.t)
    }

    proof fn lemma_round_trip(v: Locals, tail: Seq<u8>) {
        lemma_two::<u32, ValType>(v.n, v.t, tail);
    }
}

impl Encodable for GlobalType {
    open spec fn spec_encode(v: GlobalType) -> Seq<u8> {
        ValType::spec_encode(v.t) + Mut::spec_encode(v.m)
    }

    open spec fn encodable(v: GlobalType) -> bool {
        ValType::encodable(v.t) && Mut::encodable(v.m)
    }

    proof fn lemma_round_trip(v: GlobalType, tail: Seq<u8>) {
        lemma_two::<ValType, Mut>(v.t, v.m, tail);
    }
}

impl Encodable for Limits {
    open spec fn spec_encode(v: Limits) -> Seq<u8> {
        match v.max {
            None => seq![0x00u8] + u32::spec_encode(v.min),
            Some(max) => seq![0x01u8] + u32::spec_encode(v.min) + u32::spec_encode(max),
        }
    }

    open spec fn encodable(v: Limits) -> bool {
        true
    }

    proof fn lemma_round_trip(v: Limits, tail: Seq<u8>) {
        let e0 = u32::spec_encode(v.min);
        match v.max {
            None => {
                u32::lemma_round_trip(v.min, tail);
                lemma_skip_first(seq![0x00u8], e0, tail);
                assert((seq![0x00u8] + e0 + tail)[0] == 0x00);
            },
            Some(max) => {
                let e1 = u32::spec_encode(max);
                u32::lemma_round_trip(v.min, e1 + tail);
                u32::lemma_round_trip(max, tail);
                let s = seq![0x01u8] + e0 + e1 + tail;
                assert(s[0] == 0x01);
                assert(s.skip(1) =~= e0 + (e1 + tail));
                assert(s.skip(1 + e0.len() as int) =~= e1 + tail);
            },
        }
    }
}

impl Encodable for TableType {
    open spec fn spec_encode(v: TableType) -> Seq<u8> {
        RefTyp::spec_encode(v.et) + Limits::spec_encode(v.lim)
    }

    open spec fn encodable(v: TableType) -> bool {
        RefTyp::encodable(v.et) && Limits::encodable(v.lim)
    }

    proof fn lemma_round_trip(v: TableType, tail: Seq<u8>) {
        lemma_two::<RefTyp, Limits>(v.et, v.lim, tail);
    }
}

impl Encodable for MemType {
    open spec fn spec_encode(v: MemType) -> Seq<u8> {
        Limits::spec_encode(v.lim)
    }

    open spec fn encodable(v: MemType) -> bool {
        true
    }

    proof fn lemma_round_trip(v: MemType, tail: Seq<u8>) {
        Limits::lemma_round_trip(v.lim, tail);
    }
}

proof fn lemma_importdesc_func(x: TypeIdX, tail: Seq<u8>)
    requires
        TypeIdX::encodable(x),
    ensures
        ImportDesc::spec_parse(seq![0x00u8] + TypeIdX::spec_encode(x) + tail) == Ok::<(ImportDesc, nat), ParseError>(
            (ImportDesc::Func(x), (seq![0x00u8] + TypeIdX::spec_encode(x)).len()),
        ),
{
    TypeIdX::lemma_round_trip(x, tail);
    let s = seq![0x00u8] + TypeIdX::spec_encode(x) + tail;
    assert(s[0] == 0x00);
    assert(s.skip(1) =~= TypeIdX::spec_encode(x) + tail);
}

proof fn lemma_importdesc_table(x: TableType, tail: Seq<u8>)
    requires
        TableType::encodable(x),
    ensures
        ImportDesc::spec_parse(seq![0x01u8] + TableType::spec_encode(x) + tail) == Ok::<(ImportDesc, nat), ParseError>(
            (ImportDesc::Table(x), (seq![0x01u8] + TableType::spec_encode(x)).len()),
        ),
{
    TableType::lemma_round_trip(x, tail);
    let s = seq![0x01u8] + TableType::spec_encode(x) + tail;
    assert(s[0] == 0x01);
    assert(s.skip(1) =~= TableType::spec_encode(x) + tail);
}

proof fn lemma_importdesc_mem(x: MemType, tail: Seq<u8>)
    requires
        MemType::encodable(x),
    ensures
        ImportDesc::spec_parse(seq![0x02u8] + MemType::spec_encode(x) + tail) == Ok::<(ImportDesc, nat), ParseError>(
            (ImportDesc::Mem(x), (seq![0x02u8] + MemType::spec_encode(x)).len()),
        ),
{
    MemType::lemma_round_trip(x, tail);
    let s = seq![0x02u8] + MemType::spec_encode(x) + tail;
    assert(s[0] == 0x02);
    assert(s.skip(1) =~= MemType::spec_encode(x) + tail);
}

proof fn lemma_importdesc_global(x: GlobalType, tail: Seq<u8>)
    requires
        GlobalType::encodable(x),
    ensures
        ImportDesc::spec_parse(seq![0x03u8] + GlobalType::spec_encode(x) + tail) == Ok::<(ImportDesc, nat), ParseError>(
            (ImportDesc::Global(x), (seq![0x03u8] + GlobalType::spec_encode(x)).len()),
        ),
{
    GlobalType::lemma_round_trip(x, tail);
    let s = seq![0x03u8] + GlobalType::spec_encode(x) + tail;
    assert(s[0] == 0x03);
    assert(s.skip(1) =~= GlobalType::spec_encode(x) + tail);
}

impl Encodable for ImportDesc {
    open spec fn spec_encode(v: ImportDesc) -> Seq<u8> {
        match v {
            ImportDesc::Func(x) => seq![0x00u8] + TypeIdX::spec_encode(x),
            ImportDesc::Table(x) => seq![0x01u8] + TableType::spec_encode(x),
            ImportDesc::Mem(x) => seq![0x02u8] + MemType::spec_encode(x),
            ImportDesc::Global(x) => seq![0x03u8] + GlobalType::spec_encode(x),
        }
    }

    open spec fn encodable(v: ImportDesc) -> bool {
        match v {
            ImportDesc::Func(x) => TypeIdX::encodable(x),
            ImportDesc::Table(x) => TableType::encodable(x),
            ImportDesc::Mem(x) => MemType::encodable(x),
            ImportDesc::Global(x) => GlobalType::encodable(x),
        }
    }

    proof fn lemma_round_trip(v: ImportDesc, tail: Seq<u8>) {
        match v {
            ImportDesc::Func(x) => lemma_importdesc_func(x, tail),
            ImportDesc::Table(x) => lemma_importdesc_table(x, tail),
            ImportDesc::Mem(x) => lemma_importdesc_mem(x, tail),
            ImportDesc::Global(x) => lemma_importdesc_global(x, tail),
        }
    }
}

proof fn lemma_exportdesc_func(x: FuncIdx, tail: Seq<u8>)
    requires
        FuncIdx::encodable(x),
    ensures
        ExportDesc::spec_parse(seq![0x00u8] + FuncIdx::spec_encode(x) + tail) == Ok::<(ExportDesc, nat), ParseError>(
            (ExportDesc::Func(x), (seq![0x00u8] + FuncIdx::spec_encode(x)).len()),
        ),
{
    FuncIdx::lemma_round_trip(x, tail);
    let s = seq![0x00u8] + FuncIdx::spec_encode(x) + tail;
    assert(s[0] == 0x00);
    assert(s.skip(1) =~= FuncIdx::spec_encode(x) + tail);
}

proof fn lemma_exportdesc_table(x: TableIdX, tail: Seq<u8>)
    requires
        TableIdX::encodable(x),
    ensures
        ExportDesc::spec_parse(seq![0x01u8] + TableIdX::spec_encode(x) + tail) == Ok::<(ExportDesc, nat), ParseError>(
            (ExportDesc::Table(x), (seq![0x01u8] + TableIdX::spec_encode(x)).len()),
        ),
{
    TableIdX::lemma_round_trip(x, tail);
    let s = seq![0x01u8] + TableIdX::spec_encode(x) + tail;
    assert(s[0] == 0x01);
    assert(s.skip(1) =~= TableIdX::spec_encode(x) + tail);
}

proof fn lemma_exportdesc_mem(x: MemIdX, tail: Seq<u8>)
    requires
        MemIdX::encodable(x),
    ensures
        ExportDesc::spec_parse(seq![0x02u8] + MemIdX::spec_encode(x) + tail) == Ok::<(ExportDesc, nat), ParseError>(
            (ExportDesc::Mem(x), (seq![0x02u8] + MemIdX::spec_encode(x)).len()),
        ),
{
    MemIdX::lemma_round_trip(x, tail);
    let s = seq![0x02u8] + MemIdX::spec_encode(x) + tail;
    assert(s[0] == 0x02);
    assert(s.skip(1) =~= MemIdX::spec_encode(x) + tail);
}

proof fn lemma_exportdesc_global(x: GlobalIdX, tail: Seq<u8>)
    requires
        GlobalIdX::encodable(x),
    ensures
        ExportDesc::spec_parse(seq![0x03u8] + GlobalIdX::spec_encode(x) + tail) == Ok::<(ExportDesc, nat), ParseError>(
            (ExportDesc::Global(x), (seq![0x03u8] + GlobalIdX::spec_encode(x)).len()),
        ),
{
    GlobalIdX::lemma_round_trip(x, tail);
    let s = seq![0x03u8] + GlobalIdX::spec_encode(x) + tail;
    assert(s[0] == 0x03);
    assert(s.skip(1) =~= GlobalIdX::spec_encode(x) + tail);
}

impl Encodable for ExportDesc {
    open spec fn spec_encode(v: ExportDesc) -> Seq<u8> {
        match v {
            ExportDesc::Func(x) => seq![0x00u8] + FuncIdx::spec_encode(x),
            ExportDesc::Table(x) => seq![0x01u8] + TableIdX::spec_encode(x),
            ExportDesc::Mem(x) => seq![0x02u8] + MemIdX::spec_encode(x),
            ExportDesc::Global(x) => seq![0x03u8] + GlobalIdX::spec_encode(x),
        }
    }

    open spec fn encodable(v: ExportDesc) -> bool {
        match v {
            ExportDesc::Func(x) => FuncIdx::encodable(x),
            ExportDesc::Table(x) => TableIdX::encodable(x),
            ExportDesc::Mem(x) => MemIdX::encodable(x),
            ExportDesc::Global(x) => GlobalIdX::encodable(x),
        }
    }

    proof fn lemma_round_trip(v: ExportDesc, tail: Seq<u8>) {
        match v {
            ExportDesc::Func(x) => lemma_exportdesc_func(x, tail),
            ExportDesc::Table(x) => lemma_exportdesc_table(x, tail),
            ExportDesc::Mem(x) => lemma_exportdesc_mem(x, tail),
            ExportDesc::Global(x) => lemma_exportdesc_global(x, tail),
        }
    }
}

/// The bytes of the values in a row.
pub open spec fn spec_encode_all<T: Encodable>(v: Seq<T::V>) -> Seq<u8>
    decreases v.len(),
{
    if v.len() == 0 {
        Seq::empty()
    } else {
        spec_encode_all::<T>(v.drop_last()) + T::spec_encode(v.last())
    }
}

/// Every one of the values can be written.
pub open spec fn all_encodable<T: Encodable>(v: Seq<T::V>) -> bool {
    forall|i: int| 0 <= i < v.len() ==> T::encodable(#[trigger] v[i])
}

/// Decoding as many items as were written gives them back.
pub proof fn lemma_round_trip_all<T: Encodable>(v: Seq<T::V>, tail: Seq<u8>)
    requires
        all_encodable::<T>(v),
    ensures
        spec_parse_n::<T>(spec_encode_all::<T>(v) + tail, v.len()) == Ok::<
            (Seq<T::V>, nat),
            ParseError,
        >((v, spec_encode_all::<T>(v).len())),
    decreases v.len(),
{
    if v.len() == 0 {
        assert(v =~= Seq::empty());
    } else {
        let front = v.drop_last();
        let ef = spec_encode_all::<T>(front);
        let el = T::spec_encode(v.last());
        assert(all_encodable::<T>(front)) by {
            assert forall|i: int| 0 <= i < front.len() implies T::encodable(
                #[trigger] front[i],
            ) by {
                assert(front[i] == v[i]);
            }
        }
        lemma_round_trip_all::<T>(front, el + tail);
        T::lemma_round_trip(v.last(), tail);
        lemma_skip_first(ef, el, tail);
        assert(front.push(v.last()) =~= v);
    }
}

impl<T: Encodable> Encodable for Vec<T> {
    open spec fn spec_encode(v: Seq<T::V>) -> Seq<u8> {
        u32::spec_encode(v.len() as u32) + spec_encode_all::<T>(v)
    }

    open spec fn encodable(v: Seq<T::V>) -> bool {
        v.len() <= u32::MAX && all_encodable::<T>(v)
    }

    proof fn lemma_round_trip(v: Seq<T::V>, tail: Seq<u8>) {
        let e0 = u32::spec_encode(v.len() as u32);
        let e1 = spec_encode_all::<T>(v);
        u32::lemma_round_trip(v.len() as u32, e1 + tail);
        lemma_round_trip_all::<T>(v, tail);
        lemma_skip_first(e0, e1, tail);
    }
}

impl Encodable for BlockType {
    open spec fn spec_encode(v: BlockType) -> Seq<u8> {
        match v {
            BlockType::Empty => seq![0x40u8],
            BlockType::Single(t) => seq![t.tag()],
            BlockType::TypeIndex(x) => encode_signed(x as int),
        }
    }

    open spec fn encodable(v: BlockType) -> bool {
        true
    }

    proof fn lemma_round_trip(v: BlockType, tail: Seq<u8>) {
        match v {
            BlockType::Empty => {
                assert((seq![0x40u8] + tail)[0] == 0x40);
            },
            BlockType::Single(t) => {
                assert((seq![t.tag()] + tail)[0] == t.tag());
                assert(seq![t.tag()][0] == t.tag());
            },
            BlockType::TypeIndex(x) => {
                let e = encode_signed(x as int);
                lemma_signed_round_trip(x as int, tail);
                reveal_with_fuel(pow128, 6);
                lemma_encode_signed_len(x as int, 5);
                // The first byte of a number that is not negative is no
                // other block type.
                assert((e + tail)[0] == e[0]);
                assert(e[0] < 0x40 || e[0] >= 0x80);
                assert(seq![e[0]][0] == e[0]);
            },
        }
    }
}

} // verus!
