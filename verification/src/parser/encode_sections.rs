use vstd::prelude::*;
use super::code::{Code, CodeV};
use super::codesec::{CodeSection, CodeSectionV};
use super::customsec::{CustomSection, CustomSectionV};
use super::data::{Data, DataMode, DataModeV, DataV};
use super::datasec::{DataSection, DataSectionV};
use super::elem::{Elem, ElemV};
use super::elemsec::{ElementSection, ElementSectionV};
use super::encode::{lemma_behind_byte, lemma_skip_first, lemma_two, Encodable};
use super::error::ParseError;
use super::export::Export;
use super::export_section::{ExportSection, ExportSectionV};
use super::expr::Expr;
use super::func::{Func, FuncV};
use super::funcsec::{FunctionSection, FunctionSectionV};
use super::functype::FuncType;
use super::global::{Global, GlobalV};
use super::globalsec::{GlobalSection, GlobalSectionV};
use super::globaltype::GlobalType;
use super::import::Import;
use super::importsec::{ImportSection, ImportSectionV};
use super::indices::FuncIdx;
use super::instr::InstrV;
use super::locals::Locals;
use super::memidx::MemIdX;
use super::memsec::{MemorySection, MemorySectionV};
use super::memtype::MemType;
use super::name::Name;
use super::parsable::Parsable;
use super::sized::spec_sized;
use super::tablesec::{TableSection, TableSectionV};
use super::tabletype::TableType;
use super::typeidx::TypeIdX;
use super::typesec::{TypeSection, TypeSectionV};

verus! {

/// An item behind its byte size is read where the size is that of its
/// bytes.
pub proof fn lemma_sized<T: Encodable>(v: T::V, id: u8, tail: Seq<u8>)
    requires
        T::encodable(v),
        T::spec_encode(v).len() <= u32::MAX,
    ensures
        ({
            let size = T::spec_encode(v).len() as u32;
            let e = u32::spec_encode(size) + T::spec_encode(v);
            spec_sized::<T>(e + tail, id) == Ok::<((u32, T::V), nat), ParseError>(
                ((size, v), e.len()),
            )
        }),
{
    let content = T::spec_encode(v);
    let size = content.len() as u32;
    let e0 = u32::spec_encode(size);
    let s = e0 + content + tail;
    u32::lemma_round_trip(size, content + tail);
    T::lemma_round_trip(v, Seq::empty());
    lemma_skip_first(e0, content, tail);
    assert(s.subrange(e0.len() as int, (e0.len() + size) as int) =~= content + Seq::<u8>::empty());
}

impl Encodable for Global {
    open spec fn spec_encode(v: GlobalV) -> Seq<u8> {
        GlobalType::spec_encode(v.gt) + Expr::spec_encode(v.init)
    }

    open spec fn encodable(v: GlobalV) -> bool {
        Expr::encodable(v.init)
    }

    proof fn lemma_round_trip(v: GlobalV, tail: Seq<u8>) {
        lemma_two::<GlobalType, Expr>(v.gt, v.init, tail);
    }
}

impl Encodable for Func {
    open spec fn spec_encode(v: FuncV) -> Seq<u8> {
        Vec::<Locals>::spec_encode(v.locals) + Expr::spec_encode(v.body)
    }

    open spec fn encodable(v: FuncV) -> bool {
        Vec::<Locals>::encodable(v.locals) && Expr::encodable(v.body)
    }

    proof fn lemma_round_trip(v: FuncV, tail: Seq<u8>) {
        lemma_two::<Vec<Locals>, Expr>(v.locals, v.body, tail);
    }
}

impl Encodable for Code {
    open spec fn spec_encode(v: CodeV) -> Seq<u8> {
        u32::spec_encode(v.size) + Func::spec_encode(FuncV { locals: v.locals, body: v.body })
    }

    open spec fn encodable(v: CodeV) -> bool {
        &&& Func::encodable(FuncV { locals: v.locals, body: v.body })
        &&& v.size == Func::spec_encode(FuncV { locals: v.locals, body: v.body }).len()
    }

    proof fn lemma_round_trip(v: CodeV, tail: Seq<u8>) {
        lemma_sized::<Func>(FuncV { locals: v.locals, body: v.body }, 10, tail);
    }
}

impl Encodable for Elem {
    open spec fn spec_encode(v: ElemV) -> Seq<u8> {
        seq![0x00u8] + Expr::spec_encode(v.offset) + Vec::<FuncIdx>::spec_encode(v.init)
    }

    open spec fn encodable(v: ElemV) -> bool {
        Expr::encodable(v.offset) && Vec::<FuncIdx>::encodable(v.init)
    }

    proof fn lemma_round_trip(v: ElemV, tail: Seq<u8>) {
        lemma_two::<Expr, Vec<FuncIdx>>(v.offset, v.init, tail);
        let s = seq![0x00u8] + Expr::spec_encode(v.offset) + Vec::<FuncIdx>::spec_encode(v.init)
            + tail;
        let t = Expr::spec_encode(v.offset) + Vec::<FuncIdx>::spec_encode(v.init) + tail;
        assert(s[0] == 0x00);
        assert(s.skip(1) =~= t);
        assert(s.skip(1 + Expr::spec_encode(v.offset).len() as int) =~= t.skip(
            Expr::spec_encode(v.offset).len() as int,
        ));
    }
}

proof fn lemma_mode_first(e: Seq<InstrV>, tail: Seq<u8>)
    requires
        Expr::encodable(e),
    ensures
        DataMode::spec_parse(seq![0x00u8] + Expr::spec_encode(e) + tail) == Ok::<
            (DataModeV, nat),
            ParseError,
        >((DataModeV::Active(MemIdX(0), e), 1 + Expr::spec_encode(e).len())),
{
    lemma_behind_byte::<Expr>(0x00, e, tail);
}

proof fn lemma_mode_other(m: MemIdX, e: Seq<InstrV>, tail: Seq<u8>)
    requires
        Expr::encodable(e),
    ensures
        DataMode::spec_parse(
            seq![0x02u8] + MemIdX::spec_encode(m) + Expr::spec_encode(e) + tail,
        ) == Ok::<(DataModeV, nat), ParseError>(
            (DataModeV::Active(m, e), 1 + MemIdX::spec_encode(m).len() + Expr::spec_encode(e).len()),
        ),
{
    lemma_two::<MemIdX, Expr>(m, e, tail);
    let s = seq![0x02u8] + MemIdX::spec_encode(m) + Expr::spec_encode(e) + tail;
    let t = MemIdX::spec_encode(m) + Expr::spec_encode(e) + tail;
    assert(s[0] == 0x02);
    assert(s.skip(1) =~= t);
    assert(s.skip(1 + MemIdX::spec_encode(m).len() as int) =~= t.skip(
        MemIdX::spec_encode(m).len() as int,
    ));
}

impl Encodable for DataMode {
    open spec fn spec_encode(v: DataModeV) -> Seq<u8> {
        match v {
            DataModeV::Passive => seq![0x01u8],
            DataModeV::Active(m, e) => if m == MemIdX(0) {
                seq![0x00u8] + Expr::spec_encode(e)
            } else {
                seq![0x02u8] + MemIdX::spec_encode(m) + Expr::spec_encode(e)
            },
        }
    }

    open spec fn encodable(v: DataModeV) -> bool {
        match v {
            DataModeV::Passive => true,
            DataModeV::Active(_, e) => Expr::encodable(e),
        }
    }

    proof fn lemma_round_trip(v: DataModeV, tail: Seq<u8>) {
        match v {
            DataModeV::Passive => {
                assert((seq![0x01u8] + tail)[0] == 0x01);
            },
            DataModeV::Active(m, e) => {
                if m == MemIdX(0) {
                    lemma_mode_first(e, tail);
                } else {
                    lemma_mode_other(m, e, tail);
                }
            },
        }
    }
}

impl Encodable for Data {
    open spec fn spec_encode(v: DataV) -> Seq<u8> {
        DataMode::spec_encode(v.mode) + Vec::<u8>::spec_encode(v.init)
    }

    open spec fn encodable(v: DataV) -> bool {
        DataMode::encodable(v.mode) && Vec::<u8>::encodable(v.init)
    }

    proof fn lemma_round_trip(v: DataV, tail: Seq<u8>) {
        lemma_two::<DataMode, Vec<u8>>(v.mode, v.init, tail);
    }
}

impl Encodable for CustomSection {
    open spec fn spec_encode(v: CustomSectionV) -> Seq<u8> {
        u32::spec_encode(v.size) + Name::spec_encode(v.name) + v.sections[0]
    }

    open spec fn encodable(v: CustomSectionV) -> bool {
        &&& Name::encodable(v.name)
        &&& v.sections.len() == 1
        &&& v.size == Name::spec_encode(v.name).len() + v.sections[0].len()
    }

    proof fn lemma_round_trip(v: CustomSectionV, tail: Seq<u8>) {
        let e0 = u32::spec_encode(v.size);
        let en = Name::spec_encode(v.name);
        let payload = v.sections[0];
        let s = e0 + en + payload + tail;
        u32::lemma_round_trip(v.size, en + payload + tail);
        Name::lemma_round_trip(v.name, payload);
        assert(s =~= e0 + (en + payload + tail));
        let content = s.subrange(e0.len() as int, (e0.len() + v.size) as int);
        assert(content =~= en + payload);
        assert(content.skip(en.len() as int) =~= payload);
        assert(v.sections =~= seq![payload]);
    }
}

impl Encodable for TypeSection {
    open spec fn spec_encode(v: TypeSectionV) -> Seq<u8> {
        u32::spec_encode(v.size) + Vec::<FuncType>::spec_encode(v.function_types)
    }

    open spec fn encodable(v: TypeSectionV) -> bool {
        Vec::<FuncType>::encodable(v.function_types) && v.size == Vec::<FuncType>::spec_encode(v.function_types).len()
    }

    proof fn lemma_round_trip(v: TypeSectionV, tail: Seq<u8>) {
        lemma_sized::<Vec<FuncType>>(v.function_types, 1, tail);
    }
}

impl Encodable for ImportSection {
    open spec fn spec_encode(v: ImportSectionV) -> Seq<u8> {
        u32::spec_encode(v.size) + Vec::<Import>::spec_encode(v.imports)
    }

    open spec fn encodable(v: ImportSectionV) -> bool {
        Vec::<Import>::encodable(v.imports) && v.size == Vec::<Import>::spec_encode(v.imports).len()
    }

    proof fn lemma_round_trip(v: ImportSectionV, tail: Seq<u8>) {
        lemma_sized::<Vec<Import>>(v.imports, 2, tail);
    }
}

impl Encodable for FunctionSection {
    open spec fn spec_encode(v: FunctionSectionV) -> Seq<u8> {
        u32::spec_encode(v.size) + Vec::<TypeIdX>::spec_encode(v.types)
    }

    open spec fn encodable(v: FunctionSectionV) -> bool {
        Vec::<TypeIdX>::encodable(v.types) && v.size == Vec::<TypeIdX>::spec_encode(v.types).len()
    }

    proof fn lemma_round_trip(v: FunctionSectionV, tail: Seq<u8>) {
        lemma_sized::<Vec<TypeIdX>>(v.types, 3, tail);
    }
}

impl Encodable for TableSection {
    open spec fn spec_encode(v: TableSectionV) -> Seq<u8> {
        u32::spec_encode(v.size) + Vec::<TableType>::spec_encode(v.tables)
    }

    open spec fn encodable(v: TableSectionV) -> bool {
        Vec::<TableType>::encodable(v.tables) && v.size == Vec::<TableType>::spec_encode(v.tables).len()
    }

    proof fn lemma_round_trip(v: TableSectionV, tail: Seq<u8>) {
        lemma_sized::<Vec<TableType>>(v.tables, 4, tail);
    }
}

impl Encodable for MemorySection {
    open spec fn spec_encode(v: MemorySectionV) -> Seq<u8> {
        u32::spec_encode(v.size) + Vec::<MemType>::spec_encode(v.mems)
    }

    open spec fn encodable(v: MemorySectionV) -> bool {
        Vec::<MemType>::encodable(v.mems) && v.size == Vec::<MemType>::spec_encode(v.mems).len()
    }

    proof fn lemma_round_trip(v: MemorySectionV, tail: Seq<u8>) {
        lemma_sized::<Vec<MemType>>(v.mems, 5, tail);
    }
}

impl Encodable for GlobalSection {
    open spec fn spec_encode(v: GlobalSectionV) -> Seq<u8> {
        u32::spec_encode(v.size) + Vec::<Global>::spec_encode(v.globals)
    }

    open spec fn encodable(v: GlobalSectionV) -> bool {
        Vec::<Global>::encodable(v.globals) && v.size == Vec::<Global>::spec_encode(v.globals).len()
    }

    proof fn lemma_round_trip(v: GlobalSectionV, tail: Seq<u8>) {
        lemma_sized::<Vec<Global>>(v.globals, 6, tail);
    }
}

impl Encodable for ExportSection {
    open spec fn spec_encode(v: ExportSectionV) -> Seq<u8> {
        u32::spec_encode(v.size) + Vec::<Export>::spec_encode(v.exports)
    }

    open spec fn encodable(v: ExportSectionV) -> bool {
        Vec::<Export>::encodable(v.exports) && v.size == Vec::<Export>::spec_encode(v.exports).len()
    }

    proof fn lemma_round_trip(v: ExportSectionV, tail: Seq<u8>) {
        lemma_sized::<Vec<Export>>(v.exports, 7, tail);
    }
}

impl Encodable for ElementSection {
    open spec fn spec_encode(v: ElementSectionV) -> Seq<u8> {
        u32::spec_encode(v.size) + Vec::<Elem>::spec_encode(v.elems)
    }

    open spec fn encodable(v: ElementSectionV) -> bool {
        Vec::<Elem>::encodable(v.elems) && v.size == Vec::<Elem>::spec_encode(v.elems).len()
    }

    proof fn lemma_round_trip(v: ElementSectionV, tail: Seq<u8>) {
        lemma_sized::<Vec<Elem>>(v.elems, 9, tail);
    }
}

impl Encodable for CodeSection {
    open spec fn spec_encode(v: CodeSectionV) -> Seq<u8> {
        u32::spec_encode(v.size) + Vec::<Code>::spec_encode(v.code)
    }

    open spec fn encodable(v: CodeSectionV) -> bool {
        Vec::<Code>::encodable(v.code) && v.size == Vec::<Code>::spec_encode(v.code).len()
    }

    proof fn lemma_round_trip(v: CodeSectionV, tail: Seq<u8>) {
        lemma_sized::<Vec<Code>>(v.code, 10, tail);
    }
}

impl Encodable for DataSection {
    open spec fn spec_encode(v: DataSectionV) -> Seq<u8> {
        u32::spec_encode(v.size) + Vec::<Data>::spec_encode(v.data)
    }

    open spec fn encodable(v: DataSectionV) -> bool {
        Vec::<Data>::encodable(v.data) && v.size == Vec::<Data>::spec_encode(v.data).len()
    }

    proof fn lemma_round_trip(v: DataSectionV, tail: Seq<u8>) {
        lemma_sized::<Vec<Data>>(v.data, 11, tail);
    }
}

} // verus!
