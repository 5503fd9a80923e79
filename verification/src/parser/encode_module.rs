use vstd::prelude::*;

use super::encode::Encodable;
use super::error::ParseError;
use super::module::{
    empty_module, spec_add_code, spec_add_datas, spec_add_elems, spec_add_exports, spec_add_funcs,
    spec_add_globals, spec_add_imports, spec_add_mems, spec_add_tables, spec_add_types,
    spec_module, spec_section, spec_sections, ModuleV,
};
use super::parsable::Parsable;
use super::codesec::{CodeSection, CodeSectionV};
use super::datasec::{DataSection, DataSectionV};
use super::elemsec::{ElementSection, ElementSectionV};
use super::export_section::{ExportSection, ExportSectionV};
use super::funcsec::{FunctionSection, FunctionSectionV};
use super::globalsec::{GlobalSection, GlobalSectionV};
use super::importsec::{ImportSection, ImportSectionV};
use super::memsec::{MemorySection, MemorySectionV};
use super::tablesec::{TableSection, TableSectionV};
use super::typesec::{TypeSection, TypeSectionV};

verus! {

/// The eight bytes that begin a module.
pub open spec fn spec_header_bytes() -> Seq<u8> {
    seq![0x00u8, 0x61u8, 0x73u8, 0x6Du8, 0x01u8, 0x00u8, 0x00u8, 0x00u8]
}

/// The bytes of the types of a module: nothing where there are none, else the
/// tag of the section and the section.
pub open spec fn spec_encode_types(v: TypeSectionV) -> Seq<u8> {
    if v.size == 0 && v.function_types.len() == 0 {
        Seq::empty()
    } else {
        seq![1u8] + TypeSection::spec_encode(v)
    }
}

/// The bytes of the imports of a module: nothing where there are none, else the
/// tag of the section and the section.
pub open spec fn spec_encode_imports(v: ImportSectionV) -> Seq<u8> {
    if v.size == 0 && v.imports.len() == 0 {
        Seq::empty()
    } else {
        seq![2u8] + ImportSection::spec_encode(v)
    }
}

/// The bytes of the funcs of a module: nothing where there are none, else the
/// tag of the section and the section.
pub open spec fn spec_encode_funcs(v: FunctionSectionV) -> Seq<u8> {
    if v.size == 0 && v.types.len() == 0 {
        Seq::empty()
    } else {
        seq![3u8] + FunctionSection::spec_encode(v)
    }
}

/// The bytes of the tables of a module: nothing where there are none, else the
/// tag of the section and the section.
pub open spec fn spec_encode_tables(v: TableSectionV) -> Seq<u8> {
    if v.size == 0 && v.tables.len() == 0 {
        Seq::empty()
    } else {
        seq![4u8] + TableSection::spec_encode(v)
    }
}

/// The bytes of the mems of a module: nothing where there are none, else the
/// tag of the section and the section.
pub open spec fn spec_encode_mems(v: MemorySectionV) -> Seq<u8> {
    if v.size == 0 && v.mems.len() == 0 {
        Seq::empty()
    } else {
        seq![5u8] + MemorySection::spec_encode(v)
    }
}

/// The bytes of the globals of a module: nothing where there are none, else the
/// tag of the section and the section.
pub open spec fn spec_encode_globals(v: GlobalSectionV) -> Seq<u8> {
    if v.size == 0 && v.globals.len() == 0 {
        Seq::empty()
    } else {
        seq![6u8] + GlobalSection::spec_encode(v)
    }
}

/// The bytes of the exports of a module: nothing where there are none, else the
/// tag of the section and the section.
pub open spec fn spec_encode_exports(v: ExportSectionV) -> Seq<u8> {
    if v.size == 0 && v.exports.len() == 0 {
        Seq::empty()
    } else {
        seq![7u8] + ExportSection::spec_encode(v)
    }
}

/// The bytes of the elems of a module: nothing where there are none, else the
/// tag of the section and the section.
pub open spec fn spec_encode_elems(v: ElementSectionV) -> Seq<u8> {
    if v.size == 0 && v.elems.len() == 0 {
        Seq::empty()
    } else {
        seq![9u8] + ElementSection::spec_encode(v)
    }
}

/// The bytes of the code of a module: nothing where there are none, else the
/// tag of the section and the section.
pub open spec fn spec_encode_code(v: CodeSectionV) -> Seq<u8> {
    if v.size == 0 && v.code.len() == 0 {
        Seq::empty()
    } else {
        seq![10u8] + CodeSection::spec_encode(v)
    }
}

/// The bytes of the datas of a module: nothing where there are none, else the
/// tag of the section and the section.
pub open spec fn spec_encode_datas(v: DataSectionV) -> Seq<u8> {
    if v.size == 0 && v.data.len() == 0 {
        Seq::empty()
    } else {
        seq![11u8] + DataSection::spec_encode(v)
    }
}

/// The bytes of the sections of a module from the one at place `k` of the
/// usual order on.
pub open spec fn spec_encode_from(m: ModuleV, k: nat) -> Seq<u8>
    decreases 10 - k,
{
    if k == 0 {
        spec_encode_types(m.types) + spec_encode_from(m, k + 1)
    } else if k == 1 {
        spec_encode_imports(m.imports) + spec_encode_from(m, k + 1)
    } else if k == 2 {
        spec_encode_funcs(m.funcs) + spec_encode_from(m, k + 1)
    } else if k == 3 {
        spec_encode_tables(m.tables) + spec_encode_from(m, k + 1)
    } else if k == 4 {
        spec_encode_mems(m.mems) + spec_encode_from(m, k + 1)
    } else if k == 5 {
        spec_encode_globals(m.globals) + spec_encode_from(m, k + 1)
    } else if k == 6 {
        spec_encode_exports(m.exports) + spec_encode_from(m, k + 1)
    } else if k == 7 {
        spec_encode_elems(m.elems) + spec_encode_from(m, k + 1)
    } else if k == 8 {
        spec_encode_code(m.code) + spec_encode_from(m, k + 1)
    } else if k == 9 {
        spec_encode_datas(m.datas) + spec_encode_from(m, k + 1)
    } else {
        Seq::empty()
    }
}

/// The module with the sections before place `k` of the usual order, and
/// nothing else.
pub open spec fn module_upto(m: ModuleV, k: nat) -> ModuleV {
    ModuleV {
        types: if k > 0 {
            m.types
        } else {
            empty_module().types
        },
        imports: if k > 1 {
            m.imports
        } else {
            empty_module().imports
        },
        funcs: if k > 2 {
            m.funcs
        } else {
            empty_module().funcs
        },
        tables: if k > 3 {
            m.tables
        } else {
            empty_module().tables
        },
        mems: if k > 4 {
            m.mems
        } else {
            empty_module().mems
        },
        globals: if k > 5 {
            m.globals
        } else {
            empty_module().globals
        },
        exports: if k > 6 {
            m.exports
        } else {
            empty_module().exports
        },
        elems: if k > 7 {
            m.elems
        } else {
            empty_module().elems
        },
        code: if k > 8 {
            m.code
        } else {
            empty_module().code
        },
        datas: if k > 9 {
            m.datas
        } else {
            empty_module().datas
        },
        customs: empty_module().customs,
    }
}

/// The bytes that spell a module: the header, then each section that holds
/// anything, in the usual order.
pub open spec fn spec_encode_module(m: ModuleV) -> Seq<u8> {
    spec_header_bytes() + spec_encode_from(m, 0)
}

/// The module can be written: it has nothing of a custom section, and
/// each of its sections holds nothing or can be written.
pub open spec fn module_encodable(m: ModuleV) -> bool {
    &&& m.customs == empty_module().customs
    &&& ((m.types.size == 0 && m.types.function_types.len() == 0) || TypeSection::encodable(m.types))
    &&& ((m.imports.size == 0 && m.imports.imports.len() == 0) || ImportSection::encodable(m.imports))
    &&& ((m.funcs.size == 0 && m.funcs.types.len() == 0) || FunctionSection::encodable(m.funcs))
    &&& ((m.tables.size == 0 && m.tables.tables.len() == 0) || TableSection::encodable(m.tables))
    &&& ((m.mems.size == 0 && m.mems.mems.len() == 0) || MemorySection::encodable(m.mems))
    &&& ((m.globals.size == 0 && m.globals.globals.len() == 0) || GlobalSection::encodable(m.globals))
    &&& ((m.exports.size == 0 && m.exports.exports.len() == 0) || ExportSection::encodable(m.exports))
    &&& ((m.elems.size == 0 && m.elems.elems.len() == 0) || ElementSection::encodable(m.elems))
    &&& ((m.code.size == 0 && m.code.code.len() == 0) || CodeSection::encodable(m.code))
    &&& ((m.datas.size == 0 && m.datas.data.len() == 0) || DataSection::encodable(m.datas))
}

/// One section that is read makes the decoder go on behind it with the
/// module that holds it.
proof fn lemma_one_section(s: Seq<u8>, acc: ModuleV, next: ModuleV, n: nat)
    requires
        s.len() > 0,
        1 + n <= s.len(),
        spec_section(s[0], s.skip(1), acc) == Ok::<(ModuleV, nat), ParseError>((next, n)),
    ensures
        spec_sections(s, acc) == spec_sections(s.skip(1 + n as int), next),
{
}

proof fn lemma_read_types(acc: ModuleV, sec: TypeSectionV, rest: Seq<u8>)
    requires
        TypeSection::encodable(sec),
        acc.types.size == 0,
        acc.types.function_types.len() == 0,
    ensures
        spec_section(1, TypeSection::spec_encode(sec) + rest, acc) == Ok::<(ModuleV, nat), ParseError>(
            (ModuleV { types: sec, ..acc }, TypeSection::spec_encode(sec).len()),
        ),
{
    reveal(spec_section);
    reveal(spec_add_types);
    TypeSection::lemma_round_trip(sec, rest);
    assert(acc.types.concat(sec).function_types =~= sec.function_types);
    assert(acc.types.concat(sec) == sec);
}

proof fn lemma_step_types(m: ModuleV, rest: Seq<u8>)
    requires
        (m.types.size == 0 && m.types.function_types.len() == 0) || TypeSection::encodable(m.types),
    ensures
        spec_sections(spec_encode_types(m.types) + rest, module_upto(m, 0)) == spec_sections(
            rest,
            module_upto(m, 1),
        ),
{
    let acc = module_upto(m, 0);
    let next = module_upto(m, 1);
    let sec = m.types;
    if sec.size == 0 && sec.function_types.len() == 0 {
        assert(sec.function_types =~= Seq::empty());
        assert(acc == next);
        assert(Seq::<u8>::empty() + rest =~= rest);
    } else {
        let e = TypeSection::spec_encode(sec);
        let s = seq![1u8] + e + rest;
        lemma_read_types(acc, sec, rest);
        assert(s[0] == 1);
        assert(s.skip(1) =~= e + rest);
        assert(s.skip(1 + e.len() as int) =~= rest);
        assert((ModuleV { types: sec, ..acc }) == next);
        lemma_one_section(s, acc, next, e.len());
    }
}

proof fn lemma_read_imports(acc: ModuleV, sec: ImportSectionV, rest: Seq<u8>)
    requires
        ImportSection::encodable(sec),
        acc.imports.size == 0,
        acc.imports.imports.len() == 0,
    ensures
        spec_section(2, ImportSection::spec_encode(sec) + rest, acc) == Ok::<(ModuleV, nat), ParseError>(
            (ModuleV { imports: sec, ..acc }, ImportSection::spec_encode(sec).len()),
        ),
{
    reveal(spec_section);
    reveal(spec_add_imports);
    ImportSection::lemma_round_trip(sec, rest);
    assert(acc.imports.concat(sec).imports =~= sec.imports);
    assert(acc.imports.concat(sec) == sec);
}

proof fn lemma_step_imports(m: ModuleV, rest: Seq<u8>)
    requires
        (m.imports.size == 0 && m.imports.imports.len() == 0) || ImportSection::encodable(m.imports),
    ensures
        spec_sections(spec_encode_imports(m.imports) + rest, module_upto(m, 1)) == spec_sections(
            rest,
            module_upto(m, 2),
        ),
{
    let acc = module_upto(m, 1);
    let next = module_upto(m, 2);
    let sec = m.imports;
    if sec.size == 0 && sec.imports.len() == 0 {
        assert(sec.imports =~= Seq::empty());
        assert(acc == next);
        assert(Seq::<u8>::empty() + rest =~= rest);
    } else {
        let e = ImportSection::spec_encode(sec);
        let s = seq![2u8] + e + rest;
        lemma_read_imports(acc, sec, rest);
        assert(s[0] == 2);
        assert(s.skip(1) =~= e + rest);
        assert(s.skip(1 + e.len() as int) =~= rest);
        assert((ModuleV { imports: sec, ..acc }) == next);
        lemma_one_section(s, acc, next, e.len());
    }
}

proof fn lemma_read_funcs(acc: ModuleV, sec: FunctionSectionV, rest: Seq<u8>)
    requires
        FunctionSection::encodable(sec),
        acc.funcs.size == 0,
        acc.funcs.types.len() == 0,
    ensures
        spec_section(3, FunctionSection::spec_encode(sec) + rest, acc) == Ok::<(ModuleV, nat), ParseError>(
            (ModuleV { funcs: sec, ..acc }, FunctionSection::spec_encode(sec).len()),
        ),
{
    reveal(spec_section);
    reveal(spec_add_funcs);
    FunctionSection::lemma_round_trip(sec, rest);
    assert(acc.funcs.concat(sec).types =~= sec.types);
    assert(acc.funcs.concat(sec) == sec);
}

proof fn lemma_step_funcs(m: ModuleV, rest: Seq<u8>)
    requires
        (m.funcs.size == 0 && m.funcs.types.len() == 0) || FunctionSection::encodable(m.funcs),
    ensures
        spec_sections(spec_encode_funcs(m.funcs) + rest, module_upto(m, 2)) == spec_sections(
            rest,
            module_upto(m, 3),
        ),
{
    let acc = module_upto(m, 2);
    let next = module_upto(m, 3);
    let sec = m.funcs;
    if sec.size == 0 && sec.types.len() == 0 {
        assert(sec.types =~= Seq::empty());
        assert(acc == next);
        assert(Seq::<u8>::empty() + rest =~= rest);
    } else {
        let e = FunctionSection::spec_encode(sec);
        let s = seq![3u8] + e + rest;
        lemma_read_funcs(acc, sec, rest);
        assert(s[0] == 3);
        assert(s.skip(1) =~= e + rest);
        assert(s.skip(1 + e.len() as int) =~= rest);
        assert((ModuleV { funcs: sec, ..acc }) == next);
        lemma_one_section(s, acc, next, e.len());
    }
}

proof fn lemma_read_tables(acc: ModuleV, sec: TableSectionV, rest: Seq<u8>)
    requires
        TableSection::encodable(sec),
        acc.tables.size == 0,
        acc.tables.tables.len() == 0,
    ensures
        spec_section(4, TableSection::spec_encode(sec) + rest, acc) == Ok::<(ModuleV, nat), ParseError>(
            (ModuleV { tables: sec, ..acc }, TableSection::spec_encode(sec).len()),
        ),
{
    reveal(spec_section);
    reveal(spec_add_tables);
    TableSection::lemma_round_trip(sec, rest);
    assert(acc.tables.concat(sec).tables =~= sec.tables);
    assert(acc.tables.concat(sec) == sec);
}

proof fn lemma_step_tables(m: ModuleV, rest: Seq<u8>)
    requires
        (m.tables.size == 0 && m.tables.tables.len() == 0) || TableSection::encodable(m.tables),
    ensures
        spec_sections(spec_encode_tables(m.tables) + rest, module_upto(m, 3)) == spec_sections(
            rest,
            module_upto(m, 4),
        ),
{
    let acc = module_upto(m, 3);
    let next = module_upto(m, 4);
    let sec = m.tables;
    if sec.size == 0 && sec.tables.len() == 0 {
        assert(sec.tables =~= Seq::empty());
        assert(acc == next);
        assert(Seq::<u8>::empty() + rest =~= rest);
    } else {
        let e = TableSection::spec_encode(sec);
        let s = seq![4u8] + e + rest;
        lemma_read_tables(acc, sec, rest);
        assert(s[0] == 4);
        assert(s.skip(1) =~= e + rest);
        assert(s.skip(1 + e.len() as int) =~= rest);
        assert((ModuleV { tables: sec, ..acc }) == next);
        lemma_one_section(s, acc, next, e.len());
    }
}

proof fn lemma_read_mems(acc: ModuleV, sec: MemorySectionV, rest: Seq<u8>)
    requires
        MemorySection::encodable(sec),
        acc.mems.size == 0,
        acc.mems.mems.len() == 0,
    ensures
        spec_section(5, MemorySection::spec_encode(sec) + rest, acc) == Ok::<(ModuleV, nat), ParseError>(
            (ModuleV { mems: sec, ..acc }, MemorySection::spec_encode(sec).len()),
        ),
{
    reveal(spec_section);
    reveal(spec_add_mems);
    MemorySection::lemma_round_trip(sec, rest);
    assert(acc.mems.concat(sec).mems =~= sec.mems);
    assert(acc.mems.concat(sec) == sec);
}

proof fn lemma_step_mems(m: ModuleV, rest: Seq<u8>)
    requires
        (m.mems.size == 0 && m.mems.mems.len() == 0) || MemorySection::encodable(m.mems),
    ensures
        spec_sections(spec_encode_mems(m.mems) + rest, module_upto(m, 4)) == spec_sections(
            rest,
            module_upto(m, 5),
        ),
{
    let acc = module_upto(m, 4);
    let next = module_upto(m, 5);
    let sec = m.mems;
    if sec.size == 0 && sec.mems.len() == 0 {
        assert(sec.mems =~= Seq::empty());
        assert(acc == next);
        assert(Seq::<u8>::empty() + rest =~= rest);
    } else {
        let e = MemorySection::spec_encode(sec);
        let s = seq![5u8] + e + rest;
        lemma_read_mems(acc, sec, rest);
        assert(s[0] == 5);
        assert(s.skip(1) =~= e + rest);
        assert(s.skip(1 + e.len() as int) =~= rest);
        assert((ModuleV { mems: sec, ..acc }) == next);
        lemma_one_section(s, acc, next, e.len());
    }
}

proof fn lemma_read_globals(acc: ModuleV, sec: GlobalSectionV, rest: Seq<u8>)
    requires
        GlobalSection::encodable(sec),
        acc.globals.size == 0,
        acc.globals.globals.len() == 0,
    ensures
        spec_section(6, GlobalSection::spec_encode(sec) + rest, acc) == Ok::<(ModuleV, nat), ParseError>(
            (ModuleV { globals: sec, ..acc }, GlobalSection::spec_encode(sec).len()),
        ),
{
    reveal(spec_section);
    reveal(spec_add_globals);
    GlobalSection::lemma_round_trip(sec, rest);
    assert(acc.globals.concat(sec).globals =~= sec.globals);
    assert(acc.globals.concat(sec) == sec);
}

proof fn lemma_step_globals(m: ModuleV, rest: Seq<u8>)
    requires
        (m.globals.size == 0 && m.globals.globals.len() == 0) || GlobalSection::encodable(m.globals),
    ensures
        spec_sections(spec_encode_globals(m.globals) + rest, module_upto(m, 5)) == spec_sections(
            rest,
            module_upto(m, 6),
        ),
{
    let acc = module_upto(m, 5);
    let next = module_upto(m, 6);
    let sec = m.globals;
    if sec.size == 0 && sec.globals.len() == 0 {
        assert(sec.globals =~= Seq::empty());
        assert(acc == next);
        assert(Seq::<u8>::empty() + rest =~= rest);
    } else {
        let e = GlobalSection::spec_encode(sec);
        let s = seq![6u8] + e + rest;
        lemma_read_globals(acc, sec, rest);
        assert(s[0] == 6);
        assert(s.skip(1) =~= e + rest);
        assert(s.skip(1 + e.len() as int) =~= rest);
        assert((ModuleV { globals: sec, ..acc }) == next);
        lemma_one_section(s, acc, next, e.len());
    }
}

proof fn lemma_read_exports(acc: ModuleV, sec: ExportSectionV, rest: Seq<u8>)
    requires
        ExportSection::encodable(sec),
        acc.exports.size == 0,
        acc.exports.exports.len() == 0,
    ensures
        spec_section(7, ExportSection::spec_encode(sec) + rest, acc) == Ok::<(ModuleV, nat), ParseError>(
            (ModuleV { exports: sec, ..acc }, ExportSection::spec_encode(sec).len()),
        ),
{
    reveal(spec_section);
    reveal(spec_add_exports);
    ExportSection::lemma_round_trip(sec, rest);
    assert(acc.exports.concat(sec).exports =~= sec.exports);
    assert(acc.exports.concat(sec) == sec);
}

proof fn lemma_step_exports(m: ModuleV, rest: Seq<u8>)
    requires
        (m.exports.size == 0 && m.exports.exports.len() == 0) || ExportSection::encodable(m.exports),
    ensures
        spec_sections(spec_encode_exports(m.exports) + rest, module_upto(m, 6)) == spec_sections(
            rest,
            module_upto(m, 7),
        ),
{
    let acc = module_upto(m, 6);
    let next = module_upto(m, 7);
    let sec = m.exports;
    if sec.size == 0 && sec.exports.len() == 0 {
        assert(sec.exports =~= Seq::empty());
        assert(acc == next);
        assert(Seq::<u8>::empty() + rest =~= rest);
    } else {
        let e = ExportSection::spec_encode(sec);
        let s = seq![7u8] + e + rest;
        lemma_read_exports(acc, sec, rest);
        assert(s[0] == 7);
        assert(s.skip(1) =~= e + rest);
        assert(s.skip(1 + e.len() as int) =~= rest);
        assert((ModuleV { exports: sec, ..acc }) == next);
        lemma_one_section(s, acc, next, e.len());
    }
}

proof fn lemma_read_elems(acc: ModuleV, sec: ElementSectionV, rest: Seq<u8>)
    requires
        ElementSection::encodable(sec),
        acc.elems.size == 0,
        acc.elems.elems.len() == 0,
    ensures
        spec_section(9, ElementSection::spec_encode(sec) + rest, acc) == Ok::<(ModuleV, nat), ParseError>(
            (ModuleV { elems: sec, ..acc }, ElementSection::spec_encode(sec).len()),
        ),
{
    reveal(spec_section);
    reveal(spec_add_elems);
    ElementSection::lemma_round_trip(sec, rest);
    assert(acc.elems.concat(sec).elems =~= sec.elems);
    assert(acc.elems.concat(sec) == sec);
}

proof fn lemma_step_elems(m: ModuleV, rest: Seq<u8>)
    requires
        (m.elems.size == 0 && m.elems.elems.len() == 0) || ElementSection::encodable(m.elems),
    ensures
        spec_sections(spec_encode_elems(m.elems) + rest, module_upto(m, 7)) == spec_sections(
            rest,
            module_upto(m, 8),
        ),
{
    let acc = module_upto(m, 7);
    let next = module_upto(m, 8);
    let sec = m.elems;
    if sec.size == 0 && sec.elems.len() == 0 {
        assert(sec.elems =~= Seq::empty());
        assert(acc == next);
        assert(Seq::<u8>::empty() + rest =~= rest);
    } else {
        let e = ElementSection::spec_encode(sec);
        let s = seq![9u8] + e + rest;
        lemma_read_elems(acc, sec, rest);
        assert(s[0] == 9);
        assert(s.skip(1) =~= e + rest);
        assert(s.skip(1 + e.len() as int) =~= rest);
        assert((ModuleV { elems: sec, ..acc }) == next);
        lemma_one_section(s, acc, next, e.len());
    }
}

proof fn lemma_read_code(acc: ModuleV, sec: CodeSectionV, rest: Seq<u8>)
    requires
        CodeSection::encodable(sec),
        acc.code.size == 0,
        acc.code.code.len() == 0,
    ensures
        spec_section(10, CodeSection::spec_encode(sec) + rest, acc) == Ok::<(ModuleV, nat), ParseError>(
            (ModuleV { code: sec, ..acc }, CodeSection::spec_encode(sec).len()),
        ),
{
    reveal(spec_section);
    reveal(spec_add_code);
    CodeSection::lemma_round_trip(sec, rest);
    assert(acc.code.concat(sec).code =~= sec.code);
    assert(acc.code.concat(sec) == sec);
}

proof fn lemma_step_code(m: ModuleV, rest: Seq<u8>)
    requires
        (m.code.size == 0 && m.code.code.len() == 0) || CodeSection::encodable(m.code),
    ensures
        spec_sections(spec_encode_code(m.code) + rest, module_upto(m, 8)) == spec_sections(
            rest,
            module_upto(m, 9),
        ),
{
    let acc = module_upto(m, 8);
    let next = module_upto(m, 9);
    let sec = m.code;
    if sec.size == 0 && sec.code.len() == 0 {
        assert(sec.code =~= Seq::empty());
        assert(acc == next);
        assert(Seq::<u8>::empty() + rest =~= rest);
    } else {
        let e = CodeSection::spec_encode(sec);
        let s = seq![10u8] + e + rest;
        lemma_read_code(acc, sec, rest);
        assert(s[0] == 10);
        assert(s.skip(1) =~= e + rest);
        assert(s.skip(1 + e.len() as int) =~= rest);
        assert((ModuleV { code: sec, ..acc }) == next);
        lemma_one_section(s, acc, next, e.len());
    }
}

proof fn lemma_read_datas(acc: ModuleV, sec: DataSectionV, rest: Seq<u8>)
    requires
        DataSection::encodable(sec),
        acc.datas.size == 0,
        acc.datas.data.len() == 0,
    ensures
        spec_section(11, DataSection::spec_encode(sec) + rest, acc) == Ok::<(ModuleV, nat), ParseError>(
            (ModuleV { datas: sec, ..acc }, DataSection::spec_encode(sec).len()),
        ),
{
    reveal(spec_section);
    reveal(spec_add_datas);
    DataSection::lemma_round_trip(sec, rest);
    assert(acc.datas.concat(sec).data =~= sec.data);
    assert(acc.datas.concat(sec) == sec);
}

proof fn lemma_step_datas(m: ModuleV, rest: Seq<u8>)
    requires
        (m.datas.size == 0 && m.datas.data.len() == 0) || DataSection::encodable(m.datas),
    ensures
        spec_sections(spec_encode_datas(m.datas) + rest, module_upto(m, 9)) == spec_sections(
            rest,
            module_upto(m, 10),
        ),
{
    let acc = module_upto(m, 9);
    let next = module_upto(m, 10);
    let sec = m.datas;
    if sec.size == 0 && sec.data.len() == 0 {
        assert(sec.data =~= Seq::empty());
        assert(acc == next);
        assert(Seq::<u8>::empty() + rest =~= rest);
    } else {
        let e = DataSection::spec_encode(sec);
        let s = seq![11u8] + e + rest;
        lemma_read_datas(acc, sec, rest);
        assert(s[0] == 11);
        assert(s.skip(1) =~= e + rest);
        assert(s.skip(1 + e.len() as int) =~= rest);
        assert((ModuleV { datas: sec, ..acc }) == next);
        lemma_one_section(s, acc, next, e.len());
    }
}

/// Decoding the sections from place `k` on, with those before it in hand,
/// gives the module.
proof fn lemma_sections_from(m: ModuleV, k: nat)
    requires
        module_encodable(m),
        k <= 10,
    ensures
        spec_sections(spec_encode_from(m, k), module_upto(m, k)) == Ok::<ModuleV, ParseError>(m),
    decreases 10 - k,
{
    if k == 10 {
        assert(module_upto(m, 10) == m);
    } else {
        lemma_sections_from(m, k + 1);
        let rest = spec_encode_from(m, k + 1);
        if k == 0 {
            lemma_step_types(m, rest);
        } else if k == 1 {
            lemma_step_imports(m, rest);
        } else if k == 2 {
            lemma_step_funcs(m, rest);
        } else if k == 3 {
            lemma_step_tables(m, rest);
        } else if k == 4 {
            lemma_step_mems(m, rest);
        } else if k == 5 {
            lemma_step_globals(m, rest);
        } else if k == 6 {
            lemma_step_exports(m, rest);
        } else if k == 7 {
            lemma_step_elems(m, rest);
        } else if k == 8 {
            lemma_step_code(m, rest);
        } else if k == 9 {
            lemma_step_datas(m, rest);
        }
    }
}

/// The round trip of modules: decoding the bytes that spell a module gives
/// the module back.
pub proof fn lemma_module_round_trip(m: ModuleV)
    requires
        module_encodable(m),
    ensures
        spec_module(spec_encode_module(m)) == Ok::<ModuleV, ParseError>(m),
{
    let s = spec_encode_module(m);
    lemma_sections_from(m, 0);
    assert(s.skip(8) =~= spec_encode_from(m, 0));
    assert(module_upto(m, 0) == empty_module());
    assert(s[0] == 0x00 && s[1] == 0x61 && s[2] == 0x73 && s[3] == 0x6D);
    assert(s[4] == 0x01 && s[5] == 0x00 && s[6] == 0x00 && s[7] == 0x00);
}

} // verus!
