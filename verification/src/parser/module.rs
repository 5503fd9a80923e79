use vstd::prelude::*;
use super::codesec::{CodeSection, CodeSectionV};
use super::cursor::{lemma_advance, Cursor};
use super::customsec::{CustomSection, CustomSectionV};
use super::datasec::{DataSection, DataSectionV};
use super::elemsec::{ElementSection, ElementSectionV};
use super::error::ParseError;
use super::export_section::{ExportSection, ExportSectionV};
use super::funcsec::{FunctionSection, FunctionSectionV};
use super::globalsec::{GlobalSection, GlobalSectionV};
use super::importsec::{ImportSection, ImportSectionV};
use super::memsec::{MemorySection, MemorySectionV};
use super::parsable::{trail_after, trail_of, Decoded, Parsable};
use super::tablesec::{TableSection, TableSectionV};
use super::typesec::{TypeSection, TypeSectionV};

verus! {

/// A decoded module: its sections, each holding the entries of every
/// section of its kind in the order in which they were met.
#[derive(Debug, PartialEq)]
pub struct Module {
    /// The four bytes `\0asm`.
    pub magic: [u8; 4],
    /// The four bytes of version 1.
    pub version: [u8; 4],
    pub types: TypeSection,
    pub imports: ImportSection,
    pub funcs: FunctionSection,
    pub exports: ExportSection,
    pub tables: TableSection,
    pub mems: MemorySection,
    pub globals: GlobalSection,
    pub elems: ElementSection,
    pub code: CodeSection,
    pub datas: DataSection,
    pub customs: CustomSection,
}

/// `Module` as a mathematical value.
pub struct ModuleV {
    pub types: TypeSectionV,
    pub imports: ImportSectionV,
    pub funcs: FunctionSectionV,
    pub exports: ExportSectionV,
    pub tables: TableSectionV,
    pub mems: MemorySectionV,
    pub globals: GlobalSectionV,
    pub elems: ElementSectionV,
    pub code: CodeSectionV,
    pub datas: DataSectionV,
    pub customs: CustomSectionV,
}

impl DeepView for Module {
    type V = ModuleV;

    open spec fn deep_view(&self) -> ModuleV {
        ModuleV {
            types: self.types.deep_view(),
            imports: self.imports.deep_view(),
            funcs: self.funcs.deep_view(),
            exports: self.exports.deep_view(),
            tables: self.tables.deep_view(),
            mems: self.mems.deep_view(),
            globals: self.globals.deep_view(),
            elems: self.elems.deep_view(),
            code: self.code.deep_view(),
            datas: self.datas.deep_view(),
            customs: self.customs.deep_view(),
        }
    }
}

/// The module without any entry.
pub open spec fn empty_module() -> ModuleV {
    ModuleV {
            types: TypeSectionV { size: 0, function_types: Seq::empty() },
            imports: ImportSectionV { size: 0, imports: Seq::empty() },
            funcs: FunctionSectionV { size: 0, types: Seq::empty() },
            exports: ExportSectionV { size: 0, exports: Seq::empty() },
            tables: TableSectionV { size: 0, tables: Seq::empty() },
            mems: MemorySectionV { size: 0, mems: Seq::empty() },
            globals: GlobalSectionV { size: 0, globals: Seq::empty() },
            elems: ElementSectionV { size: 0, elems: Seq::empty() },
            code: CodeSectionV { size: 0, code: Seq::empty() },
            datas: DataSectionV { size: 0, data: Seq::empty() },
        customs: CustomSectionV { size: 0, name: Seq::empty(), sections: Seq::empty() },
    }
}

/// The eight bytes that begin a module: `\0asm`, then version 1.
pub open spec fn spec_header(s: Seq<u8>) -> Result<(), ParseError> {
    if s.len() < 4 {
        Err(ParseError::UnexpectedEof)
    } else if !(s[0] == 0x00 && s[1] == 0x61 && s[2] == 0x73 && s[3] == 0x6D) {
        Err(ParseError::InvalidHeader)
    } else if s.len() < 8 {
        Err(ParseError::UnexpectedEof)
    } else if !(s[4] == 0x01 && s[5] == 0x00 && s[6] == 0x00 && s[7] == 0x00) {
        Err(ParseError::InvalidVersion)
    } else {
        Ok(())
    }
}

/// The module `acc` with the types section at the head of `t` joined to it.
#[verifier::opaque]
pub open spec fn spec_add_types(t: Seq<u8>, acc: ModuleV) -> Decoded<ModuleV> {
    match TypeSection::spec_parse(t) {
        Err(e) => Err(e),
        Ok((sec, n)) => if acc.types.size + sec.size > u32::MAX {
            Err(ParseError::SectionTooLarge(1))
        } else {
            Ok((ModuleV { types: acc.types.concat(sec), ..acc }, n))
        },
    }
}

/// The module `acc` with the imports section at the head of `t` joined to it.
#[verifier::opaque]
pub open spec fn spec_add_imports(t: Seq<u8>, acc: ModuleV) -> Decoded<ModuleV> {
    match ImportSection::spec_parse(t) {
        Err(e) => Err(e),
        Ok((sec, n)) => if acc.imports.size + sec.size > u32::MAX {
            Err(ParseError::SectionTooLarge(2))
        } else {
            Ok((ModuleV { imports: acc.imports.concat(sec), ..acc }, n))
        },
    }
}

/// The module `acc` with the funcs section at the head of `t` joined to it.
#[verifier::opaque]
pub open spec fn spec_add_funcs(t: Seq<u8>, acc: ModuleV) -> Decoded<ModuleV> {
    match FunctionSection::spec_parse(t) {
        Err(e) => Err(e),
        Ok((sec, n)) => if acc.funcs.size + sec.size > u32::MAX {
            Err(ParseError::SectionTooLarge(3))
        } else {
            Ok((ModuleV { funcs: acc.funcs.concat(sec), ..acc }, n))
        },
    }
}

/// The module `acc` with the tables section at the head of `t` joined to it.
#[verifier::opaque]
pub open spec fn spec_add_tables(t: Seq<u8>, acc: ModuleV) -> Decoded<ModuleV> {
    match TableSection::spec_parse(t) {
        Err(e) => Err(e),
        Ok((sec, n)) => if acc.tables.size + sec.size > u32::MAX {
            Err(ParseError::SectionTooLarge(4))
        } else {
            Ok((ModuleV { tables: acc.tables.concat(sec), ..acc }, n))
        },
    }
}

/// The module `acc` with the mems section at the head of `t` joined to it.
#[verifier::opaque]
pub open spec fn spec_add_mems(t: Seq<u8>, acc: ModuleV) -> Decoded<ModuleV> {
    match MemorySection::spec_parse(t) {
        Err(e) => Err(e),
        Ok((sec, n)) => if acc.mems.size + sec.size > u32::MAX {
            Err(ParseError::SectionTooLarge(5))
        } else {
            Ok((ModuleV { mems: acc.mems.concat(sec), ..acc }, n))
        },
    }
}

/// The module `acc` with the globals section at the head of `t` joined to it.
#[verifier::opaque]
pub open spec fn spec_add_globals(t: Seq<u8>, acc: ModuleV) -> Decoded<ModuleV> {
    match GlobalSection::spec_parse(t) {
        Err(e) => Err(e),
        Ok((sec, n)) => if acc.globals.size + sec.size > u32::MAX {
            Err(ParseError::SectionTooLarge(6))
        } else {
            Ok((ModuleV { globals: acc.globals.concat(sec), ..acc }, n))
        },
    }
}

/// The module `acc` with the exports section at the head of `t` joined to it.
#[verifier::opaque]
pub open spec fn spec_add_exports(t: Seq<u8>, acc: ModuleV) -> Decoded<ModuleV> {
    match ExportSection::spec_parse(t) {
        Err(e) => Err(e),
        Ok((sec, n)) => if acc.exports.size + sec.size > u32::MAX {
            Err(ParseError::SectionTooLarge(7))
        } else {
            Ok((ModuleV { exports: acc.exports.concat(sec), ..acc }, n))
        },
    }
}

/// The module `acc` with the elems section at the head of `t` joined to it.
#[verifier::opaque]
pub open spec fn spec_add_elems(t: Seq<u8>, acc: ModuleV) -> Decoded<ModuleV> {
    match ElementSection::spec_parse(t) {
        Err(e) => Err(e),
        Ok((sec, n)) => if acc.elems.size + sec.size > u32::MAX {
            Err(ParseError::SectionTooLarge(9))
        } else {
            Ok((ModuleV { elems: acc.elems.concat(sec), ..acc }, n))
        },
    }
}

/// The module `acc` with the code section at the head of `t` joined to it.
#[verifier::opaque]
pub open spec fn spec_add_code(t: Seq<u8>, acc: ModuleV) -> Decoded<ModuleV> {
    match CodeSection::spec_parse(t) {
        Err(e) => Err(e),
        Ok((sec, n)) => if acc.code.size + sec.size > u32::MAX {
            Err(ParseError::SectionTooLarge(10))
        } else {
            Ok((ModuleV { code: acc.code.concat(sec), ..acc }, n))
        },
    }
}

/// The module `acc` with the datas section at the head of `t` joined to it.
#[verifier::opaque]
pub open spec fn spec_add_datas(t: Seq<u8>, acc: ModuleV) -> Decoded<ModuleV> {
    match DataSection::spec_parse(t) {
        Err(e) => Err(e),
        Ok((sec, n)) => if acc.datas.size + sec.size > u32::MAX {
            Err(ParseError::SectionTooLarge(11))
        } else {
            Ok((ModuleV { datas: acc.datas.concat(sec), ..acc }, n))
        },
    }
}

/// The module `acc` with the section of tag `id` whose size and content
/// stand at the head of `t`. A custom section is read and left out; the
/// `start` and `data count` sections are not implemented.
#[verifier::opaque]
pub open spec fn spec_section(id: u8, t: Seq<u8>, acc: ModuleV) -> Decoded<ModuleV> {
    if id == 0 {
        match CustomSection::spec_parse(t) {
            Err(e) => Err(e),
            Ok((_, n)) => Ok((acc, n)),
        }
    } else if id == 1 {
        spec_add_types(t, acc)
    } else if id == 2 {
        spec_add_imports(t, acc)
    } else if id == 3 {
        spec_add_funcs(t, acc)
    } else if id == 4 {
        spec_add_tables(t, acc)
    } else if id == 5 {
        spec_add_mems(t, acc)
    } else if id == 6 {
        spec_add_globals(t, acc)
    } else if id == 7 {
        spec_add_exports(t, acc)
    } else if id == 9 {
        spec_add_elems(t, acc)
    } else if id == 10 {
        spec_add_code(t, acc)
    } else if id == 11 {
        spec_add_datas(t, acc)
    } else if id == 8 || id == 12 {
        Err(ParseError::UnimplementedSection(id))
    } else {
        Err(ParseError::UnknownSection(id))
    }
}

/// The names that a failed decoding of the section of tag `id` leaves on
/// the trail.
pub open spec fn spec_section_trail(id: u8, t: Seq<u8>) -> Seq<&'static str> {
    if id == 0 {
        if CustomSection::spec_parse(t) is Err {
            trail_of::<CustomSection>(t)
        } else {
            Seq::empty()
        }
    } else if id == 1 {
        if TypeSection::spec_parse(t) is Err {
            trail_of::<TypeSection>(t)
        } else {
            Seq::empty()
        }
    } else if id == 2 {
        if ImportSection::spec_parse(t) is Err {
            trail_of::<ImportSection>(t)
        } else {
            Seq::empty()
        }
    } else if id == 3 {
        if FunctionSection::spec_parse(t) is Err {
            trail_of::<FunctionSection>(t)
        } else {
            Seq::empty()
        }
    } else if id == 4 {
        if TableSection::spec_parse(t) is Err {
            trail_of::<TableSection>(t)
        } else {
            Seq::empty()
        }
    } else if id == 5 {
        if MemorySection::spec_parse(t) is Err {
            trail_of::<MemorySection>(t)
        } else {
            Seq::empty()
        }
    } else if id == 6 {
        if GlobalSection::spec_parse(t) is Err {
            trail_of::<GlobalSection>(t)
        } else {
            Seq::empty()
        }
    } else if id == 7 {
        if ExportSection::spec_parse(t) is Err {
            trail_of::<ExportSection>(t)
        } else {
            Seq::empty()
        }
    } else if id == 9 {
        if ElementSection::spec_parse(t) is Err {
            trail_of::<ElementSection>(t)
        } else {
            Seq::empty()
        }
    } else if id == 10 {
        if CodeSection::spec_parse(t) is Err {
            trail_of::<CodeSection>(t)
        } else {
            Seq::empty()
        }
    } else if id == 11 {
        if DataSection::spec_parse(t) is Err {
            trail_of::<DataSection>(t)
        } else {
            Seq::empty()
        }
    } else {
        Seq::empty()
    }
}

/// The names that a failed decoding of the sections of `s` leaves on the
/// trail: those of the first section that fails.
pub open spec fn spec_sections_trail(s: Seq<u8>, acc: ModuleV) -> Seq<&'static str>
    decreases s.len(),
{
    if s.len() == 0 {
        Seq::empty()
    } else {
        match spec_section(s[0], s.skip(1), acc) {
            Err(_) => spec_section_trail(s[0], s.skip(1)),
            Ok((next, n)) => if 1 + n > s.len() {
                Seq::empty()
            } else {
                spec_sections_trail(s.skip(1 + n as int), next)
            },
        }
    }
}

/// The names that a failed decoding of a module leaves on the trail.
pub open spec fn spec_module_trail(s: Seq<u8>) -> Seq<&'static str> {
    if spec_header(s) is Err {
        Seq::empty()
    } else {
        spec_sections_trail(s.skip(8), empty_module())
    }
}

/// The module `acc` with every section of `s`, in order.
pub open spec fn spec_sections(s: Seq<u8>, acc: ModuleV) -> Result<ModuleV, ParseError>
    decreases s.len(),
{
    if s.len() == 0 {
        Ok(acc)
    } else {
        match spec_section(s[0], s.skip(1), acc) {
            Err(e) => Err(e),
            Ok((next, n)) => if 1 + n > s.len() {
                Err(ParseError::UnexpectedEof)
            } else {
                spec_sections(s.skip(1 + n as int), next)
            },
        }
    }
}

/// The module that the bytes `s` spell.
pub open spec fn spec_module(s: Seq<u8>) -> Result<ModuleV, ParseError> {
    match spec_header(s) {
        Err(e) => Err(e),
        Ok(_) => spec_sections(s.skip(8), empty_module()),
    }
}

impl Module {
    /// A module without any entry.
    pub fn empty() -> (m: Self)
        ensures
            m.deep_view() == empty_module(),
    {
        Module {
            magic: [0x00, 0x61, 0x73, 0x6D],
            version: [0x01, 0x00, 0x00, 0x00],
            types: TypeSection::default(),
            imports: ImportSection::default(),
            funcs: FunctionSection::default(),
            exports: ExportSection::default(),
            tables: TableSection::default(),
            mems: MemorySection::default(),
            globals: GlobalSection::default(),
            elems: ElementSection::default(),
            code: CodeSection::default(),
            datas: DataSection::default(),
            customs: CustomSection::default(),
        }
    }

    /// Decodes the section of tag `id` and joins it to the module.
    fn add_section(&mut self, id: u8, data: &mut Cursor<'_>, stack: &mut Vec<&'static str>) -> (r:
        Result<(), ParseError>)
        requires
            old(data).wf(),
        ensures
            final(data).data == old(data).data,
            final(data).wf(),
            match spec_section(id, old(data).rest(), old(self).deep_view()) {
                Ok((next, n)) => r is Ok && final(self).deep_view() == next && final(data).pos
                    == old(data).pos + n,
                Err(e) => r is Err && r->Err_0 == e,
            },
            trail_after(
                old(stack)@,
                final(stack)@,
                r is Ok,
                spec_section_trail(id, old(data).rest()),
            ),
    {
        proof {
            reveal(spec_section);
            reveal(spec_add_types);
            reveal(spec_add_imports);
            reveal(spec_add_funcs);
            reveal(spec_add_tables);
            reveal(spec_add_mems);
            reveal(spec_add_globals);
            reveal(spec_add_exports);
            reveal(spec_add_elems);
            reveal(spec_add_code);
            reveal(spec_add_datas);
        }
        if id == 0 {
            let _ = CustomSection::parse(data, stack)?;
            Ok(())
        } else if id == 1 {
            let sec = TypeSection::parse(data, stack)?;
            if u32::MAX - self.types.size < sec.size {
                return Err(ParseError::SectionTooLarge(1));
            }
            self.types.concat(sec);
            Ok(())
        } else if id == 2 {
            let sec = ImportSection::parse(data, stack)?;
            if u32::MAX - self.imports.size < sec.size {
                return Err(ParseError::SectionTooLarge(2));
            }
            self.imports.concat(sec);
            Ok(())
        } else if id == 3 {
            let sec = FunctionSection::parse(data, stack)?;
            if u32::MAX - self.funcs.size < sec.size {
                return Err(ParseError::SectionTooLarge(3));
            }
            self.funcs.concat(sec);
            Ok(())
        } else if id == 4 {
            let sec = TableSection::parse(data, stack)?;
            if u32::MAX - self.tables.size < sec.size {
                return Err(ParseError::SectionTooLarge(4));
            }
            self.tables.concat(sec);
            Ok(())
        } else if id == 5 {
            let sec = MemorySection::parse(data, stack)?;
            if u32::MAX - self.mems.size < sec.size {
                return Err(ParseError::SectionTooLarge(5));
            }
            self.mems.concat(sec);
            Ok(())
        } else if id == 6 {
            let sec = GlobalSection::parse(data, stack)?;
            if u32::MAX - self.globals.size < sec.size {
                return Err(ParseError::SectionTooLarge(6));
            }
            self.globals.concat(sec);
            Ok(())
        } else if id == 7 {
            let sec = ExportSection::parse(data, stack)?;
            if u32::MAX - self.exports.size < sec.size {
                return Err(ParseError::SectionTooLarge(7));
            }
            self.exports.concat(sec);
            Ok(())
        } else if id == 9 {
            let sec = ElementSection::parse(data, stack)?;
            if u32::MAX - self.elems.size < sec.size {
                return Err(ParseError::SectionTooLarge(9));
            }
            self.elems.concat(sec);
            Ok(())
        } else if id == 10 {
            let sec = CodeSection::parse(data, stack)?;
            if u32::MAX - self.code.size < sec.size {
                return Err(ParseError::SectionTooLarge(10));
            }
            self.code.concat(sec);
            Ok(())
        } else if id == 11 {
            let sec = DataSection::parse(data, stack)?;
            if u32::MAX - self.datas.size < sec.size {
                return Err(ParseError::SectionTooLarge(11));
            }
            self.datas.concat(sec);
            Ok(())
        } else if id == 8 || id == 12 {
            Err(ParseError::UnimplementedSection(id))
        } else {
            Err(ParseError::UnknownSection(id))
        }
    }
}

impl Parsable for Module {
    open spec fn spec_parse(s: Seq<u8>) -> Decoded<ModuleV> {
        match spec_module(s) {
            Err(e) => Err(e),
            Ok(m) => Ok((m, s.len())),
        }
    }

    open spec fn spec_name() -> &'static str {
        "Module"
    }

    open spec fn spec_trail(s: Seq<u8>) -> Seq<&'static str> {
        spec_module_trail(s)
    }

    fn name() -> (n: &'static str) {
        "Module"
    }

    fn parse_inner(data: &mut Cursor<'_>, stack: &mut Vec<&'static str>) -> (r: Result<
        Self,
        ParseError,
    >) {
        let ghost start = *data;
        let ghost s = data.rest();
        let magic = data.read_exact(4)?;
        if !(magic[0] == 0x00 && magic[1] == 0x61 && magic[2] == 0x73 && magic[3] == 0x6D) {
            return Err(ParseError::InvalidHeader);
        }
        proof {
            lemma_advance(start, *data, 4);
        }
        let version = data.read_exact(4)?;
        if !(version[0] == 0x01 && version[1] == 0x00 && version[2] == 0x00 && version[3] == 0x00) {
            return Err(ParseError::InvalidVersion);
        }
        proof {
            lemma_advance(start, *data, 8);
        }
        let mut m = Module::empty();
        while !data.is_empty()
            invariant
                data.wf(),
                start.wf(),
                start == *old(data),
                s == start.rest(),
                data.data == start.data,
                data.pos >= start.pos + 8,
                stack@ == old(stack)@,
                spec_header(s) is Ok,
                spec_sections(s.skip(8), empty_module()) == spec_sections(
                    data.rest(),
                    m.deep_view(),
                ),
                spec_sections_trail(s.skip(8), empty_module()) == spec_sections_trail(
                    data.rest(),
                    m.deep_view(),
                ),
            decreases data.rest().len(),
        {
            let ghost before = *data;
            let id = data.read_u8()?;
            proof {
                lemma_advance(before, *data, 1);
            }
            m.add_section(id, data, stack)?;
            proof {
                lemma_advance(before, *data, (data.pos - before.pos) as nat);
            }
        }
        proof {
            lemma_advance(start, *data, (data.pos - start.pos) as nat);
        }
        Ok(m)
    }
}

} // verus!
