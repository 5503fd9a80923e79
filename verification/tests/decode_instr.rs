use wasm_interp::parser::instr::{parse_body, parse_instr};
use wasm_interp::parser::plain::parse_plain;
use wasm_interp::parser::{
    BlockType, ByteContext, Code, Cursor, CustomSection, Data, DataMode, DataSection, Export,
    ExportDesc, Expr, FuncIdx, FuncType, GlobalIdX, GlobalType, IBinOp, IRelOp, Import,
    ImportDesc, Instr, LabelIdX, Limits, LoadOp, LocalIdX, MemArg, MemIdX, MemType, Module,
    Mut, Name, Parsable, ParseError, PlainInstr, RefTyp, ResultType, StoreOp, TableIdX,
    TableType, Terminator, TruncSatOp, TypeIdX, TypeSection, ValType, Width, CvtOp, DataIdx,
    FRelOp, FBinOp, FUnOp, IUnOp,
};

fn plain(bytes: &[u8]) -> (Result<PlainInstr, ParseError>, usize) {
    let mut trail = Vec::new();
    let mut c = Cursor::new(bytes);
    let r = parse_plain(&mut c, &mut trail);
    (r, c.pos)
}

fn instr(bytes: &[u8]) -> Result<Instr, ParseError> {
    let mut trail = Vec::new();
    let mut c = Cursor::new(bytes);
    let r = Instr::parse(&mut c, &mut trail);
    if r.is_ok() {
        assert_eq!(c.pos, bytes.len());
        assert!(trail.is_empty());
    }
    r
}

fn decode<T: Parsable>(bytes: &[u8]) -> Result<T, ParseError> {
    let mut trail = Vec::new();
    let mut c = Cursor::new(bytes);
    T::parse(&mut c, &mut trail)
}

#[test]
fn value_types_have_their_tags() {
    assert_eq!(decode::<ValType>(&[0x7F]), Ok(ValType::I32));
    assert_eq!(decode::<ValType>(&[0x7E]), Ok(ValType::I64));
    assert_eq!(decode::<ValType>(&[0x7D]), Ok(ValType::F32));
    assert_eq!(decode::<ValType>(&[0x7C]), Ok(ValType::F64));
    assert_eq!(decode::<ValType>(&[0x70]), Ok(ValType::FuncRef));
    assert_eq!(decode::<ValType>(&[0x6F]), Ok(ValType::ExternRef));
    assert_eq!(
        decode::<ValType>(&[0x6E]),
        Err(ParseError::InvalidByte(ByteContext::ValType, 0x6E))
    );
    assert_eq!(decode::<ValType>(&[]), Err(ParseError::UnexpectedEof));
}

#[test]
fn block_types() {
    assert_eq!(decode::<BlockType>(&[0x40]), Ok(BlockType::Empty));
    assert_eq!(decode::<BlockType>(&[0x7E]), Ok(BlockType::Single(ValType::I64)));
    assert_eq!(decode::<BlockType>(&[0x05]), Ok(BlockType::TypeIndex(5)));
    assert_eq!(decode::<BlockType>(&[0x80, 0x01]), Ok(BlockType::TypeIndex(128)));
    assert_eq!(
        decode::<BlockType>(&[0x41]),
        Err(ParseError::InvalidByte(ByteContext::BlockType, 0x41))
    );
}

#[test]
fn function_types() {
    let t = decode::<FuncType>(&[0x60, 0x02, 0x7F, 0x7E, 0x01, 0x7C]).unwrap();
    assert_eq!(t.input, ResultType { types: vec![ValType::I32, ValType::I64] });
    assert_eq!(t.output, ResultType { types: vec![ValType::F64] });
    assert_eq!(decode::<FuncType>(&[0x61, 0x00, 0x00]), Err(ParseError::InvalidFuncType(0x61)));
}

#[test]
fn limits_and_table_types() {
    assert_eq!(decode::<Limits>(&[0x00, 0x03]), Ok(Limits { min: 3, max: None }));
    assert_eq!(decode::<Limits>(&[0x01, 0x03, 0x09]), Ok(Limits { min: 3, max: Some(9) }));
    assert_eq!(
        decode::<Limits>(&[0x02, 0x03]),
        Err(ParseError::InvalidByte(ByteContext::Limits, 0x02))
    );
    assert_eq!(
        decode::<TableType>(&[0x70, 0x00, 0x01]),
        Ok(TableType { et: RefTyp::FuncRef, lim: Limits { min: 1, max: None } })
    );
    assert_eq!(
        decode::<MemType>(&[0x01, 0x01, 0x02]),
        Ok(MemType { lim: Limits { min: 1, max: Some(2) } })
    );
    assert_eq!(
        decode::<GlobalType>(&[0x7F, 0x01]),
        Ok(GlobalType { t: ValType::I32, m: Mut::Var })
    );
}

#[test]
fn names_are_utf8() {
    assert_eq!(decode::<Name>(&[0x03, b'a', b'b', b'c']), Ok(Name("abc".to_string())));
    assert_eq!(decode::<Name>(&[0x02, 0xC3, 0xA9]), Ok(Name("é".to_string())));
    assert_eq!(decode::<Name>(&[0x02, 0xC3, 0x28]), Err(ParseError::Utf8Error));
    assert_eq!(decode::<Name>(&[0x03, b'a', b'b']), Err(ParseError::UnexpectedEof));
    assert_eq!(decode::<Name>(&[0x00]), Ok(Name(String::new())));
}

#[test]
fn imports_and_exports() {
    let i = decode::<Import>(&[0x01, b'm', 0x01, b'f', 0x00, 0x02]).unwrap();
    assert_eq!(i.module, Name("m".to_string()));
    assert_eq!(i.name, Name("f".to_string()));
    assert_eq!(i.desc, ImportDesc::Func(TypeIdX(2)));
    let e = decode::<Export>(&[0x01, b'g', 0x03, 0x04]).unwrap();
    assert_eq!(e.nm, Name("g".to_string()));
    assert_eq!(e.d, ExportDesc::Global(GlobalIdX(4)));
    assert_eq!(
        decode::<Export>(&[0x01, b'g', 0x04, 0x04]),
        Err(ParseError::InvalidByte(ByteContext::ExportDesc, 0x04))
    );
    assert_eq!(
        decode::<ImportDesc>(&[0x02, 0x00, 0x01]),
        Ok(ImportDesc::Mem(MemType { lim: Limits { min: 1, max: None } }))
    );
    assert_eq!(decode::<ExportDesc>(&[0x02, 0x00]), Ok(ExportDesc::Mem(MemIdX(0))));
    assert_eq!(decode::<ExportDesc>(&[0x01, 0x00]), Ok(ExportDesc::Table(TableIdX(0))));
}

#[test]
fn simple_instructions() {
    assert_eq!(plain(&[0x00]), (Ok(PlainInstr::Unreachable), 1));
    assert_eq!(plain(&[0x01]), (Ok(PlainInstr::Nop), 1));
    assert_eq!(plain(&[0x0F]), (Ok(PlainInstr::Return), 1));
    assert_eq!(plain(&[0x1A]), (Ok(PlainInstr::Drop), 1));
    assert_eq!(plain(&[0x1B]), (Ok(PlainInstr::Select), 1));
    assert_eq!(plain(&[0x45]), (Ok(PlainInstr::IEqz(Width::W32)), 1));
    assert_eq!(plain(&[0x50]), (Ok(PlainInstr::IEqz(Width::W64)), 1));
    assert_eq!(plain(&[0x46]), (Ok(PlainInstr::IRel(Width::W32, IRelOp::Eq)), 1));
    assert_eq!(plain(&[0x4F]), (Ok(PlainInstr::IRel(Width::W32, IRelOp::GeU)), 1));
    assert_eq!(plain(&[0x5A]), (Ok(PlainInstr::IRel(Width::W64, IRelOp::GeU)), 1));
    assert_eq!(plain(&[0x5E]), (Ok(PlainInstr::FRel(Width::W32, FRelOp::Gt)), 1));
    assert_eq!(plain(&[0x66]), (Ok(PlainInstr::FRel(Width::W64, FRelOp::Ge)), 1));
    assert_eq!(plain(&[0x67]), (Ok(PlainInstr::IUn(Width::W32, IUnOp::Clz)), 1));
    assert_eq!(plain(&[0x7B]), (Ok(PlainInstr::IUn(Width::W64, IUnOp::Popcnt)), 1));
    assert_eq!(plain(&[0x6A]), (Ok(PlainInstr::IBin(Width::W32, IBinOp::Add)), 1));
    assert_eq!(plain(&[0x78]), (Ok(PlainInstr::IBin(Width::W32, IBinOp::Rotr)), 1));
    assert_eq!(plain(&[0x7C]), (Ok(PlainInstr::IBin(Width::W64, IBinOp::Add)), 1));
    assert_eq!(plain(&[0x8A]), (Ok(PlainInstr::IBin(Width::W64, IBinOp::Rotr)), 1));
    assert_eq!(plain(&[0x8B]), (Ok(PlainInstr::FUn(Width::W32, FUnOp::Abs)), 1));
    assert_eq!(plain(&[0x9F]), (Ok(PlainInstr::FUn(Width::W64, FUnOp::Sqrt)), 1));
    assert_eq!(plain(&[0x92]), (Ok(PlainInstr::FBin(Width::W32, FBinOp::Add)), 1));
    assert_eq!(plain(&[0xA6]), (Ok(PlainInstr::FBin(Width::W64, FBinOp::Copysign)), 1));
    assert_eq!(plain(&[0xA7]), (Ok(PlainInstr::Cvt(CvtOp::I32WrapI64)), 1));
    assert_eq!(plain(&[0xBF]), (Ok(PlainInstr::Cvt(CvtOp::F64ReinterpretI64)), 1));
    assert_eq!(plain(&[0xC4]), (Ok(PlainInstr::Cvt(CvtOp::I64Extend32S)), 1));
}

#[test]
fn instructions_with_immediates() {
    assert_eq!(plain(&[0x0C, 0x02]), (Ok(PlainInstr::Br(LabelIdX(2))), 2));
    assert_eq!(plain(&[0x0D, 0x00]), (Ok(PlainInstr::BrIf(LabelIdX(0))), 2));
    assert_eq!(plain(&[0x10, 0x80, 0x01]), (Ok(PlainInstr::Call(FuncIdx(128))), 3));
    assert_eq!(
        plain(&[0x11, 0x03, 0x00]),
        (Ok(PlainInstr::CallIndirect(TypeIdX(3), TableIdX(0))), 3)
    );
    assert_eq!(plain(&[0x20, 0x01]), (Ok(PlainInstr::LocalGet(LocalIdX(1))), 2));
    assert_eq!(plain(&[0x21, 0x01]), (Ok(PlainInstr::LocalSet(LocalIdX(1))), 2));
    assert_eq!(plain(&[0x22, 0x01]), (Ok(PlainInstr::LocalTee(LocalIdX(1))), 2));
    assert_eq!(plain(&[0x23, 0x01]), (Ok(PlainInstr::GlobalGet(GlobalIdX(1))), 2));
    assert_eq!(plain(&[0x24, 0x01]), (Ok(PlainInstr::GlobalSet(GlobalIdX(1))), 2));
    assert_eq!(plain(&[0x26, 0x00]), (Ok(PlainInstr::TableSet(TableIdX(0))), 2));
    assert_eq!(plain(&[0x41, 0x7F]), (Ok(PlainInstr::I32Const(-1)), 2));
    assert_eq!(plain(&[0x42, 0x80, 0x7F]), (Ok(PlainInstr::I64Const(-128)), 3));
    assert_eq!(
        plain(&[0x43, 0x00, 0x00, 0x80, 0x3F]),
        (Ok(PlainInstr::F32Const(1.0f32.to_bits())), 5)
    );
    assert_eq!(
        plain(&[0x44, 0, 0, 0, 0, 0, 0, 0xF0, 0x3F]),
        (Ok(PlainInstr::F64Const(1.0f64.to_bits())), 9)
    );
    assert_eq!(plain(&[0x43, 0x00, 0x00]).0, Err(ParseError::UnexpectedEof));
    assert_eq!(plain(&[0xD0, 0x70]), (Ok(PlainInstr::RefNull(RefTyp::FuncRef)), 2));
    assert_eq!(plain(&[0xD2, 0x07]), (Ok(PlainInstr::RefFunc(FuncIdx(7))), 2));
}

#[test]
fn unknown_opcodes_are_errors() {
    for op in [0x06u8, 0x0A, 0x12, 0x19, 0x1C, 0x1F, 0x25, 0x27, 0xC5, 0xCF, 0xD1, 0xD3, 0xFB, 0xFD, 0xFE, 0xFF] {
        assert_eq!(plain(&[op, 0x00]).0, Err(ParseError::UnknownOpcode(op)));
    }
}

#[test]
fn sentinels_for_end_and_else() {
    assert_eq!(plain(&[0x0B]).0, Err(ParseError::EndOfInstructions));
    assert_eq!(plain(&[0x05]).0, Err(ParseError::ElseHit));
    assert_eq!(instr(&[0x0B]), Err(ParseError::EndOfInstructions));
}

#[test]
fn memory_size_and_grow_reserve_a_zero() {
    assert_eq!(plain(&[0x3F, 0x00]), (Ok(PlainInstr::MemorySize), 2));
    assert_eq!(plain(&[0x40, 0x00]), (Ok(PlainInstr::MemoryGrow), 2));
    assert_eq!(plain(&[0x40, 0x01]).0, Err(ParseError::Unknown0x40(0x01)));
    assert_eq!(plain(&[0x3F, 0x7F]).0, Err(ParseError::Unknown0x40(0x7F)));
    assert_eq!(plain(&[0x40]).0, Err(ParseError::UnexpectedEof));
}

#[test]
fn prefixed_instructions() {
    assert_eq!(plain(&[0xFC, 0x00]), (Ok(PlainInstr::TruncSat(TruncSatOp::I32F32S)), 2));
    assert_eq!(plain(&[0xFC, 0x02]), (Ok(PlainInstr::TruncSat(TruncSatOp::I32F64S)), 2));
    assert_eq!(plain(&[0xFC, 0x07]), (Ok(PlainInstr::TruncSat(TruncSatOp::I64F64U)), 2));
    assert_eq!(plain(&[0xFC, 0x08, 0x03, 0x00]), (Ok(PlainInstr::MemoryInit(DataIdx(3), 0)), 4));
    assert_eq!(plain(&[0xFC, 0x09, 0x03]), (Ok(PlainInstr::DataDrop(DataIdx(3))), 3));
    assert_eq!(plain(&[0xFC, 0x0A, 0x00, 0x00]), (Ok(PlainInstr::MemoryCopy(0, 0)), 4));
    assert_eq!(plain(&[0xFC, 0x0B, 0x00]), (Ok(PlainInstr::MemoryFill(0)), 3));
    assert_eq!(plain(&[0xFC, 0x0C]).0, Err(ParseError::UnknownOpcode0xFC(12)));
    assert_eq!(plain(&[0xFC, 0x80, 0x01]).0, Err(ParseError::UnknownOpcode0xFC(128)));
}

#[test]
fn loads_and_stores_accept_natural_alignment() {
    let widths: [(u8, u32); 23] = [
        (0x28, 2), (0x29, 3), (0x2A, 2), (0x2B, 3), (0x2C, 0), (0x2D, 0), (0x2E, 1), (0x2F, 1),
        (0x30, 0), (0x31, 0), (0x32, 1), (0x33, 1), (0x34, 2), (0x35, 2), (0x36, 2), (0x37, 3),
        (0x38, 2), (0x39, 3), (0x3A, 0), (0x3B, 1), (0x3C, 0), (0x3D, 1), (0x3E, 2),
    ];
    for (op, max) in widths {
        for align in 0..=max {
            let (r, pos) = plain(&[op, align as u8, 0x10, 0xAA]);
            let m = MemArg { align, offset: 16 };
            match r {
                Ok(PlainInstr::Load(_, got)) | Ok(PlainInstr::Store(_, got)) => assert_eq!(got, m),
                other => panic!("opcode {op:#x}: {other:?}"),
            }
            assert_eq!(pos, 3);
        }
        // One more is too much, and nothing behind the immediate is read.
        let (r, pos) = plain(&[op, (max + 1) as u8, 0x10, 0xAA]);
        assert_eq!(r, Err(ParseError::AlignmentError));
        assert_eq!(pos, 3);
    }
    assert_eq!(
        plain(&[0x28, 0x02, 0x00]).0,
        Ok(PlainInstr::Load(LoadOp::I32, MemArg { align: 2, offset: 0 }))
    );
    assert_eq!(
        plain(&[0x3E, 0x00, 0x04]).0,
        Ok(PlainInstr::Store(StoreOp::I64Store32, MemArg { align: 0, offset: 4 }))
    );
}

#[test]
fn blocks_own_their_bodies() {
    // block (result i32) i32.const 1 end
    assert_eq!(
        instr(&[0x02, 0x7F, 0x41, 0x01, 0x0B]),
        Ok(Instr::Block(
            BlockType::Single(ValType::I32),
            vec![Instr::Plain(PlainInstr::I32Const(1))]
        ))
    );
    // loop nop (block) end
    assert_eq!(
        instr(&[0x03, 0x40, 0x01, 0x02, 0x40, 0x0B, 0x0B]),
        Ok(Instr::Loop(
            BlockType::Empty,
            vec![Instr::Plain(PlainInstr::Nop), Instr::Block(BlockType::Empty, vec![])]
        ))
    );
}

#[test]
fn if_with_and_without_else() {
    assert_eq!(
        instr(&[0x04, 0x40, 0x01, 0x0B]),
        Ok(Instr::IfElse(BlockType::Empty, vec![Instr::Plain(PlainInstr::Nop)], None))
    );
    assert_eq!(
        instr(&[0x04, 0x40, 0x01, 0x05, 0x00, 0x0B]),
        Ok(Instr::IfElse(
            BlockType::Empty,
            vec![Instr::Plain(PlainInstr::Nop)],
            Some(vec![Instr::Plain(PlainInstr::Unreachable)])
        ))
    );
    assert_eq!(
        instr(&[0x04, 0x40, 0x05, 0x0B]),
        Ok(Instr::IfElse(BlockType::Empty, vec![], Some(vec![])))
    );
    // An else in a block, and a second else in an if, stand for nothing.
    assert_eq!(instr(&[0x02, 0x40, 0x05, 0x0B]), Err(ParseError::UnknownOpcode(0x05)));
    assert_eq!(instr(&[0x04, 0x40, 0x05, 0x05, 0x0B]), Err(ParseError::UnknownOpcode(0x05)));
    // A body that does not end.
    assert_eq!(instr(&[0x02, 0x40, 0x01]), Err(ParseError::UnexpectedEof));
}

#[test]
fn branch_tables() {
    assert_eq!(
        instr(&[0x0E, 0x02, 0x00, 0x01, 0x02]),
        Ok(Instr::BrTable(vec![LabelIdX(0), LabelIdX(1)], LabelIdX(2)))
    );
    assert_eq!(instr(&[0x0E, 0x00, 0x03]), Ok(Instr::BrTable(vec![], LabelIdX(3))));
}

#[test]
fn bodies_end_at_their_terminator() {
    let bytes = [0x01, 0x1A, 0x0B, 0xFF];
    let mut trail = Vec::new();
    let mut c = Cursor::new(&bytes);
    let (body, t) = parse_body(&mut c, &mut trail).unwrap();
    assert_eq!(body, vec![Instr::Plain(PlainInstr::Nop), Instr::Plain(PlainInstr::Drop)]);
    assert_eq!(t, Terminator::End);
    assert_eq!(c.pos, 3);
    let bytes = [0x05];
    let mut c = Cursor::new(&bytes);
    assert_eq!(parse_body(&mut c, &mut trail), Ok((vec![], Terminator::Else)));
    assert_eq!(decode::<Expr>(&[0x41, 0x00, 0x0B]).unwrap().instrs.len(), 1);
    assert_eq!(decode::<Expr>(&[0x41, 0x00, 0x05]), Err(ParseError::UnknownOpcode(0x05)));
}

#[test]
fn the_trail_leads_to_the_failing_byte() {
    // A block that holds a call whose index is cut short.
    let bytes = [0x02, 0x40, 0x10, 0x80];
    let mut trail = vec!["outer"];
    let mut c = Cursor::new(&bytes);
    assert_eq!(Instr::parse(&mut c, &mut trail), Err(ParseError::UnexpectedEof));
    assert_eq!(trail, vec!["outer", "Instr", "Instr", "FuncIdx", "u32"]);
    // On success the trail is as it was.
    let bytes = [0x02, 0x40, 0x10, 0x01, 0x0B];
    let mut trail = vec!["outer"];
    let mut c = Cursor::new(&bytes);
    assert!(parse_instr(&mut c, &mut trail).is_ok());
    assert_eq!(trail, vec!["outer"]);
}

#[test]
fn data_segments() {
    let d = decode::<Data>(&[0x00, 0x41, 0x08, 0x0B, 0x02, 0xAA, 0xBB]).unwrap();
    assert_eq!(d.init, vec![0xAA, 0xBB]);
    assert_eq!(
        d.mode,
        DataMode::Active(MemIdX(0), Expr { instrs: vec![Instr::Plain(PlainInstr::I32Const(8))] })
    );
    let d = decode::<Data>(&[0x01, 0x01, 0xCC]).unwrap();
    assert_eq!(d.mode, DataMode::Passive);
    assert_eq!(d.init, vec![0xCC]);
    assert_eq!(
        decode::<Data>(&[0x03, 0x00]),
        Err(ParseError::InvalidByte(ByteContext::DataMode, 0x03))
    );
}

#[test]
fn code_entries_fill_their_size() {
    let c = decode::<Code>(&[0x04, 0x01, 0x02, 0x7F, 0x0B]).unwrap();
    assert_eq!(c.size, 4);
    assert_eq!(c.locals.len(), 1);
    assert_eq!(c.locals[0].n, 2);
    assert_eq!(c.locals[0].t, ValType::I32);
    assert!(c.body.instrs.is_empty());
    // The body ends before its declared size does.
    assert_eq!(
        decode::<Code>(&[0x05, 0x01, 0x02, 0x7F, 0x0B, 0x00]),
        Err(ParseError::SectionSizeMismatch(10))
    );
    // The declared size reaches beyond the input.
    assert_eq!(decode::<Code>(&[0x09, 0x00, 0x0B]), Err(ParseError::UnexpectedEof));
}

#[test]
fn sections_are_delimited_by_their_size() {
    let ok = [0x00, 0x61, 0x73, 0x6D, 0x01, 0x00, 0x00, 0x00, 0x01, 0x04, 0x01, 0x60, 0x00, 0x00];
    let m = decode::<Module>(&ok).unwrap();
    assert_eq!(m.types.size, 4);
    assert_eq!(m.types.function_types.len(), 1);
    // A byte too many inside the section.
    let long = [0x00, 0x61, 0x73, 0x6D, 0x01, 0x00, 0x00, 0x00, 0x01, 0x05, 0x01, 0x60, 0x00, 0x00, 0x00];
    assert_eq!(decode::<Module>(&long), Err(ParseError::SectionSizeMismatch(1)));
    // The section ends inside an entry.
    let short = [0x00, 0x61, 0x73, 0x6D, 0x01, 0x00, 0x00, 0x00, 0x01, 0x03, 0x01, 0x60, 0x00, 0x00];
    assert_eq!(decode::<Module>(&short), Err(ParseError::UnexpectedEof));
}

#[test]
fn repeated_sections_are_joined() {
    let bytes = [
        0x00, 0x61, 0x73, 0x6D, 0x01, 0x00, 0x00, 0x00,
        0x01, 0x04, 0x01, 0x60, 0x00, 0x00,
        0x00, 0x03, 0x01, b'x', 0xEE, // a custom section in between
        0x01, 0x05, 0x01, 0x60, 0x01, 0x7F, 0x00,
    ];
    let m = decode::<Module>(&bytes).unwrap();
    assert_eq!(m.types.size, 9);
    assert_eq!(m.types.function_types.len(), 2);
    assert_eq!(m.types.function_types[1].input.types, vec![ValType::I32]);
    // Custom sections are read and left out.
    assert_eq!(m.customs, CustomSection::default());
}

#[test]
fn custom_sections_join_their_names() {
    let mut a = decode::<CustomSection>(&[0x04, 0x02, b'a', b'b', 0x01]).unwrap();
    assert_eq!(a.size, 4);
    assert_eq!(a.name, Name("ab".to_string()));
    assert_eq!(a.sections, vec![vec![0x01]]);
    let b = decode::<CustomSection>(&[0x03, 0x01, b'c', 0x02]).unwrap();
    a.concat(b);
    assert_eq!(a.size, 7);
    assert_eq!(a.name, Name("ab+c".to_string()));
    assert_eq!(a.sections, vec![vec![0x01], vec![0x02]]);
    let mut empty = CustomSection::default();
    empty.concat(a);
    assert_eq!(empty.name, Name("ab+c".to_string()));
    assert_eq!(empty.size, 7);
    assert_eq!(
        decode::<CustomSection>(&[0x03, 0x02, 0xFF, 0xFF]),
        Err(ParseError::Utf8Error)
    );
}

#[test]
fn data_sections_join() {
    let mut a = decode::<DataSection>(&[0x04, 0x01, 0x01, 0x01, 0xAA]).unwrap();
    let b = decode::<DataSection>(&[0x05, 0x01, 0x01, 0x02, 0xBB, 0xCC]).unwrap();
    a.concat(b);
    assert_eq!(a.size, 9);
    assert_eq!(a.data.len(), 2);
    assert_eq!(a.data[0].init, vec![0xAA]);
    assert_eq!(a.data[1].init, vec![0xBB, 0xCC]);
    let mut t = TypeSection::default();
    t.concat(decode::<TypeSection>(&[0x04, 0x01, 0x60, 0x00, 0x00]).unwrap());
    assert_eq!(t.size, 4);
    assert_eq!(t.function_types.len(), 1);
}

#[test]
fn the_trail_names_the_item_that_fails() {
    // A function type whose second result type is no value type.
    let bytes = [0x60, 0x00, 0x02, 0x7F, 0x01];
    let mut trail = Vec::new();
    let mut c = Cursor::new(&bytes);
    assert_eq!(
        FuncType::parse(&mut c, &mut trail),
        Err(ParseError::InvalidByte(ByteContext::ValType, 0x01))
    );
    assert_eq!(trail, vec!["FuncType", "ResultType", "Vec", "ValType"]);
    // A type section that ends inside its second entry.
    let bytes = [
        0x00, 0x61, 0x73, 0x6D, 0x01, 0x00, 0x00, 0x00, 0x01, 0x05, 0x02, 0x60, 0x00, 0x00, 0x60,
    ];
    let mut trail = Vec::new();
    let mut c = Cursor::new(&bytes);
    assert_eq!(Module::parse(&mut c, &mut trail), Err(ParseError::UnexpectedEof));
    assert_eq!(trail, vec!["Module", "TypeSection", "Vec", "FuncType", "ResultType", "Vec", "u32"]);
    // A failure of the item itself leaves only its name.
    let bytes = [0x02];
    let mut trail = vec!["x"];
    let mut c = Cursor::new(&bytes);
    assert!(Limits::parse(&mut c, &mut trail).is_err());
    assert_eq!(trail, vec!["x", "Limits"]);
    // A load whose alignment is too large.
    let bytes = [0x28, 0x03, 0x00];
    let mut trail = Vec::new();
    let mut c = Cursor::new(&bytes);
    assert_eq!(Instr::parse(&mut c, &mut trail), Err(ParseError::AlignmentError));
    assert_eq!(trail, vec!["Instr"]);
}
