pub mod blocktype;
pub mod code;
pub mod codesec;
pub mod cursor;
pub mod customsec;
pub mod data;
pub mod datasec;
pub mod elem;
pub mod elemsec;
pub mod encode;
pub mod encode_instr;
pub mod encode_module;
pub mod encode_sections;
pub mod encode_types;
pub mod error;
pub mod export;
pub mod export_section;
pub mod exportdesc;
pub mod expr;
pub mod fixed;
pub mod func;
pub mod funcsec;
pub mod functype;
pub mod global;
pub mod globalsec;
pub mod globaltype;
pub mod import;
pub mod importdesc;
pub mod importsec;
pub mod indices;
pub mod instr;
pub mod limits;
pub mod locals;
pub mod memarg;
pub mod memidx;
pub mod memsec;
pub mod memtype;
pub mod module;
pub mod name;
pub mod ops;
pub mod parsable;
pub mod plain;
pub mod resulttype;
pub mod sized;
pub mod tableidx;
pub mod tablesec;
pub mod tabletype;
pub mod typeidx;
pub mod typing;
pub mod typesec;
pub mod valtype;
pub mod varint;

pub use blocktype::BlockType;
pub use code::Code;
pub use codesec::CodeSection;
pub use cursor::Cursor;
pub use customsec::CustomSection;
pub use data::{Data, DataMode};
pub use datasec::DataSection;
pub use elem::Elem;
pub use elemsec::ElementSection;
pub use error::{ByteContext, ParseError};
pub use export::Export;
pub use export_section::ExportSection;
pub use exportdesc::ExportDesc;
pub use expr::Expr;
pub use func::Func;
pub use funcsec::FunctionSection;
pub use functype::FuncType;
pub use global::Global;
pub use globalsec::GlobalSection;
pub use globaltype::GlobalType;
pub use import::Import;
pub use importdesc::ImportDesc;
pub use importsec::ImportSection;
pub use indices::{DataIdx, ElemIdx, FuncIdx, GlobalIdX, LabelIdX, LocalIdX};
pub use instr::{Instr, InstrV, Terminator, BT};
pub use limits::Limits;
pub use locals::Locals;
pub use memarg::MemArg;
pub use memidx::MemIdX;
pub use memsec::MemorySection;
pub use memtype::MemType;
pub use module::Module;
pub use name::Name;
pub use ops::{
    CvtOp, FBinOp, FRelOp, FUnOp, IBinOp, IRelOp, IUnOp, LoadOp, StoreOp, TruncSatOp, Width,
};
pub use parsable::{DebugStack, Parsable};
pub use plain::PlainInstr;
pub use resulttype::ResultType;
pub use tableidx::TableIdX;
pub use tablesec::TableSection;
pub use tabletype::TableType;
pub use typeidx::TypeIdX;
pub use typing::{TypingRuleError, TypingRules};
pub use typesec::TypeSection;
pub use valtype::{Mut, RefTyp, ValType};
