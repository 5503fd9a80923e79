use vstd::prelude::*;
use crate::parser::blocktype::BlockType;
use crate::parser::indices::LabelIdX;
use crate::parser::instr::{instr_view, instrs_view, lemma_instr_view, Instr, InstrV, BT};
use crate::parser::data::Data;
use crate::parser::elem::Elem;
use crate::parser::export::Export;
use crate::parser::functype::FuncType;
use crate::parser::global::Global;
use crate::parser::import::Import;
use crate::parser::locals::Locals;
use crate::parser::memtype::MemType;
use crate::parser::plain::PlainInstr;
use crate::parser::tabletype::TableType;
use crate::parser::code::Code;
use crate::parser::importdesc::ImportDesc;
use crate::parser::module::Module;
use crate::parser::typeidx::TypeIdX;
use super::error::RuntimeError;
use vstd::slice::slice_to_vec;

verus! {

/// An instruction of a function body laid out in a row. The structured
/// instructions are replaced by marks that hold the places to jump to.
#[derive(Debug, PartialEq)]
pub enum Op {
    /// Opens a block or a loop; holds the place of the mark that closes it.
    BlockStart(BT, usize, BlockType),
    /// Opens an `if`; holds the place of its `else` mark, where it has one,
    /// and the place of the mark that closes it.
    IfStart(Option<usize>, usize, BlockType),
    /// Ends the first arm of an `if`; holds the place of the mark that
    /// closes the `if`.
    Else(usize),
    /// Closes a block, a loop or an `if`; holds the place of the mark that
    /// opened it.
    BlockEnd(BT, usize, BlockType),
    BrTable(Vec<LabelIdX>, LabelIdX),
    Plain(PlainInstr),
}

/// `Op` as a mathematical value.
pub enum OpV {
    BlockStart(BT, usize, BlockType),
    IfStart(Option<usize>, usize, BlockType),
    Else(usize),
    BlockEnd(BT, usize, BlockType),
    BrTable(Seq<LabelIdX>, LabelIdX),
    Plain(PlainInstr),
}

impl View for Op {
    type V = OpV;

    open spec fn view(&self) -> OpV {
        match self {
            Op::BlockStart(k, e, bt) => OpV::BlockStart(*k, *e, *bt),
            Op::IfStart(m, e, bt) => OpV::IfStart(*m, *e, *bt),
            Op::Else(e) => OpV::Else(*e),
            Op::BlockEnd(k, s, bt) => OpV::BlockEnd(*k, *s, *bt),
            Op::BrTable(t, d) => OpV::BrTable(t@, *d),
            Op::Plain(p) => OpV::Plain(*p),
        }
    }
}

/// The mathematical value of a row of instructions.
pub open spec fn ops_view(v: Seq<Op>) -> Seq<OpV> {
    Seq::new(v.len(), |k: int| v[k]@)
}

/// The row that stands for the instruction `i` when its first mark comes to
/// stand at place `base`.
pub open spec fn flat_instr(i: InstrV, base: nat) -> Seq<OpV>
    decreases i, 0nat,
{
    match i {
        InstrV::Block(bt, body) => {
            let inner = flat_seq(body, base + 1);
            seq![OpV::BlockStart(BT::Block, (base + 1 + inner.len()) as usize, bt)] + inner
                + seq![OpV::BlockEnd(BT::Block, base as usize, bt)]
        },
        InstrV::Loop(bt, body) => {
            let inner = flat_seq(body, base + 1);
            seq![OpV::BlockStart(BT::Loop, (base + 1 + inner.len()) as usize, bt)] + inner
                + seq![OpV::BlockEnd(BT::Loop, base as usize, bt)]
        },
        InstrV::IfElse(bt, body, None) => {
            let inner = flat_seq(body, base + 1);
            seq![OpV::IfStart(None, (base + 1 + inner.len()) as usize, bt)] + inner
                + seq![OpV::BlockEnd(BT::Block, base as usize, bt)]
        },
        InstrV::IfElse(bt, body, Some(other)) => {
            let first = flat_seq(body, base + 1);
            let second = flat_seq(other, base + 2 + first.len());
            let end = (base + 2 + first.len() + second.len()) as usize;
            seq![OpV::IfStart(Some((base + 1 + first.len()) as usize), end, bt)] + first
                + seq![OpV::Else(end)] + second + seq![OpV::BlockEnd(BT::Block, base as usize, bt)]
        },
        InstrV::BrTable(table, default) => seq![OpV::BrTable(table, default)],
        InstrV::Plain(p) => seq![OpV::Plain(p)],
    }
}

/// The row that stands for the instructions `v` from place `base` on.
pub open spec fn flat_seq(v: Seq<InstrV>, base: nat) -> Seq<OpV>
    decreases v, 1nat,
{
    if v.len() == 0 {
        Seq::empty()
    } else {
        let front = flat_seq(v.drop_last(), base);
        front + flat_instr(v.last(), base + front.len())
    }
}

/// Copies a table of labels.
fn copy_labels(v: &Vec<LabelIdX>) -> (r: Vec<LabelIdX>)
    ensures
        r@ == v@,
{
    let mut r: Vec<LabelIdX> = Vec::new();
    let mut i: usize = 0;
    while i < v.len()
        invariant
            i <= v@.len(),
            r@ == v@.take(i as int),
        decreases v@.len() - i,
    {
        r.push(v[i]);
        i = i + 1;
        proof {
            assert(r@ =~= v@.take(i as int));
        }
    }
    proof {
        assert(v@.take(v@.len() as int) =~= v@);
    }
    r
}

/// Lays the instructions out behind what `out` holds.
pub fn flatten_into(instrs: &Vec<Instr>, out: &mut Vec<Op>)
    ensures
        ops_view(final(out)@) == ops_view(old(out)@) + flat_seq(
            instrs_view(instrs@),
            old(out)@.len(),
        ),
        final(out)@.len() == old(out)@.len() + flat_seq(
            instrs_view(instrs@),
            old(out)@.len(),
        ).len(),
    decreases instrs,
{
    let ghost base = out@.len();
    let ghost before = ops_view(out@);
    let mut k: usize = 0;
    proof {
        assert(instrs_view(instrs@.take(0)) =~= Seq::<InstrV>::empty());
        assert(ops_view(out@) =~= before + Seq::<OpV>::empty());
    }
    while k < instrs.len()
        invariant
            k <= instrs@.len(),
            base == old(out)@.len(),
            before == ops_view(old(out)@),
            ops_view(out@) == before + flat_seq(instrs_view(instrs@.take(k as int)), base),
            out@.len() == base + flat_seq(instrs_view(instrs@.take(k as int)), base).len(),
        decreases instrs@.len() - k,
    {
        let ghost done = flat_seq(instrs_view(instrs@.take(k as int)), base);
        let ghost here = ops_view(out@);
        let start = out.len();
        proof {
            lemma_instr_view(instrs@[k as int]);
            assert(instrs_view(instrs@.take(k + 1)).drop_last() =~= instrs_view(
                instrs@.take(k as int),
            ));
            assert(instrs_view(instrs@.take(k + 1)).last() == instr_view(instrs@[k as int]));
            assert(here.len() == before.len() + done.len());
            assert(before.len() == base);
        }
        match &instrs[k] {
            Instr::Block(bt, body) => {
                out.push(Op::BlockStart(BT::Block, 0, *bt));
                let ghost s1 = ops_view(out@);
                assert(s1 =~= here.push(OpV::BlockStart(BT::Block, 0, *bt)));
                flatten_into(body, out);
                let ghost s2 = ops_view(out@);
                let end = out.len();
                out.set(start, Op::BlockStart(BT::Block, end, *bt));
                let ghost s3 = ops_view(out@);
                assert(s3 =~= s2.update(start as int, OpV::BlockStart(BT::Block, end, *bt)));
                out.push(Op::BlockEnd(BT::Block, start, *bt));
                proof {
                    let inner = flat_seq(instrs_view(body@), (start + 1) as nat);
                    assert(ops_view(out@) =~= s3.push(OpV::BlockEnd(BT::Block, start, *bt)));
                    assert(s2.len() == end);
                    assert(ops_view(out@) =~= here + (seq![
                        OpV::BlockStart(BT::Block, (start + 1 + inner.len()) as usize, *bt),
                    ] + inner + seq![OpV::BlockEnd(BT::Block, start, *bt)]));
                }
            },
            Instr::Loop(bt, body) => {
                out.push(Op::BlockStart(BT::Loop, 0, *bt));
                let ghost s1 = ops_view(out@);
                assert(s1 =~= here.push(OpV::BlockStart(BT::Loop, 0, *bt)));
                flatten_into(body, out);
                let ghost s2 = ops_view(out@);
                let end = out.len();
                out.set(start, Op::BlockStart(BT::Loop, end, *bt));
                let ghost s3 = ops_view(out@);
                assert(s3 =~= s2.update(start as int, OpV::BlockStart(BT::Loop, end, *bt)));
                out.push(Op::BlockEnd(BT::Loop, start, *bt));
                proof {
                    let inner = flat_seq(instrs_view(body@), (start + 1) as nat);
                    assert(ops_view(out@) =~= s3.push(OpV::BlockEnd(BT::Loop, start, *bt)));
                    assert(s2.len() == end);
                    assert(ops_view(out@) =~= here + (seq![
                        OpV::BlockStart(BT::Loop, (start + 1 + inner.len()) as usize, *bt),
                    ] + inner + seq![OpV::BlockEnd(BT::Loop, start, *bt)]));
                }
            },
            Instr::IfElse(bt, body, None) => {
                out.push(Op::IfStart(None, 0, *bt));
                let ghost s1 = ops_view(out@);
                assert(s1 =~= here.push(OpV::IfStart(None, 0, *bt)));
                flatten_into(body, out);
                let ghost s2 = ops_view(out@);
                let end = out.len();
                out.set(start, Op::IfStart(None, end, *bt));
                let ghost s3 = ops_view(out@);
                assert(s3 =~= s2.update(start as int, OpV::IfStart(None, end, *bt)));
                out.push(Op::BlockEnd(BT::Block, start, *bt));
                proof {
                    let inner = flat_seq(instrs_view(body@), (start + 1) as nat);
                    assert(ops_view(out@) =~= s3.push(OpV::BlockEnd(BT::Block, start, *bt)));
                    assert(s2.len() == end);
                    assert(ops_view(out@) =~= here + (seq![
                        OpV::IfStart(None, (start + 1 + inner.len()) as usize, *bt),
                    ] + inner + seq![OpV::BlockEnd(BT::Block, start, *bt)]));
                }
            },
            Instr::IfElse(bt, body, Some(other)) => {
                out.push(Op::IfStart(None, 0, *bt));
                let ghost s1 = ops_view(out@);
                assert(s1 =~= here.push(OpV::IfStart(None, 0, *bt)));
                flatten_into(body, out);
                let ghost s2 = ops_view(out@);
                let mid = out.len();
                out.push(Op::Else(0));
                let ghost s3 = ops_view(out@);
                assert(s3 =~= s2.push(OpV::Else(0)));
                flatten_into(other, out);
                let ghost s4 = ops_view(out@);
                let end = out.len();
                out.set(start, Op::IfStart(Some(mid), end, *bt));
                let ghost s5 = ops_view(out@);
                assert(s5 =~= s4.update(start as int, OpV::IfStart(Some(mid), end, *bt)));
                out.set(mid, Op::Else(end));
                let ghost s6 = ops_view(out@);
                assert(s6 =~= s5.update(mid as int, OpV::Else(end)));
                out.push(Op::BlockEnd(BT::Block, start, *bt));
                proof {
                    let first = flat_seq(instrs_view(body@), (start + 1) as nat);
                    let second = flat_seq(instrs_view(other@), (start + 2 + first.len()) as nat);
                    let e = (start + 2 + first.len() + second.len()) as usize;
                    assert(ops_view(out@) =~= s6.push(OpV::BlockEnd(BT::Block, start, *bt)));
                    assert(s2.len() == mid);
                    assert(s4.len() == end);
                    assert(ops_view(out@) =~= here + (seq![
                        OpV::IfStart(Some((start + 1 + first.len()) as usize), e, *bt),
                    ] + first + seq![OpV::Else(e)] + second + seq![
                        OpV::BlockEnd(BT::Block, start, *bt),
                    ]));
                }
            },
            Instr::BrTable(table, default) => {
                out.push(Op::BrTable(copy_labels(table), *default));
                proof {
                    assert(ops_view(out@) =~= here + seq![OpV::BrTable(table@, *default)]);
                }
            },
            Instr::Plain(p) => {
                out.push(Op::Plain(*p));
                proof {
                    assert(ops_view(out@) =~= here + seq![OpV::Plain(*p)]);
                }
            },
        }
        k = k + 1;
        proof {
            let add = flat_instr(instr_view(instrs@[k - 1]), (base + done.len()) as nat);
            assert(ops_view(out@) == here + add);
            assert(ops_view(out@).len() == out@.len());
            assert(before + done + add =~= before + (done + add));
        }
    }
    proof {
        assert(instrs@.take(instrs@.len() as int) =~= instrs@);
    }
}

/// A function that the module defines, ready to run.
#[derive(Debug, PartialEq)]
pub struct Function {
    /// The index of its type.
    pub ty: TypeIdX,
    /// The declared locals, as runs of one type.
    pub locals: Vec<Locals>,
    /// The instructions, laid out in a row.
    pub code: Vec<Op>,
}

/// A module as the runtime reads it. Nothing in it changes while the
/// module runs.
#[derive(Debug, PartialEq)]
pub struct Model {
    pub types: Vec<FuncType>,
    /// The imports; every one of them is a function.
    pub imports: Vec<Import>,
    /// The functions that the module defines. In the index space of
    /// functions they follow the imports.
    pub funcs: Vec<Function>,
    pub tables: Vec<TableType>,
    pub mems: Vec<MemType>,
    pub globals: Vec<Global>,
    pub exports: Vec<Export>,
    pub elems: Vec<Elem>,
    pub datas: Vec<Data>,
}

/// The function is the one that the type index and the code entry describe.
pub open spec fn function_of(f: Function, ty: TypeIdX, c: Code) -> bool {
    &&& f.ty == ty
    &&& f.locals@ == c.locals@
    &&& ops_view(f.code@) == flat_seq(c.body.deep_view(), 0)
}

/// Every import is a function.
pub open spec fn only_functions(imports: Seq<Import>) -> bool {
    forall|i: int| 0 <= i < imports.len() ==> imports[i].desc is Func
}

/// Why the module cannot be made ready to run, if it cannot.
pub open spec fn spec_model_error(module: Module) -> Option<RuntimeError> {
    if !only_functions(module.imports.imports@) {
        Some(RuntimeError::UnsupportedImport)
    } else if module.funcs.types@.len() != module.code.code@.len() {
        Some(RuntimeError::MalformedModule)
    } else {
        None
    }
}

/// The model holds what the module holds, each function body laid out in
/// a row.
pub open spec fn is_model_of(m: Model, module: Module) -> bool {
    &&& m.types == module.types.function_types
    &&& m.imports == module.imports.imports
    &&& m.tables == module.tables.tables
    &&& m.mems == module.mems.mems
    &&& m.globals == module.globals.globals
    &&& m.exports == module.exports.exports
    &&& m.elems == module.elems.elems
    &&& m.datas == module.datas.data
    &&& m.funcs@.len() == module.code.code@.len()
    &&& forall|i: int|
        0 <= i < m.funcs@.len() ==> function_of(
            #[trigger] m.funcs@[i],
            module.funcs.types@[i],
            module.code.code@[i],
        )
}

impl Model {
    /// Makes a decoded module ready to run.
    pub fn new(module: Module) -> (r: Result<Model, RuntimeError>)
        ensures
            match spec_model_error(module) {
                Some(e) => r is Err && r->Err_0 == e,
                None => r is Ok && is_model_of(r->Ok_0, module),
            },
    {
        let mut i: usize = 0;
        while i < module.imports.imports.len()
            invariant
                i <= module.imports.imports@.len(),
                only_functions(module.imports.imports@.take(i as int)),
            decreases module.imports.imports@.len() - i,
        {
            match module.imports.imports[i].desc {
                ImportDesc::Func(_) => {},
                _ => {
                    return Err(RuntimeError::UnsupportedImport);
                },
            }
            i = i + 1;
            proof {
                let s = module.imports.imports@;
                assert forall|j: int| 0 <= j < s.take(i as int).len() implies s.take(
                    i as int,
                )[j].desc is Func by {
                    if j < i - 1 {
                        assert(s.take(i - 1)[j] == s[j]);
                    }
                }
            }
        }
        proof {
            assert(module.imports.imports@.take(module.imports.imports@.len() as int)
                =~= module.imports.imports@);
        }
        let n = module.code.code.len();
        if module.funcs.types.len() != n {
            return Err(RuntimeError::MalformedModule);
        }
        let mut funcs: Vec<Function> = Vec::new();
        let mut k: usize = 0;
        while k < n
            invariant
                k <= n,
                n == module.code.code@.len(),
                n == module.funcs.types@.len(),
                funcs@.len() == k,
                forall|j: int|
                    0 <= j < k ==> function_of(
                        #[trigger] funcs@[j],
                        module.funcs.types@[j],
                        module.code.code@[j],
                    ),
            decreases n - k,
        {
            let c = &module.code.code[k];
            let mut code: Vec<Op> = Vec::new();
            assert(ops_view(code@) =~= Seq::<OpV>::empty());
            flatten_into(&c.body.instrs, &mut code);
            proof {
                let flat = flat_seq(c.body.deep_view(), 0);
                assert(Seq::<OpV>::empty() + flat =~= flat);
            }
            funcs.push(
                Function {
                    ty: module.funcs.types[k],
                    locals: slice_to_vec(c.locals.as_slice()),
                    code,
                },
            );
            k = k + 1;
        }
        Ok(
            Model {
                types: module.types.function_types,
                imports: module.imports.imports,
                funcs,
                tables: module.tables.tables,
                mems: module.mems.mems,
                globals: module.globals.globals,
                exports: module.exports.exports,
                elems: module.elems.elems,
                datas: module.datas.data,
            },
        )
    }
}

} // verus!
