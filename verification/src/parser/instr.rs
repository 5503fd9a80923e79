use vstd::prelude::*;
use super::blocktype::BlockType;
use super::cursor::{lemma_advance, Cursor};
use super::error::ParseError;
use super::indices::LabelIdX;
use super::parsable::{
    decodes, spec_two_trail, trail_after, trail_of, Decoded, Parsable,
};
use super::plain::{
    parse_pair, parse_plain, spec_pair, spec_plain, spec_plain_trail, stops_behind_access,
    PlainInstr,
};

verus! {

/// The two kinds of label that a branch can aim at.
#[derive(Debug, Clone, Copy, PartialEq, Eq, Structural)]
pub enum BT {
    /// A branch leaves the block.
    Block,
    /// A branch starts the loop over.
    Loop,
}

/// An instruction. The structured ones own the instructions inside them,
/// without the byte that ends the list.
#[derive(Debug, PartialEq)]
pub enum Instr {
    Block(BlockType, Vec<Instr>),
    Loop(BlockType, Vec<Instr>),
    /// The second list is the `else` arm, where there is one.
    IfElse(BlockType, Vec<Instr>, Option<Vec<Instr>>),
    /// The table of targets and the default target.
    BrTable(Vec<LabelIdX>, LabelIdX),
    Plain(PlainInstr),
}

/// An instruction as a mathematical value.
pub enum InstrV {
    Block(BlockType, Seq<InstrV>),
    Loop(BlockType, Seq<InstrV>),
    IfElse(BlockType, Seq<InstrV>, Option<Seq<InstrV>>),
    BrTable(Seq<LabelIdX>, LabelIdX),
    Plain(PlainInstr),
}

/// What ends a list of instructions.
#[derive(Debug, Clone, Copy, PartialEq, Eq, Structural)]
pub enum Terminator {
    End,
    Else,
}

/// The mathematical value of an instruction.
pub open spec fn instr_view(i: Instr) -> InstrV
    decreases i,
{
    match i {
        Instr::Block(bt, body) => InstrV::Block(
            bt,
            Seq::new(
                body@.len(),
                |k: int|
                    if 0 <= k < body@.len() {
                        instr_view(body@[k])
                    } else {
                        InstrV::Plain(PlainInstr::Nop)
                    },
            ),
        ),
        Instr::Loop(bt, body) => InstrV::Loop(
            bt,
            Seq::new(
                body@.len(),
                |k: int|
                    if 0 <= k < body@.len() {
                        instr_view(body@[k])
                    } else {
                        InstrV::Plain(PlainInstr::Nop)
                    },
            ),
        ),
        Instr::IfElse(bt, body, other) => InstrV::IfElse(
            bt,
            Seq::new(
                body@.len(),
                |k: int|
                    if 0 <= k < body@.len() {
                        instr_view(body@[k])
                    } else {
                        InstrV::Plain(PlainInstr::Nop)
                    },
            ),
            match other {
                Some(e) => Some(
                    Seq::new(
                        e@.len(),
                        |k: int|
                            if 0 <= k < e@.len() {
                                instr_view(e@[k])
                            } else {
                                InstrV::Plain(PlainInstr::Nop)
                            },
                    ),
                ),
                None => None,
            },
        ),
        Instr::BrTable(table, default) => InstrV::BrTable(table@, default),
        Instr::Plain(p) => InstrV::Plain(p),
    }
}

/// The mathematical value of a list of instructions.
pub open spec fn instrs_view(v: Seq<Instr>) -> Seq<InstrV> {
    Seq::new(v.len(), |k: int| instr_view(v[k]))
}

/// The view of a structured instruction holds the views of its lists.
pub proof fn lemma_instr_view(i: Instr)
    ensures
        i matches Instr::Block(bt, body) ==> instr_view(i) == InstrV::Block(bt, instrs_view(body@)),
        i matches Instr::Loop(bt, body) ==> instr_view(i) == InstrV::Loop(bt, instrs_view(body@)),
        i matches Instr::IfElse(bt, body, None) ==> instr_view(i) == InstrV::IfElse(
            bt,
            instrs_view(body@),
            None,
        ),
        i matches Instr::IfElse(bt, body, Some(e)) ==> instr_view(i) == InstrV::IfElse(
            bt,
            instrs_view(body@),
            Some(instrs_view(e@)),
        ),
{
    match i {
        Instr::Block(bt, body) => {
            assert(instr_view(i)->Block_1 =~= instrs_view(body@));
        },
        Instr::Loop(bt, body) => {
            assert(instr_view(i)->Loop_1 =~= instrs_view(body@));
        },
        Instr::IfElse(bt, body, other) => {
            assert(instr_view(i)->IfElse_1 =~= instrs_view(body@));
            match other {
                Some(e) => {
                    assert(instr_view(i)->IfElse_2->Some_0 =~= instrs_view(e@));
                },
                None => {},
            }
        },
        _ => {},
    }
}

impl DeepView for Instr {
    type V = InstrV;

    open spec fn deep_view(&self) -> InstrV {
        instr_view(*self)
    }
}

/// A list joined in front of what decoding the rest of a body yields.
pub open spec fn prepend(
    items: Seq<InstrV>,
    used: nat,
    d: Decoded<(Seq<InstrV>, Terminator)>,
) -> Decoded<(Seq<InstrV>, Terminator)> {
    match d {
        Err(e) => Err(e),
        Ok(((rest, t), m)) => Ok(((items + rest, t), used + m)),
    }
}

/// The instruction at the head of `s`. A structured instruction holds the
/// instructions up to its `end`; an `if` holds those up to its `else` or `end`
/// and, after an `else`, those up to the `end`. An `else` anywhere else is an
/// unknown opcode.
pub open spec fn spec_instr(s: Seq<u8>) -> Decoded<InstrV>
    decreases s.len(), 0nat,
{
    if s.len() == 0 {
        Err(ParseError::UnexpectedEof)
    } else if s[0] == 0x02 || s[0] == 0x03 || s[0] == 0x04 {
        match BlockType::spec_parse(s.skip(1)) {
            Err(e) => Err(e),
            Ok((bt, n)) => if 1 + n > s.len() {
                Err(ParseError::UnexpectedEof)
            } else {
                match spec_body(s.skip(1 + n as int)) {
                    Err(e) => Err(e),
                    Ok(((body, t), m)) => if s[0] == 0x04 {
                        match t {
                            Terminator::End => Ok((InstrV::IfElse(bt, body, None), 1 + n + m)),
                            Terminator::Else => if 1 + n + m > s.len() {
                                Err(ParseError::UnexpectedEof)
                            } else {
                                match spec_body(s.skip(1 + n + m as int)) {
                                    Err(e) => Err(e),
                                    Ok(((other, t2), k)) => match t2 {
                                        Terminator::End => Ok(
                                            (InstrV::IfElse(bt, body, Some(other)), 1 + n + m + k),
                                        ),
                                        Terminator::Else => Err(ParseError::UnknownOpcode(0x05)),
                                    },
                                }
                            },
                        }
                    } else {
                        match t {
                            Terminator::Else => Err(ParseError::UnknownOpcode(0x05)),
                            Terminator::End => if s[0] == 0x02 {
                                Ok((InstrV::Block(bt, body), 1 + n + m))
                            } else {
                                Ok((InstrV::Loop(bt, body), 1 + n + m))
                            },
                        }
                    },
                }
            },
        }
    } else if s[0] == 0x0E {
        match spec_pair::<Vec<LabelIdX>, LabelIdX>(s.skip(1)) {
            Err(e) => Err(e),
            Ok(((table, default), n)) => Ok((InstrV::BrTable(table, default), 1 + n)),
        }
    } else {
        match spec_plain(s) {
            Err(e) => Err(e),
            Ok((p, n)) => Ok((InstrV::Plain(p), n)),
        }
    }
}

/// The instructions at the head of `s` up to the first `end` or `else` that
/// belongs to none of them, with that terminator; the count of bytes includes it.
pub open spec fn spec_body(s: Seq<u8>) -> Decoded<(Seq<InstrV>, Terminator)>
    decreases s.len(), 1nat,
{
    if s.len() == 0 {
        Err(ParseError::UnexpectedEof)
    } else if s[0] == 0x0B {
        Ok(((Seq::empty(), Terminator::End), 1))
    } else if s[0] == 0x05 {
        Ok(((Seq::empty(), Terminator::Else), 1))
    } else {
        match spec_instr(s) {
            Err(e) => Err(e),
            Ok((i, n)) => if n == 0 || n > s.len() {
                Err(ParseError::UnexpectedEof)
            } else {
                prepend(seq![i], n, spec_body(s.skip(n as int)))
            },
        }
    }
}

/// The names that a failed decoding of a list of instructions leaves on
/// the trail; none where the list can be decoded.
pub open spec fn body_trail(s: Seq<u8>) -> Seq<&'static str> {
    if spec_body(s) is Err {
        spec_body_trail(s)
    } else {
        Seq::empty()
    }
}

/// The names that a failed decoding of an instruction leaves on the trail:
/// those of the part that fails.
pub open spec fn spec_instr_trail(s: Seq<u8>) -> Seq<&'static str>
    decreases s.len(), 0nat,
{
    if s.len() == 0 {
        Seq::empty()
    } else if s[0] == 0x02 || s[0] == 0x03 || s[0] == 0x04 {
        match BlockType::spec_parse(s.skip(1)) {
            Err(_) => trail_of::<BlockType>(s.skip(1)),
            Ok((_, n)) => if 1 + n > s.len() {
                Seq::empty()
            } else {
                match spec_body(s.skip(1 + n as int)) {
                    Err(_) => spec_body_trail(s.skip(1 + n as int)),
                    Ok(((_, t), m)) => if s[0] == 0x04 && t == Terminator::Else && 1 + n + m
                        <= s.len() && spec_body(s.skip(1 + n + m as int)) is Err {
                        spec_body_trail(s.skip(1 + n + m as int))
                    } else {
                        Seq::empty()
                    },
                }
            },
        }
    } else if s[0] == 0x0E {
        spec_two_trail::<Vec<LabelIdX>, LabelIdX>(s.skip(1))
    } else {
        spec_plain_trail(s)
    }
}

/// The names that a failed decoding of a list of instructions leaves on
/// the trail: the name of the instruction that fails, and what it leaves.
pub open spec fn spec_body_trail(s: Seq<u8>) -> Seq<&'static str>
    decreases s.len(), 1nat,
{
    if s.len() == 0 || s[0] == 0x0B || s[0] == 0x05 {
        Seq::empty()
    } else {
        match spec_instr(s) {
            Err(_) => seq!["Instr"] + spec_instr_trail(s),
            Ok((_, n)) => if n == 0 || n > s.len() {
                Seq::empty()
            } else {
                spec_body_trail(s.skip(n as int))
            },
        }
    }
}

/// Every instruction takes at least one byte.
pub proof fn lemma_instr_progress(s: Seq<u8>)
    ensures
        spec_instr(s) matches Ok((_, n)) ==> n >= 1,
{
}

/// Decodes one instruction.
pub fn parse_instr(data: &mut Cursor<'_>, stack: &mut Vec<&'static str>) -> (r: Result<
    Instr,
    ParseError,
>)
    requires
        old(data).wf(),
    ensures
        decodes(*old(data), *final(data), r, spec_instr(old(data).rest())),
        trail_after(old(stack)@, final(stack)@, r is Ok, spec_instr_trail(old(data).rest())),
        stops_behind_access(*old(data), *final(data)),
    decreases old(data).rest().len(), 0nat,
{
    let ghost start = *data;
    if data.is_empty() {
        return Err(ParseError::UnexpectedEof);
    }
    let op = data.data[data.pos];
    if op == 0x02 || op == 0x03 || op == 0x04 {
        data.pos = data.pos + 1;
        proof {
            lemma_advance(start, *data, 1);
        }
        let bt = BlockType::parse(data, stack)?;
        proof {
            lemma_advance(start, *data, (data.pos - start.pos) as nat);
        }
        let (body, t) = parse_body(data, stack)?;
        proof {
            lemma_advance(start, *data, (data.pos - start.pos) as nat);
        }
        if op == 0x04 {
            match t {
                Terminator::End => {
                    let i = Instr::IfElse(bt, body, None);
                    proof {
                        lemma_instr_view(i);
                    }
                    Ok(i)
                },
                Terminator::Else => {
                    let (other, t2) = parse_body(data, stack)?;
                    match t2 {
                        Terminator::End => {
                            let i = Instr::IfElse(bt, body, Some(other));
                            proof {
                                lemma_instr_view(i);
                            }
                            Ok(i)
                        },
                        Terminator::Else => Err(ParseError::UnknownOpcode(0x05)),
                    }
                },
            }
        } else {
            match t {
                Terminator::Else => Err(ParseError::UnknownOpcode(0x05)),
                Terminator::End => {
                    let i = if op == 0x02 {
                        Instr::Block(bt, body)
                    } else {
                        Instr::Loop(bt, body)
                    };
                    proof {
                        lemma_instr_view(i);
                    }
                    Ok(i)
                },
            }
        }
    } else if op == 0x0E {
        data.pos = data.pos + 1;
        proof {
            lemma_advance(start, *data, 1);
        }
        let (table, default) = parse_pair::<Vec<LabelIdX>, LabelIdX>(data, stack)?;
        proof {
            assert(table.deep_view() =~= table@);
        }
        Ok(Instr::BrTable(table, default))
    } else {
        Ok(Instr::Plain(parse_plain(data, stack)?))
    }
}

/// Decodes instructions up to the `end` or `else` that closes the list, and
/// steps over that byte.
pub fn parse_body(data: &mut Cursor<'_>, stack: &mut Vec<&'static str>) -> (r: Result<
    (Vec<Instr>, Terminator),
    ParseError,
>)
    requires
        old(data).wf(),
    ensures
        final(data).data == old(data).data,
        final(data).wf(),
        match spec_body(old(data).rest()) {
            Ok(((items, t), n)) => r is Ok && instrs_view(r->Ok_0.0@) == items && r->Ok_0.1 == t
                && final(data).pos == old(data).pos + n,
            Err(e) => r is Err && r->Err_0 == e,
        },
        trail_after(old(stack)@, final(stack)@, r is Ok, spec_body_trail(old(data).rest())),
    decreases old(data).rest().len(), 1nat,
{
    let mut out: Vec<Instr> = Vec::new();
    let ghost start = *data;
    let ghost s0 = data.rest();
    proof {
        assert(instrs_view(out@) =~= Seq::<InstrV>::empty());
        lemma_advance(start, *data, 0);
        match spec_body(s0) {
            Ok(((rest, t), m)) => {
                assert(Seq::<InstrV>::empty() + rest =~= rest);
            },
            Err(_) => {},
        }
    }
    loop
        invariant
            data.wf(),
            start.wf(),
            start == *old(data),
            s0 == start.rest(),
            data.data == start.data,
            data.pos >= start.pos,
            stack@ == old(stack)@,
            spec_body(s0) == prepend(
                instrs_view(out@),
                (data.pos - start.pos) as nat,
                spec_body(data.rest()),
            ),
            spec_body_trail(s0) == spec_body_trail(data.rest()),
        decreases data.rest().len(),
    {
        let ghost before = *data;
        let ghost items = instrs_view(out@);
        if data.is_empty() {
            return Err(ParseError::UnexpectedEof);
        }
        let op = data.data[data.pos];
        if op == 0x0B || op == 0x05 {
            data.pos = data.pos + 1;
            proof {
                assert(items + Seq::<InstrV>::empty() =~= items);
            }
            let t = if op == 0x0B {
                Terminator::End
            } else {
                Terminator::Else
            };
            return Ok((out, t));
        }
        stack.push("Instr");
        match parse_instr(data, stack) {
            Err(e) => {
                return Err(e);
            },
            Ok(i) => {
                stack.pop();
                proof {
                    assert(stack@ =~= old(stack)@);
                    lemma_instr_progress(before.rest());
                    lemma_advance(before, *data, (data.pos - before.pos) as nat);
                    let iv = instr_view(i);
                    match spec_body(data.rest()) {
                        Ok(((rest, t), m)) => {
                            assert(items + (seq![iv] + rest) =~= items.push(iv) + rest);
                        },
                        Err(_) => {},
                    }
                    assert(instrs_view(out@.push(i)) =~= items.push(iv));
                }
                out.push(i);
            },
        }
    }
}

impl Parsable for Instr {
    open spec fn spec_parse(s: Seq<u8>) -> Decoded<InstrV> {
        spec_instr(s)
    }

    open spec fn spec_name() -> &'static str {
        "Instr"
    }

    open spec fn spec_trail(s: Seq<u8>) -> Seq<&'static str> {
        spec_instr_trail(s)
    }

    fn name() -> (n: &'static str) {
        "Instr"
    }

    fn parse_inner(data: &mut Cursor<'_>, stack: &mut Vec<&'static str>) -> (r: Result<
        Self,
        ParseError,
    >) {
        parse_instr(data, stack)
    }
}

} // verus!
