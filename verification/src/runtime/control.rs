use vstd::prelude::*;
use crate::parser::blocktype::BlockType;
use crate::parser::functype::FuncType;
use crate::parser::instr::BT;
use super::error::{IndexSpace, RuntimeError};
use super::frame::{spec_take, DepthValue, Frame, FrameV};
use super::value::Value;

verus! {

/// How many values a block of type `bt` takes and how many it leaves.
pub open spec fn spec_arity(types: Seq<FuncType>, bt: BlockType) -> Result<
    (nat, nat),
    RuntimeError,
> {
    match bt {
        BlockType::Empty => Ok((0, 0)),
        BlockType::Single(_) => Ok((0, 1)),
        BlockType::TypeIndex(i) => if i < types.len() {
            Ok((types[i as int].input.types@.len(), types[i as int].output.types@.len()))
        } else {
            Err(RuntimeError::UnknownIndex(IndexSpace::Type, i))
        },
    }
}

/// How many values a block of type `bt` takes and how many it leaves.
pub fn arity(types: &Vec<FuncType>, bt: BlockType) -> (r: Result<(usize, usize), RuntimeError>)
    ensures
        match spec_arity(types@, bt) {
            Ok((k, n)) => r is Ok && r->Ok_0.0 == k && r->Ok_0.1 == n,
            Err(e) => r == Err::<(usize, usize), RuntimeError>(e),
        },
{
    match bt {
        BlockType::Empty => Ok((0, 0)),
        BlockType::Single(_) => Ok((0, 1)),
        BlockType::TypeIndex(i) => {
            if (i as usize) < types.len() {
                let t = &types[i as usize];
                Ok((t.input.types.len(), t.output.types.len()))
            } else {
                Err(RuntimeError::UnknownIndex(IndexSpace::Type, i))
            }
        },
    }
}

/// How many values a branch to a label carries: for a loop what the loop
/// takes, for a block what the block leaves.
pub open spec fn spec_label_arity(types: Seq<FuncType>, e: DepthValue) -> Result<
    nat,
    RuntimeError,
> {
    match spec_arity(types, e.vt) {
        Err(err) => Err(err),
        Ok((k, n)) => match e.bt {
            BT::Loop => Ok(k),
            BT::Block => Ok(n),
        },
    }
}

/// The place behind `pc`.
pub open spec fn spec_after(pc: usize) -> usize {
    if pc < usize::MAX {
        (pc + 1) as usize
    } else {
        pc
    }
}

/// The frame after it has entered a block at place `start`: the `k` newest
/// operands are the block's own, a marker lies below them, and the height of
/// the stack below the marker is recorded.
pub open spec fn spec_enter(
    f: FrameV,
    kind: BT,
    bt: BlockType,
    k: nat,
    start: usize,
    end: usize,
    next: usize,
) -> Result<FrameV, RuntimeError> {
    match spec_take(f.stack, k) {
        Err(e) => Err(e),
        Ok((top, rest)) => Ok(
            FrameV {
                stack: rest.push(Value::BlockMarker) + top,
                depth_stack: f.depth_stack.push(
                    DepthValue { bt: kind, pos: rest.len() as usize, vt: bt, start, end },
                ),
                pc: next,
                ..f
            },
        ),
    }
}

/// The stack after a block whose base is at height `pos` has been left with
/// `n` values: those values on top of what lay below the block's marker.
pub open spec fn spec_unwind(s: Seq<Value>, pos: usize, n: nat) -> Result<
    Seq<Value>,
    RuntimeError,
> {
    match spec_take(s, n) {
        Err(e) => Err(e),
        Ok((top, rest)) => if rest.len() <= pos {
            Err(RuntimeError::StackUnderflow)
        } else {
            Ok(rest.take(pos as int) + top)
        },
    }
}

/// The frame after it has left its innermost block through the block's end
/// and goes on at place `next`.
pub open spec fn spec_leave(types: Seq<FuncType>, f: FrameV, next: usize) -> Result<
    FrameV,
    RuntimeError,
> {
    if f.depth_stack.len() == 0 {
        Err(RuntimeError::UnknownIndex(IndexSpace::Label, 0))
    } else {
        let e = f.depth_stack.last();
        match spec_arity(types, e.vt) {
            Err(err) => Err(err),
            Ok((_, n)) => match spec_unwind(f.stack, e.pos, n) {
                Err(err) => Err(err),
                Ok(s) => Ok(
                    FrameV { stack: s, depth_stack: f.depth_stack.drop_last(), pc: next, ..f },
                ),
            },
        }
    }
}

/// The frame after a branch to the label `l`, counted from the innermost
/// block: the blocks up to the target are closed, the values that the label
/// carries lie on what lay below the target's marker, and execution goes on
/// behind the end of a block or at the start of a loop. Here `l` is less
/// than the number of open blocks.
pub open spec fn spec_branch(types: Seq<FuncType>, f: FrameV, l: u32) -> Result<
    FrameV,
    RuntimeError,
> {
    let at = f.depth_stack.len() - 1 - l;
    let e = f.depth_stack[at];
    match spec_label_arity(types, e) {
        Err(err) => Err(err),
        Ok(n) => match spec_unwind(f.stack, e.pos, n) {
            Err(err) => Err(err),
            Ok(s) => Ok(
                FrameV {
                    stack: s,
                    depth_stack: f.depth_stack.take(at),
                    pc: match e.bt {
                        BT::Loop => e.start,
                        BT::Block => spec_after(e.end),
                    },
                    ..f
                },
            ),
        },
    }
}

impl Frame {
    /// Enters a block whose mark stands at `start` and whose closing mark
    /// stands at `end`, and goes on at `next`.
    pub fn enter(
        &mut self,
        kind: BT,
        bt: BlockType,
        k: usize,
        start: usize,
        end: usize,
        next: usize,
    ) -> (r: Result<(), RuntimeError>)
        ensures
            match spec_enter(old(self)@, kind, bt, k as nat, start, end, next) {
                Ok(g) => r is Ok && final(self)@ == g,
                Err(e) => r is Err && r->Err_0 == e,
            },
            r is Ok ==> final(self)@.stack.len() == old(self)@.stack.len() + 1,
    {
        let mut top = self.take(k)?;
        let pos = self.stack.len();
        self.stack.push(Value::BlockMarker);
        self.stack.append(&mut top);
        self.depth_stack.push(DepthValue { bt: kind, pos, vt: bt, start, end });
        self.pc = next;
        Ok(())
    }

    /// Cuts the stack back to the base of a block at height `pos` and puts
    /// the `n` newest operands on it.
    pub fn unwind(&mut self, pos: usize, n: usize) -> (r: Result<(), RuntimeError>)
        ensures
            match spec_unwind(old(self)@.stack, pos, n as nat) {
                Ok(s) => r is Ok && final(self)@ == old(self)@.with_stack(s) && s.len() == pos
                    + n,
                Err(e) => r is Err && r->Err_0 == e,
            },
    {
        let mut top = self.take(n)?;
        if self.stack.len() <= pos {
            return Err(RuntimeError::StackUnderflow);
        }
        self.stack.truncate(pos);
        self.stack.append(&mut top);
        proof {
            let s = old(self)@.stack;
            assert(s.subrange(0, s.len() - n).take(pos as int) =~= s.subrange(
                0,
                s.len() - n,
            ).subrange(0, pos as int));
        }
        Ok(())
    }

    /// Leaves the innermost block through its end and goes on at `next`.
    /// The stack is then as high as it was below the block, plus what the
    /// block leaves.
    pub fn leave(&mut self, types: &Vec<FuncType>, next: usize) -> (r: Result<(), RuntimeError>)
        ensures
            match spec_leave(types@, old(self)@, next) {
                Ok(g) => r is Ok && final(self)@ == g,
                Err(e) => r is Err && r->Err_0 == e,
            },
            r is Ok ==> final(self)@.stack.len() == old(self)@.depth_stack.last().pos + spec_arity(
                types@,
                old(self)@.depth_stack.last().vt,
            )->Ok_0.1,
    {
        let depth = self.depth_stack.len();
        if depth == 0 {
            return Err(RuntimeError::UnknownIndex(IndexSpace::Label, 0));
        }
        let e = self.depth_stack[depth - 1];
        let (_, n) = arity(types, e.vt)?;
        self.unwind(e.pos, n)?;
        self.depth_stack.pop();
        self.pc = next;
        Ok(())
    }

    /// Branches to the label `l`, which must name an open block.
    pub fn branch(&mut self, types: &Vec<FuncType>, l: u32) -> (r: Result<(), RuntimeError>)
        requires
            l < old(self)@.depth_stack.len(),
        ensures
            match spec_branch(types@, old(self)@, l) {
                Ok(g) => r is Ok && final(self)@ == g,
                Err(e) => r is Err && r->Err_0 == e,
            },
    {
        let at = self.depth_stack.len() - 1 - l as usize;
        let e = self.depth_stack[at];
        let (k, n) = arity(types, e.vt)?;
        let carried = match e.bt {
            BT::Loop => k,
            BT::Block => n,
        };
        self.unwind(e.pos, carried)?;
        self.depth_stack.truncate(at);
        self.pc = match e.bt {
            BT::Loop => e.start,
            BT::Block => e.end.saturating_add(1),
        };
        Ok(())
    }
}

} // verus!
