use vstd::prelude::*;
use vstd::wrapping::i32_specs::signed_crop;
use crate::parser::blocktype::BlockType;
use crate::parser::functype::FuncType;
use crate::parser::instr::BT;
use crate::parser::ops::{IBinOp, StoreOp};
use crate::parser::memarg::MemArg;
use crate::parser::plain::PlainInstr;
use super::clean_model::Model;
use super::control::{spec_arity, spec_branch, spec_enter, spec_leave};
use super::error::RuntimeError;
use super::floats::{is_nan, spec_trunc, spec_trunc_sat, spec_truncated, Fields, Format};
use super::frame::{spec_pop_i32, spec_pop_typed, FrameV};
use super::memory::in_bounds;
use super::methods::spec_step;
use super::numeric::spec_ibin32;
use super::state::{spec_state, spec_store_bytes, spec_store_type};
use super::StoreV;

verus! {

/// The height law of blocks. A block, a loop or an `if` that takes `k`
/// values and leaves `n`, entered at a stack of some height and later left
/// through its end, leaves the stack at that height less `k` plus `n`, and
/// the open blocks as they were before it was entered.
pub proof fn lemma_block_height(
    types: Seq<FuncType>,
    before: FrameV,
    kind: BT,
    bt: BlockType,
    start: usize,
    end: usize,
    next: usize,
    inside: FrameV,
    after: usize,
)
    requires
        spec_arity(types, bt) is Ok,
        spec_enter(before, kind, bt, spec_arity(types, bt)->Ok_0.0, start, end, next) is Ok,
        inside.depth_stack == spec_enter(
            before,
            kind,
            bt,
            spec_arity(types, bt)->Ok_0.0,
            start,
            end,
            next,
        )->Ok_0.depth_stack,
        spec_leave(types, inside, after) is Ok,
        before.stack.len() <= usize::MAX,
    ensures
        spec_leave(types, inside, after)->Ok_0.stack.len() == before.stack.len() - spec_arity(
            types,
            bt,
        )->Ok_0.0 + spec_arity(types, bt)->Ok_0.1,
        spec_leave(types, inside, after)->Ok_0.depth_stack == before.depth_stack,
{
    let entered = spec_enter(before, kind, bt, spec_arity(types, bt)->Ok_0.0, start, end, next)->Ok_0;
    assert(entered.depth_stack.drop_last() =~= before.depth_stack);
}

/// The height law for a branch. A branch to a block leaves the stack as the
/// end of the block would: at the height at which the block was entered,
/// less what the block takes, plus what it leaves.
pub proof fn lemma_branch_height(
    types: Seq<FuncType>,
    before: FrameV,
    bt: BlockType,
    start: usize,
    end: usize,
    next: usize,
    inside: FrameV,
    l: u32,
)
    requires
        spec_arity(types, bt) is Ok,
        spec_enter(before, BT::Block, bt, spec_arity(types, bt)->Ok_0.0, start, end, next) is Ok,
        l < inside.depth_stack.len(),
        inside.depth_stack.take(inside.depth_stack.len() - l) == spec_enter(
            before,
            BT::Block,
            bt,
            spec_arity(types, bt)->Ok_0.0,
            start,
            end,
            next,
        )->Ok_0.depth_stack,
        spec_branch(types, inside, l) is Ok,
        before.stack.len() <= usize::MAX,
    ensures
        spec_branch(types, inside, l)->Ok_0.stack.len() == before.stack.len() - spec_arity(
            types,
            bt,
        )->Ok_0.0 + spec_arity(types, bt)->Ok_0.1,
        spec_branch(types, inside, l)->Ok_0.depth_stack == before.depth_stack,
{
    let entered = spec_enter(
        before,
        BT::Block,
        bt,
        spec_arity(types, bt)->Ok_0.0,
        start,
        end,
        next,
    )->Ok_0;
    let at = inside.depth_stack.len() - 1 - l;
    assert(inside.depth_stack.take(at + 1)[at] == inside.depth_stack[at]);
    assert(entered.depth_stack.last() == inside.depth_stack[at]);
    assert(inside.depth_stack.take(at) =~= inside.depth_stack.take(at + 1).drop_last());
    assert(entered.depth_stack.drop_last() =~= before.depth_stack);
}

/// The bounds law for stores. A store whose bytes do not all lie within
/// the memory traps, and the memory is as it was.
pub proof fn lemma_store_out_of_bounds(op: StoreOp, m: MemArg, f: FrameV, st: StoreV)
    requires
        spec_pop_typed(f.stack, spec_store_type(op)) is Ok,
        spec_pop_i32(spec_pop_typed(f.stack, spec_store_type(op))->Ok_0.1) is Ok,
        !in_bounds(
            st.memory.len(),
            spec_pop_i32(spec_pop_typed(f.stack, spec_store_type(op))->Ok_0.1)->Ok_0.0 as u32,
            m.offset,
            spec_store_bytes(op, spec_pop_typed(f.stack, spec_store_type(op))->Ok_0.0).len(),
        ),
    ensures
        spec_state(PlainInstr::Store(op, m), f, st) == Some(
            Err::<(FrameV, StoreV), RuntimeError>(RuntimeError::OutOfBoundsMemoryAccess),
        ),
{
}

/// A trap leaves no frame, and leaves the memory, the globals, the tables
/// and the data segments as they were.
pub proof fn lemma_trap_keeps_store(m: Model, frames: Seq<FrameV>, st: StoreV)
    requires
        spec_step(m, frames, st).2 is Err,
        frames.len() > 0,
    ensures
        spec_step(m, frames, st).1 == st,
        spec_step(m, frames, st).0.len() == 0,
{
}

/// Sums of 32 bits wrap around: the result is the sum reduced to 32 bits.
pub proof fn lemma_add_wraps(a: i32, b: i32)
    ensures
        spec_ibin32(IBinOp::Add, a, b) == Ok::<i32, RuntimeError>(signed_crop(a + b)),
{
}

/// The one signed division whose quotient does not fit traps, and so does
/// every division by zero.
pub proof fn lemma_division_traps(a: i32)
    ensures
        spec_ibin32(IBinOp::DivS, i32::MIN, -1i32) == Err::<i32, RuntimeError>(
            RuntimeError::IntegerOverflow,
        ),
        spec_ibin32(IBinOp::DivS, a, 0) == Err::<i32, RuntimeError>(RuntimeError::DivideByZero),
        spec_ibin32(IBinOp::DivU, a, 0) == Err::<i32, RuntimeError>(RuntimeError::DivideByZero),
        spec_ibin32(IBinOp::RemS, a, 0) == Err::<i32, RuntimeError>(RuntimeError::DivideByZero),
        spec_ibin32(IBinOp::RemU, a, 0) == Err::<i32, RuntimeError>(RuntimeError::DivideByZero),
{
}

/// A saturating truncation gives zero for a NaN, the least number of the
/// type for whatever lies below the type, the greatest for whatever lies
/// above it, and the number rounded toward zero for the rest.
pub proof fn lemma_trunc_sat(fmt: Format, f: Fields, lo: int, hi: int)
    requires
        lo <= 0 <= hi,
    ensures
        lo <= spec_trunc_sat(fmt, f, lo, hi) <= hi,
        is_nan(fmt, f) ==> spec_trunc_sat(fmt, f, lo, hi) == 0,
        !is_nan(fmt, f) && spec_truncated(fmt, f) is None && f.negative ==> spec_trunc_sat(
            fmt,
            f,
            lo,
            hi,
        ) == lo,
        !is_nan(fmt, f) && spec_truncated(fmt, f) is None && !f.negative ==> spec_trunc_sat(
            fmt,
            f,
            lo,
            hi,
        ) == hi,
        spec_truncated(fmt, f) matches Some(v) && v < lo ==> spec_trunc_sat(fmt, f, lo, hi) == lo,
        spec_truncated(fmt, f) matches Some(v) && v > hi ==> spec_trunc_sat(fmt, f, lo, hi) == hi,
        spec_truncated(fmt, f) matches Some(v) && lo <= v <= hi ==> spec_trunc_sat(fmt, f, lo, hi)
            == spec_truncated(fmt, f)->Some_0,
{
}

/// A truncation that traps gives what the saturating one gives, wherever it
/// does not trap; it traps on a NaN and on whatever lies beyond the type.
pub proof fn lemma_trunc_traps(fmt: Format, f: Fields, lo: int, hi: int)
    ensures
        spec_trunc(fmt, f, lo, hi) is Ok ==> spec_trunc(fmt, f, lo, hi)->Ok_0 == spec_trunc_sat(
            fmt,
            f,
            lo,
            hi,
        ) && lo <= spec_trunc(fmt, f, lo, hi)->Ok_0 <= hi,
        is_nan(fmt, f) ==> spec_trunc(fmt, f, lo, hi) == Err::<int, RuntimeError>(
            RuntimeError::InvalidConversion,
        ),
        !is_nan(fmt, f) && !(spec_truncated(fmt, f) matches Some(v) && lo <= v <= hi)
            ==> spec_trunc(fmt, f, lo, hi) == Err::<int, RuntimeError>(
            RuntimeError::IntegerOverflow,
        ),
{
}

} // verus!
