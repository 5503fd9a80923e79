use vstd::prelude::*;

pub mod clean_model;
pub mod control;
pub mod error;
pub mod floats;
pub mod frame;
pub mod instance;
pub mod laws;
pub mod local;
pub mod memory;
pub mod methods;
pub mod numeric;
pub mod rounding;
pub mod state;
pub mod value;

pub use clean_model::{Function, Model, Op};
pub use error::{IndexSpace, RuntimeError};
pub use frame::{DepthValue, Frame, FrameV};
pub use memory::Memory;
pub use methods::Step;
pub use value::Value;

verus! {

/// A module that runs: its frames, the innermost last, and what the frames
/// share.
#[derive(Debug)]
pub struct Runtime {
    pub module: Model,
    pub stack: Vec<Frame>,
    pub globals: Vec<Value>,
    pub memory: Memory,
    /// The slots of each table.
    pub tables: Vec<Vec<Value>>,
    /// The bytes of each data segment; none left once a segment is dropped.
    pub datas: Vec<Vec<u8>>,
}

/// What the frames of a running module share, as a mathematical value.
pub struct StoreV {
    pub globals: Seq<Value>,
    pub memory: Seq<u8>,
    pub mem_max: Option<u32>,
    pub tables: Seq<Seq<Value>>,
    pub datas: Seq<Seq<u8>>,
}

impl Runtime {
    /// What the frames share.
    pub open spec fn store(&self) -> StoreV {
        StoreV {
            globals: self.globals@,
            memory: self.memory@,
            mem_max: self.memory.max,
            tables: Seq::new(self.tables@.len(), |i: int| self.tables@[i]@),
            datas: Seq::new(self.datas@.len(), |i: int| self.datas@[i]@),
        }
    }

    /// The frames, the innermost last.
    pub open spec fn frames(&self) -> Seq<FrameV> {
        Seq::new(self.stack@.len(), |i: int| self.stack@[i]@)
    }

    /// The memory is made of whole pages.
    pub open spec fn wf(&self) -> bool {
        self.memory.wf()
    }
}

} // verus!
