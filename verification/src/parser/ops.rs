use vstd::prelude::*;

verus! {

/// Integer operators of one operand.
#[derive(Debug, Clone, Copy, PartialEq, Eq, Structural)]
pub enum IUnOp {
    Clz,
    Ctz,
    Popcnt,
}

impl IUnOp {
    /// The place of this operator in its run of opcodes.
    pub open spec fn index(self) -> u8 {
        match self {
            IUnOp::Clz => 0,
            IUnOp::Ctz => 1,
            IUnOp::Popcnt => 2,
        }
    }

    /// The operator at place `i` of the run.
    pub open spec fn spec_from_index(i: u8) -> IUnOp {
        match i {
            0 => IUnOp::Clz,
            1 => IUnOp::Ctz,
            _ => IUnOp::Popcnt,
        }
    }

    /// Every operator stands at its place in the run.
    pub proof fn lemma_index(self)
        ensures
            self.index() < 3,
            Self::spec_from_index(self.index()) == self,
    {
    }

    /// The operator at place `i` of the run.
    pub fn from_index(i: u8) -> (op: IUnOp)
        requires
            i < 3,
        ensures
            op == Self::spec_from_index(i),
            op.index() == i,
    {
        match i {
            0 => IUnOp::Clz,
            1 => IUnOp::Ctz,
            _ => IUnOp::Popcnt,
        }
    }
}

/// Integer operators of two operands.
#[derive(Debug, Clone, Copy, PartialEq, Eq, Structural)]
pub enum IBinOp {
    Add,
    Sub,
    Mul,
    DivS,
    DivU,
    RemS,
    RemU,
    And,
    Or,
    Xor,
    Shl,
    ShrS,
    ShrU,
    Rotl,
    Rotr,
}

impl IBinOp {
    /// The place of this operator in its run of opcodes.
    pub open spec fn index(self) -> u8 {
        match self {
            IBinOp::Add => 0,
            IBinOp::Sub => 1,
            IBinOp::Mul => 2,
            IBinOp::DivS => 3,
            IBinOp::DivU => 4,
            IBinOp::RemS => 5,
            IBinOp::RemU => 6,
            IBinOp::And => 7,
            IBinOp::Or => 8,
            IBinOp::Xor => 9,
            IBinOp::Shl => 10,
            IBinOp::ShrS => 11,
            IBinOp::ShrU => 12,
            IBinOp::Rotl => 13,
            IBinOp::Rotr => 14,
        }
    }

    /// The operator at place `i` of the run.
    pub open spec fn spec_from_index(i: u8) -> IBinOp {
        match i {
            0 => IBinOp::Add,
            1 => IBinOp::Sub,
            2 => IBinOp::Mul,
            3 => IBinOp::DivS,
            4 => IBinOp::DivU,
            5 => IBinOp::RemS,
            6 => IBinOp::RemU,
            7 => IBinOp::And,
            8 => IBinOp::Or,
            9 => IBinOp::Xor,
            10 => IBinOp::Shl,
            11 => IBinOp::ShrS,
            12 => IBinOp::ShrU,
            13 => IBinOp::Rotl,
            _ => IBinOp::Rotr,
        }
    }

    /// Every operator stands at its place in the run.
    pub proof fn lemma_index(self)
        ensures
            self.index() < 15,
            Self::spec_from_index(self.index()) == self,
    {
    }

    /// The operator at place `i` of the run.
    pub fn from_index(i: u8) -> (op: IBinOp)
        requires
            i < 15,
        ensures
            op == Self::spec_from_index(i),
            op.index() == i,
    {
        match i {
            0 => IBinOp::Add,
            1 => IBinOp::Sub,
            2 => IBinOp::Mul,
            3 => IBinOp::DivS,
            4 => IBinOp::DivU,
            5 => IBinOp::RemS,
            6 => IBinOp::RemU,
            7 => IBinOp::And,
            8 => IBinOp::Or,
            9 => IBinOp::Xor,
            10 => IBinOp::Shl,
            11 => IBinOp::ShrS,
            12 => IBinOp::ShrU,
            13 => IBinOp::Rotl,
            _ => IBinOp::Rotr,
        }
    }
}

/// Integer comparisons.
#[derive(Debug, Clone, Copy, PartialEq, Eq, Structural)]
pub enum IRelOp {
    Eq,
    Ne,
    LtS,
    LtU,
    GtS,
    GtU,
    LeS,
    LeU,
    GeS,
    GeU,
}

impl IRelOp {
    /// The place of this operator in its run of opcodes.
    pub open spec fn index(self) -> u8 {
        match self {
            IRelOp::Eq => 0,
            IRelOp::Ne => 1,
            IRelOp::LtS => 2,
            IRelOp::LtU => 3,
            IRelOp::GtS => 4,
            IRelOp::GtU => 5,
            IRelOp::LeS => 6,
            IRelOp::LeU => 7,
            IRelOp::GeS => 8,
            IRelOp::GeU => 9,
        }
    }

    /// The operator at place `i` of the run.
    pub open spec fn spec_from_index(i: u8) -> IRelOp {
        match i {
            0 => IRelOp::Eq,
            1 => IRelOp::Ne,
            2 => IRelOp::LtS,
            3 => IRelOp::LtU,
            4 => IRelOp::GtS,
            5 => IRelOp::GtU,
            6 => IRelOp::LeS,
            7 => IRelOp::LeU,
            8 => IRelOp::GeS,
            _ => IRelOp::GeU,
        }
    }

    /// Every operator stands at its place in the run.
    pub proof fn lemma_index(self)
        ensures
            self.index() < 10,
            Self::spec_from_index(self.index()) == self,
    {
    }

    /// The operator at place `i` of the run.
    pub fn from_index(i: u8) -> (op: IRelOp)
        requires
            i < 10,
        ensures
            op == Self::spec_from_index(i),
            op.index() == i,
    {
        match i {
            0 => IRelOp::Eq,
            1 => IRelOp::Ne,
            2 => IRelOp::LtS,
            3 => IRelOp::LtU,
            4 => IRelOp::GtS,
            5 => IRelOp::GtU,
            6 => IRelOp::LeS,
            7 => IRelOp::LeU,
            8 => IRelOp::GeS,
            _ => IRelOp::GeU,
        }
    }
}

/// Floating-point operators of one operand.
#[derive(Debug, Clone, Copy, PartialEq, Eq, Structural)]
pub enum FUnOp {
    Abs,
    Neg,
    Ceil,
    Floor,
    Trunc,
    Nearest,
    Sqrt,
}

impl FUnOp {
    /// The place of this operator in its run of opcodes.
    pub open spec fn index(self) -> u8 {
        match self {
            FUnOp::Abs => 0,
            FUnOp::Neg => 1,
            FUnOp::Ceil => 2,
            FUnOp::Floor => 3,
            FUnOp::Trunc => 4,
            FUnOp::Nearest => 5,
            FUnOp::Sqrt => 6,
        }
    }

    /// The operator at place `i` of the run.
    pub open spec fn spec_from_index(i: u8) -> FUnOp {
        match i {
            0 => FUnOp::Abs,
            1 => FUnOp::Neg,
            2 => FUnOp::Ceil,
            3 => FUnOp::Floor,
            4 => FUnOp::Trunc,
            5 => FUnOp::Nearest,
            _ => FUnOp::Sqrt,
        }
    }

    /// Every operator stands at its place in the run.
    pub proof fn lemma_index(self)
        ensures
            self.index() < 7,
            Self::spec_from_index(self.index()) == self,
    {
    }

    /// The operator at place `i` of the run.
    pub fn from_index(i: u8) -> (op: FUnOp)
        requires
            i < 7,
        ensures
            op == Self::spec_from_index(i),
            op.index() == i,
    {
        match i {
            0 => FUnOp::Abs,
            1 => FUnOp::Neg,
            2 => FUnOp::Ceil,
            3 => FUnOp::Floor,
            4 => FUnOp::Trunc,
            5 => FUnOp::Nearest,
            _ => FUnOp::Sqrt,
        }
    }
}

/// Floating-point operators of two operands.
#[derive(Debug, Clone, Copy, PartialEq, Eq, Structural)]
pub enum FBinOp {
    Add,
    Sub,
    Mul,
    Div,
    Min,
    Max,
    Copysign,
}

impl FBinOp {
    /// The place of this operator in its run of opcodes.
    pub open spec fn index(self) -> u8 {
        match self {
            FBinOp::Add => 0,
            FBinOp::Sub => 1,
            FBinOp::Mul => 2,
            FBinOp::Div => 3,
            FBinOp::Min => 4,
            FBinOp::Max => 5,
            FBinOp::Copysign => 6,
        }
    }

    /// The operator at place `i` of the run.
    pub open spec fn spec_from_index(i: u8) -> FBinOp {
        match i {
            0 => FBinOp::Add,
            1 => FBinOp::Sub,
            2 => FBinOp::Mul,
            3 => FBinOp::Div,
            4 => FBinOp::Min,
            5 => FBinOp::Max,
            _ => FBinOp::Copysign,
        }
    }

    /// Every operator stands at its place in the run.
    pub proof fn lemma_index(self)
        ensures
            self.index() < 7,
            Self::spec_from_index(self.index()) == self,
    {
    }

    /// The operator at place `i` of the run.
    pub fn from_index(i: u8) -> (op: FBinOp)
        requires
            i < 7,
        ensures
            op == Self::spec_from_index(i),
            op.index() == i,
    {
        match i {
            0 => FBinOp::Add,
            1 => FBinOp::Sub,
            2 => FBinOp::Mul,
            3 => FBinOp::Div,
            4 => FBinOp::Min,
            5 => FBinOp::Max,
            _ => FBinOp::Copysign,
        }
    }
}

/// Floating-point comparisons.
#[derive(Debug, Clone, Copy, PartialEq, Eq, Structural)]
pub enum FRelOp {
    Eq,
    Ne,
    Lt,
    Gt,
    Le,
    Ge,
}

impl FRelOp {
    /// The place of this operator in its run of opcodes.
    pub open spec fn index(self) -> u8 {
        match self {
            FRelOp::Eq => 0,
            FRelOp::Ne => 1,
            FRelOp::Lt => 2,
            FRelOp::Gt => 3,
            FRelOp::Le => 4,
            FRelOp::Ge => 5,
        }
    }

    /// The operator at place `i` of the run.
    pub open spec fn spec_from_index(i: u8) -> FRelOp {
        match i {
            0 => FRelOp::Eq,
            1 => FRelOp::Ne,
            2 => FRelOp::Lt,
            3 => FRelOp::Gt,
            4 => FRelOp::Le,
            _ => FRelOp::Ge,
        }
    }

    /// Every operator stands at its place in the run.
    pub proof fn lemma_index(self)
        ensures
            self.index() < 6,
            Self::spec_from_index(self.index()) == self,
    {
    }

    /// The operator at place `i` of the run.
    pub fn from_index(i: u8) -> (op: FRelOp)
        requires
            i < 6,
        ensures
            op == Self::spec_from_index(i),
            op.index() == i,
    {
        match i {
            0 => FRelOp::Eq,
            1 => FRelOp::Ne,
            2 => FRelOp::Lt,
            3 => FRelOp::Gt,
            4 => FRelOp::Le,
            _ => FRelOp::Ge,
        }
    }
}

/// Conversions between the number types, opcodes `0xA7` to `0xC4`.
#[derive(Debug, Clone, Copy, PartialEq, Eq, Structural)]
pub enum CvtOp {
    I32WrapI64,
    I32TruncF32S,
    I32TruncF32U,
    I32TruncF64S,
    I32TruncF64U,
    I64ExtendI32S,
    I64ExtendI32U,
    I64TruncF32S,
    I64TruncF32U,
    I64TruncF64S,
    I64TruncF64U,
    F32ConvertI32S,
    F32ConvertI32U,
    F32ConvertI64S,
    F32ConvertI64U,
    F32DemoteF64,
    F64ConvertI32S,
    F64ConvertI32U,
    F64ConvertI64S,
    F64ConvertI64U,
    F64PromoteF32,
    I32ReinterpretF32,
    I64ReinterpretF64,
    F32ReinterpretI32,
    F64ReinterpretI64,
    I32Extend8S,
    I32Extend16S,
    I64Extend8S,
    I64Extend16S,
    I64Extend32S,
}

impl CvtOp {
    /// The place of this operator in its run of opcodes.
    pub open spec fn index(self) -> u8 {
        match self {
            CvtOp::I32WrapI64 => 0,
            CvtOp::I32TruncF32S => 1,
            CvtOp::I32TruncF32U => 2,
            CvtOp::I32TruncF64S => 3,
            CvtOp::I32TruncF64U => 4,
            CvtOp::I64ExtendI32S => 5,
            CvtOp::I64ExtendI32U => 6,
            CvtOp::I64TruncF32S => 7,
            CvtOp::I64TruncF32U => 8,
            CvtOp::I64TruncF64S => 9,
            CvtOp::I64TruncF64U => 10,
            CvtOp::F32ConvertI32S => 11,
            CvtOp::F32ConvertI32U => 12,
            CvtOp::F32ConvertI64S => 13,
            CvtOp::F32ConvertI64U => 14,
            CvtOp::F32DemoteF64 => 15,
            CvtOp::F64ConvertI32S => 16,
            CvtOp::F64ConvertI32U => 17,
            CvtOp::F64ConvertI64S => 18,
            CvtOp::F64ConvertI64U => 19,
            CvtOp::F64PromoteF32 => 20,
            CvtOp::I32ReinterpretF32 => 21,
            CvtOp::I64ReinterpretF64 => 22,
            CvtOp::F32ReinterpretI32 => 23,
            CvtOp::F64ReinterpretI64 => 24,
            CvtOp::I32Extend8S => 25,
            CvtOp::I32Extend16S => 26,
            CvtOp::I64Extend8S => 27,
            CvtOp::I64Extend16S => 28,
            CvtOp::I64Extend32S => 29,
        }
    }

    /// The operator at place `i` of the run.
    pub open spec fn spec_from_index(i: u8) -> CvtOp {
        match i {
            0 => CvtOp::I32WrapI64,
            1 => CvtOp::I32TruncF32S,
            2 => CvtOp::I32TruncF32U,
            3 => CvtOp::I32TruncF64S,
            4 => CvtOp::I32TruncF64U,
            5 => CvtOp::I64ExtendI32S,
            6 => CvtOp::I64ExtendI32U,
            7 => CvtOp::I64TruncF32S,
            8 => CvtOp::I64TruncF32U,
            9 => CvtOp::I64TruncF64S,
            10 => CvtOp::I64TruncF64U,
            11 => CvtOp::F32ConvertI32S,
            12 => CvtOp::F32ConvertI32U,
            13 => CvtOp::F32ConvertI64S,
            14 => CvtOp::F32ConvertI64U,
            15 => CvtOp::F32DemoteF64,
            16 => CvtOp::F64ConvertI32S,
            17 => CvtOp::F64ConvertI32U,
            18 => CvtOp::F64ConvertI64S,
            19 => CvtOp::F64ConvertI64U,
            20 => CvtOp::F64PromoteF32,
            21 => CvtOp::I32ReinterpretF32,
            22 => CvtOp::I64ReinterpretF64,
            23 => CvtOp::F32ReinterpretI32,
            24 => CvtOp::F64ReinterpretI64,
            25 => CvtOp::I32Extend8S,
            26 => CvtOp::I32Extend16S,
            27 => CvtOp::I64Extend8S,
            28 => CvtOp::I64Extend16S,
            _ => CvtOp::I64Extend32S,
        }
    }

    /// Every operator stands at its place in the run.
    pub proof fn lemma_index(self)
        ensures
            self.index() < 30,
            Self::spec_from_index(self.index()) == self,
    {
    }

    /// The operator at place `i` of the run.
    pub fn from_index(i: u8) -> (op: CvtOp)
        requires
            i < 30,
        ensures
            op == Self::spec_from_index(i),
            op.index() == i,
    {
        match i {
            0 => CvtOp::I32WrapI64,
            1 => CvtOp::I32TruncF32S,
            2 => CvtOp::I32TruncF32U,
            3 => CvtOp::I32TruncF64S,
            4 => CvtOp::I32TruncF64U,
            5 => CvtOp::I64ExtendI32S,
            6 => CvtOp::I64ExtendI32U,
            7 => CvtOp::I64TruncF32S,
            8 => CvtOp::I64TruncF32U,
            9 => CvtOp::I64TruncF64S,
            10 => CvtOp::I64TruncF64U,
            11 => CvtOp::F32ConvertI32S,
            12 => CvtOp::F32ConvertI32U,
            13 => CvtOp::F32ConvertI64S,
            14 => CvtOp::F32ConvertI64U,
            15 => CvtOp::F32DemoteF64,
            16 => CvtOp::F64ConvertI32S,
            17 => CvtOp::F64ConvertI32U,
            18 => CvtOp::F64ConvertI64S,
            19 => CvtOp::F64ConvertI64U,
            20 => CvtOp::F64PromoteF32,
            21 => CvtOp::I32ReinterpretF32,
            22 => CvtOp::I64ReinterpretF64,
            23 => CvtOp::F32ReinterpretI32,
            24 => CvtOp::F64ReinterpretI64,
            25 => CvtOp::I32Extend8S,
            26 => CvtOp::I32Extend16S,
            27 => CvtOp::I64Extend8S,
            28 => CvtOp::I64Extend16S,
            _ => CvtOp::I64Extend32S,
        }
    }
}

/// Saturating truncations, sub-opcodes 0 to 7 of the prefix `0xFC`.
#[derive(Debug, Clone, Copy, PartialEq, Eq, Structural)]
pub enum TruncSatOp {
    I32F32S,
    I32F32U,
    I32F64S,
    I32F64U,
    I64F32S,
    I64F32U,
    I64F64S,
    I64F64U,
}

impl TruncSatOp {
    /// The place of this operator in its run of opcodes.
    pub open spec fn index(self) -> u8 {
        match self {
            TruncSatOp::I32F32S => 0,
            TruncSatOp::I32F32U => 1,
            TruncSatOp::I32F64S => 2,
            TruncSatOp::I32F64U => 3,
            TruncSatOp::I64F32S => 4,
            TruncSatOp::I64F32U => 5,
            TruncSatOp::I64F64S => 6,
            TruncSatOp::I64F64U => 7,
        }
    }

    /// The operator at place `i` of the run.
    pub open spec fn spec_from_index(i: u8) -> TruncSatOp {
        match i {
            0 => TruncSatOp::I32F32S,
            1 => TruncSatOp::I32F32U,
            2 => TruncSatOp::I32F64S,
            3 => TruncSatOp::I32F64U,
            4 => TruncSatOp::I64F32S,
            5 => TruncSatOp::I64F32U,
            6 => TruncSatOp::I64F64S,
            _ => TruncSatOp::I64F64U,
        }
    }

    /// Every operator stands at its place in the run.
    pub proof fn lemma_index(self)
        ensures
            self.index() < 8,
            Self::spec_from_index(self.index()) == self,
    {
    }

    /// The operator at place `i` of the run.
    pub fn from_index(i: u8) -> (op: TruncSatOp)
        requires
            i < 8,
        ensures
            op == Self::spec_from_index(i),
            op.index() == i,
    {
        match i {
            0 => TruncSatOp::I32F32S,
            1 => TruncSatOp::I32F32U,
            2 => TruncSatOp::I32F64S,
            3 => TruncSatOp::I32F64U,
            4 => TruncSatOp::I64F32S,
            5 => TruncSatOp::I64F32U,
            6 => TruncSatOp::I64F64S,
            _ => TruncSatOp::I64F64U,
        }
    }
}

/// Loads, opcodes `0x28` to `0x35`.
#[derive(Debug, Clone, Copy, PartialEq, Eq, Structural)]
pub enum LoadOp {
    I32,
    I64,
    F32,
    F64,
    I32Load8S,
    I32Load8U,
    I32Load16S,
    I32Load16U,
    I64Load8S,
    I64Load8U,
    I64Load16S,
    I64Load16U,
    I64Load32S,
    I64Load32U,
}

impl LoadOp {
    /// The place of this operator in its run of opcodes.
    pub open spec fn index(self) -> u8 {
        match self {
            LoadOp::I32 => 0,
            LoadOp::I64 => 1,
            LoadOp::F32 => 2,
            LoadOp::F64 => 3,
            LoadOp::I32Load8S => 4,
            LoadOp::I32Load8U => 5,
            LoadOp::I32Load16S => 6,
            LoadOp::I32Load16U => 7,
            LoadOp::I64Load8S => 8,
            LoadOp::I64Load8U => 9,
            LoadOp::I64Load16S => 10,
            LoadOp::I64Load16U => 11,
            LoadOp::I64Load32S => 12,
            LoadOp::I64Load32U => 13,
        }
    }

    /// The operator at place `i` of the run.
    pub open spec fn spec_from_index(i: u8) -> LoadOp {
        match i {
            0 => LoadOp::I32,
            1 => LoadOp::I64,
            2 => LoadOp::F32,
            3 => LoadOp::F64,
            4 => LoadOp::I32Load8S,
            5 => LoadOp::I32Load8U,
            6 => LoadOp::I32Load16S,
            7 => LoadOp::I32Load16U,
            8 => LoadOp::I64Load8S,
            9 => LoadOp::I64Load8U,
            10 => LoadOp::I64Load16S,
            11 => LoadOp::I64Load16U,
            12 => LoadOp::I64Load32S,
            _ => LoadOp::I64Load32U,
        }
    }

    /// Every operator stands at its place in the run.
    pub proof fn lemma_index(self)
        ensures
            self.index() < 14,
            Self::spec_from_index(self.index()) == self,
    {
    }

    /// The operator at place `i` of the run.
    pub fn from_index(i: u8) -> (op: LoadOp)
        requires
            i < 14,
        ensures
            op == Self::spec_from_index(i),
            op.index() == i,
    {
        match i {
            0 => LoadOp::I32,
            1 => LoadOp::I64,
            2 => LoadOp::F32,
            3 => LoadOp::F64,
            4 => LoadOp::I32Load8S,
            5 => LoadOp::I32Load8U,
            6 => LoadOp::I32Load16S,
            7 => LoadOp::I32Load16U,
            8 => LoadOp::I64Load8S,
            9 => LoadOp::I64Load8U,
            10 => LoadOp::I64Load16S,
            11 => LoadOp::I64Load16U,
            12 => LoadOp::I64Load32S,
            _ => LoadOp::I64Load32U,
        }
    }
}

/// Stores, opcodes `0x36` to `0x3E`.
#[derive(Debug, Clone, Copy, PartialEq, Eq, Structural)]
pub enum StoreOp {
    I32,
    I64,
    F32,
    F64,
    I32Store8,
    I32Store16,
    I64Store8,
    I64Store16,
    I64Store32,
}

impl StoreOp {
    /// The place of this operator in its run of opcodes.
    pub open spec fn index(self) -> u8 {
        match self {
            StoreOp::I32 => 0,
            StoreOp::I64 => 1,
            StoreOp::F32 => 2,
            StoreOp::F64 => 3,
            StoreOp::I32Store8 => 4,
            StoreOp::I32Store16 => 5,
            StoreOp::I64Store8 => 6,
            StoreOp::I64Store16 => 7,
            StoreOp::I64Store32 => 8,
        }
    }

    /// The operator at place `i` of the run.
    pub open spec fn spec_from_index(i: u8) -> StoreOp {
        match i {
            0 => StoreOp::I32,
            1 => StoreOp::I64,
            2 => StoreOp::F32,
            3 => StoreOp::F64,
            4 => StoreOp::I32Store8,
            5 => StoreOp::I32Store16,
            6 => StoreOp::I64Store8,
            7 => StoreOp::I64Store16,
            _ => StoreOp::I64Store32,
        }
    }

    /// Every operator stands at its place in the run.
    pub proof fn lemma_index(self)
        ensures
            self.index() < 9,
            Self::spec_from_index(self.index()) == self,
    {
    }

    /// The operator at place `i` of the run.
    pub fn from_index(i: u8) -> (op: StoreOp)
        requires
            i < 9,
        ensures
            op == Self::spec_from_index(i),
            op.index() == i,
    {
        match i {
            0 => StoreOp::I32,
            1 => StoreOp::I64,
            2 => StoreOp::F32,
            3 => StoreOp::F64,
            4 => StoreOp::I32Store8,
            5 => StoreOp::I32Store16,
            6 => StoreOp::I64Store8,
            7 => StoreOp::I64Store16,
            _ => StoreOp::I64Store32,
        }
    }
}

/// The width of an integer or floating-point operand.
#[derive(Debug, Clone, Copy, PartialEq, Eq, Structural)]
pub enum Width {
    W32,
    W64,
}

impl LoadOp {
    /// Number of bytes that the load reads.
    pub open spec fn spec_width(self) -> u32 {
        match self {
            LoadOp::I32 | LoadOp::F32 | LoadOp::I64Load32S | LoadOp::I64Load32U => 4,
            LoadOp::I64 | LoadOp::F64 => 8,
            LoadOp::I32Load8S | LoadOp::I32Load8U | LoadOp::I64Load8S | LoadOp::I64Load8U => 1,
            LoadOp::I32Load16S | LoadOp::I32Load16U | LoadOp::I64Load16S | LoadOp::I64Load16U => 2,
        }
    }

    /// Number of bytes of the access.
    pub fn width(self) -> (w: u32)
        ensures
            w == self.spec_width(),
    {
        match self {
            LoadOp::I32 | LoadOp::F32 | LoadOp::I64Load32S | LoadOp::I64Load32U => 4,
            LoadOp::I64 | LoadOp::F64 => 8,
            LoadOp::I32Load8S | LoadOp::I32Load8U | LoadOp::I64Load8S | LoadOp::I64Load8U => 1,
            LoadOp::I32Load16S | LoadOp::I32Load16U | LoadOp::I64Load16S | LoadOp::I64Load16U => 2,
        }
    }
}

impl StoreOp {
    /// Number of bytes that the store writes.
    pub open spec fn spec_width(self) -> u32 {
        match self {
            StoreOp::I32 | StoreOp::F32 | StoreOp::I64Store32 => 4,
            StoreOp::I64 | StoreOp::F64 => 8,
            StoreOp::I32Store8 | StoreOp::I64Store8 => 1,
            StoreOp::I32Store16 | StoreOp::I64Store16 => 2,
        }
    }

    /// Number of bytes of the access.
    pub fn width(self) -> (w: u32)
        ensures
            w == self.spec_width(),
    {
        match self {
            StoreOp::I32 | StoreOp::F32 | StoreOp::I64Store32 => 4,
            StoreOp::I64 | StoreOp::F64 => 8,
            StoreOp::I32Store8 | StoreOp::I64Store8 => 1,
            StoreOp::I32Store16 | StoreOp::I64Store16 => 2,
        }
    }
}

/// The largest alignment exponent that an access of `width` bytes may
/// declare: the binary logarithm of the width.
pub open spec fn spec_max_align(width: u32) -> u32 {
    if width >= 8 {
        3
    } else if width >= 4 {
        2
    } else if width >= 2 {
        1
    } else {
        0
    }
}

/// The largest alignment exponent that an access of `width` bytes may
/// declare.
pub fn max_align(width: u32) -> (a: u32)
    ensures
        a == spec_max_align(width),
{
    if width >= 8 {
        3
    } else if width >= 4 {
        2
    } else if width >= 2 {
        1
    } else {
        0
    }
}

} // verus!
