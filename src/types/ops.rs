use vstd::prelude::*;

verus! {

/// Operations of one operand that keep its shape.
#[derive(Clone, Copy, PartialEq, Eq, Structural, Debug)]
pub enum UnaryOps {
    EXP2,
    Sigmoid,
    Softmax,
    MAX,
    LOG2,
    SUM,
}

/// Operations of two operands.
#[derive(Clone, Copy, PartialEq, Eq, Structural, Debug)]
pub enum BinaryOps {
    ADD,
    SUB,
    MUL,
}

/// Operations that collapse their operand to a single element.
#[derive(Clone, Copy, PartialEq, Eq, Structural, Debug)]
pub enum ReduceOps {
    SUM,
    MAX,
}

/// Operations of three operands (no rules are defined for them).
#[derive(Clone, Copy, PartialEq, Eq, Structural, Debug)]
pub enum TernaryOps {
    MULACC,
    WHERE,
}

/// Ways of producing a buffer without operands (no rules are defined for them).
#[derive(Clone, Copy, PartialEq, Eq, Structural, Debug)]
pub enum LoadOps {
    EMPTY,
    RAND,
    CONST,
    FROM,
    CONTIGUOUS,
    CUSTOM,
}

/// The operation that produced a tensor; `Leaf` marks a tensor made from data alone.
#[derive(Clone, Copy, PartialEq, Eq, Structural, Debug)]
pub enum Ops {
    UnaryOps(UnaryOps),
    BinaryOps(BinaryOps),
    ReduceOps(ReduceOps),
    TernaryOps(TernaryOps),
    LoadOps(LoadOps),
    Leaf,
}

impl Ops {
    /// The number of operands that a tensor made by this operation holds.
    pub open spec fn arity(self) -> nat {
        match self {
            Ops::BinaryOps(_) => 2,
            Ops::UnaryOps(_) => 1,
            Ops::ReduceOps(_) => 1,
            _ => 0,
        }
    }

    /// The operations whose gradient rule this engine knows.
    pub open spec fn has_backward_rule(self) -> bool {
        match self {
            Ops::BinaryOps(_) => true,
            Ops::UnaryOps(u) => u != UnaryOps::LOG2 && u != UnaryOps::SUM,
            Ops::ReduceOps(r) => r == ReduceOps::SUM,
            Ops::Leaf => true,
            _ => false,
        }
    }
}

} // verus!
