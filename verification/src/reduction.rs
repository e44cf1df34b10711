use vstd::prelude::*;
use crate::node::{Node, NodeVal};

verus! {

/// The success result of an operator: a deterministic unsigned cost
/// paired with the resulting node.
#[derive(Debug)]
pub struct Reduction(pub u32, pub Node);

/// The mathematical value of a reduction.
pub struct ReductionVal {
    pub cost: int,
    pub node: NodeVal,
}

impl View for Reduction {
    type V = ReductionVal;

    open spec fn view(&self) -> ReductionVal {
        ReductionVal { cost: self.0 as int, node: self.1@ }
    }
}

/// Which failure an operator reported; each kind carries a fixed message.
#[derive(Clone, Copy, PartialEq, Eq, Structural, Debug)]
pub enum ErrorKind {
    /// `first` was applied to an atom.
    FirstOfNonCons,
    /// `rest` was applied to an atom.
    RestOfNonCons,
    /// The `raise` operator was invoked.
    Raise,
    /// The `eq` operator was given a pair operand.
    EqOnList,
}

impl ErrorKind {
    /// Whether the kind reports `first` or `rest` applied to an atom.
    pub open spec fn is_structural(self) -> bool {
        self is FirstOfNonCons || self is RestOfNonCons
    }

    /// The fixed message text of this kind.
    pub open spec fn spec_message(self) -> Seq<char> {
        match self {
            ErrorKind::FirstOfNonCons => "first of non-cons"@,
            ErrorKind::RestOfNonCons => "rest of non-cons"@,
            ErrorKind::Raise => "clvm raise"@,
            ErrorKind::EqOnList => "= on list"@,
        }
    }

    /// The fixed message text of this kind.
    pub fn message(&self) -> (m: &'static str)
        ensures
            m@ == self.spec_message(),
    {
        match self {
            ErrorKind::FirstOfNonCons => "first of non-cons",
            ErrorKind::RestOfNonCons => "rest of non-cons",
            ErrorKind::Raise => "clvm raise",
            ErrorKind::EqOnList => "= on list",
        }
    }
}

/// The failure result of an operator: the offending node, identifying
/// the subtree that caused the failure, and the kind of failure.
#[derive(Debug)]
pub struct EvalErr {
    pub node: Node,
    pub kind: ErrorKind,
}

/// The mathematical value of an evaluation error.
pub struct EvalErrVal {
    pub node: NodeVal,
    pub kind: ErrorKind,
}

impl View for EvalErr {
    type V = EvalErrVal;

    open spec fn view(&self) -> EvalErrVal {
        EvalErrVal { node: self.node@, kind: self.kind }
    }
}

impl EvalErr {
    /// The fixed message text of this error.
    pub fn message(&self) -> (m: &'static str)
        ensures
            m@ == self.kind.spec_message(),
    {
        self.kind.message()
    }
}

/// The mathematical value of an operator's outcome.
pub open spec fn res_view(r: Result<Reduction, EvalErr>) -> Result<ReductionVal, EvalErrVal> {
    match r {
        Ok(red) => Ok(red@),
        Err(e) => Err(e@),
    }
}

/// The mathematical value of an accessor's outcome.
pub open spec fn node_res_view(r: Result<Node, EvalErr>) -> Result<NodeVal, EvalErrVal> {
    match r {
        Ok(n) => Ok(n@),
        Err(e) => Err(e@),
    }
}

} // verus!
