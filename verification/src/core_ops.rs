use vstd::prelude::*;
use crate::node::{Allocator, Node, NodeVal, null_val, one_val, pair_val};
use crate::reduction::{ErrorKind, EvalErr, EvalErrVal, Reduction, ReductionVal, node_res_view,
    res_view};

verus! {

/// The fixed cost of the conditional operator.
pub const IF_COST: u32 = 10;
/// The fixed cost of the pair-construction operator.
pub const CONS_COST: u32 = 10;
/// The fixed cost of the left-projection operator.
pub const FIRST_COST: u32 = 10;
/// The fixed cost of the right-projection operator.
pub const REST_COST: u32 = 10;
/// The fixed cost of the pair-discrimination operator.
pub const LISTP_COST: u32 = 10;

/// The left element of a pair, or the structural failure that `first`
/// reports on an atom; the carried node is the atom itself.
pub open spec fn spec_first(n: NodeVal) -> Result<NodeVal, EvalErrVal> {
    match n {
        NodeVal::Pair(a, _) => Ok(*a),
        NodeVal::Atom(_) => Err(EvalErrVal { node: n, kind: ErrorKind::FirstOfNonCons }),
    }
}

/// The right element of a pair, or the structural failure that `rest`
/// reports on an atom; the carried node is the atom itself.
pub open spec fn spec_rest(n: NodeVal) -> Result<NodeVal, EvalErrVal> {
    match n {
        NodeVal::Pair(_, b) => Ok(*b),
        NodeVal::Atom(_) => Err(EvalErrVal { node: n, kind: ErrorKind::RestOfNonCons }),
    }
}

impl Node {
    /// The left element of a pair node; an atom node fails structurally.
    pub fn first(&self) -> (r: Result<Node, EvalErr>)
        ensures
            node_res_view(r) == spec_first(self@),
    {
        match self {
            Node::Pair(a, _) => Ok((&**a).clone()),
            Node::Atom(_) => Err(EvalErr { node: self.clone(), kind: ErrorKind::FirstOfNonCons }),
        }
    }

    /// The right element of a pair node; an atom node fails structurally.
    pub fn rest(&self) -> (r: Result<Node, EvalErr>)
        ensures
            node_res_view(r) == spec_rest(self@),
    {
        match self {
            Node::Pair(_, b) => Ok((&**b).clone()),
            Node::Atom(_) => Err(EvalErr { node: self.clone(), kind: ErrorKind::RestOfNonCons }),
        }
    }
}

/// The outcome of the conditional operator on an argument list
/// `(cond then else ...)`: the `then` element unless `cond` is exactly
/// the canonical `null` atom, in which case the `else` element; any
/// missing level of pairing is the structural failure of the accessor
/// that first met an atom.  The cost is fixed.
pub open spec fn spec_op_if(args: NodeVal) -> Result<ReductionVal, EvalErrVal> {
    match spec_first(args) {
        Err(e) => Err(e),
        Ok(cond) => match spec_rest(args) {
            Err(e) => Err(e),
            Ok(tail) => {
                let chosen = if cond == null_val() {
                    spec_rest(tail)
                } else {
                    Ok(tail)
                };
                match chosen {
                    Err(e) => Err(e),
                    Ok(c) => match spec_first(c) {
                        Err(e) => Err(e),
                        Ok(v) => Ok(ReductionVal { cost: IF_COST as int, node: v }),
                    },
                }
            },
        },
    }
}

/// The conditional operator.
pub fn op_if<A: Allocator>(_allocator: &A, args: &Node) -> (r: Result<Reduction, EvalErr>)
    ensures
        res_view(r) == spec_op_if(args@),
{
    let cond = match args.first() {
        Ok(c) => c,
        Err(e) => { return Err(e); },
    };
    let mut chosen_node = match args.rest() {
        Ok(t) => t,
        Err(e) => { return Err(e); },
    };
    if cond.nullp() {
        chosen_node = match chosen_node.rest() {
            Ok(t) => t,
            Err(e) => { return Err(e); },
        };
    }
    match chosen_node.first() {
        Ok(v) => Ok(Reduction(IF_COST, v)),
        Err(e) => Err(e),
    }
}

/// The outcome of the pair-construction operator on `(a1 a2 ...)`: the
/// new pair of the first two elements, at fixed cost.
pub open spec fn spec_op_cons(args: NodeVal) -> Result<ReductionVal, EvalErrVal> {
    match spec_first(args) {
        Err(e) => Err(e),
        Ok(a1) => match spec_rest(args) {
            Err(e) => Err(e),
            Ok(tail) => match spec_first(tail) {
                Err(e) => Err(e),
                Ok(a2) => Ok(ReductionVal { cost: CONS_COST as int, node: pair_val(a1, a2) }),
            },
        },
    }
}

/// The pair-construction operator; the one operator that allocates,
/// through the allocator capability.
pub fn op_cons<A: Allocator>(allocator: &A, args: &Node) -> (r: Result<Reduction, EvalErr>)
    ensures
        res_view(r) == spec_op_cons(args@),
{
    let a1 = match args.first() {
        Ok(n) => n,
        Err(e) => { return Err(e); },
    };
    let tail = match args.rest() {
        Ok(n) => n,
        Err(e) => { return Err(e); },
    };
    let a2 = match tail.first() {
        Ok(n) => n,
        Err(e) => { return Err(e); },
    };
    Ok(Reduction(CONS_COST, allocator.from_pair(&a1, &a2)))
}

/// The outcome of the left-projection operator on `(x ...)`: the left
/// element of `x`, at fixed cost; a structural failure if `args` or `x`
/// is an atom.
pub open spec fn spec_op_first(args: NodeVal) -> Result<ReductionVal, EvalErrVal> {
    match spec_first(args) {
        Err(e) => Err(e),
        Ok(x) => match spec_first(x) {
            Err(e) => Err(e),
            Ok(v) => Ok(ReductionVal { cost: FIRST_COST as int, node: v }),
        },
    }
}

/// The left-projection operator.
pub fn op_first<A: Allocator>(_allocator: &A, args: &Node) -> (r: Result<Reduction, EvalErr>)
    ensures
        res_view(r) == spec_op_first(args@),
{
    let x = match args.first() {
        Ok(n) => n,
        Err(e) => { return Err(e); },
    };
    match x.first() {
        Ok(v) => Ok(Reduction(FIRST_COST, v)),
        Err(e) => Err(e),
    }
}

/// The outcome of the right-projection operator on `(x ...)`: the right
/// element of `x`, at fixed cost; a structural failure if `args` or `x`
/// is an atom.
pub open spec fn spec_op_rest(args: NodeVal) -> Result<ReductionVal, EvalErrVal> {
    match spec_first(args) {
        Err(e) => Err(e),
        Ok(x) => match spec_rest(x) {
            Err(e) => Err(e),
            Ok(v) => Ok(ReductionVal { cost: REST_COST as int, node: v }),
        },
    }
}

/// The right-projection operator.
pub fn op_rest<A: Allocator>(_allocator: &A, args: &Node) -> (r: Result<Reduction, EvalErr>)
    ensures
        res_view(r) == spec_op_rest(args@),
{
    let x = match args.first() {
        Ok(n) => n,
        Err(e) => { return Err(e); },
    };
    match x.rest() {
        Ok(v) => Ok(Reduction(REST_COST, v)),
        Err(e) => Err(e),
    }
}

/// The outcome of the pair-discrimination operator on `(x ...)`: the
/// canonical `one` if `x` is a pair, else the canonical `null`, at fixed
/// cost; it fails only when `args` itself is an atom.
pub open spec fn spec_op_listp(args: NodeVal) -> Result<ReductionVal, EvalErrVal> {
    match spec_first(args) {
        Err(e) => Err(e),
        Ok(x) => Ok(ReductionVal {
            cost: LISTP_COST as int,
            node: if x is Pair { one_val() } else { null_val() },
        }),
    }
}

/// The pair-discrimination operator.
pub fn op_listp<A: Allocator>(allocator: &A, args: &Node) -> (r: Result<Reduction, EvalErr>)
    ensures
        res_view(r) == spec_op_listp(args@),
{
    let x = match args.first() {
        Ok(n) => n,
        Err(e) => { return Err(e); },
    };
    if x.is_pair() {
        Ok(Reduction(LISTP_COST, allocator.one()))
    } else {
        Ok(Reduction(LISTP_COST, allocator.null()))
    }
}

/// The outcome of the `raise` operator: an explicit-raise failure
/// carrying the full argument list, whatever its shape or value.
pub open spec fn spec_op_raise(args: NodeVal) -> Result<ReductionVal, EvalErrVal> {
    Err(EvalErrVal { node: args, kind: ErrorKind::Raise })
}

/// The `raise` operator: the deliberate failure, for user-level
/// assertion and abort.
pub fn op_raise<A: Allocator>(_allocator: &A, args: &Node) -> (r: Result<Reduction, EvalErr>)
    ensures
        r is Err,
        res_view(r) == spec_op_raise(args@),
{
    Err(EvalErr { node: args.clone(), kind: ErrorKind::Raise })
}

/// The outcome of the equality operator on `(a0 a1 ...)`: the canonical
/// `one` if the two atoms hold identical byte sequences, else the
/// canonical `null`.  The cost is the two lengths added, with no fixed
/// base, so that comparing arbitrary-length atoms is never free.  A pair
/// operand fails with the equality-type error carrying `args` itself.
pub open spec fn spec_op_eq(args: NodeVal) -> Result<ReductionVal, EvalErrVal> {
    match spec_first(args) {
        Err(e) => Err(e),
        Ok(a0) => match spec_rest(args) {
            Err(e) => Err(e),
            Ok(tail) => match spec_first(tail) {
                Err(e) => Err(e),
                Ok(a1) => match (a0, a1) {
                    (NodeVal::Atom(s0), NodeVal::Atom(s1)) => Ok(ReductionVal {
                        cost: s0.len() as int + s1.len() as int,
                        node: if s0 == s1 { one_val() } else { null_val() },
                    }),
                    _ => Err(EvalErrVal { node: args, kind: ErrorKind::EqOnList }),
                },
            },
        },
    }
}

/// Whether the cost the equality operator owes on this argument list
/// fits the unsigned 32-bit cost count; a machine limit only.
pub open spec fn eq_cost_fits(args: NodeVal) -> bool {
    match spec_op_eq(args) {
        Ok(red) => red.cost <= u32::MAX,
        Err(_) => true,
    }
}

/// Whether two byte vectors hold identical sequences.
fn bytes_equal(a: &Vec<u8>, b: &Vec<u8>) -> (r: bool)
    ensures
        r == (a@ == b@),
{
    if a.len() != b.len() {
        return false;
    }
    let mut i: usize = 0;
    while i < a.len()
        invariant
            i <= a.len(),
            a@.len() == b@.len(),
            forall|j: int| 0 <= j < i ==> a@[j] == b@[j],
        decreases a.len() - i,
    {
        if a[i] != b[i] {
            return false;
        }
        i += 1;
    }
    proof {
        assert(a@ =~= b@);
    }
    true
}

/// The equality operator.
pub fn op_eq<A: Allocator>(allocator: &A, args: &Node) -> (r: Result<Reduction, EvalErr>)
    requires
        eq_cost_fits(args@),
    ensures
        res_view(r) == spec_op_eq(args@),
{
    let a0 = match args.first() {
        Ok(n) => n,
        Err(e) => { return Err(e); },
    };
    let tail = match args.rest() {
        Ok(n) => n,
        Err(e) => { return Err(e); },
    };
    let a1 = match tail.first() {
        Ok(n) => n,
        Err(e) => { return Err(e); },
    };
    match (&a0, &a1) {
        (Node::Atom(s0), Node::Atom(s1)) => {
            let cost: u32 = s0.len() as u32 + s1.len() as u32;
            if bytes_equal(s0, s1) {
                Ok(Reduction(cost, allocator.one()))
            } else {
                Ok(Reduction(cost, allocator.null()))
            }
        },
        _ => Err(EvalErr { node: args.clone(), kind: ErrorKind::EqOnList }),
    }
}

} // verus!
