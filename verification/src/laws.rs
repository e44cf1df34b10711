use vstd::prelude::*;
use crate::node::{NodeVal, null_val, one_val, pair_val};
use crate::reduction::{ErrorKind, EvalErrVal, ReductionVal};
use crate::core_ops::{CONS_COST, FIRST_COST, IF_COST, LISTP_COST, REST_COST, spec_op_cons,
    spec_op_eq, spec_op_first, spec_op_if, spec_op_listp, spec_op_raise, spec_op_rest};

verus! {

/// For any two atoms, the equality operator succeeds with the canonical
/// `one` exactly when the byte sequences are identical, else the
/// canonical `null`, and its cost is exactly the two lengths added,
/// whatever the outcome.
pub proof fn lemma_eq_on_atoms(a: Seq<u8>, b: Seq<u8>, tail: NodeVal)
    ensures
        spec_op_eq(pair_val(NodeVal::Atom(a), pair_val(NodeVal::Atom(b), tail)))
            == Ok::<ReductionVal, EvalErrVal>(ReductionVal {
                cost: a.len() as int + b.len() as int,
                node: if a == b { one_val() } else { null_val() },
            }),
{
}

/// For any node, atom or pair, the pair-discrimination operator succeeds
/// with the canonical `one` exactly when the node is a pair, else the
/// canonical `null`, always at its fixed cost.
pub proof fn lemma_listp_total(x: NodeVal, tail: NodeVal)
    ensures
        spec_op_listp(pair_val(x, tail)) == Ok::<ReductionVal, EvalErrVal>(ReductionVal {
            cost: LISTP_COST as int,
            node: if x is Pair { one_val() } else { null_val() },
        }),
{
}

/// Round trip: constructing a pair from any two nodes and projecting it
/// gives the nodes back; `first` of the constructed pair is the left
/// node, `rest` is the right node.
pub proof fn lemma_cons_round_trip(a: NodeVal, b: NodeVal)
    ensures
        spec_op_cons(pair_val(a, pair_val(b, null_val())))
            == Ok::<ReductionVal, EvalErrVal>(ReductionVal {
                cost: CONS_COST as int,
                node: pair_val(a, b),
            }),
        spec_op_first(pair_val(pair_val(a, b), null_val()))
            == Ok::<ReductionVal, EvalErrVal>(ReductionVal {
                cost: FIRST_COST as int,
                node: a,
            }),
        spec_op_rest(pair_val(pair_val(a, b), null_val()))
            == Ok::<ReductionVal, EvalErrVal>(ReductionVal {
                cost: REST_COST as int,
                node: b,
            }),
{
}

/// For any three nodes, the conditional operator yields the second
/// unless the first is exactly the canonical `null` atom, in which case
/// it yields the third; the cost is its fixed constant either way.
pub proof fn lemma_if_selects(cond: NodeVal, then_v: NodeVal, else_v: NodeVal, tail: NodeVal)
    ensures
        spec_op_if(pair_val(cond, pair_val(then_v, pair_val(else_v, tail))))
            == Ok::<ReductionVal, EvalErrVal>(ReductionVal {
                cost: IF_COST as int,
                node: if cond == null_val() { else_v } else { then_v },
            }),
{
}

/// The `raise` operator fails on every possible argument list, carrying
/// that list itself.
pub proof fn lemma_raise_always_fails(args: NodeVal)
    ensures
        spec_op_raise(args) is Err,
        spec_op_raise(args) == Err::<ReductionVal, EvalErrVal>(EvalErrVal {
            node: args,
            kind: ErrorKind::Raise,
        }),
{
}

/// The projection operators fail with a structural error on every atom
/// argument, the canonical `null` and `one` atoms included; the carried
/// node is the atom itself.
pub proof fn lemma_first_rest_fail_on_atom(bytes: Seq<u8>, tail: NodeVal)
    ensures
        spec_op_first(pair_val(NodeVal::Atom(bytes), tail))
            == Err::<ReductionVal, EvalErrVal>(EvalErrVal {
                node: NodeVal::Atom(bytes),
                kind: ErrorKind::FirstOfNonCons,
            }),
        spec_op_rest(pair_val(NodeVal::Atom(bytes), tail))
            == Err::<ReductionVal, EvalErrVal>(EvalErrVal {
                node: NodeVal::Atom(bytes),
                kind: ErrorKind::RestOfNonCons,
            }),
        ErrorKind::FirstOfNonCons.is_structural() && ErrorKind::RestOfNonCons.is_structural(),
{
}

} // verus!
