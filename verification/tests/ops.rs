use clvm_core::core_ops::{op_cons, op_eq, op_first, op_if, op_listp, op_raise, op_rest};
use clvm_core::node::{Allocator, HeapAllocator, Node};
use clvm_core::reduction::{ErrorKind, EvalErr, Reduction};

fn atom(bytes: &[u8]) -> Node {
    Node::Atom(bytes.to_vec())
}

fn pair(a: Node, b: Node) -> Node {
    Node::Pair(Box::new(a), Box::new(b))
}

fn null() -> Node {
    atom(&[])
}

fn one() -> Node {
    atom(&[1])
}

/// A proper list `(a b ...)` of the given elements.
fn list(elems: Vec<Node>) -> Node {
    let mut out = null();
    for e in elems.into_iter().rev() {
        out = pair(e, out);
    }
    out
}

fn atom_bytes(n: &Node) -> Vec<u8> {
    match n {
        Node::Atom(bytes) => bytes.clone(),
        Node::Pair(_, _) => panic!("expected an atom"),
    }
}

fn expect_ok(r: Result<Reduction, EvalErr>) -> (u32, Node) {
    match r {
        Ok(Reduction(cost, node)) => (cost, node),
        Err(e) => panic!("expected success, got error: {}", e.message()),
    }
}

fn expect_err(r: Result<Reduction, EvalErr>) -> EvalErr {
    match r {
        Ok(_) => panic!("expected an error"),
        Err(e) => e,
    }
}

#[test]
fn eq_identical_atoms() {
    let a = HeapAllocator;
    let args = list(vec![atom(b"abc"), atom(b"abc")]);
    let (cost, node) = expect_ok(op_eq(&a, &args));
    assert_eq!(cost, 6);
    assert_eq!(atom_bytes(&node), vec![1]);
}

#[test]
fn eq_different_atoms() {
    let a = HeapAllocator;
    let args = list(vec![atom(b"ab"), atom(b"abc")]);
    let (cost, node) = expect_ok(op_eq(&a, &args));
    assert_eq!(cost, 5);
    assert_eq!(atom_bytes(&node), Vec::<u8>::new());
}

#[test]
fn eq_empty_atoms() {
    let a = HeapAllocator;
    let args = list(vec![null(), null()]);
    let (cost, node) = expect_ok(op_eq(&a, &args));
    assert_eq!(cost, 0);
    assert_eq!(atom_bytes(&node), vec![1]);
}

#[test]
fn eq_on_pairs_fails() {
    let a = HeapAllocator;
    let c1 = pair(atom(&[1]), atom(&[2]));
    let c2 = pair(atom(&[1]), atom(&[2]));
    let args = list(vec![c1, c2]);
    let e = expect_err(op_eq(&a, &args));
    assert_eq!(e.kind, ErrorKind::EqOnList);
    assert_eq!(e.message(), "= on list");
}

#[test]
fn cons_then_first_and_rest() {
    let a = HeapAllocator;
    let args = list(vec![atom(&[1]), atom(&[2])]);
    let (cost, consed) = expect_ok(op_cons(&a, &args));
    assert_eq!(cost, 10);

    let (fcost, left) = expect_ok(op_first(&a, &list(vec![consed.clone()])));
    assert_eq!(fcost, 10);
    assert_eq!(atom_bytes(&left), vec![1]);

    let (rcost, right) = expect_ok(op_rest(&a, &list(vec![consed])));
    assert_eq!(rcost, 10);
    assert_eq!(atom_bytes(&right), vec![2]);
}

#[test]
fn if_null_condition_takes_else() {
    let a = HeapAllocator;
    let args = list(vec![null(), atom(&[5]), atom(&[6])]);
    let (cost, node) = expect_ok(op_if(&a, &args));
    assert_eq!(cost, 10);
    assert_eq!(atom_bytes(&node), vec![6]);
}

#[test]
fn if_truthy_condition_takes_then() {
    let a = HeapAllocator;
    let args = list(vec![one(), atom(&[5]), atom(&[6])]);
    let (cost, node) = expect_ok(op_if(&a, &args));
    assert_eq!(cost, 10);
    assert_eq!(atom_bytes(&node), vec![5]);
}

#[test]
fn if_zero_byte_atom_is_truthy() {
    // Only the zero-length atom selects the else branch; a one-byte 0x00
    // atom is true.
    let a = HeapAllocator;
    let args = list(vec![atom(&[0]), atom(&[5]), atom(&[6])]);
    let (_, node) = expect_ok(op_if(&a, &args));
    assert_eq!(atom_bytes(&node), vec![5]);
}

#[test]
fn if_pair_condition_is_truthy() {
    let a = HeapAllocator;
    let args = list(vec![pair(null(), null()), atom(&[5]), atom(&[6])]);
    let (_, node) = expect_ok(op_if(&a, &args));
    assert_eq!(atom_bytes(&node), vec![5]);
}

#[test]
fn listp_on_pair_and_atom() {
    let a = HeapAllocator;
    let (cost, node) = expect_ok(op_listp(&a, &list(vec![pair(atom(&[1]), atom(&[2]))])));
    assert_eq!(cost, 10);
    assert_eq!(atom_bytes(&node), vec![1]);

    let (cost, node) = expect_ok(op_listp(&a, &list(vec![atom(b"xyz")])));
    assert_eq!(cost, 10);
    assert_eq!(atom_bytes(&node), Vec::<u8>::new());
}

#[test]
fn raise_fails_on_every_argument() {
    let a = HeapAllocator;

    let e = expect_err(op_raise(&a, &list(vec![null()])));
    assert_eq!(e.kind, ErrorKind::Raise);
    assert_eq!(e.message(), "clvm raise");
    match e.node {
        Node::Pair(l, r) => {
            assert_eq!(atom_bytes(&l), Vec::<u8>::new());
            assert_eq!(atom_bytes(&r), Vec::<u8>::new());
        },
        Node::Atom(_) => panic!("the raise error must carry the argument list itself"),
    }

    let e = expect_err(op_raise(&a, &null()));
    assert_eq!(e.kind, ErrorKind::Raise);
    assert_eq!(atom_bytes(&e.node), Vec::<u8>::new());
}

#[test]
fn first_and_rest_fail_on_atoms() {
    let a = HeapAllocator;
    for arg in [null(), one(), atom(b"abc")] {
        let e = expect_err(op_first(&a, &list(vec![arg.clone()])));
        assert_eq!(e.kind, ErrorKind::FirstOfNonCons);
        assert_eq!(e.message(), "first of non-cons");
        assert_eq!(atom_bytes(&e.node), atom_bytes(&arg));

        let e = expect_err(op_rest(&a, &list(vec![arg.clone()])));
        assert_eq!(e.kind, ErrorKind::RestOfNonCons);
        assert_eq!(e.message(), "rest of non-cons");
        assert_eq!(atom_bytes(&e.node), atom_bytes(&arg));
    }
}

#[test]
fn accessors_on_atom_argument_list() {
    // The argument list itself is an atom: the outer accessor fails.
    let a = HeapAllocator;
    let e = expect_err(op_first(&a, &atom(b"zz")));
    assert_eq!(e.kind, ErrorKind::FirstOfNonCons);
    assert_eq!(atom_bytes(&e.node), b"zz".to_vec());

    let e = expect_err(op_if(&a, &null()));
    assert_eq!(e.kind, ErrorKind::FirstOfNonCons);

    let e = expect_err(op_eq(&a, &list(vec![atom(b"x")])));
    assert_eq!(e.kind, ErrorKind::FirstOfNonCons);
}

#[test]
fn node_first_rest_direct() {
    let p = pair(atom(&[7]), atom(&[8]));
    assert_eq!(atom_bytes(&p.first().unwrap()), vec![7]);
    assert_eq!(atom_bytes(&p.rest().unwrap()), vec![8]);

    let e = null().first().unwrap_err();
    assert_eq!(e.kind, ErrorKind::FirstOfNonCons);
    let e = one().rest().unwrap_err();
    assert_eq!(e.kind, ErrorKind::RestOfNonCons);
}

#[test]
fn canonical_atoms_from_allocator() {
    let a = HeapAllocator;
    assert_eq!(atom_bytes(&a.null()), Vec::<u8>::new());
    assert_eq!(atom_bytes(&a.one()), vec![1]);
    assert!(a.null().nullp());
    assert!(!a.one().nullp());
    assert!(!a.from_pair(&a.null(), &a.null()).nullp());

    let p = a.from_pair(&a.one(), &a.null());
    assert!(p.is_pair());
    assert!(p.atom().is_none());
    assert_eq!(a.one().atom().unwrap(), &vec![1]);
}

#[test]
fn if_cost_independent_of_operand_sizes() {
    let a = HeapAllocator;
    let big = atom(&[7u8; 1000]);
    let args = list(vec![big.clone(), big.clone(), big]);
    let (cost, _) = expect_ok(op_if(&a, &args));
    assert_eq!(cost, 10);
}

#[test]
fn eq_cost_scales_with_lengths() {
    let a = HeapAllocator;
    let args = list(vec![atom(&[9u8; 100]), atom(&[9u8; 250])]);
    let (cost, node) = expect_ok(op_eq(&a, &args));
    assert_eq!(cost, 350);
    assert_eq!(atom_bytes(&node), Vec::<u8>::new());
}
