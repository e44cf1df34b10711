use vstd::prelude::*;

verus! {

/// The mathematical value of a node: an atom is an arbitrary byte
/// sequence, a pair is an ordered couple of two node values.
pub enum NodeVal {
    Atom(Seq<u8>),
    Pair(Box<NodeVal>, Box<NodeVal>),
}

/// The value of the canonical `null` atom: the zero-length atom, which
/// doubles as boolean "false" and integer 0.
pub open spec fn null_val() -> NodeVal {
    NodeVal::Atom(Seq::empty())
}

/// The value of the canonical `one` atom: the single byte 0x01, which
/// doubles as boolean "true" and integer 1.
pub open spec fn one_val() -> NodeVal {
    NodeVal::Atom(seq![1u8])
}

/// The value of the pair of two node values.
pub open spec fn pair_val(a: NodeVal, b: NodeVal) -> NodeVal {
    NodeVal::Pair(Box::new(a), Box::new(b))
}

/// A node of the virtual machine: an atom holding an opaque byte
/// sequence (zero length permitted), or an ordered pair of two nodes.
/// A node is never both; discrimination is total.
#[derive(Debug)]
pub enum Node {
    Atom(Vec<u8>),
    Pair(Box<Node>, Box<Node>),
}

/// The mathematical value of a node.
pub open spec fn node_val(n: Node) -> NodeVal
    decreases n,
{
    match n {
        Node::Atom(bytes) => NodeVal::Atom(bytes@),
        Node::Pair(a, b) => NodeVal::Pair(Box::new(node_val(*a)), Box::new(node_val(*b))),
    }
}

impl View for Node {
    type V = NodeVal;

    open spec fn view(&self) -> NodeVal {
        node_val(*self)
    }
}

impl Node {
    /// Whether this node is a pair.
    pub fn is_pair(&self) -> (r: bool)
        ensures
            r == (self@ is Pair),
    {
        match self {
            Node::Pair(_, _) => true,
            Node::Atom(_) => false,
        }
    }

    /// Whether this node is exactly the canonical `null` atom, the only
    /// value the conditional operator treats as false.
    pub fn nullp(&self) -> (r: bool)
        ensures
            r == (self@ == null_val()),
    {
        match self {
            Node::Atom(bytes) => {
                let empty = bytes.len() == 0;
                proof {
                    if empty {
                        assert(bytes@ =~= Seq::<u8>::empty());
                    }
                }
                empty
            },
            Node::Pair(_, _) => false,
        }
    }

    /// The byte content of an atom node, or `None` on a pair.
    pub fn atom(&self) -> (r: Option<&Vec<u8>>)
        ensures
            match r {
                Some(bytes) => self@ == NodeVal::Atom(bytes@),
                None => self@ is Pair,
            },
    {
        match self {
            Node::Atom(bytes) => Some(bytes),
            Node::Pair(_, _) => None,
        }
    }
}

/// A fresh vector holding the same bytes.
fn clone_bytes(v: &Vec<u8>) -> (r: Vec<u8>)
    ensures
        r@ == v@,
{
    let mut r: Vec<u8> = Vec::new();
    let mut i: usize = 0;
    while i < v.len()
        invariant
            i <= v.len(),
            r@ == v@.subrange(0, i as int),
        decreases v.len() - i,
    {
        r.push(v[i]);
        i += 1;
    }
    proof {
        assert(r@ =~= v@);
    }
    r
}

impl Clone for Node {
    /// A structurally identical copy of the node.
    fn clone(&self) -> (r: Node)
        ensures
            r@ == self@,
        decreases self,
    {
        match self {
            Node::Atom(bytes) => Node::Atom(clone_bytes(bytes)),
            Node::Pair(a, b) => Node::Pair(Box::new((&**a).clone()), Box::new((&**b).clone())),
        }
    }
}

/// The factory capability the operator set depends on: it constructs
/// pairs and returns the two canonical atoms.  The operators never
/// construct nodes by any other means, so every backend agrees on the
/// canonical representations.
pub trait Allocator {
    /// The pair of two nodes.
    fn from_pair(&self, a: &Node, b: &Node) -> (r: Node)
        ensures
            r@ == pair_val(a@, b@),
    ;

    /// The canonical `null` atom: the zero-length atom.
    fn null(&self) -> (r: Node)
        ensures
            r@ == null_val(),
    ;

    /// The canonical `one` atom: the single byte 0x01.
    fn one(&self) -> (r: Node)
        ensures
            r@ == one_val(),
    ;
}

/// The plain heap-backed allocator: nodes are owned trees of boxed cells.
pub struct HeapAllocator;

impl Allocator for HeapAllocator {
    fn from_pair(&self, a: &Node, b: &Node) -> (r: Node) {
        Node::Pair(Box::new(a.clone()), Box::new(b.clone()))
    }

    fn null(&self) -> (r: Node) {
        let bytes: Vec<u8> = Vec::new();
        proof {
            assert(bytes@ =~= Seq::<u8>::empty());
        }
        Node::Atom(bytes)
    }

    fn one(&self) -> (r: Node) {
        let mut bytes: Vec<u8> = Vec::new();
        bytes.push(1);
        proof {
            assert(bytes@ =~= seq![1u8]);
        }
        Node::Atom(bytes)
    }
}

} // verus!
