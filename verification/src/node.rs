use vstd::prelude::*;

use crate::constant::Constant;
use crate::expr::{int_const, Expr};
use crate::ops::{Addition, Log, Multiplication, Negation, Power, Variable};

verus! {

/// An expression tree.
#[derive(Debug, PartialEq)]
pub enum Node {
    Addition(Addition),
    Multiplication(Multiplication),
    Power(Power),
    Variable(Variable),
    Constant(Constant),
    Negation(Negation),
    Log(Log),
}

/// The models of a sequence of nodes, element by element.
pub open spec fn view_seq(s: Seq<Node>) -> Seq<Expr>
    decreases s,
{
    if s.len() == 0 {
        Seq::empty()
    } else {
        view_seq(s.drop_last()).push(view_node(s.last()))
    }
}

/// The model of a node.
pub open spec fn view_node(n: Node) -> Expr
    decreases n,
{
    match n {
        Node::Addition(a) => Expr::Add(view_seq(a.members@)),
        Node::Multiplication(m) => Expr::Mul(view_seq(m.members@)),
        Node::Power(p) => Expr::Pow(Box::new(view_node(*p.val)), Box::new(view_node(*p.exponent))),
        Node::Variable(v) => Expr::Var(v.0),
        Node::Constant(c) => Expr::Const(c),
        Node::Negation(g) => Expr::Neg(Box::new(view_node(*g.val))),
        Node::Log(l) => Expr::Ln(Box::new(view_node(*l.val))),
    }
}

impl View for Node {
    type V = Expr;

    open spec fn view(&self) -> Expr {
        view_node(*self)
    }
}

pub broadcast proof fn lemma_view_seq(s: Seq<Node>)
    ensures
        #[trigger] view_seq(s).len() == s.len(),
        forall|i: int| 0 <= i < s.len() ==> #[trigger] view_seq(s)[i] == view_node(s[i]),
    decreases s.len(),
{
    if s.len() > 0 {
        lemma_view_seq(s.drop_last());
    }
}

pub proof fn lemma_view_seq_push(s: Seq<Node>, n: Node)
    ensures
        view_seq(s.push(n)) == view_seq(s).push(view_node(n)),
{
    assert(s.push(n).drop_last() =~= s);
}

pub proof fn lemma_view_seq_add(s: Seq<Node>, t: Seq<Node>)
    ensures
        view_seq(s + t) == view_seq(s) + view_seq(t),
{
    lemma_view_seq(s);
    lemma_view_seq(t);
    lemma_view_seq(s + t);
    assert(view_seq(s + t) =~= view_seq(s) + view_seq(t));
}

pub proof fn lemma_view_seq_one(n: Node)
    ensures
        view_seq(seq![n]) == seq![view_node(n)],
{
    lemma_view_seq(seq![n]);
    assert(view_seq(seq![n]) =~= seq![view_node(n)]);
}

impl Node {
    /// The integer constant zero.
    pub fn zero() -> (n: Node)
        ensures
            n@ == int_const(0),
    {
        Node::Constant(Constant::Int(0))
    }

    /// Whether this node is the integer constant zero.
    pub fn is_zero(&self) -> (b: bool)
        ensures
            b == (self@ == int_const(0)),
    {
        match self {
            Node::Constant(Constant::Int(i)) => *i == 0,
            _ => false,
        }
    }

    /// The integer constant one.
    pub fn one() -> (n: Node)
        ensures
            n@ == int_const(1),
    {
        Node::Constant(Constant::Int(1))
    }

    /// Whether this node is the integer constant one.
    pub fn is_one(&self) -> (b: bool)
        ensures
            b == (self@ == int_const(1)),
    {
        match self {
            Node::Constant(Constant::Int(i)) => *i == 1,
            _ => false,
        }
    }

    /// Binding strength of the operator at the root: sums 50, products 100,
    /// powers 150, none for leaves, negations and logarithms.
    pub fn precedence(&self) -> (p: Option<u32>)
        ensures
            p == self@.precedence(),
    {
        match self {
            Node::Addition(_) => Some(50),
            Node::Multiplication(_) => Some(100),
            Node::Power(_) => Some(150),
            _ => None,
        }
    }

    /// A copy of this tree.
    pub fn duplicate(&self) -> (r: Node)
        ensures
            r@ == self@,
        decreases self,
    {
        match self {
            Node::Addition(a) => Node::Addition(Addition { members: duplicate_all(&a.members) }),
            Node::Multiplication(m) => Node::Multiplication(
                Multiplication { members: duplicate_all(&m.members) },
            ),
            Node::Power(p) => Node::Power(
                Power { val: Box::new(p.val.duplicate()), exponent: Box::new(p.exponent.duplicate()) },
            ),
            Node::Variable(v) => Node::Variable(*v),
            Node::Constant(c) => Node::Constant(*c),
            Node::Negation(g) => Node::Negation(Negation { val: Box::new(g.val.duplicate()) }),
            Node::Log(l) => Node::Log(Log { val: Box::new(l.val.duplicate()) }),
        }
    }
}

impl Clone for Node {
    /// A copy of this tree.
    fn clone(&self) -> (r: Node)
        ensures
            r@ == self@,
    {
        self.duplicate()
    }
}

impl Clone for Addition {
    fn clone(&self) -> (r: Addition)
        ensures
            r@ == self@,
    {
        Addition { members: duplicate_all(&self.members) }
    }
}

impl Clone for Multiplication {
    fn clone(&self) -> (r: Multiplication)
        ensures
            r@ == self@,
    {
        Multiplication { members: duplicate_all(&self.members) }
    }
}

impl Clone for Power {
    fn clone(&self) -> (r: Power)
        ensures
            r@ == self@,
    {
        Power { val: Box::new(self.val.duplicate()), exponent: Box::new(self.exponent.duplicate()) }
    }
}

impl Clone for Negation {
    fn clone(&self) -> (r: Negation)
        ensures
            r@ == self@,
    {
        Negation { val: Box::new(self.val.duplicate()) }
    }
}

impl Clone for Log {
    fn clone(&self) -> (r: Log)
        ensures
            r@ == self@,
    {
        Log { val: Box::new(self.val.duplicate()) }
    }
}

impl Clone for crate::ops::Inverse {
    fn clone(&self) -> (r: crate::ops::Inverse)
        ensures
            r@ == self@,
    {
        crate::ops::Inverse { val: Box::new(self.val.duplicate()) }
    }
}

/// Copies of every node of `v`, in order.
pub fn duplicate_all(v: &Vec<Node>) -> (r: Vec<Node>)
    ensures
        view_seq(r@) == view_seq(v@),
    decreases v,
{
    let mut r: Vec<Node> = Vec::new();
    let mut i: usize = 0;
    while i < v.len()
        invariant
            i <= v.len(),
            view_seq(r@) == view_seq(v@.take(i as int)),
        decreases v.len() - i,
    {
        assert(decreases_to!(v => v@[i as int])) by {
            broadcast use vstd::std_specs::vec::axiom_vec_index_decreases;
        }
        let c = v[i].duplicate();
        proof {
            lemma_view_seq_push(r@, c);
            lemma_view_seq_push(v@.take(i as int), v@[i as int]);
            assert(v@.take(i as int).push(v@[i as int]) =~= v@.take(i + 1));
        }
        r.push(c);
        i = i + 1;
    }
    assert(v@.take(v.len() as int) =~= v@);
    r
}

} // verus!
