use vstd::prelude::*;

use vstd::std_specs::ops::{AddSpecImpl, BitXorSpecImpl, DivSpecImpl, MulSpecImpl, SubSpecImpl};

use crate::constant::Constant;
use crate::expr::{int_const, neg, pow, product, recip, sum, Expr};
use crate::node::{view_node, view_seq, Node};
use crate::ops::{Addition, Log, Multiplication, Negation, Power, Variable};

verus! {

// The operators between the kinds of node and integers, each the operator on
// the nodes they stand for: `+` and `-` build a sum of two, `*` and `/` a flat
// product, `^` a power.

impl std::ops::Add<Multiplication> for i64 {
    type Output = Node;

    fn add(self, rhs: Multiplication) -> (r: Node)
        ensures
            r@ == sum(int_const(self), view_node(Node::Multiplication(rhs)), false),
    {
        Node::Constant(Constant::Int(self)) + Node::Multiplication(rhs)
    }
}

impl AddSpecImpl<Multiplication> for i64 {
    open spec fn obeys_add_spec() -> bool {
        false
    }

    open spec fn add_req(self, rhs: Multiplication) -> bool {
        true
    }

    open spec fn add_spec(self, rhs: Multiplication) -> Node {
        Node::Constant(Constant::Int(0))
    }
}

impl std::ops::Add<Power> for i64 {
    type Output = Node;

    fn add(self, rhs: Power) -> (r: Node)
        ensures
            r@ == sum(int_const(self), view_node(Node::Power(rhs)), false),
    {
        Node::Constant(Constant::Int(self)) + Node::Power(rhs)
    }
}

impl AddSpecImpl<Power> for i64 {
    open spec fn obeys_add_spec() -> bool {
        false
    }

    open spec fn add_req(self, rhs: Power) -> bool {
        true
    }

    open spec fn add_spec(self, rhs: Power) -> Node {
        Node::Constant(Constant::Int(0))
    }
}

impl std::ops::Add<Variable> for i64 {
    type Output = Node;

    fn add(self, rhs: Variable) -> (r: Node)
        ensures
            r@ == sum(int_const(self), view_node(Node::Variable(rhs)), false),
    {
        Node::Constant(Constant::Int(self)) + Node::Variable(rhs)
    }
}

impl AddSpecImpl<Variable> for i64 {
    open spec fn obeys_add_spec() -> bool {
        false
    }

    open spec fn add_req(self, rhs: Variable) -> bool {
        true
    }

    open spec fn add_spec(self, rhs: Variable) -> Node {
        Node::Constant(Constant::Int(0))
    }
}

impl std::ops::Add<Constant> for i64 {
    type Output = Node;

    fn add(self, rhs: Constant) -> (r: Node)
        ensures
            r@ == sum(int_const(self), view_node(Node::Constant(rhs)), false),
    {
        Node::Constant(Constant::Int(self)) + Node::Constant(rhs)
    }
}

impl AddSpecImpl<Constant> for i64 {
    open spec fn obeys_add_spec() -> bool {
        false
    }

    open spec fn add_req(self, rhs: Constant) -> bool {
        true
    }

    open spec fn add_spec(self, rhs: Constant) -> Node {
        Node::Constant(Constant::Int(0))
    }
}

impl std::ops::Add<Negation> for i64 {
    type Output = Node;

    fn add(self, rhs: Negation) -> (r: Node)
        ensures
            r@ == sum(int_const(self), view_node(Node::Negation(rhs)), false),
    {
        Node::Constant(Constant::Int(self)) + Node::Negation(rhs)
    }
}

impl AddSpecImpl<Negation> for i64 {
    open spec fn obeys_add_spec() -> bool {
        false
    }

    open spec fn add_req(self, rhs: Negation) -> bool {
        true
    }

    open spec fn add_spec(self, rhs: Negation) -> Node {
        Node::Constant(Constant::Int(0))
    }
}

impl std::ops::Add<Log> for i64 {
    type Output = Node;

    fn add(self, rhs: Log) -> (r: Node)
        ensures
            r@ == sum(int_const(self), view_node(Node::Log(rhs)), false),
    {
        Node::Constant(Constant::Int(self)) + Node::Log(rhs)
    }
}

impl AddSpecImpl<Log> for i64 {
    open spec fn obeys_add_spec() -> bool {
        false
    }

    open spec fn add_req(self, rhs: Log) -> bool {
        true
    }

    open spec fn add_spec(self, rhs: Log) -> Node {
        Node::Constant(Constant::Int(0))
    }
}

impl std::ops::Add<Multiplication> for Multiplication {
    type Output = Node;

    fn add(self, rhs: Multiplication) -> (r: Node)
        ensures
            r@ == sum(view_node(Node::Multiplication(self)), view_node(Node::Multiplication(rhs)), false),
    {
        Node::Multiplication(self) + Node::Multiplication(rhs)
    }
}

impl AddSpecImpl<Multiplication> for Multiplication {
    open spec fn obeys_add_spec() -> bool {
        false
    }

    open spec fn add_req(self, rhs: Multiplication) -> bool {
        true
    }

    open spec fn add_spec(self, rhs: Multiplication) -> Node {
        Node::Constant(Constant::Int(0))
    }
}

impl std::ops::Add<Power> for Multiplication {
    type Output = Node;

    fn add(self, rhs: Power) -> (r: Node)
        ensures
            r@ == sum(view_node(Node::Multiplication(self)), view_node(Node::Power(rhs)), false),
    {
        Node::Multiplication(self) + Node::Power(rhs)
    }
}

impl AddSpecImpl<Power> for Multiplication {
    open spec fn obeys_add_spec() -> bool {
        false
    }

    open spec fn add_req(self, rhs: Power) -> bool {
        true
    }

    open spec fn add_spec(self, rhs: Power) -> Node {
        Node::Constant(Constant::Int(0))
    }
}

impl std::ops::Add<Variable> for Multiplication {
    type Output = Node;

    fn add(self, rhs: Variable) -> (r: Node)
        ensures
            r@ == sum(view_node(Node::Multiplication(self)), view_node(Node::Variable(rhs)), false),
    {
        Node::Multiplication(self) + Node::Variable(rhs)
    }
}

impl AddSpecImpl<Variable> for Multiplication {
    open spec fn obeys_add_spec() -> bool {
        false
    }

    open spec fn add_req(self, rhs: Variable) -> bool {
        true
    }

    open spec fn add_spec(self, rhs: Variable) -> Node {
        Node::Constant(Constant::Int(0))
    }
}

impl std::ops::Add<Constant> for Multiplication {
    type Output = Node;

    fn add(self, rhs: Constant) -> (r: Node)
        ensures
            r@ == sum(view_node(Node::Multiplication(self)), view_node(Node::Constant(rhs)), false),
    {
        Node::Multiplication(self) + Node::Constant(rhs)
    }
}

impl AddSpecImpl<Constant> for Multiplication {
    open spec fn obeys_add_spec() -> bool {
        false
    }

    open spec fn add_req(self, rhs: Constant) -> bool {
        true
    }

    open spec fn add_spec(self, rhs: Constant) -> Node {
        Node::Constant(Constant::Int(0))
    }
}

impl std::ops::Add<Negation> for Multiplication {
    type Output = Node;

    fn add(self, rhs: Negation) -> (r: Node)
        ensures
            r@ == sum(view_node(Node::Multiplication(self)), view_node(Node::Negation(rhs)), false),
    {
        Node::Multiplication(self) + Node::Negation(rhs)
    }
}

impl AddSpecImpl<Negation> for Multiplication {
    open spec fn obeys_add_spec() -> bool {
        false
    }

    open spec fn add_req(self, rhs: Negation) -> bool {
        true
    }

    open spec fn add_spec(self, rhs: Negation) -> Node {
        Node::Constant(Constant::Int(0))
    }
}

impl std::ops::Add<Log> for Multiplication {
    type Output = Node;

    fn add(self, rhs: Log) -> (r: Node)
        ensures
            r@ == sum(view_node(Node::Multiplication(self)), view_node(Node::Log(rhs)), false),
    {
        Node::Multiplication(self) + Node::Log(rhs)
    }
}

impl AddSpecImpl<Log> for Multiplication {
    open spec fn obeys_add_spec() -> bool {
        false
    }

    open spec fn add_req(self, rhs: Log) -> bool {
        true
    }

    open spec fn add_spec(self, rhs: Log) -> Node {
        Node::Constant(Constant::Int(0))
    }
}

impl std::ops::Add<Node> for Multiplication {
    type Output = Node;

    fn add(self, rhs: Node) -> (r: Node)
        ensures
            r@ == sum(view_node(Node::Multiplication(self)), rhs@, false),
    {
        Node::Multiplication(self) + rhs
    }
}

impl AddSpecImpl<Node> for Multiplication {
    open spec fn obeys_add_spec() -> bool {
        false
    }

    open spec fn add_req(self, rhs: Node) -> bool {
        !(rhs@ is Add)
    }

    open spec fn add_spec(self, rhs: Node) -> Node {
        Node::Constant(Constant::Int(0))
    }
}

impl std::ops::Add<Multiplication> for Power {
    type Output = Node;

    fn add(self, rhs: Multiplication) -> (r: Node)
        ensures
            r@ == sum(view_node(Node::Power(self)), view_node(Node::Multiplication(rhs)), false),
    {
        Node::Power(self) + Node::Multiplication(rhs)
    }
}

impl AddSpecImpl<Multiplication> for Power {
    open spec fn obeys_add_spec() -> bool {
        false
    }

    open spec fn add_req(self, rhs: Multiplication) -> bool {
        true
    }

    open spec fn add_spec(self, rhs: Multiplication) -> Node {
        Node::Constant(Constant::Int(0))
    }
}

impl std::ops::Add<Power> for Power {
    type Output = Node;

    fn add(self, rhs: Power) -> (r: Node)
        ensures
            r@ == sum(view_node(Node::Power(self)), view_node(Node::Power(rhs)), false),
    {
        Node::Power(self) + Node::Power(rhs)
    }
}

impl AddSpecImpl<Power> for Power {
    open spec fn obeys_add_spec() -> bool {
        false
    }

    open spec fn add_req(self, rhs: Power) -> bool {
        true
    }

    open spec fn add_spec(self, rhs: Power) -> Node {
        Node::Constant(Constant::Int(0))
    }
}

impl std::ops::Add<Variable> for Power {
    type Output = Node;

    fn add(self, rhs: Variable) -> (r: Node)
        ensures
            r@ == sum(view_node(Node::Power(self)), view_node(Node::Variable(rhs)), false),
    {
        Node::Power(self) + Node::Variable(rhs)
    }
}

impl AddSpecImpl<Variable> for Power {
    open spec fn obeys_add_spec() -> bool {
        false
    }

    open spec fn add_req(self, rhs: Variable) -> bool {
        true
    }

    open spec fn add_spec(self, rhs: Variable) -> Node {
        Node::Constant(Constant::Int(0))
    }
}

impl std::ops::Add<Constant> for Power {
    type Output = Node;

    fn add(self, rhs: Constant) -> (r: Node)
        ensures
            r@ == sum(view_node(Node::Power(self)), view_node(Node::Constant(rhs)), false),
    {
        Node::Power(self) + Node::Constant(rhs)
    }
}

impl AddSpecImpl<Constant> for Power {
    open spec fn obeys_add_spec() -> bool {
        false
    }

    open spec fn add_req(self, rhs: Constant) -> bool {
        true
    }

    open spec fn add_spec(self, rhs: Constant) -> Node {
        Node::Constant(Constant::Int(0))
    }
}

impl std::ops::Add<Negation> for Power {
    type Output = Node;

    fn add(self, rhs: Negation) -> (r: Node)
        ensures
            r@ == sum(view_node(Node::Power(self)), view_node(Node::Negation(rhs)), false),
    {
        Node::Power(self) + Node::Negation(rhs)
    }
}

impl AddSpecImpl<Negation> for Power {
    open spec fn obeys_add_spec() -> bool {
        false
    }

    open spec fn add_req(self, rhs: Negation) -> bool {
        true
    }

    open spec fn add_spec(self, rhs: Negation) -> Node {
        Node::Constant(Constant::Int(0))
    }
}

impl std::ops::Add<Log> for Power {
    type Output = Node;

    fn add(self, rhs: Log) -> (r: Node)
        ensures
            r@ == sum(view_node(Node::Power(self)), view_node(Node::Log(rhs)), false),
    {
        Node::Power(self) + Node::Log(rhs)
    }
}

impl AddSpecImpl<Log> for Power {
    open spec fn obeys_add_spec() -> bool {
        false
    }

    open spec fn add_req(self, rhs: Log) -> bool {
        true
    }

    open spec fn add_spec(self, rhs: Log) -> Node {
        Node::Constant(Constant::Int(0))
    }
}

impl std::ops::Add<Node> for Power {
    type Output = Node;

    fn add(self, rhs: Node) -> (r: Node)
        ensures
            r@ == sum(view_node(Node::Power(self)), rhs@, false),
    {
        Node::Power(self) + rhs
    }
}

impl AddSpecImpl<Node> for Power {
    open spec fn obeys_add_spec() -> bool {
        false
    }

    open spec fn add_req(self, rhs: Node) -> bool {
        !(rhs@ is Add)
    }

    open spec fn add_spec(self, rhs: Node) -> Node {
        Node::Constant(Constant::Int(0))
    }
}

impl std::ops::Add<Multiplication> for Variable {
    type Output = Node;

    fn add(self, rhs: Multiplication) -> (r: Node)
        ensures
            r@ == sum(view_node(Node::Variable(self)), view_node(Node::Multiplication(rhs)), false),
    {
        Node::Variable(self) + Node::Multiplication(rhs)
    }
}

impl AddSpecImpl<Multiplication> for Variable {
    open spec fn obeys_add_spec() -> bool {
        false
    }

    open spec fn add_req(self, rhs: Multiplication) -> bool {
        true
    }

    open spec fn add_spec(self, rhs: Multiplication) -> Node {
        Node::Constant(Constant::Int(0))
    }
}

impl std::ops::Add<Power> for Variable {
    type Output = Node;

    fn add(self, rhs: Power) -> (r: Node)
        ensures
            r@ == sum(view_node(Node::Variable(self)), view_node(Node::Power(rhs)), false),
    {
        Node::Variable(self) + Node::Power(rhs)
    }
}

impl AddSpecImpl<Power> for Variable {
    open spec fn obeys_add_spec() -> bool {
        false
    }

    open spec fn add_req(self, rhs: Power) -> bool {
        true
    }

    open spec fn add_spec(self, rhs: Power) -> Node {
        Node::Constant(Constant::Int(0))
    }
}

impl std::ops::Add<Variable> for Variable {
    type Output = Node;

    fn add(self, rhs: Variable) -> (r: Node)
        ensures
            r@ == sum(view_node(Node::Variable(self)), view_node(Node::Variable(rhs)), false),
    {
        Node::Variable(self) + Node::Variable(rhs)
    }
}

impl AddSpecImpl<Variable> for Variable {
    open spec fn obeys_add_spec() -> bool {
        false
    }

    open spec fn add_req(self, rhs: Variable) -> bool {
        true
    }

    open spec fn add_spec(self, rhs: Variable) -> Node {
        Node::Constant(Constant::Int(0))
    }
}

impl std::ops::Add<Constant> for Variable {
    type Output = Node;

    fn add(self, rhs: Constant) -> (r: Node)
        ensures
            r@ == sum(view_node(Node::Variable(self)), view_node(Node::Constant(rhs)), false),
    {
        Node::Variable(self) + Node::Constant(rhs)
    }
}

impl AddSpecImpl<Constant> for Variable {
    open spec fn obeys_add_spec() -> bool {
        false
    }

    open spec fn add_req(self, rhs: Constant) -> bool {
        true
    }

    open spec fn add_spec(self, rhs: Constant) -> Node {
        Node::Constant(Constant::Int(0))
    }
}

impl std::ops::Add<Negation> for Variable {
    type Output = Node;

    fn add(self, rhs: Negation) -> (r: Node)
        ensures
            r@ == sum(view_node(Node::Variable(self)), view_node(Node::Negation(rhs)), false),
    {
        Node::Variable(self) + Node::Negation(rhs)
    }
}

impl AddSpecImpl<Negation> for Variable {
    open spec fn obeys_add_spec() -> bool {
        false
    }

    open spec fn add_req(self, rhs: Negation) -> bool {
        true
    }

    open spec fn add_spec(self, rhs: Negation) -> Node {
        Node::Constant(Constant::Int(0))
    }
}

impl std::ops::Add<Log> for Variable {
    type Output = Node;

    fn add(self, rhs: Log) -> (r: Node)
        ensures
            r@ == sum(view_node(Node::Variable(self)), view_node(Node::Log(rhs)), false),
    {
        Node::Variable(self) + Node::Log(rhs)
    }
}

impl AddSpecImpl<Log> for Variable {
    open spec fn obeys_add_spec() -> bool {
        false
    }

    open spec fn add_req(self, rhs: Log) -> bool {
        true
    }

    open spec fn add_spec(self, rhs: Log) -> Node {
        Node::Constant(Constant::Int(0))
    }
}

impl std::ops::Add<Node> for Variable {
    type Output = Node;

    fn add(self, rhs: Node) -> (r: Node)
        ensures
            r@ == sum(view_node(Node::Variable(self)), rhs@, false),
    {
        Node::Variable(self) + rhs
    }
}

impl AddSpecImpl<Node> for Variable {
    open spec fn obeys_add_spec() -> bool {
        false
    }

    open spec fn add_req(self, rhs: Node) -> bool {
        !(rhs@ is Add)
    }

    open spec fn add_spec(self, rhs: Node) -> Node {
        Node::Constant(Constant::Int(0))
    }
}

impl std::ops::Add<Multiplication> for Constant {
    type Output = Node;

    fn add(self, rhs: Multiplication) -> (r: Node)
        ensures
            r@ == sum(view_node(Node::Constant(self)), view_node(Node::Multiplication(rhs)), false),
    {
        Node::Constant(self) + Node::Multiplication(rhs)
    }
}

impl AddSpecImpl<Multiplication> for Constant {
    open spec fn obeys_add_spec() -> bool {
        false
    }

    open spec fn add_req(self, rhs: Multiplication) -> bool {
        true
    }

    open spec fn add_spec(self, rhs: Multiplication) -> Node {
        Node::Constant(Constant::Int(0))
    }
}

impl std::ops::Add<Power> for Constant {
    type Output = Node;

    fn add(self, rhs: Power) -> (r: Node)
        ensures
            r@ == sum(view_node(Node::Constant(self)), view_node(Node::Power(rhs)), false),
    {
        Node::Constant(self) + Node::Power(rhs)
    }
}

impl AddSpecImpl<Power> for Constant {
    open spec fn obeys_add_spec() -> bool {
        false
    }

    open spec fn add_req(self, rhs: Power) -> bool {
        true
    }

    open spec fn add_spec(self, rhs: Power) -> Node {
        Node::Constant(Constant::Int(0))
    }
}

impl std::ops::Add<Variable> for Constant {
    type Output = Node;

    fn add(self, rhs: Variable) -> (r: Node)
        ensures
            r@ == sum(view_node(Node::Constant(self)), view_node(Node::Variable(rhs)), false),
    {
        Node::Constant(self) + Node::Variable(rhs)
    }
}

impl AddSpecImpl<Variable> for Constant {
    open spec fn obeys_add_spec() -> bool {
        false
    }

    open spec fn add_req(self, rhs: Variable) -> bool {
        true
    }

    open spec fn add_spec(self, rhs: Variable) -> Node {
        Node::Constant(Constant::Int(0))
    }
}

impl std::ops::Add<Constant> for Constant {
    type Output = Node;

    fn add(self, rhs: Constant) -> (r: Node)
        ensures
            r@ == sum(view_node(Node::Constant(self)), view_node(Node::Constant(rhs)), false),
    {
        Node::Constant(self) + Node::Constant(rhs)
    }
}

impl AddSpecImpl<Constant> for Constant {
    open spec fn obeys_add_spec() -> bool {
        false
    }

    open spec fn add_req(self, rhs: Constant) -> bool {
        true
    }

    open spec fn add_spec(self, rhs: Constant) -> Node {
        Node::Constant(Constant::Int(0))
    }
}

impl std::ops::Add<Negation> for Constant {
    type Output = Node;

    fn add(self, rhs: Negation) -> (r: Node)
        ensures
            r@ == sum(view_node(Node::Constant(self)), view_node(Node::Negation(rhs)), false),
    {
        Node::Constant(self) + Node::Negation(rhs)
    }
}

impl AddSpecImpl<Negation> for Constant {
    open spec fn obeys_add_spec() -> bool {
        false
    }

    open spec fn add_req(self, rhs: Negation) -> bool {
        true
    }

    open spec fn add_spec(self, rhs: Negation) -> Node {
        Node::Constant(Constant::Int(0))
    }
}

impl std::ops::Add<Log> for Constant {
    type Output = Node;

    fn add(self, rhs: Log) -> (r: Node)
        ensures
            r@ == sum(view_node(Node::Constant(self)), view_node(Node::Log(rhs)), false),
    {
        Node::Constant(self) + Node::Log(rhs)
    }
}

impl AddSpecImpl<Log> for Constant {
    open spec fn obeys_add_spec() -> bool {
        false
    }

    open spec fn add_req(self, rhs: Log) -> bool {
        true
    }

    open spec fn add_spec(self, rhs: Log) -> Node {
        Node::Constant(Constant::Int(0))
    }
}

impl std::ops::Add<Node> for Constant {
    type Output = Node;

    fn add(self, rhs: Node) -> (r: Node)
        ensures
            r@ == sum(view_node(Node::Constant(self)), rhs@, false),
    {
        Node::Constant(self) + rhs
    }
}

impl AddSpecImpl<Node> for Constant {
    open spec fn obeys_add_spec() -> bool {
        false
    }

    open spec fn add_req(self, rhs: Node) -> bool {
        !(rhs@ is Add)
    }

    open spec fn add_spec(self, rhs: Node) -> Node {
        Node::Constant(Constant::Int(0))
    }
}

impl std::ops::Add<Multiplication> for Negation {
    type Output = Node;

    fn add(self, rhs: Multiplication) -> (r: Node)
        ensures
            r@ == sum(view_node(Node::Negation(self)), view_node(Node::Multiplication(rhs)), false),
    {
        Node::Negation(self) + Node::Multiplication(rhs)
    }
}

impl AddSpecImpl<Multiplication> for Negation {
    open spec fn obeys_add_spec() -> bool {
        false
    }

    open spec fn add_req(self, rhs: Multiplication) -> bool {
        true
    }

    open spec fn add_spec(self, rhs: Multiplication) -> Node {
        Node::Constant(Constant::Int(0))
    }
}

impl std::ops::Add<Power> for Negation {
    type Output = Node;

    fn add(self, rhs: Power) -> (r: Node)
        ensures
            r@ == sum(view_node(Node::Negation(self)), view_node(Node::Power(rhs)), false),
    {
        Node::Negation(self) + Node::Power(rhs)
    }
}

impl AddSpecImpl<Power> for Negation {
    open spec fn obeys_add_spec() -> bool {
        false
    }

    open spec fn add_req(self, rhs: Power) -> bool {
        true
    }

    open spec fn add_spec(self, rhs: Power) -> Node {
        Node::Constant(Constant::Int(0))
    }
}

impl std::ops::Add<Variable> for Negation {
    type Output = Node;

    fn add(self, rhs: Variable) -> (r: Node)
        ensures
            r@ == sum(view_node(Node::Negation(self)), view_node(Node::Variable(rhs)), false),
    {
        Node::Negation(self) + Node::Variable(rhs)
    }
}

impl AddSpecImpl<Variable> for Negation {
    open spec fn obeys_add_spec() -> bool {
        false
    }

    open spec fn add_req(self, rhs: Variable) -> bool {
        true
    }

    open spec fn add_spec(self, rhs: Variable) -> Node {
        Node::Constant(Constant::Int(0))
    }
}

impl std::ops::Add<Constant> for Negation {
    type Output = Node;

    fn add(self, rhs: Constant) -> (r: Node)
        ensures
            r@ == sum(view_node(Node::Negation(self)), view_node(Node::Constant(rhs)), false),
    {
        Node::Negation(self) + Node::Constant(rhs)
    }
}

impl AddSpecImpl<Constant> for Negation {
    open spec fn obeys_add_spec() -> bool {
        false
    }

    open spec fn add_req(self, rhs: Constant) -> bool {
        true
    }

    open spec fn add_spec(self, rhs: Constant) -> Node {
        Node::Constant(Constant::Int(0))
    }
}

impl std::ops::Add<Negation> for Negation {
    type Output = Node;

    fn add(self, rhs: Negation) -> (r: Node)
        ensures
            r@ == sum(view_node(Node::Negation(self)), view_node(Node::Negation(rhs)), false),
    {
        Node::Negation(self) + Node::Negation(rhs)
    }
}

impl AddSpecImpl<Negation> for Negation {
    open spec fn obeys_add_spec() -> bool {
        false
    }

    open spec fn add_req(self, rhs: Negation) -> bool {
        true
    }

    open spec fn add_spec(self, rhs: Negation) -> Node {
        Node::Constant(Constant::Int(0))
    }
}

impl std::ops::Add<Log> for Negation {
    type Output = Node;

    fn add(self, rhs: Log) -> (r: Node)
        ensures
            r@ == sum(view_node(Node::Negation(self)), view_node(Node::Log(rhs)), false),
    {
        Node::Negation(self) + Node::Log(rhs)
    }
}

impl AddSpecImpl<Log> for Negation {
    open spec fn obeys_add_spec() -> bool {
        false
    }

    open spec fn add_req(self, rhs: Log) -> bool {
        true
    }

    open spec fn add_spec(self, rhs: Log) -> Node {
        Node::Constant(Constant::Int(0))
    }
}

impl std::ops::Add<Node> for Negation {
    type Output = Node;

    fn add(self, rhs: Node) -> (r: Node)
        ensures
            r@ == sum(view_node(Node::Negation(self)), rhs@, false),
    {
        Node::Negation(self) + rhs
    }
}

impl AddSpecImpl<Node> for Negation {
    open spec fn obeys_add_spec() -> bool {
        false
    }

    open spec fn add_req(self, rhs: Node) -> bool {
        !(rhs@ is Add)
    }

    open spec fn add_spec(self, rhs: Node) -> Node {
        Node::Constant(Constant::Int(0))
    }
}

impl std::ops::Add<Multiplication> for Log {
    type Output = Node;

    fn add(self, rhs: Multiplication) -> (r: Node)
        ensures
            r@ == sum(view_node(Node::Log(self)), view_node(Node::Multiplication(rhs)), false),
    {
        Node::Log(self) + Node::Multiplication(rhs)
    }
}

impl AddSpecImpl<Multiplication> for Log {
    open spec fn obeys_add_spec() -> bool {
        false
    }

    open spec fn add_req(self, rhs: Multiplication) -> bool {
        true
    }

    open spec fn add_spec(self, rhs: Multiplication) -> Node {
        Node::Constant(Constant::Int(0))
    }
}

impl std::ops::Add<Power> for Log {
    type Output = Node;

    fn add(self, rhs: Power) -> (r: Node)
        ensures
            r@ == sum(view_node(Node::Log(self)), view_node(Node::Power(rhs)), false),
    {
        Node::Log(self) + Node::Power(rhs)
    }
}

impl AddSpecImpl<Power> for Log {
    open spec fn obeys_add_spec() -> bool {
        false
    }

    open spec fn add_req(self, rhs: Power) -> bool {
        true
    }

    open spec fn add_spec(self, rhs: Power) -> Node {
        Node::Constant(Constant::Int(0))
    }
}

impl std::ops::Add<Variable> for Log {
    type Output = Node;

    fn add(self, rhs: Variable) -> (r: Node)
        ensures
            r@ == sum(view_node(Node::Log(self)), view_node(Node::Variable(rhs)), false),
    {
        Node::Log(self) + Node::Variable(rhs)
    }
}

impl AddSpecImpl<Variable> for Log {
    open spec fn obeys_add_spec() -> bool {
        false
    }

    open spec fn add_req(self, rhs: Variable) -> bool {
        true
    }

    open spec fn add_spec(self, rhs: Variable) -> Node {
        Node::Constant(Constant::Int(0))
    }
}

impl std::ops::Add<Constant> for Log {
    type Output = Node;

    fn add(self, rhs: Constant) -> (r: Node)
        ensures
            r@ == sum(view_node(Node::Log(self)), view_node(Node::Constant(rhs)), false),
    {
        Node::Log(self) + Node::Constant(rhs)
    }
}

impl AddSpecImpl<Constant> for Log {
    open spec fn obeys_add_spec() -> bool {
        false
    }

    open spec fn add_req(self, rhs: Constant) -> bool {
        true
    }

    open spec fn add_spec(self, rhs: Constant) -> Node {
        Node::Constant(Constant::Int(0))
    }
}

impl std::ops::Add<Negation> for Log {
    type Output = Node;

    fn add(self, rhs: Negation) -> (r: Node)
        ensures
            r@ == sum(view_node(Node::Log(self)), view_node(Node::Negation(rhs)), false),
    {
        Node::Log(self) + Node::Negation(rhs)
    }
}

impl AddSpecImpl<Negation> for Log {
    open spec fn obeys_add_spec() -> bool {
        false
    }

    open spec fn add_req(self, rhs: Negation) -> bool {
        true
    }

    open spec fn add_spec(self, rhs: Negation) -> Node {
        Node::Constant(Constant::Int(0))
    }
}

impl std::ops::Add<Log> for Log {
    type Output = Node;

    fn add(self, rhs: Log) -> (r: Node)
        ensures
            r@ == sum(view_node(Node::Log(self)), view_node(Node::Log(rhs)), false),
    {
        Node::Log(self) + Node::Log(rhs)
    }
}

impl AddSpecImpl<Log> for Log {
    open spec fn obeys_add_spec() -> bool {
        false
    }

    open spec fn add_req(self, rhs: Log) -> bool {
        true
    }

    open spec fn add_spec(self, rhs: Log) -> Node {
        Node::Constant(Constant::Int(0))
    }
}

impl std::ops::Add<Node> for Log {
    type Output = Node;

    fn add(self, rhs: Node) -> (r: Node)
        ensures
            r@ == sum(view_node(Node::Log(self)), rhs@, false),
    {
        Node::Log(self) + rhs
    }
}

impl AddSpecImpl<Node> for Log {
    open spec fn obeys_add_spec() -> bool {
        false
    }

    open spec fn add_req(self, rhs: Node) -> bool {
        !(rhs@ is Add)
    }

    open spec fn add_spec(self, rhs: Node) -> Node {
        Node::Constant(Constant::Int(0))
    }
}

impl std::ops::Add<Multiplication> for Node {
    type Output = Node;

    fn add(self, rhs: Multiplication) -> (r: Node)
        ensures
            r@ == sum(self@, view_node(Node::Multiplication(rhs)), false),
    {
        self + Node::Multiplication(rhs)
    }
}

impl AddSpecImpl<Multiplication> for Node {
    open spec fn obeys_add_spec() -> bool {
        false
    }

    open spec fn add_req(self, rhs: Multiplication) -> bool {
        !(self@ is Add)
    }

    open spec fn add_spec(self, rhs: Multiplication) -> Node {
        Node::Constant(Constant::Int(0))
    }
}

impl std::ops::Add<Power> for Node {
    type Output = Node;

    fn add(self, rhs: Power) -> (r: Node)
        ensures
            r@ == sum(self@, view_node(Node::Power(rhs)), false),
    {
        self + Node::Power(rhs)
    }
}

impl AddSpecImpl<Power> for Node {
    open spec fn obeys_add_spec() -> bool {
        false
    }

    open spec fn add_req(self, rhs: Power) -> bool {
        !(self@ is Add)
    }

    open spec fn add_spec(self, rhs: Power) -> Node {
        Node::Constant(Constant::Int(0))
    }
}

impl std::ops::Add<Variable> for Node {
    type Output = Node;

    fn add(self, rhs: Variable) -> (r: Node)
        ensures
            r@ == sum(self@, view_node(Node::Variable(rhs)), false),
    {
        self + Node::Variable(rhs)
    }
}

impl AddSpecImpl<Variable> for Node {
    open spec fn obeys_add_spec() -> bool {
        false
    }

    open spec fn add_req(self, rhs: Variable) -> bool {
        !(self@ is Add)
    }

    open spec fn add_spec(self, rhs: Variable) -> Node {
        Node::Constant(Constant::Int(0))
    }
}

impl std::ops::Add<Constant> for Node {
    type Output = Node;

    fn add(self, rhs: Constant) -> (r: Node)
        ensures
            r@ == sum(self@, view_node(Node::Constant(rhs)), false),
    {
        self + Node::Constant(rhs)
    }
}

impl AddSpecImpl<Constant> for Node {
    open spec fn obeys_add_spec() -> bool {
        false
    }

    open spec fn add_req(self, rhs: Constant) -> bool {
        !(self@ is Add)
    }

    open spec fn add_spec(self, rhs: Constant) -> Node {
        Node::Constant(Constant::Int(0))
    }
}

impl std::ops::Add<Negation> for Node {
    type Output = Node;

    fn add(self, rhs: Negation) -> (r: Node)
        ensures
            r@ == sum(self@, view_node(Node::Negation(rhs)), false),
    {
        self + Node::Negation(rhs)
    }
}

impl AddSpecImpl<Negation> for Node {
    open spec fn obeys_add_spec() -> bool {
        false
    }

    open spec fn add_req(self, rhs: Negation) -> bool {
        !(self@ is Add)
    }

    open spec fn add_spec(self, rhs: Negation) -> Node {
        Node::Constant(Constant::Int(0))
    }
}

impl std::ops::Add<Log> for Node {
    type Output = Node;

    fn add(self, rhs: Log) -> (r: Node)
        ensures
            r@ == sum(self@, view_node(Node::Log(rhs)), false),
    {
        self + Node::Log(rhs)
    }
}

impl AddSpecImpl<Log> for Node {
    open spec fn obeys_add_spec() -> bool {
        false
    }

    open spec fn add_req(self, rhs: Log) -> bool {
        !(self@ is Add)
    }

    open spec fn add_spec(self, rhs: Log) -> Node {
        Node::Constant(Constant::Int(0))
    }
}

impl std::ops::Add<i64> for Multiplication {
    type Output = Node;

    fn add(self, rhs: i64) -> (r: Node)
        ensures
            r@ == sum(view_node(Node::Multiplication(self)), int_const(rhs), false),
    {
        Node::Multiplication(self) + Node::Constant(Constant::Int(rhs))
    }
}

impl AddSpecImpl<i64> for Multiplication {
    open spec fn obeys_add_spec() -> bool {
        false
    }

    open spec fn add_req(self, rhs: i64) -> bool {
        true
    }

    open spec fn add_spec(self, rhs: i64) -> Node {
        Node::Constant(Constant::Int(0))
    }
}

impl std::ops::Add<i64> for Power {
    type Output = Node;

    fn add(self, rhs: i64) -> (r: Node)
        ensures
            r@ == sum(view_node(Node::Power(self)), int_const(rhs), false),
    {
        Node::Power(self) + Node::Constant(Constant::Int(rhs))
    }
}

impl AddSpecImpl<i64> for Power {
    open spec fn obeys_add_spec() -> bool {
        false
    }

    open spec fn add_req(self, rhs: i64) -> bool {
        true
    }

    open spec fn add_spec(self, rhs: i64) -> Node {
        Node::Constant(Constant::Int(0))
    }
}

impl std::ops::Add<i64> for Variable {
    type Output = Node;

    fn add(self, rhs: i64) -> (r: Node)
        ensures
            r@ == sum(view_node(Node::Variable(self)), int_const(rhs), false),
    {
        Node::Variable(self) + Node::Constant(Constant::Int(rhs))
    }
}

impl AddSpecImpl<i64> for Variable {
    open spec fn obeys_add_spec() -> bool {
        false
    }

    open spec fn add_req(self, rhs: i64) -> bool {
        true
    }

    open spec fn add_spec(self, rhs: i64) -> Node {
        Node::Constant(Constant::Int(0))
    }
}

impl std::ops::Add<i64> for Constant {
    type Output = Node;

    fn add(self, rhs: i64) -> (r: Node)
        ensures
            r@ == sum(view_node(Node::Constant(self)), int_const(rhs), false),
    {
        Node::Constant(self) + Node::Constant(Constant::Int(rhs))
    }
}

impl AddSpecImpl<i64> for Constant {
    open spec fn obeys_add_spec() -> bool {
        false
    }

    open spec fn add_req(self, rhs: i64) -> bool {
        true
    }

    open spec fn add_spec(self, rhs: i64) -> Node {
        Node::Constant(Constant::Int(0))
    }
}

impl std::ops::Add<i64> for Negation {
    type Output = Node;

    fn add(self, rhs: i64) -> (r: Node)
        ensures
            r@ == sum(view_node(Node::Negation(self)), int_const(rhs), false),
    {
        Node::Negation(self) + Node::Constant(Constant::Int(rhs))
    }
}

impl AddSpecImpl<i64> for Negation {
    open spec fn obeys_add_spec() -> bool {
        false
    }

    open spec fn add_req(self, rhs: i64) -> bool {
        true
    }

    open spec fn add_spec(self, rhs: i64) -> Node {
        Node::Constant(Constant::Int(0))
    }
}

impl std::ops::Add<i64> for Log {
    type Output = Node;

    fn add(self, rhs: i64) -> (r: Node)
        ensures
            r@ == sum(view_node(Node::Log(self)), int_const(rhs), false),
    {
        Node::Log(self) + Node::Constant(Constant::Int(rhs))
    }
}

impl AddSpecImpl<i64> for Log {
    open spec fn obeys_add_spec() -> bool {
        false
    }

    open spec fn add_req(self, rhs: i64) -> bool {
        true
    }

    open spec fn add_spec(self, rhs: i64) -> Node {
        Node::Constant(Constant::Int(0))
    }
}

impl std::ops::Sub<Multiplication> for i64 {
    type Output = Node;

    fn sub(self, rhs: Multiplication) -> (r: Node)
        ensures
            r@ == sum(int_const(self), view_node(Node::Multiplication(rhs)), true),
    {
        Node::Constant(Constant::Int(self)) - Node::Multiplication(rhs)
    }
}

impl SubSpecImpl<Multiplication> for i64 {
    open spec fn obeys_sub_spec() -> bool {
        false
    }

    open spec fn sub_req(self, rhs: Multiplication) -> bool {
        true
    }

    open spec fn sub_spec(self, rhs: Multiplication) -> Node {
        Node::Constant(Constant::Int(0))
    }
}

impl std::ops::Sub<Power> for i64 {
    type Output = Node;

    fn sub(self, rhs: Power) -> (r: Node)
        ensures
            r@ == sum(int_const(self), view_node(Node::Power(rhs)), true),
    {
        Node::Constant(Constant::Int(self)) - Node::Power(rhs)
    }
}

impl SubSpecImpl<Power> for i64 {
    open spec fn obeys_sub_spec() -> bool {
        false
    }

    open spec fn sub_req(self, rhs: Power) -> bool {
        true
    }

    open spec fn sub_spec(self, rhs: Power) -> Node {
        Node::Constant(Constant::Int(0))
    }
}

impl std::ops::Sub<Variable> for i64 {
    type Output = Node;

    fn sub(self, rhs: Variable) -> (r: Node)
        ensures
            r@ == sum(int_const(self), view_node(Node::Variable(rhs)), true),
    {
        Node::Constant(Constant::Int(self)) - Node::Variable(rhs)
    }
}

impl SubSpecImpl<Variable> for i64 {
    open spec fn obeys_sub_spec() -> bool {
        false
    }

    open spec fn sub_req(self, rhs: Variable) -> bool {
        true
    }

    open spec fn sub_spec(self, rhs: Variable) -> Node {
        Node::Constant(Constant::Int(0))
    }
}

impl std::ops::Sub<Constant> for i64 {
    type Output = Node;

    fn sub(self, rhs: Constant) -> (r: Node)
        ensures
            r@ == sum(int_const(self), view_node(Node::Constant(rhs)), true),
    {
        Node::Constant(Constant::Int(self)) - Node::Constant(rhs)
    }
}

impl SubSpecImpl<Constant> for i64 {
    open spec fn obeys_sub_spec() -> bool {
        false
    }

    open spec fn sub_req(self, rhs: Constant) -> bool {
        true
    }

    open spec fn sub_spec(self, rhs: Constant) -> Node {
        Node::Constant(Constant::Int(0))
    }
}

impl std::ops::Sub<Negation> for i64 {
    type Output = Node;

    fn sub(self, rhs: Negation) -> (r: Node)
        ensures
            r@ == sum(int_const(self), view_node(Node::Negation(rhs)), true),
    {
        Node::Constant(Constant::Int(self)) - Node::Negation(rhs)
    }
}

impl SubSpecImpl<Negation> for i64 {
    open spec fn obeys_sub_spec() -> bool {
        false
    }

    open spec fn sub_req(self, rhs: Negation) -> bool {
        true
    }

    open spec fn sub_spec(self, rhs: Negation) -> Node {
        Node::Constant(Constant::Int(0))
    }
}

impl std::ops::Sub<Log> for i64 {
    type Output = Node;

    fn sub(self, rhs: Log) -> (r: Node)
        ensures
            r@ == sum(int_const(self), view_node(Node::Log(rhs)), true),
    {
        Node::Constant(Constant::Int(self)) - Node::Log(rhs)
    }
}

impl SubSpecImpl<Log> for i64 {
    open spec fn obeys_sub_spec() -> bool {
        false
    }

    open spec fn sub_req(self, rhs: Log) -> bool {
        true
    }

    open spec fn sub_spec(self, rhs: Log) -> Node {
        Node::Constant(Constant::Int(0))
    }
}

impl std::ops::Sub<Multiplication> for Multiplication {
    type Output = Node;

    fn sub(self, rhs: Multiplication) -> (r: Node)
        ensures
            r@ == sum(view_node(Node::Multiplication(self)), view_node(Node::Multiplication(rhs)), true),
    {
        Node::Multiplication(self) - Node::Multiplication(rhs)
    }
}

impl SubSpecImpl<Multiplication> for Multiplication {
    open spec fn obeys_sub_spec() -> bool {
        false
    }

    open spec fn sub_req(self, rhs: Multiplication) -> bool {
        true
    }

    open spec fn sub_spec(self, rhs: Multiplication) -> Node {
        Node::Constant(Constant::Int(0))
    }
}

impl std::ops::Sub<Power> for Multiplication {
    type Output = Node;

    fn sub(self, rhs: Power) -> (r: Node)
        ensures
            r@ == sum(view_node(Node::Multiplication(self)), view_node(Node::Power(rhs)), true),
    {
        Node::Multiplication(self) - Node::Power(rhs)
    }
}

impl SubSpecImpl<Power> for Multiplication {
    open spec fn obeys_sub_spec() -> bool {
        false
    }

    open spec fn sub_req(self, rhs: Power) -> bool {
        true
    }

    open spec fn sub_spec(self, rhs: Power) -> Node {
        Node::Constant(Constant::Int(0))
    }
}

impl std::ops::Sub<Variable> for Multiplication {
    type Output = Node;

    fn sub(self, rhs: Variable) -> (r: Node)
        ensures
            r@ == sum(view_node(Node::Multiplication(self)), view_node(Node::Variable(rhs)), true),
    {
        Node::Multiplication(self) - Node::Variable(rhs)
    }
}

impl SubSpecImpl<Variable> for Multiplication {
    open spec fn obeys_sub_spec() -> bool {
        false
    }

    open spec fn sub_req(self, rhs: Variable) -> bool {
        true
    }

    open spec fn sub_spec(self, rhs: Variable) -> Node {
        Node::Constant(Constant::Int(0))
    }
}

impl std::ops::Sub<Constant> for Multiplication {
    type Output = Node;

    fn sub(self, rhs: Constant) -> (r: Node)
        ensures
            r@ == sum(view_node(Node::Multiplication(self)), view_node(Node::Constant(rhs)), true),
    {
        Node::Multiplication(self) - Node::Constant(rhs)
    }
}

impl SubSpecImpl<Constant> for Multiplication {
    open spec fn obeys_sub_spec() -> bool {
        false
    }

    open spec fn sub_req(self, rhs: Constant) -> bool {
        true
    }

    open spec fn sub_spec(self, rhs: Constant) -> Node {
        Node::Constant(Constant::Int(0))
    }
}

impl std::ops::Sub<Negation> for Multiplication {
    type Output = Node;

    fn sub(self, rhs: Negation) -> (r: Node)
        ensures
            r@ == sum(view_node(Node::Multiplication(self)), view_node(Node::Negation(rhs)), true),
    {
        Node::Multiplication(self) - Node::Negation(rhs)
    }
}

impl SubSpecImpl<Negation> for Multiplication {
    open spec fn obeys_sub_spec() -> bool {
        false
    }

    open spec fn sub_req(self, rhs: Negation) -> bool {
        true
    }

    open spec fn sub_spec(self, rhs: Negation) -> Node {
        Node::Constant(Constant::Int(0))
    }
}

impl std::ops::Sub<Log> for Multiplication {
    type Output = Node;

    fn sub(self, rhs: Log) -> (r: Node)
        ensures
            r@ == sum(view_node(Node::Multiplication(self)), view_node(Node::Log(rhs)), true),
    {
        Node::Multiplication(self) - Node::Log(rhs)
    }
}

impl SubSpecImpl<Log> for Multiplication {
    open spec fn obeys_sub_spec() -> bool {
        false
    }

    open spec fn sub_req(self, rhs: Log) -> bool {
        true
    }

    open spec fn sub_spec(self, rhs: Log) -> Node {
        Node::Constant(Constant::Int(0))
    }
}

impl std::ops::Sub<Node> for Multiplication {
    type Output = Node;

    fn sub(self, rhs: Node) -> (r: Node)
        ensures
            r@ == sum(view_node(Node::Multiplication(self)), rhs@, true),
    {
        Node::Multiplication(self) - rhs
    }
}

impl SubSpecImpl<Node> for Multiplication {
    open spec fn obeys_sub_spec() -> bool {
        false
    }

    open spec fn sub_req(self, rhs: Node) -> bool {
        true
    }

    open spec fn sub_spec(self, rhs: Node) -> Node {
        Node::Constant(Constant::Int(0))
    }
}

impl std::ops::Sub<Multiplication> for Power {
    type Output = Node;

    fn sub(self, rhs: Multiplication) -> (r: Node)
        ensures
            r@ == sum(view_node(Node::Power(self)), view_node(Node::Multiplication(rhs)), true),
    {
        Node::Power(self) - Node::Multiplication(rhs)
    }
}

impl SubSpecImpl<Multiplication> for Power {
    open spec fn obeys_sub_spec() -> bool {
        false
    }

    open spec fn sub_req(self, rhs: Multiplication) -> bool {
        true
    }

    open spec fn sub_spec(self, rhs: Multiplication) -> Node {
        Node::Constant(Constant::Int(0))
    }
}

impl std::ops::Sub<Power> for Power {
    type Output = Node;

    fn sub(self, rhs: Power) -> (r: Node)
        ensures
            r@ == sum(view_node(Node::Power(self)), view_node(Node::Power(rhs)), true),
    {
        Node::Power(self) - Node::Power(rhs)
    }
}

impl SubSpecImpl<Power> for Power {
    open spec fn obeys_sub_spec() -> bool {
        false
    }

    open spec fn sub_req(self, rhs: Power) -> bool {
        true
    }

    open spec fn sub_spec(self, rhs: Power) -> Node {
        Node::Constant(Constant::Int(0))
    }
}

impl std::ops::Sub<Variable> for Power {
    type Output = Node;

    fn sub(self, rhs: Variable) -> (r: Node)
        ensures
            r@ == sum(view_node(Node::Power(self)), view_node(Node::Variable(rhs)), true),
    {
        Node::Power(self) - Node::Variable(rhs)
    }
}

impl SubSpecImpl<Variable> for Power {
    open spec fn obeys_sub_spec() -> bool {
        false
    }

    open spec fn sub_req(self, rhs: Variable) -> bool {
        true
    }

    open spec fn sub_spec(self, rhs: Variable) -> Node {
        Node::Constant(Constant::Int(0))
    }
}

impl std::ops::Sub<Constant> for Power {
    type Output = Node;

    fn sub(self, rhs: Constant) -> (r: Node)
        ensures
            r@ == sum(view_node(Node::Power(self)), view_node(Node::Constant(rhs)), true),
    {
        Node::Power(self) - Node::Constant(rhs)
    }
}

impl SubSpecImpl<Constant> for Power {
    open spec fn obeys_sub_spec() -> bool {
        false
    }

    open spec fn sub_req(self, rhs: Constant) -> bool {
        true
    }

    open spec fn sub_spec(self, rhs: Constant) -> Node {
        Node::Constant(Constant::Int(0))
    }
}

impl std::ops::Sub<Negation> for Power {
    type Output = Node;

    fn sub(self, rhs: Negation) -> (r: Node)
        ensures
            r@ == sum(view_node(Node::Power(self)), view_node(Node::Negation(rhs)), true),
    {
        Node::Power(self) - Node::Negation(rhs)
    }
}

impl SubSpecImpl<Negation> for Power {
    open spec fn obeys_sub_spec() -> bool {
        false
    }

    open spec fn sub_req(self, rhs: Negation) -> bool {
        true
    }

    open spec fn sub_spec(self, rhs: Negation) -> Node {
        Node::Constant(Constant::Int(0))
    }
}

impl std::ops::Sub<Log> for Power {
    type Output = Node;

    fn sub(self, rhs: Log) -> (r: Node)
        ensures
            r@ == sum(view_node(Node::Power(self)), view_node(Node::Log(rhs)), true),
    {
        Node::Power(self) - Node::Log(rhs)
    }
}

impl SubSpecImpl<Log> for Power {
    open spec fn obeys_sub_spec() -> bool {
        false
    }

    open spec fn sub_req(self, rhs: Log) -> bool {
        true
    }

    open spec fn sub_spec(self, rhs: Log) -> Node {
        Node::Constant(Constant::Int(0))
    }
}

impl std::ops::Sub<Node> for Power {
    type Output = Node;

    fn sub(self, rhs: Node) -> (r: Node)
        ensures
            r@ == sum(view_node(Node::Power(self)), rhs@, true),
    {
        Node::Power(self) - rhs
    }
}

impl SubSpecImpl<Node> for Power {
    open spec fn obeys_sub_spec() -> bool {
        false
    }

    open spec fn sub_req(self, rhs: Node) -> bool {
        true
    }

    open spec fn sub_spec(self, rhs: Node) -> Node {
        Node::Constant(Constant::Int(0))
    }
}

impl std::ops::Sub<Multiplication> for Variable {
    type Output = Node;

    fn sub(self, rhs: Multiplication) -> (r: Node)
        ensures
            r@ == sum(view_node(Node::Variable(self)), view_node(Node::Multiplication(rhs)), true),
    {
        Node::Variable(self) - Node::Multiplication(rhs)
    }
}

impl SubSpecImpl<Multiplication> for Variable {
    open spec fn obeys_sub_spec() -> bool {
        false
    }

    open spec fn sub_req(self, rhs: Multiplication) -> bool {
        true
    }

    open spec fn sub_spec(self, rhs: Multiplication) -> Node {
        Node::Constant(Constant::Int(0))
    }
}

impl std::ops::Sub<Power> for Variable {
    type Output = Node;

    fn sub(self, rhs: Power) -> (r: Node)
        ensures
            r@ == sum(view_node(Node::Variable(self)), view_node(Node::Power(rhs)), true),
    {
        Node::Variable(self) - Node::Power(rhs)
    }
}

impl SubSpecImpl<Power> for Variable {
    open spec fn obeys_sub_spec() -> bool {
        false
    }

    open spec fn sub_req(self, rhs: Power) -> bool {
        true
    }

    open spec fn sub_spec(self, rhs: Power) -> Node {
        Node::Constant(Constant::Int(0))
    }
}

impl std::ops::Sub<Variable> for Variable {
    type Output = Node;

    fn sub(self, rhs: Variable) -> (r: Node)
        ensures
            r@ == sum(view_node(Node::Variable(self)), view_node(Node::Variable(rhs)), true),
    {
        Node::Variable(self) - Node::Variable(rhs)
    }
}

impl SubSpecImpl<Variable> for Variable {
    open spec fn obeys_sub_spec() -> bool {
        false
    }

    open spec fn sub_req(self, rhs: Variable) -> bool {
        true
    }

    open spec fn sub_spec(self, rhs: Variable) -> Node {
        Node::Constant(Constant::Int(0))
    }
}

impl std::ops::Sub<Constant> for Variable {
    type Output = Node;

    fn sub(self, rhs: Constant) -> (r: Node)
        ensures
            r@ == sum(view_node(Node::Variable(self)), view_node(Node::Constant(rhs)), true),
    {
        Node::Variable(self) - Node::Constant(rhs)
    }
}

impl SubSpecImpl<Constant> for Variable {
    open spec fn obeys_sub_spec() -> bool {
        false
    }

    open spec fn sub_req(self, rhs: Constant) -> bool {
        true
    }

    open spec fn sub_spec(self, rhs: Constant) -> Node {
        Node::Constant(Constant::Int(0))
    }
}

impl std::ops::Sub<Negation> for Variable {
    type Output = Node;

    fn sub(self, rhs: Negation) -> (r: Node)
        ensures
            r@ == sum(view_node(Node::Variable(self)), view_node(Node::Negation(rhs)), true),
    {
        Node::Variable(self) - Node::Negation(rhs)
    }
}

impl SubSpecImpl<Negation> for Variable {
    open spec fn obeys_sub_spec() -> bool {
        false
    }

    open spec fn sub_req(self, rhs: Negation) -> bool {
        true
    }

    open spec fn sub_spec(self, rhs: Negation) -> Node {
        Node::Constant(Constant::Int(0))
    }
}

impl std::ops::Sub<Log> for Variable {
    type Output = Node;

    fn sub(self, rhs: Log) -> (r: Node)
        ensures
            r@ == sum(view_node(Node::Variable(self)), view_node(Node::Log(rhs)), true),
    {
        Node::Variable(self) - Node::Log(rhs)
    }
}

impl SubSpecImpl<Log> for Variable {
    open spec fn obeys_sub_spec() -> bool {
        false
    }

    open spec fn sub_req(self, rhs: Log) -> bool {
        true
    }

    open spec fn sub_spec(self, rhs: Log) -> Node {
        Node::Constant(Constant::Int(0))
    }
}

impl std::ops::Sub<Node> for Variable {
    type Output = Node;

    fn sub(self, rhs: Node) -> (r: Node)
        ensures
            r@ == sum(view_node(Node::Variable(self)), rhs@, true),
    {
        Node::Variable(self) - rhs
    }
}

impl SubSpecImpl<Node> for Variable {
    open spec fn obeys_sub_spec() -> bool {
        false
    }

    open spec fn sub_req(self, rhs: Node) -> bool {
        true
    }

    open spec fn sub_spec(self, rhs: Node) -> Node {
        Node::Constant(Constant::Int(0))
    }
}

impl std::ops::Sub<Multiplication> for Constant {
    type Output = Node;

    fn sub(self, rhs: Multiplication) -> (r: Node)
        ensures
            r@ == sum(view_node(Node::Constant(self)), view_node(Node::Multiplication(rhs)), true),
    {
        Node::Constant(self) - Node::Multiplication(rhs)
    }
}

impl SubSpecImpl<Multiplication> for Constant {
    open spec fn obeys_sub_spec() -> bool {
        false
    }

    open spec fn sub_req(self, rhs: Multiplication) -> bool {
        true
    }

    open spec fn sub_spec(self, rhs: Multiplication) -> Node {
        Node::Constant(Constant::Int(0))
    }
}

impl std::ops::Sub<Power> for Constant {
    type Output = Node;

    fn sub(self, rhs: Power) -> (r: Node)
        ensures
            r@ == sum(view_node(Node::Constant(self)), view_node(Node::Power(rhs)), true),
    {
        Node::Constant(self) - Node::Power(rhs)
    }
}

impl SubSpecImpl<Power> for Constant {
    open spec fn obeys_sub_spec() -> bool {
        false
    }

    open spec fn sub_req(self, rhs: Power) -> bool {
        true
    }

    open spec fn sub_spec(self, rhs: Power) -> Node {
        Node::Constant(Constant::Int(0))
    }
}

impl std::ops::Sub<Variable> for Constant {
    type Output = Node;

    fn sub(self, rhs: Variable) -> (r: Node)
        ensures
            r@ == sum(view_node(Node::Constant(self)), view_node(Node::Variable(rhs)), true),
    {
        Node::Constant(self) - Node::Variable(rhs)
    }
}

impl SubSpecImpl<Variable> for Constant {
    open spec fn obeys_sub_spec() -> bool {
        false
    }

    open spec fn sub_req(self, rhs: Variable) -> bool {
        true
    }

    open spec fn sub_spec(self, rhs: Variable) -> Node {
        Node::Constant(Constant::Int(0))
    }
}

impl std::ops::Sub<Constant> for Constant {
    type Output = Node;

    fn sub(self, rhs: Constant) -> (r: Node)
        ensures
            r@ == sum(view_node(Node::Constant(self)), view_node(Node::Constant(rhs)), true),
    {
        Node::Constant(self) - Node::Constant(rhs)
    }
}

impl SubSpecImpl<Constant> for Constant {
    open spec fn obeys_sub_spec() -> bool {
        false
    }

    open spec fn sub_req(self, rhs: Constant) -> bool {
        true
    }

    open spec fn sub_spec(self, rhs: Constant) -> Node {
        Node::Constant(Constant::Int(0))
    }
}

impl std::ops::Sub<Negation> for Constant {
    type Output = Node;

    fn sub(self, rhs: Negation) -> (r: Node)
        ensures
            r@ == sum(view_node(Node::Constant(self)), view_node(Node::Negation(rhs)), true),
    {
        Node::Constant(self) - Node::Negation(rhs)
    }
}

impl SubSpecImpl<Negation> for Constant {
    open spec fn obeys_sub_spec() -> bool {
        false
    }

    open spec fn sub_req(self, rhs: Negation) -> bool {
        true
    }

    open spec fn sub_spec(self, rhs: Negation) -> Node {
        Node::Constant(Constant::Int(0))
    }
}

impl std::ops::Sub<Log> for Constant {
    type Output = Node;

    fn sub(self, rhs: Log) -> (r: Node)
        ensures
            r@ == sum(view_node(Node::Constant(self)), view_node(Node::Log(rhs)), true),
    {
        Node::Constant(self) - Node::Log(rhs)
    }
}

impl SubSpecImpl<Log> for Constant {
    open spec fn obeys_sub_spec() -> bool {
        false
    }

    open spec fn sub_req(self, rhs: Log) -> bool {
        true
    }

    open spec fn sub_spec(self, rhs: Log) -> Node {
        Node::Constant(Constant::Int(0))
    }
}

impl std::ops::Sub<Node> for Constant {
    type Output = Node;

    fn sub(self, rhs: Node) -> (r: Node)
        ensures
            r@ == sum(view_node(Node::Constant(self)), rhs@, true),
    {
        Node::Constant(self) - rhs
    }
}

impl SubSpecImpl<Node> for Constant {
    open spec fn obeys_sub_spec() -> bool {
        false
    }

    open spec fn sub_req(self, rhs: Node) -> bool {
        true
    }

    open spec fn sub_spec(self, rhs: Node) -> Node {
        Node::Constant(Constant::Int(0))
    }
}

impl std::ops::Sub<Multiplication> for Negation {
    type Output = Node;

    fn sub(self, rhs: Multiplication) -> (r: Node)
        ensures
            r@ == sum(view_node(Node::Negation(self)), view_node(Node::Multiplication(rhs)), true),
    {
        Node::Negation(self) - Node::Multiplication(rhs)
    }
}

impl SubSpecImpl<Multiplication> for Negation {
    open spec fn obeys_sub_spec() -> bool {
        false
    }

    open spec fn sub_req(self, rhs: Multiplication) -> bool {
        true
    }

    open spec fn sub_spec(self, rhs: Multiplication) -> Node {
        Node::Constant(Constant::Int(0))
    }
}

impl std::ops::Sub<Power> for Negation {
    type Output = Node;

    fn sub(self, rhs: Power) -> (r: Node)
        ensures
            r@ == sum(view_node(Node::Negation(self)), view_node(Node::Power(rhs)), true),
    {
        Node::Negation(self) - Node::Power(rhs)
    }
}

impl SubSpecImpl<Power> for Negation {
    open spec fn obeys_sub_spec() -> bool {
        false
    }

    open spec fn sub_req(self, rhs: Power) -> bool {
        true
    }

    open spec fn sub_spec(self, rhs: Power) -> Node {
        Node::Constant(Constant::Int(0))
    }
}

impl std::ops::Sub<Variable> for Negation {
    type Output = Node;

    fn sub(self, rhs: Variable) -> (r: Node)
        ensures
            r@ == sum(view_node(Node::Negation(self)), view_node(Node::Variable(rhs)), true),
    {
        Node::Negation(self) - Node::Variable(rhs)
    }
}

impl SubSpecImpl<Variable> for Negation {
    open spec fn obeys_sub_spec() -> bool {
        false
    }

    open spec fn sub_req(self, rhs: Variable) -> bool {
        true
    }

    open spec fn sub_spec(self, rhs: Variable) -> Node {
        Node::Constant(Constant::Int(0))
    }
}

impl std::ops::Sub<Constant> for Negation {
    type Output = Node;

    fn sub(self, rhs: Constant) -> (r: Node)
        ensures
            r@ == sum(view_node(Node::Negation(self)), view_node(Node::Constant(rhs)), true),
    {
        Node::Negation(self) - Node::Constant(rhs)
    }
}

impl SubSpecImpl<Constant> for Negation {
    open spec fn obeys_sub_spec() -> bool {
        false
    }

    open spec fn sub_req(self, rhs: Constant) -> bool {
        true
    }

    open spec fn sub_spec(self, rhs: Constant) -> Node {
        Node::Constant(Constant::Int(0))
    }
}

impl std::ops::Sub<Negation> for Negation {
    type Output = Node;

    fn sub(self, rhs: Negation) -> (r: Node)
        ensures
            r@ == sum(view_node(Node::Negation(self)), view_node(Node::Negation(rhs)), true),
    {
        Node::Negation(self) - Node::Negation(rhs)
    }
}

impl SubSpecImpl<Negation> for Negation {
    open spec fn obeys_sub_spec() -> bool {
        false
    }

    open spec fn sub_req(self, rhs: Negation) -> bool {
        true
    }

    open spec fn sub_spec(self, rhs: Negation) -> Node {
        Node::Constant(Constant::Int(0))
    }
}

impl std::ops::Sub<Log> for Negation {
    type Output = Node;

    fn sub(self, rhs: Log) -> (r: Node)
        ensures
            r@ == sum(view_node(Node::Negation(self)), view_node(Node::Log(rhs)), true),
    {
        Node::Negation(self) - Node::Log(rhs)
    }
}

impl SubSpecImpl<Log> for Negation {
    open spec fn obeys_sub_spec() -> bool {
        false
    }

    open spec fn sub_req(self, rhs: Log) -> bool {
        true
    }

    open spec fn sub_spec(self, rhs: Log) -> Node {
        Node::Constant(Constant::Int(0))
    }
}

impl std::ops::Sub<Node> for Negation {
    type Output = Node;

    fn sub(self, rhs: Node) -> (r: Node)
        ensures
            r@ == sum(view_node(Node::Negation(self)), rhs@, true),
    {
        Node::Negation(self) - rhs
    }
}

impl SubSpecImpl<Node> for Negation {
    open spec fn obeys_sub_spec() -> bool {
        false
    }

    open spec fn sub_req(self, rhs: Node) -> bool {
        true
    }

    open spec fn sub_spec(self, rhs: Node) -> Node {
        Node::Constant(Constant::Int(0))
    }
}

impl std::ops::Sub<Multiplication> for Log {
    type Output = Node;

    fn sub(self, rhs: Multiplication) -> (r: Node)
        ensures
            r@ == sum(view_node(Node::Log(self)), view_node(Node::Multiplication(rhs)), true),
    {
        Node::Log(self) - Node::Multiplication(rhs)
    }
}

impl SubSpecImpl<Multiplication> for Log {
    open spec fn obeys_sub_spec() -> bool {
        false
    }

    open spec fn sub_req(self, rhs: Multiplication) -> bool {
        true
    }

    open spec fn sub_spec(self, rhs: Multiplication) -> Node {
        Node::Constant(Constant::Int(0))
    }
}

impl std::ops::Sub<Power> for Log {
    type Output = Node;

    fn sub(self, rhs: Power) -> (r: Node)
        ensures
            r@ == sum(view_node(Node::Log(self)), view_node(Node::Power(rhs)), true),
    {
        Node::Log(self) - Node::Power(rhs)
    }
}

impl SubSpecImpl<Power> for Log {
    open spec fn obeys_sub_spec() -> bool {
        false
    }

    open spec fn sub_req(self, rhs: Power) -> bool {
        true
    }

    open spec fn sub_spec(self, rhs: Power) -> Node {
        Node::Constant(Constant::Int(0))
    }
}

impl std::ops::Sub<Variable> for Log {
    type Output = Node;

    fn sub(self, rhs: Variable) -> (r: Node)
        ensures
            r@ == sum(view_node(Node::Log(self)), view_node(Node::Variable(rhs)), true),
    {
        Node::Log(self) - Node::Variable(rhs)
    }
}

impl SubSpecImpl<Variable> for Log {
    open spec fn obeys_sub_spec() -> bool {
        false
    }

    open spec fn sub_req(self, rhs: Variable) -> bool {
        true
    }

    open spec fn sub_spec(self, rhs: Variable) -> Node {
        Node::Constant(Constant::Int(0))
    }
}

impl std::ops::Sub<Constant> for Log {
    type Output = Node;

    fn sub(self, rhs: Constant) -> (r: Node)
        ensures
            r@ == sum(view_node(Node::Log(self)), view_node(Node::Constant(rhs)), true),
    {
        Node::Log(self) - Node::Constant(rhs)
    }
}

impl SubSpecImpl<Constant> for Log {
    open spec fn obeys_sub_spec() -> bool {
        false
    }

    open spec fn sub_req(self, rhs: Constant) -> bool {
        true
    }

    open spec fn sub_spec(self, rhs: Constant) -> Node {
        Node::Constant(Constant::Int(0))
    }
}

impl std::ops::Sub<Negation> for Log {
    type Output = Node;

    fn sub(self, rhs: Negation) -> (r: Node)
        ensures
            r@ == sum(view_node(Node::Log(self)), view_node(Node::Negation(rhs)), true),
    {
        Node::Log(self) - Node::Negation(rhs)
    }
}

impl SubSpecImpl<Negation> for Log {
    open spec fn obeys_sub_spec() -> bool {
        false
    }

    open spec fn sub_req(self, rhs: Negation) -> bool {
        true
    }

    open spec fn sub_spec(self, rhs: Negation) -> Node {
        Node::Constant(Constant::Int(0))
    }
}

impl std::ops::Sub<Log> for Log {
    type Output = Node;

    fn sub(self, rhs: Log) -> (r: Node)
        ensures
            r@ == sum(view_node(Node::Log(self)), view_node(Node::Log(rhs)), true),
    {
        Node::Log(self) - Node::Log(rhs)
    }
}

impl SubSpecImpl<Log> for Log {
    open spec fn obeys_sub_spec() -> bool {
        false
    }

    open spec fn sub_req(self, rhs: Log) -> bool {
        true
    }

    open spec fn sub_spec(self, rhs: Log) -> Node {
        Node::Constant(Constant::Int(0))
    }
}

impl std::ops::Sub<Node> for Log {
    type Output = Node;

    fn sub(self, rhs: Node) -> (r: Node)
        ensures
            r@ == sum(view_node(Node::Log(self)), rhs@, true),
    {
        Node::Log(self) - rhs
    }
}

impl SubSpecImpl<Node> for Log {
    open spec fn obeys_sub_spec() -> bool {
        false
    }

    open spec fn sub_req(self, rhs: Node) -> bool {
        true
    }

    open spec fn sub_spec(self, rhs: Node) -> Node {
        Node::Constant(Constant::Int(0))
    }
}

impl std::ops::Sub<Multiplication> for Node {
    type Output = Node;

    fn sub(self, rhs: Multiplication) -> (r: Node)
        ensures
            r@ == sum(self@, view_node(Node::Multiplication(rhs)), true),
    {
        self - Node::Multiplication(rhs)
    }
}

impl SubSpecImpl<Multiplication> for Node {
    open spec fn obeys_sub_spec() -> bool {
        false
    }

    open spec fn sub_req(self, rhs: Multiplication) -> bool {
        !(self@ is Add)
    }

    open spec fn sub_spec(self, rhs: Multiplication) -> Node {
        Node::Constant(Constant::Int(0))
    }
}

impl std::ops::Sub<Power> for Node {
    type Output = Node;

    fn sub(self, rhs: Power) -> (r: Node)
        ensures
            r@ == sum(self@, view_node(Node::Power(rhs)), true),
    {
        self - Node::Power(rhs)
    }
}

impl SubSpecImpl<Power> for Node {
    open spec fn obeys_sub_spec() -> bool {
        false
    }

    open spec fn sub_req(self, rhs: Power) -> bool {
        !(self@ is Add)
    }

    open spec fn sub_spec(self, rhs: Power) -> Node {
        Node::Constant(Constant::Int(0))
    }
}

impl std::ops::Sub<Variable> for Node {
    type Output = Node;

    fn sub(self, rhs: Variable) -> (r: Node)
        ensures
            r@ == sum(self@, view_node(Node::Variable(rhs)), true),
    {
        self - Node::Variable(rhs)
    }
}

impl SubSpecImpl<Variable> for Node {
    open spec fn obeys_sub_spec() -> bool {
        false
    }

    open spec fn sub_req(self, rhs: Variable) -> bool {
        !(self@ is Add)
    }

    open spec fn sub_spec(self, rhs: Variable) -> Node {
        Node::Constant(Constant::Int(0))
    }
}

impl std::ops::Sub<Constant> for Node {
    type Output = Node;

    fn sub(self, rhs: Constant) -> (r: Node)
        ensures
            r@ == sum(self@, view_node(Node::Constant(rhs)), true),
    {
        self - Node::Constant(rhs)
    }
}

impl SubSpecImpl<Constant> for Node {
    open spec fn obeys_sub_spec() -> bool {
        false
    }

    open spec fn sub_req(self, rhs: Constant) -> bool {
        !(self@ is Add)
    }

    open spec fn sub_spec(self, rhs: Constant) -> Node {
        Node::Constant(Constant::Int(0))
    }
}

impl std::ops::Sub<Negation> for Node {
    type Output = Node;

    fn sub(self, rhs: Negation) -> (r: Node)
        ensures
            r@ == sum(self@, view_node(Node::Negation(rhs)), true),
    {
        self - Node::Negation(rhs)
    }
}

impl SubSpecImpl<Negation> for Node {
    open spec fn obeys_sub_spec() -> bool {
        false
    }

    open spec fn sub_req(self, rhs: Negation) -> bool {
        !(self@ is Add)
    }

    open spec fn sub_spec(self, rhs: Negation) -> Node {
        Node::Constant(Constant::Int(0))
    }
}

impl std::ops::Sub<Log> for Node {
    type Output = Node;

    fn sub(self, rhs: Log) -> (r: Node)
        ensures
            r@ == sum(self@, view_node(Node::Log(rhs)), true),
    {
        self - Node::Log(rhs)
    }
}

impl SubSpecImpl<Log> for Node {
    open spec fn obeys_sub_spec() -> bool {
        false
    }

    open spec fn sub_req(self, rhs: Log) -> bool {
        !(self@ is Add)
    }

    open spec fn sub_spec(self, rhs: Log) -> Node {
        Node::Constant(Constant::Int(0))
    }
}

impl std::ops::Sub<i64> for Multiplication {
    type Output = Node;

    fn sub(self, rhs: i64) -> (r: Node)
        ensures
            r@ == sum(view_node(Node::Multiplication(self)), int_const(rhs), true),
    {
        Node::Multiplication(self) - Node::Constant(Constant::Int(rhs))
    }
}

impl SubSpecImpl<i64> for Multiplication {
    open spec fn obeys_sub_spec() -> bool {
        false
    }

    open spec fn sub_req(self, rhs: i64) -> bool {
        true
    }

    open spec fn sub_spec(self, rhs: i64) -> Node {
        Node::Constant(Constant::Int(0))
    }
}

impl std::ops::Sub<i64> for Power {
    type Output = Node;

    fn sub(self, rhs: i64) -> (r: Node)
        ensures
            r@ == sum(view_node(Node::Power(self)), int_const(rhs), true),
    {
        Node::Power(self) - Node::Constant(Constant::Int(rhs))
    }
}

impl SubSpecImpl<i64> for Power {
    open spec fn obeys_sub_spec() -> bool {
        false
    }

    open spec fn sub_req(self, rhs: i64) -> bool {
        true
    }

    open spec fn sub_spec(self, rhs: i64) -> Node {
        Node::Constant(Constant::Int(0))
    }
}

impl std::ops::Sub<i64> for Variable {
    type Output = Node;

    fn sub(self, rhs: i64) -> (r: Node)
        ensures
            r@ == sum(view_node(Node::Variable(self)), int_const(rhs), true),
    {
        Node::Variable(self) - Node::Constant(Constant::Int(rhs))
    }
}

impl SubSpecImpl<i64> for Variable {
    open spec fn obeys_sub_spec() -> bool {
        false
    }

    open spec fn sub_req(self, rhs: i64) -> bool {
        true
    }

    open spec fn sub_spec(self, rhs: i64) -> Node {
        Node::Constant(Constant::Int(0))
    }
}

impl std::ops::Sub<i64> for Constant {
    type Output = Node;

    fn sub(self, rhs: i64) -> (r: Node)
        ensures
            r@ == sum(view_node(Node::Constant(self)), int_const(rhs), true),
    {
        Node::Constant(self) - Node::Constant(Constant::Int(rhs))
    }
}

impl SubSpecImpl<i64> for Constant {
    open spec fn obeys_sub_spec() -> bool {
        false
    }

    open spec fn sub_req(self, rhs: i64) -> bool {
        true
    }

    open spec fn sub_spec(self, rhs: i64) -> Node {
        Node::Constant(Constant::Int(0))
    }
}

impl std::ops::Sub<i64> for Negation {
    type Output = Node;

    fn sub(self, rhs: i64) -> (r: Node)
        ensures
            r@ == sum(view_node(Node::Negation(self)), int_const(rhs), true),
    {
        Node::Negation(self) - Node::Constant(Constant::Int(rhs))
    }
}

impl SubSpecImpl<i64> for Negation {
    open spec fn obeys_sub_spec() -> bool {
        false
    }

    open spec fn sub_req(self, rhs: i64) -> bool {
        true
    }

    open spec fn sub_spec(self, rhs: i64) -> Node {
        Node::Constant(Constant::Int(0))
    }
}

impl std::ops::Sub<i64> for Log {
    type Output = Node;

    fn sub(self, rhs: i64) -> (r: Node)
        ensures
            r@ == sum(view_node(Node::Log(self)), int_const(rhs), true),
    {
        Node::Log(self) - Node::Constant(Constant::Int(rhs))
    }
}

impl SubSpecImpl<i64> for Log {
    open spec fn obeys_sub_spec() -> bool {
        false
    }

    open spec fn sub_req(self, rhs: i64) -> bool {
        true
    }

    open spec fn sub_spec(self, rhs: i64) -> Node {
        Node::Constant(Constant::Int(0))
    }
}

impl std::ops::Mul<Addition> for i64 {
    type Output = Node;

    fn mul(self, rhs: Addition) -> (r: Node)
        ensures
            r@ == product(int_const(self), view_node(Node::Addition(rhs)), false),
    {
        Node::Constant(Constant::Int(self)) * Node::Addition(rhs)
    }
}

impl MulSpecImpl<Addition> for i64 {
    open spec fn obeys_mul_spec() -> bool {
        false
    }

    open spec fn mul_req(self, rhs: Addition) -> bool {
        true
    }

    open spec fn mul_spec(self, rhs: Addition) -> Node {
        Node::Constant(Constant::Int(0))
    }
}

impl std::ops::Mul<Power> for i64 {
    type Output = Node;

    fn mul(self, rhs: Power) -> (r: Node)
        ensures
            r@ == product(int_const(self), view_node(Node::Power(rhs)), false),
    {
        Node::Constant(Constant::Int(self)) * Node::Power(rhs)
    }
}

impl MulSpecImpl<Power> for i64 {
    open spec fn obeys_mul_spec() -> bool {
        false
    }

    open spec fn mul_req(self, rhs: Power) -> bool {
        true
    }

    open spec fn mul_spec(self, rhs: Power) -> Node {
        Node::Constant(Constant::Int(0))
    }
}

impl std::ops::Mul<Variable> for i64 {
    type Output = Node;

    fn mul(self, rhs: Variable) -> (r: Node)
        ensures
            r@ == product(int_const(self), view_node(Node::Variable(rhs)), false),
    {
        Node::Constant(Constant::Int(self)) * Node::Variable(rhs)
    }
}

impl MulSpecImpl<Variable> for i64 {
    open spec fn obeys_mul_spec() -> bool {
        false
    }

    open spec fn mul_req(self, rhs: Variable) -> bool {
        true
    }

    open spec fn mul_spec(self, rhs: Variable) -> Node {
        Node::Constant(Constant::Int(0))
    }
}

impl std::ops::Mul<Constant> for i64 {
    type Output = Node;

    fn mul(self, rhs: Constant) -> (r: Node)
        ensures
            r@ == product(int_const(self), view_node(Node::Constant(rhs)), false),
    {
        Node::Constant(Constant::Int(self)) * Node::Constant(rhs)
    }
}

impl MulSpecImpl<Constant> for i64 {
    open spec fn obeys_mul_spec() -> bool {
        false
    }

    open spec fn mul_req(self, rhs: Constant) -> bool {
        true
    }

    open spec fn mul_spec(self, rhs: Constant) -> Node {
        Node::Constant(Constant::Int(0))
    }
}

impl std::ops::Mul<Negation> for i64 {
    type Output = Node;

    fn mul(self, rhs: Negation) -> (r: Node)
        ensures
            r@ == product(int_const(self), view_node(Node::Negation(rhs)), false),
    {
        Node::Constant(Constant::Int(self)) * Node::Negation(rhs)
    }
}

impl MulSpecImpl<Negation> for i64 {
    open spec fn obeys_mul_spec() -> bool {
        false
    }

    open spec fn mul_req(self, rhs: Negation) -> bool {
        true
    }

    open spec fn mul_spec(self, rhs: Negation) -> Node {
        Node::Constant(Constant::Int(0))
    }
}

impl std::ops::Mul<Log> for i64 {
    type Output = Node;

    fn mul(self, rhs: Log) -> (r: Node)
        ensures
            r@ == product(int_const(self), view_node(Node::Log(rhs)), false),
    {
        Node::Constant(Constant::Int(self)) * Node::Log(rhs)
    }
}

impl MulSpecImpl<Log> for i64 {
    open spec fn obeys_mul_spec() -> bool {
        false
    }

    open spec fn mul_req(self, rhs: Log) -> bool {
        true
    }

    open spec fn mul_spec(self, rhs: Log) -> Node {
        Node::Constant(Constant::Int(0))
    }
}

impl std::ops::Mul<Addition> for Addition {
    type Output = Node;

    fn mul(self, rhs: Addition) -> (r: Node)
        ensures
            r@ == product(view_node(Node::Addition(self)), view_node(Node::Addition(rhs)), false),
    {
        Node::Addition(self) * Node::Addition(rhs)
    }
}

impl MulSpecImpl<Addition> for Addition {
    open spec fn obeys_mul_spec() -> bool {
        false
    }

    open spec fn mul_req(self, rhs: Addition) -> bool {
        true
    }

    open spec fn mul_spec(self, rhs: Addition) -> Node {
        Node::Constant(Constant::Int(0))
    }
}

impl std::ops::Mul<Power> for Addition {
    type Output = Node;

    fn mul(self, rhs: Power) -> (r: Node)
        ensures
            r@ == product(view_node(Node::Addition(self)), view_node(Node::Power(rhs)), false),
    {
        Node::Addition(self) * Node::Power(rhs)
    }
}

impl MulSpecImpl<Power> for Addition {
    open spec fn obeys_mul_spec() -> bool {
        false
    }

    open spec fn mul_req(self, rhs: Power) -> bool {
        true
    }

    open spec fn mul_spec(self, rhs: Power) -> Node {
        Node::Constant(Constant::Int(0))
    }
}

impl std::ops::Mul<Variable> for Addition {
    type Output = Node;

    fn mul(self, rhs: Variable) -> (r: Node)
        ensures
            r@ == product(view_node(Node::Addition(self)), view_node(Node::Variable(rhs)), false),
    {
        Node::Addition(self) * Node::Variable(rhs)
    }
}

impl MulSpecImpl<Variable> for Addition {
    open spec fn obeys_mul_spec() -> bool {
        false
    }

    open spec fn mul_req(self, rhs: Variable) -> bool {
        true
    }

    open spec fn mul_spec(self, rhs: Variable) -> Node {
        Node::Constant(Constant::Int(0))
    }
}

impl std::ops::Mul<Constant> for Addition {
    type Output = Node;

    fn mul(self, rhs: Constant) -> (r: Node)
        ensures
            r@ == product(view_node(Node::Addition(self)), view_node(Node::Constant(rhs)), false),
    {
        Node::Addition(self) * Node::Constant(rhs)
    }
}

impl MulSpecImpl<Constant> for Addition {
    open spec fn obeys_mul_spec() -> bool {
        false
    }

    open spec fn mul_req(self, rhs: Constant) -> bool {
        true
    }

    open spec fn mul_spec(self, rhs: Constant) -> Node {
        Node::Constant(Constant::Int(0))
    }
}

impl std::ops::Mul<Negation> for Addition {
    type Output = Node;

    fn mul(self, rhs: Negation) -> (r: Node)
        ensures
            r@ == product(view_node(Node::Addition(self)), view_node(Node::Negation(rhs)), false),
    {
        Node::Addition(self) * Node::Negation(rhs)
    }
}

impl MulSpecImpl<Negation> for Addition {
    open spec fn obeys_mul_spec() -> bool {
        false
    }

    open spec fn mul_req(self, rhs: Negation) -> bool {
        true
    }

    open spec fn mul_spec(self, rhs: Negation) -> Node {
        Node::Constant(Constant::Int(0))
    }
}

impl std::ops::Mul<Log> for Addition {
    type Output = Node;

    fn mul(self, rhs: Log) -> (r: Node)
        ensures
            r@ == product(view_node(Node::Addition(self)), view_node(Node::Log(rhs)), false),
    {
        Node::Addition(self) * Node::Log(rhs)
    }
}

impl MulSpecImpl<Log> for Addition {
    open spec fn obeys_mul_spec() -> bool {
        false
    }

    open spec fn mul_req(self, rhs: Log) -> bool {
        true
    }

    open spec fn mul_spec(self, rhs: Log) -> Node {
        Node::Constant(Constant::Int(0))
    }
}

impl std::ops::Mul<Node> for Addition {
    type Output = Node;

    fn mul(self, rhs: Node) -> (r: Node)
        ensures
            r@ == product(view_node(Node::Addition(self)), rhs@, false),
    {
        Node::Addition(self) * rhs
    }
}

impl MulSpecImpl<Node> for Addition {
    open spec fn obeys_mul_spec() -> bool {
        false
    }

    open spec fn mul_req(self, rhs: Node) -> bool {
        true
    }

    open spec fn mul_spec(self, rhs: Node) -> Node {
        Node::Constant(Constant::Int(0))
    }
}

impl std::ops::Mul<Addition> for Power {
    type Output = Node;

    fn mul(self, rhs: Addition) -> (r: Node)
        ensures
            r@ == product(view_node(Node::Power(self)), view_node(Node::Addition(rhs)), false),
    {
        Node::Power(self) * Node::Addition(rhs)
    }
}

impl MulSpecImpl<Addition> for Power {
    open spec fn obeys_mul_spec() -> bool {
        false
    }

    open spec fn mul_req(self, rhs: Addition) -> bool {
        true
    }

    open spec fn mul_spec(self, rhs: Addition) -> Node {
        Node::Constant(Constant::Int(0))
    }
}

impl std::ops::Mul<Power> for Power {
    type Output = Node;

    fn mul(self, rhs: Power) -> (r: Node)
        ensures
            r@ == product(view_node(Node::Power(self)), view_node(Node::Power(rhs)), false),
    {
        Node::Power(self) * Node::Power(rhs)
    }
}

impl MulSpecImpl<Power> for Power {
    open spec fn obeys_mul_spec() -> bool {
        false
    }

    open spec fn mul_req(self, rhs: Power) -> bool {
        true
    }

    open spec fn mul_spec(self, rhs: Power) -> Node {
        Node::Constant(Constant::Int(0))
    }
}

impl std::ops::Mul<Variable> for Power {
    type Output = Node;

    fn mul(self, rhs: Variable) -> (r: Node)
        ensures
            r@ == product(view_node(Node::Power(self)), view_node(Node::Variable(rhs)), false),
    {
        Node::Power(self) * Node::Variable(rhs)
    }
}

impl MulSpecImpl<Variable> for Power {
    open spec fn obeys_mul_spec() -> bool {
        false
    }

    open spec fn mul_req(self, rhs: Variable) -> bool {
        true
    }

    open spec fn mul_spec(self, rhs: Variable) -> Node {
        Node::Constant(Constant::Int(0))
    }
}

impl std::ops::Mul<Constant> for Power {
    type Output = Node;

    fn mul(self, rhs: Constant) -> (r: Node)
        ensures
            r@ == product(view_node(Node::Power(self)), view_node(Node::Constant(rhs)), false),
    {
        Node::Power(self) * Node::Constant(rhs)
    }
}

impl MulSpecImpl<Constant> for Power {
    open spec fn obeys_mul_spec() -> bool {
        false
    }

    open spec fn mul_req(self, rhs: Constant) -> bool {
        true
    }

    open spec fn mul_spec(self, rhs: Constant) -> Node {
        Node::Constant(Constant::Int(0))
    }
}

impl std::ops::Mul<Negation> for Power {
    type Output = Node;

    fn mul(self, rhs: Negation) -> (r: Node)
        ensures
            r@ == product(view_node(Node::Power(self)), view_node(Node::Negation(rhs)), false),
    {
        Node::Power(self) * Node::Negation(rhs)
    }
}

impl MulSpecImpl<Negation> for Power {
    open spec fn obeys_mul_spec() -> bool {
        false
    }

    open spec fn mul_req(self, rhs: Negation) -> bool {
        true
    }

    open spec fn mul_spec(self, rhs: Negation) -> Node {
        Node::Constant(Constant::Int(0))
    }
}

impl std::ops::Mul<Log> for Power {
    type Output = Node;

    fn mul(self, rhs: Log) -> (r: Node)
        ensures
            r@ == product(view_node(Node::Power(self)), view_node(Node::Log(rhs)), false),
    {
        Node::Power(self) * Node::Log(rhs)
    }
}

impl MulSpecImpl<Log> for Power {
    open spec fn obeys_mul_spec() -> bool {
        false
    }

    open spec fn mul_req(self, rhs: Log) -> bool {
        true
    }

    open spec fn mul_spec(self, rhs: Log) -> Node {
        Node::Constant(Constant::Int(0))
    }
}

impl std::ops::Mul<Node> for Power {
    type Output = Node;

    fn mul(self, rhs: Node) -> (r: Node)
        ensures
            r@ == product(view_node(Node::Power(self)), rhs@, false),
    {
        Node::Power(self) * rhs
    }
}

impl MulSpecImpl<Node> for Power {
    open spec fn obeys_mul_spec() -> bool {
        false
    }

    open spec fn mul_req(self, rhs: Node) -> bool {
        true
    }

    open spec fn mul_spec(self, rhs: Node) -> Node {
        Node::Constant(Constant::Int(0))
    }
}

impl std::ops::Mul<Addition> for Variable {
    type Output = Node;

    fn mul(self, rhs: Addition) -> (r: Node)
        ensures
            r@ == product(view_node(Node::Variable(self)), view_node(Node::Addition(rhs)), false),
    {
        Node::Variable(self) * Node::Addition(rhs)
    }
}

impl MulSpecImpl<Addition> for Variable {
    open spec fn obeys_mul_spec() -> bool {
        false
    }

    open spec fn mul_req(self, rhs: Addition) -> bool {
        true
    }

    open spec fn mul_spec(self, rhs: Addition) -> Node {
        Node::Constant(Constant::Int(0))
    }
}

impl std::ops::Mul<Power> for Variable {
    type Output = Node;

    fn mul(self, rhs: Power) -> (r: Node)
        ensures
            r@ == product(view_node(Node::Variable(self)), view_node(Node::Power(rhs)), false),
    {
        Node::Variable(self) * Node::Power(rhs)
    }
}

impl MulSpecImpl<Power> for Variable {
    open spec fn obeys_mul_spec() -> bool {
        false
    }

    open spec fn mul_req(self, rhs: Power) -> bool {
        true
    }

    open spec fn mul_spec(self, rhs: Power) -> Node {
        Node::Constant(Constant::Int(0))
    }
}

impl std::ops::Mul<Variable> for Variable {
    type Output = Node;

    fn mul(self, rhs: Variable) -> (r: Node)
        ensures
            r@ == product(view_node(Node::Variable(self)), view_node(Node::Variable(rhs)), false),
    {
        Node::Variable(self) * Node::Variable(rhs)
    }
}

impl MulSpecImpl<Variable> for Variable {
    open spec fn obeys_mul_spec() -> bool {
        false
    }

    open spec fn mul_req(self, rhs: Variable) -> bool {
        true
    }

    open spec fn mul_spec(self, rhs: Variable) -> Node {
        Node::Constant(Constant::Int(0))
    }
}

impl std::ops::Mul<Constant> for Variable {
    type Output = Node;

    fn mul(self, rhs: Constant) -> (r: Node)
        ensures
            r@ == product(view_node(Node::Variable(self)), view_node(Node::Constant(rhs)), false),
    {
        Node::Variable(self) * Node::Constant(rhs)
    }
}

impl MulSpecImpl<Constant> for Variable {
    open spec fn obeys_mul_spec() -> bool {
        false
    }

    open spec fn mul_req(self, rhs: Constant) -> bool {
        true
    }

    open spec fn mul_spec(self, rhs: Constant) -> Node {
        Node::Constant(Constant::Int(0))
    }
}

impl std::ops::Mul<Negation> for Variable {
    type Output = Node;

    fn mul(self, rhs: Negation) -> (r: Node)
        ensures
            r@ == product(view_node(Node::Variable(self)), view_node(Node::Negation(rhs)), false),
    {
        Node::Variable(self) * Node::Negation(rhs)
    }
}

impl MulSpecImpl<Negation> for Variable {
    open spec fn obeys_mul_spec() -> bool {
        false
    }

    open spec fn mul_req(self, rhs: Negation) -> bool {
        true
    }

    open spec fn mul_spec(self, rhs: Negation) -> Node {
        Node::Constant(Constant::Int(0))
    }
}

impl std::ops::Mul<Log> for Variable {
    type Output = Node;

    fn mul(self, rhs: Log) -> (r: Node)
        ensures
            r@ == product(view_node(Node::Variable(self)), view_node(Node::Log(rhs)), false),
    {
        Node::Variable(self) * Node::Log(rhs)
    }
}

impl MulSpecImpl<Log> for Variable {
    open spec fn obeys_mul_spec() -> bool {
        false
    }

    open spec fn mul_req(self, rhs: Log) -> bool {
        true
    }

    open spec fn mul_spec(self, rhs: Log) -> Node {
        Node::Constant(Constant::Int(0))
    }
}

impl std::ops::Mul<Node> for Variable {
    type Output = Node;

    fn mul(self, rhs: Node) -> (r: Node)
        ensures
            r@ == product(view_node(Node::Variable(self)), rhs@, false),
    {
        Node::Variable(self) * rhs
    }
}

impl MulSpecImpl<Node> for Variable {
    open spec fn obeys_mul_spec() -> bool {
        false
    }

    open spec fn mul_req(self, rhs: Node) -> bool {
        true
    }

    open spec fn mul_spec(self, rhs: Node) -> Node {
        Node::Constant(Constant::Int(0))
    }
}

impl std::ops::Mul<Addition> for Constant {
    type Output = Node;

    fn mul(self, rhs: Addition) -> (r: Node)
        ensures
            r@ == product(view_node(Node::Constant(self)), view_node(Node::Addition(rhs)), false),
    {
        Node::Constant(self) * Node::Addition(rhs)
    }
}

impl MulSpecImpl<Addition> for Constant {
    open spec fn obeys_mul_spec() -> bool {
        false
    }

    open spec fn mul_req(self, rhs: Addition) -> bool {
        true
    }

    open spec fn mul_spec(self, rhs: Addition) -> Node {
        Node::Constant(Constant::Int(0))
    }
}

impl std::ops::Mul<Power> for Constant {
    type Output = Node;

    fn mul(self, rhs: Power) -> (r: Node)
        ensures
            r@ == product(view_node(Node::Constant(self)), view_node(Node::Power(rhs)), false),
    {
        Node::Constant(self) * Node::Power(rhs)
    }
}

impl MulSpecImpl<Power> for Constant {
    open spec fn obeys_mul_spec() -> bool {
        false
    }

    open spec fn mul_req(self, rhs: Power) -> bool {
        true
    }

    open spec fn mul_spec(self, rhs: Power) -> Node {
        Node::Constant(Constant::Int(0))
    }
}

impl std::ops::Mul<Variable> for Constant {
    type Output = Node;

    fn mul(self, rhs: Variable) -> (r: Node)
        ensures
            r@ == product(view_node(Node::Constant(self)), view_node(Node::Variable(rhs)), false),
    {
        Node::Constant(self) * Node::Variable(rhs)
    }
}

impl MulSpecImpl<Variable> for Constant {
    open spec fn obeys_mul_spec() -> bool {
        false
    }

    open spec fn mul_req(self, rhs: Variable) -> bool {
        true
    }

    open spec fn mul_spec(self, rhs: Variable) -> Node {
        Node::Constant(Constant::Int(0))
    }
}

impl std::ops::Mul<Constant> for Constant {
    type Output = Node;

    fn mul(self, rhs: Constant) -> (r: Node)
        ensures
            r@ == product(view_node(Node::Constant(self)), view_node(Node::Constant(rhs)), false),
    {
        Node::Constant(self) * Node::Constant(rhs)
    }
}

impl MulSpecImpl<Constant> for Constant {
    open spec fn obeys_mul_spec() -> bool {
        false
    }

    open spec fn mul_req(self, rhs: Constant) -> bool {
        true
    }

    open spec fn mul_spec(self, rhs: Constant) -> Node {
        Node::Constant(Constant::Int(0))
    }
}

impl std::ops::Mul<Negation> for Constant {
    type Output = Node;

    fn mul(self, rhs: Negation) -> (r: Node)
        ensures
            r@ == product(view_node(Node::Constant(self)), view_node(Node::Negation(rhs)), false),
    {
        Node::Constant(self) * Node::Negation(rhs)
    }
}

impl MulSpecImpl<Negation> for Constant {
    open spec fn obeys_mul_spec() -> bool {
        false
    }

    open spec fn mul_req(self, rhs: Negation) -> bool {
        true
    }

    open spec fn mul_spec(self, rhs: Negation) -> Node {
        Node::Constant(Constant::Int(0))
    }
}

impl std::ops::Mul<Log> for Constant {
    type Output = Node;

    fn mul(self, rhs: Log) -> (r: Node)
        ensures
            r@ == product(view_node(Node::Constant(self)), view_node(Node::Log(rhs)), false),
    {
        Node::Constant(self) * Node::Log(rhs)
    }
}

impl MulSpecImpl<Log> for Constant {
    open spec fn obeys_mul_spec() -> bool {
        false
    }

    open spec fn mul_req(self, rhs: Log) -> bool {
        true
    }

    open spec fn mul_spec(self, rhs: Log) -> Node {
        Node::Constant(Constant::Int(0))
    }
}

impl std::ops::Mul<Node> for Constant {
    type Output = Node;

    fn mul(self, rhs: Node) -> (r: Node)
        ensures
            r@ == product(view_node(Node::Constant(self)), rhs@, false),
    {
        Node::Constant(self) * rhs
    }
}

impl MulSpecImpl<Node> for Constant {
    open spec fn obeys_mul_spec() -> bool {
        false
    }

    open spec fn mul_req(self, rhs: Node) -> bool {
        true
    }

    open spec fn mul_spec(self, rhs: Node) -> Node {
        Node::Constant(Constant::Int(0))
    }
}

impl std::ops::Mul<Addition> for Negation {
    type Output = Node;

    fn mul(self, rhs: Addition) -> (r: Node)
        ensures
            r@ == product(view_node(Node::Negation(self)), view_node(Node::Addition(rhs)), false),
    {
        Node::Negation(self) * Node::Addition(rhs)
    }
}

impl MulSpecImpl<Addition> for Negation {
    open spec fn obeys_mul_spec() -> bool {
        false
    }

    open spec fn mul_req(self, rhs: Addition) -> bool {
        true
    }

    open spec fn mul_spec(self, rhs: Addition) -> Node {
        Node::Constant(Constant::Int(0))
    }
}

impl std::ops::Mul<Power> for Negation {
    type Output = Node;

    fn mul(self, rhs: Power) -> (r: Node)
        ensures
            r@ == product(view_node(Node::Negation(self)), view_node(Node::Power(rhs)), false),
    {
        Node::Negation(self) * Node::Power(rhs)
    }
}

impl MulSpecImpl<Power> for Negation {
    open spec fn obeys_mul_spec() -> bool {
        false
    }

    open spec fn mul_req(self, rhs: Power) -> bool {
        true
    }

    open spec fn mul_spec(self, rhs: Power) -> Node {
        Node::Constant(Constant::Int(0))
    }
}

impl std::ops::Mul<Variable> for Negation {
    type Output = Node;

    fn mul(self, rhs: Variable) -> (r: Node)
        ensures
            r@ == product(view_node(Node::Negation(self)), view_node(Node::Variable(rhs)), false),
    {
        Node::Negation(self) * Node::Variable(rhs)
    }
}

impl MulSpecImpl<Variable> for Negation {
    open spec fn obeys_mul_spec() -> bool {
        false
    }

    open spec fn mul_req(self, rhs: Variable) -> bool {
        true
    }

    open spec fn mul_spec(self, rhs: Variable) -> Node {
        Node::Constant(Constant::Int(0))
    }
}

impl std::ops::Mul<Constant> for Negation {
    type Output = Node;

    fn mul(self, rhs: Constant) -> (r: Node)
        ensures
            r@ == product(view_node(Node::Negation(self)), view_node(Node::Constant(rhs)), false),
    {
        Node::Negation(self) * Node::Constant(rhs)
    }
}

impl MulSpecImpl<Constant> for Negation {
    open spec fn obeys_mul_spec() -> bool {
        false
    }

    open spec fn mul_req(self, rhs: Constant) -> bool {
        true
    }

    open spec fn mul_spec(self, rhs: Constant) -> Node {
        Node::Constant(Constant::Int(0))
    }
}

impl std::ops::Mul<Negation> for Negation {
    type Output = Node;

    fn mul(self, rhs: Negation) -> (r: Node)
        ensures
            r@ == product(view_node(Node::Negation(self)), view_node(Node::Negation(rhs)), false),
    {
        Node::Negation(self) * Node::Negation(rhs)
    }
}

impl MulSpecImpl<Negation> for Negation {
    open spec fn obeys_mul_spec() -> bool {
        false
    }

    open spec fn mul_req(self, rhs: Negation) -> bool {
        true
    }

    open spec fn mul_spec(self, rhs: Negation) -> Node {
        Node::Constant(Constant::Int(0))
    }
}

impl std::ops::Mul<Log> for Negation {
    type Output = Node;

    fn mul(self, rhs: Log) -> (r: Node)
        ensures
            r@ == product(view_node(Node::Negation(self)), view_node(Node::Log(rhs)), false),
    {
        Node::Negation(self) * Node::Log(rhs)
    }
}

impl MulSpecImpl<Log> for Negation {
    open spec fn obeys_mul_spec() -> bool {
        false
    }

    open spec fn mul_req(self, rhs: Log) -> bool {
        true
    }

    open spec fn mul_spec(self, rhs: Log) -> Node {
        Node::Constant(Constant::Int(0))
    }
}

impl std::ops::Mul<Node> for Negation {
    type Output = Node;

    fn mul(self, rhs: Node) -> (r: Node)
        ensures
            r@ == product(view_node(Node::Negation(self)), rhs@, false),
    {
        Node::Negation(self) * rhs
    }
}

impl MulSpecImpl<Node> for Negation {
    open spec fn obeys_mul_spec() -> bool {
        false
    }

    open spec fn mul_req(self, rhs: Node) -> bool {
        true
    }

    open spec fn mul_spec(self, rhs: Node) -> Node {
        Node::Constant(Constant::Int(0))
    }
}

impl std::ops::Mul<Addition> for Log {
    type Output = Node;

    fn mul(self, rhs: Addition) -> (r: Node)
        ensures
            r@ == product(view_node(Node::Log(self)), view_node(Node::Addition(rhs)), false),
    {
        Node::Log(self) * Node::Addition(rhs)
    }
}

impl MulSpecImpl<Addition> for Log {
    open spec fn obeys_mul_spec() -> bool {
        false
    }

    open spec fn mul_req(self, rhs: Addition) -> bool {
        true
    }

    open spec fn mul_spec(self, rhs: Addition) -> Node {
        Node::Constant(Constant::Int(0))
    }
}

impl std::ops::Mul<Power> for Log {
    type Output = Node;

    fn mul(self, rhs: Power) -> (r: Node)
        ensures
            r@ == product(view_node(Node::Log(self)), view_node(Node::Power(rhs)), false),
    {
        Node::Log(self) * Node::Power(rhs)
    }
}

impl MulSpecImpl<Power> for Log {
    open spec fn obeys_mul_spec() -> bool {
        false
    }

    open spec fn mul_req(self, rhs: Power) -> bool {
        true
    }

    open spec fn mul_spec(self, rhs: Power) -> Node {
        Node::Constant(Constant::Int(0))
    }
}

impl std::ops::Mul<Variable> for Log {
    type Output = Node;

    fn mul(self, rhs: Variable) -> (r: Node)
        ensures
            r@ == product(view_node(Node::Log(self)), view_node(Node::Variable(rhs)), false),
    {
        Node::Log(self) * Node::Variable(rhs)
    }
}

impl MulSpecImpl<Variable> for Log {
    open spec fn obeys_mul_spec() -> bool {
        false
    }

    open spec fn mul_req(self, rhs: Variable) -> bool {
        true
    }

    open spec fn mul_spec(self, rhs: Variable) -> Node {
        Node::Constant(Constant::Int(0))
    }
}

impl std::ops::Mul<Constant> for Log {
    type Output = Node;

    fn mul(self, rhs: Constant) -> (r: Node)
        ensures
            r@ == product(view_node(Node::Log(self)), view_node(Node::Constant(rhs)), false),
    {
        Node::Log(self) * Node::Constant(rhs)
    }
}

impl MulSpecImpl<Constant> for Log {
    open spec fn obeys_mul_spec() -> bool {
        false
    }

    open spec fn mul_req(self, rhs: Constant) -> bool {
        true
    }

    open spec fn mul_spec(self, rhs: Constant) -> Node {
        Node::Constant(Constant::Int(0))
    }
}

impl std::ops::Mul<Negation> for Log {
    type Output = Node;

    fn mul(self, rhs: Negation) -> (r: Node)
        ensures
            r@ == product(view_node(Node::Log(self)), view_node(Node::Negation(rhs)), false),
    {
        Node::Log(self) * Node::Negation(rhs)
    }
}

impl MulSpecImpl<Negation> for Log {
    open spec fn obeys_mul_spec() -> bool {
        false
    }

    open spec fn mul_req(self, rhs: Negation) -> bool {
        true
    }

    open spec fn mul_spec(self, rhs: Negation) -> Node {
        Node::Constant(Constant::Int(0))
    }
}

impl std::ops::Mul<Log> for Log {
    type Output = Node;

    fn mul(self, rhs: Log) -> (r: Node)
        ensures
            r@ == product(view_node(Node::Log(self)), view_node(Node::Log(rhs)), false),
    {
        Node::Log(self) * Node::Log(rhs)
    }
}

impl MulSpecImpl<Log> for Log {
    open spec fn obeys_mul_spec() -> bool {
        false
    }

    open spec fn mul_req(self, rhs: Log) -> bool {
        true
    }

    open spec fn mul_spec(self, rhs: Log) -> Node {
        Node::Constant(Constant::Int(0))
    }
}

impl std::ops::Mul<Node> for Log {
    type Output = Node;

    fn mul(self, rhs: Node) -> (r: Node)
        ensures
            r@ == product(view_node(Node::Log(self)), rhs@, false),
    {
        Node::Log(self) * rhs
    }
}

impl MulSpecImpl<Node> for Log {
    open spec fn obeys_mul_spec() -> bool {
        false
    }

    open spec fn mul_req(self, rhs: Node) -> bool {
        true
    }

    open spec fn mul_spec(self, rhs: Node) -> Node {
        Node::Constant(Constant::Int(0))
    }
}

impl std::ops::Mul<Addition> for Node {
    type Output = Node;

    fn mul(self, rhs: Addition) -> (r: Node)
        ensures
            r@ == product(self@, view_node(Node::Addition(rhs)), false),
    {
        self * Node::Addition(rhs)
    }
}

impl MulSpecImpl<Addition> for Node {
    open spec fn obeys_mul_spec() -> bool {
        false
    }

    open spec fn mul_req(self, rhs: Addition) -> bool {
        true
    }

    open spec fn mul_spec(self, rhs: Addition) -> Node {
        Node::Constant(Constant::Int(0))
    }
}

impl std::ops::Mul<Power> for Node {
    type Output = Node;

    fn mul(self, rhs: Power) -> (r: Node)
        ensures
            r@ == product(self@, view_node(Node::Power(rhs)), false),
    {
        self * Node::Power(rhs)
    }
}

impl MulSpecImpl<Power> for Node {
    open spec fn obeys_mul_spec() -> bool {
        false
    }

    open spec fn mul_req(self, rhs: Power) -> bool {
        true
    }

    open spec fn mul_spec(self, rhs: Power) -> Node {
        Node::Constant(Constant::Int(0))
    }
}

impl std::ops::Mul<Variable> for Node {
    type Output = Node;

    fn mul(self, rhs: Variable) -> (r: Node)
        ensures
            r@ == product(self@, view_node(Node::Variable(rhs)), false),
    {
        self * Node::Variable(rhs)
    }
}

impl MulSpecImpl<Variable> for Node {
    open spec fn obeys_mul_spec() -> bool {
        false
    }

    open spec fn mul_req(self, rhs: Variable) -> bool {
        true
    }

    open spec fn mul_spec(self, rhs: Variable) -> Node {
        Node::Constant(Constant::Int(0))
    }
}

impl std::ops::Mul<Constant> for Node {
    type Output = Node;

    fn mul(self, rhs: Constant) -> (r: Node)
        ensures
            r@ == product(self@, view_node(Node::Constant(rhs)), false),
    {
        self * Node::Constant(rhs)
    }
}

impl MulSpecImpl<Constant> for Node {
    open spec fn obeys_mul_spec() -> bool {
        false
    }

    open spec fn mul_req(self, rhs: Constant) -> bool {
        true
    }

    open spec fn mul_spec(self, rhs: Constant) -> Node {
        Node::Constant(Constant::Int(0))
    }
}

impl std::ops::Mul<Negation> for Node {
    type Output = Node;

    fn mul(self, rhs: Negation) -> (r: Node)
        ensures
            r@ == product(self@, view_node(Node::Negation(rhs)), false),
    {
        self * Node::Negation(rhs)
    }
}

impl MulSpecImpl<Negation> for Node {
    open spec fn obeys_mul_spec() -> bool {
        false
    }

    open spec fn mul_req(self, rhs: Negation) -> bool {
        true
    }

    open spec fn mul_spec(self, rhs: Negation) -> Node {
        Node::Constant(Constant::Int(0))
    }
}

impl std::ops::Mul<Log> for Node {
    type Output = Node;

    fn mul(self, rhs: Log) -> (r: Node)
        ensures
            r@ == product(self@, view_node(Node::Log(rhs)), false),
    {
        self * Node::Log(rhs)
    }
}

impl MulSpecImpl<Log> for Node {
    open spec fn obeys_mul_spec() -> bool {
        false
    }

    open spec fn mul_req(self, rhs: Log) -> bool {
        true
    }

    open spec fn mul_spec(self, rhs: Log) -> Node {
        Node::Constant(Constant::Int(0))
    }
}

impl std::ops::Mul<i64> for Addition {
    type Output = Node;

    fn mul(self, rhs: i64) -> (r: Node)
        ensures
            r@ == product(view_node(Node::Addition(self)), int_const(rhs), false),
    {
        Node::Addition(self) * Node::Constant(Constant::Int(rhs))
    }
}

impl MulSpecImpl<i64> for Addition {
    open spec fn obeys_mul_spec() -> bool {
        false
    }

    open spec fn mul_req(self, rhs: i64) -> bool {
        true
    }

    open spec fn mul_spec(self, rhs: i64) -> Node {
        Node::Constant(Constant::Int(0))
    }
}

impl std::ops::Mul<i64> for Power {
    type Output = Node;

    fn mul(self, rhs: i64) -> (r: Node)
        ensures
            r@ == product(view_node(Node::Power(self)), int_const(rhs), false),
    {
        Node::Power(self) * Node::Constant(Constant::Int(rhs))
    }
}

impl MulSpecImpl<i64> for Power {
    open spec fn obeys_mul_spec() -> bool {
        false
    }

    open spec fn mul_req(self, rhs: i64) -> bool {
        true
    }

    open spec fn mul_spec(self, rhs: i64) -> Node {
        Node::Constant(Constant::Int(0))
    }
}

impl std::ops::Mul<i64> for Variable {
    type Output = Node;

    fn mul(self, rhs: i64) -> (r: Node)
        ensures
            r@ == product(view_node(Node::Variable(self)), int_const(rhs), false),
    {
        Node::Variable(self) * Node::Constant(Constant::Int(rhs))
    }
}

impl MulSpecImpl<i64> for Variable {
    open spec fn obeys_mul_spec() -> bool {
        false
    }

    open spec fn mul_req(self, rhs: i64) -> bool {
        true
    }

    open spec fn mul_spec(self, rhs: i64) -> Node {
        Node::Constant(Constant::Int(0))
    }
}

impl std::ops::Mul<i64> for Constant {
    type Output = Node;

    fn mul(self, rhs: i64) -> (r: Node)
        ensures
            r@ == product(view_node(Node::Constant(self)), int_const(rhs), false),
    {
        Node::Constant(self) * Node::Constant(Constant::Int(rhs))
    }
}

impl MulSpecImpl<i64> for Constant {
    open spec fn obeys_mul_spec() -> bool {
        false
    }

    open spec fn mul_req(self, rhs: i64) -> bool {
        true
    }

    open spec fn mul_spec(self, rhs: i64) -> Node {
        Node::Constant(Constant::Int(0))
    }
}

impl std::ops::Mul<i64> for Negation {
    type Output = Node;

    fn mul(self, rhs: i64) -> (r: Node)
        ensures
            r@ == product(view_node(Node::Negation(self)), int_const(rhs), false),
    {
        Node::Negation(self) * Node::Constant(Constant::Int(rhs))
    }
}

impl MulSpecImpl<i64> for Negation {
    open spec fn obeys_mul_spec() -> bool {
        false
    }

    open spec fn mul_req(self, rhs: i64) -> bool {
        true
    }

    open spec fn mul_spec(self, rhs: i64) -> Node {
        Node::Constant(Constant::Int(0))
    }
}

impl std::ops::Mul<i64> for Log {
    type Output = Node;

    fn mul(self, rhs: i64) -> (r: Node)
        ensures
            r@ == product(view_node(Node::Log(self)), int_const(rhs), false),
    {
        Node::Log(self) * Node::Constant(Constant::Int(rhs))
    }
}

impl MulSpecImpl<i64> for Log {
    open spec fn obeys_mul_spec() -> bool {
        false
    }

    open spec fn mul_req(self, rhs: i64) -> bool {
        true
    }

    open spec fn mul_spec(self, rhs: i64) -> Node {
        Node::Constant(Constant::Int(0))
    }
}

impl std::ops::Div<Addition> for i64 {
    type Output = Node;

    fn div(self, rhs: Addition) -> (r: Node)
        ensures
            r@ == product(int_const(self), view_node(Node::Addition(rhs)), true),
    {
        Node::Constant(Constant::Int(self)) / Node::Addition(rhs)
    }
}

impl DivSpecImpl<Addition> for i64 {
    open spec fn obeys_div_spec() -> bool {
        false
    }

    open spec fn div_req(self, rhs: Addition) -> bool {
        true
    }

    open spec fn div_spec(self, rhs: Addition) -> Node {
        Node::Constant(Constant::Int(0))
    }
}

impl std::ops::Div<Power> for i64 {
    type Output = Node;

    fn div(self, rhs: Power) -> (r: Node)
        ensures
            r@ == product(int_const(self), view_node(Node::Power(rhs)), true),
    {
        Node::Constant(Constant::Int(self)) / Node::Power(rhs)
    }
}

impl DivSpecImpl<Power> for i64 {
    open spec fn obeys_div_spec() -> bool {
        false
    }

    open spec fn div_req(self, rhs: Power) -> bool {
        true
    }

    open spec fn div_spec(self, rhs: Power) -> Node {
        Node::Constant(Constant::Int(0))
    }
}

impl std::ops::Div<Variable> for i64 {
    type Output = Node;

    fn div(self, rhs: Variable) -> (r: Node)
        ensures
            r@ == product(int_const(self), view_node(Node::Variable(rhs)), true),
    {
        Node::Constant(Constant::Int(self)) / Node::Variable(rhs)
    }
}

impl DivSpecImpl<Variable> for i64 {
    open spec fn obeys_div_spec() -> bool {
        false
    }

    open spec fn div_req(self, rhs: Variable) -> bool {
        true
    }

    open spec fn div_spec(self, rhs: Variable) -> Node {
        Node::Constant(Constant::Int(0))
    }
}

impl std::ops::Div<Constant> for i64 {
    type Output = Node;

    fn div(self, rhs: Constant) -> (r: Node)
        ensures
            r@ == product(int_const(self), view_node(Node::Constant(rhs)), true),
    {
        Node::Constant(Constant::Int(self)) / Node::Constant(rhs)
    }
}

impl DivSpecImpl<Constant> for i64 {
    open spec fn obeys_div_spec() -> bool {
        false
    }

    open spec fn div_req(self, rhs: Constant) -> bool {
        true
    }

    open spec fn div_spec(self, rhs: Constant) -> Node {
        Node::Constant(Constant::Int(0))
    }
}

impl std::ops::Div<Negation> for i64 {
    type Output = Node;

    fn div(self, rhs: Negation) -> (r: Node)
        ensures
            r@ == product(int_const(self), view_node(Node::Negation(rhs)), true),
    {
        Node::Constant(Constant::Int(self)) / Node::Negation(rhs)
    }
}

impl DivSpecImpl<Negation> for i64 {
    open spec fn obeys_div_spec() -> bool {
        false
    }

    open spec fn div_req(self, rhs: Negation) -> bool {
        true
    }

    open spec fn div_spec(self, rhs: Negation) -> Node {
        Node::Constant(Constant::Int(0))
    }
}

impl std::ops::Div<Log> for i64 {
    type Output = Node;

    fn div(self, rhs: Log) -> (r: Node)
        ensures
            r@ == product(int_const(self), view_node(Node::Log(rhs)), true),
    {
        Node::Constant(Constant::Int(self)) / Node::Log(rhs)
    }
}

impl DivSpecImpl<Log> for i64 {
    open spec fn obeys_div_spec() -> bool {
        false
    }

    open spec fn div_req(self, rhs: Log) -> bool {
        true
    }

    open spec fn div_spec(self, rhs: Log) -> Node {
        Node::Constant(Constant::Int(0))
    }
}

impl std::ops::Div<Addition> for Addition {
    type Output = Node;

    fn div(self, rhs: Addition) -> (r: Node)
        ensures
            r@ == product(view_node(Node::Addition(self)), view_node(Node::Addition(rhs)), true),
    {
        Node::Addition(self) / Node::Addition(rhs)
    }
}

impl DivSpecImpl<Addition> for Addition {
    open spec fn obeys_div_spec() -> bool {
        false
    }

    open spec fn div_req(self, rhs: Addition) -> bool {
        true
    }

    open spec fn div_spec(self, rhs: Addition) -> Node {
        Node::Constant(Constant::Int(0))
    }
}

impl std::ops::Div<Power> for Addition {
    type Output = Node;

    fn div(self, rhs: Power) -> (r: Node)
        ensures
            r@ == product(view_node(Node::Addition(self)), view_node(Node::Power(rhs)), true),
    {
        Node::Addition(self) / Node::Power(rhs)
    }
}

impl DivSpecImpl<Power> for Addition {
    open spec fn obeys_div_spec() -> bool {
        false
    }

    open spec fn div_req(self, rhs: Power) -> bool {
        true
    }

    open spec fn div_spec(self, rhs: Power) -> Node {
        Node::Constant(Constant::Int(0))
    }
}

impl std::ops::Div<Variable> for Addition {
    type Output = Node;

    fn div(self, rhs: Variable) -> (r: Node)
        ensures
            r@ == product(view_node(Node::Addition(self)), view_node(Node::Variable(rhs)), true),
    {
        Node::Addition(self) / Node::Variable(rhs)
    }
}

impl DivSpecImpl<Variable> for Addition {
    open spec fn obeys_div_spec() -> bool {
        false
    }

    open spec fn div_req(self, rhs: Variable) -> bool {
        true
    }

    open spec fn div_spec(self, rhs: Variable) -> Node {
        Node::Constant(Constant::Int(0))
    }
}

impl std::ops::Div<Constant> for Addition {
    type Output = Node;

    fn div(self, rhs: Constant) -> (r: Node)
        ensures
            r@ == product(view_node(Node::Addition(self)), view_node(Node::Constant(rhs)), true),
    {
        Node::Addition(self) / Node::Constant(rhs)
    }
}

impl DivSpecImpl<Constant> for Addition {
    open spec fn obeys_div_spec() -> bool {
        false
    }

    open spec fn div_req(self, rhs: Constant) -> bool {
        true
    }

    open spec fn div_spec(self, rhs: Constant) -> Node {
        Node::Constant(Constant::Int(0))
    }
}

impl std::ops::Div<Negation> for Addition {
    type Output = Node;

    fn div(self, rhs: Negation) -> (r: Node)
        ensures
            r@ == product(view_node(Node::Addition(self)), view_node(Node::Negation(rhs)), true),
    {
        Node::Addition(self) / Node::Negation(rhs)
    }
}

impl DivSpecImpl<Negation> for Addition {
    open spec fn obeys_div_spec() -> bool {
        false
    }

    open spec fn div_req(self, rhs: Negation) -> bool {
        true
    }

    open spec fn div_spec(self, rhs: Negation) -> Node {
        Node::Constant(Constant::Int(0))
    }
}

impl std::ops::Div<Log> for Addition {
    type Output = Node;

    fn div(self, rhs: Log) -> (r: Node)
        ensures
            r@ == product(view_node(Node::Addition(self)), view_node(Node::Log(rhs)), true),
    {
        Node::Addition(self) / Node::Log(rhs)
    }
}

impl DivSpecImpl<Log> for Addition {
    open spec fn obeys_div_spec() -> bool {
        false
    }

    open spec fn div_req(self, rhs: Log) -> bool {
        true
    }

    open spec fn div_spec(self, rhs: Log) -> Node {
        Node::Constant(Constant::Int(0))
    }
}

impl std::ops::Div<Node> for Addition {
    type Output = Node;

    fn div(self, rhs: Node) -> (r: Node)
        ensures
            r@ == product(view_node(Node::Addition(self)), rhs@, true),
    {
        Node::Addition(self) / rhs
    }
}

impl DivSpecImpl<Node> for Addition {
    open spec fn obeys_div_spec() -> bool {
        false
    }

    open spec fn div_req(self, rhs: Node) -> bool {
        true
    }

    open spec fn div_spec(self, rhs: Node) -> Node {
        Node::Constant(Constant::Int(0))
    }
}

impl std::ops::Div<Addition> for Power {
    type Output = Node;

    fn div(self, rhs: Addition) -> (r: Node)
        ensures
            r@ == product(view_node(Node::Power(self)), view_node(Node::Addition(rhs)), true),
    {
        Node::Power(self) / Node::Addition(rhs)
    }
}

impl DivSpecImpl<Addition> for Power {
    open spec fn obeys_div_spec() -> bool {
        false
    }

    open spec fn div_req(self, rhs: Addition) -> bool {
        true
    }

    open spec fn div_spec(self, rhs: Addition) -> Node {
        Node::Constant(Constant::Int(0))
    }
}

impl std::ops::Div<Power> for Power {
    type Output = Node;

    fn div(self, rhs: Power) -> (r: Node)
        ensures
            r@ == product(view_node(Node::Power(self)), view_node(Node::Power(rhs)), true),
    {
        Node::Power(self) / Node::Power(rhs)
    }
}

impl DivSpecImpl<Power> for Power {
    open spec fn obeys_div_spec() -> bool {
        false
    }

    open spec fn div_req(self, rhs: Power) -> bool {
        true
    }

    open spec fn div_spec(self, rhs: Power) -> Node {
        Node::Constant(Constant::Int(0))
    }
}

impl std::ops::Div<Variable> for Power {
    type Output = Node;

    fn div(self, rhs: Variable) -> (r: Node)
        ensures
            r@ == product(view_node(Node::Power(self)), view_node(Node::Variable(rhs)), true),
    {
        Node::Power(self) / Node::Variable(rhs)
    }
}

impl DivSpecImpl<Variable> for Power {
    open spec fn obeys_div_spec() -> bool {
        false
    }

    open spec fn div_req(self, rhs: Variable) -> bool {
        true
    }

    open spec fn div_spec(self, rhs: Variable) -> Node {
        Node::Constant(Constant::Int(0))
    }
}

impl std::ops::Div<Constant> for Power {
    type Output = Node;

    fn div(self, rhs: Constant) -> (r: Node)
        ensures
            r@ == product(view_node(Node::Power(self)), view_node(Node::Constant(rhs)), true),
    {
        Node::Power(self) / Node::Constant(rhs)
    }
}

impl DivSpecImpl<Constant> for Power {
    open spec fn obeys_div_spec() -> bool {
        false
    }

    open spec fn div_req(self, rhs: Constant) -> bool {
        true
    }

    open spec fn div_spec(self, rhs: Constant) -> Node {
        Node::Constant(Constant::Int(0))
    }
}

impl std::ops::Div<Negation> for Power {
    type Output = Node;

    fn div(self, rhs: Negation) -> (r: Node)
        ensures
            r@ == product(view_node(Node::Power(self)), view_node(Node::Negation(rhs)), true),
    {
        Node::Power(self) / Node::Negation(rhs)
    }
}

impl DivSpecImpl<Negation> for Power {
    open spec fn obeys_div_spec() -> bool {
        false
    }

    open spec fn div_req(self, rhs: Negation) -> bool {
        true
    }

    open spec fn div_spec(self, rhs: Negation) -> Node {
        Node::Constant(Constant::Int(0))
    }
}

impl std::ops::Div<Log> for Power {
    type Output = Node;

    fn div(self, rhs: Log) -> (r: Node)
        ensures
            r@ == product(view_node(Node::Power(self)), view_node(Node::Log(rhs)), true),
    {
        Node::Power(self) / Node::Log(rhs)
    }
}

impl DivSpecImpl<Log> for Power {
    open spec fn obeys_div_spec() -> bool {
        false
    }

    open spec fn div_req(self, rhs: Log) -> bool {
        true
    }

    open spec fn div_spec(self, rhs: Log) -> Node {
        Node::Constant(Constant::Int(0))
    }
}

impl std::ops::Div<Node> for Power {
    type Output = Node;

    fn div(self, rhs: Node) -> (r: Node)
        ensures
            r@ == product(view_node(Node::Power(self)), rhs@, true),
    {
        Node::Power(self) / rhs
    }
}

impl DivSpecImpl<Node> for Power {
    open spec fn obeys_div_spec() -> bool {
        false
    }

    open spec fn div_req(self, rhs: Node) -> bool {
        true
    }

    open spec fn div_spec(self, rhs: Node) -> Node {
        Node::Constant(Constant::Int(0))
    }
}

impl std::ops::Div<Addition> for Variable {
    type Output = Node;

    fn div(self, rhs: Addition) -> (r: Node)
        ensures
            r@ == product(view_node(Node::Variable(self)), view_node(Node::Addition(rhs)), true),
    {
        Node::Variable(self) / Node::Addition(rhs)
    }
}

impl DivSpecImpl<Addition> for Variable {
    open spec fn obeys_div_spec() -> bool {
        false
    }

    open spec fn div_req(self, rhs: Addition) -> bool {
        true
    }

    open spec fn div_spec(self, rhs: Addition) -> Node {
        Node::Constant(Constant::Int(0))
    }
}

impl std::ops::Div<Power> for Variable {
    type Output = Node;

    fn div(self, rhs: Power) -> (r: Node)
        ensures
            r@ == product(view_node(Node::Variable(self)), view_node(Node::Power(rhs)), true),
    {
        Node::Variable(self) / Node::Power(rhs)
    }
}

impl DivSpecImpl<Power> for Variable {
    open spec fn obeys_div_spec() -> bool {
        false
    }

    open spec fn div_req(self, rhs: Power) -> bool {
        true
    }

    open spec fn div_spec(self, rhs: Power) -> Node {
        Node::Constant(Constant::Int(0))
    }
}

impl std::ops::Div<Variable> for Variable {
    type Output = Node;

    fn div(self, rhs: Variable) -> (r: Node)
        ensures
            r@ == product(view_node(Node::Variable(self)), view_node(Node::Variable(rhs)), true),
    {
        Node::Variable(self) / Node::Variable(rhs)
    }
}

impl DivSpecImpl<Variable> for Variable {
    open spec fn obeys_div_spec() -> bool {
        false
    }

    open spec fn div_req(self, rhs: Variable) -> bool {
        true
    }

    open spec fn div_spec(self, rhs: Variable) -> Node {
        Node::Constant(Constant::Int(0))
    }
}

impl std::ops::Div<Constant> for Variable {
    type Output = Node;

    fn div(self, rhs: Constant) -> (r: Node)
        ensures
            r@ == product(view_node(Node::Variable(self)), view_node(Node::Constant(rhs)), true),
    {
        Node::Variable(self) / Node::Constant(rhs)
    }
}

impl DivSpecImpl<Constant> for Variable {
    open spec fn obeys_div_spec() -> bool {
        false
    }

    open spec fn div_req(self, rhs: Constant) -> bool {
        true
    }

    open spec fn div_spec(self, rhs: Constant) -> Node {
        Node::Constant(Constant::Int(0))
    }
}

impl std::ops::Div<Negation> for Variable {
    type Output = Node;

    fn div(self, rhs: Negation) -> (r: Node)
        ensures
            r@ == product(view_node(Node::Variable(self)), view_node(Node::Negation(rhs)), true),
    {
        Node::Variable(self) / Node::Negation(rhs)
    }
}

impl DivSpecImpl<Negation> for Variable {
    open spec fn obeys_div_spec() -> bool {
        false
    }

    open spec fn div_req(self, rhs: Negation) -> bool {
        true
    }

    open spec fn div_spec(self, rhs: Negation) -> Node {
        Node::Constant(Constant::Int(0))
    }
}

impl std::ops::Div<Log> for Variable {
    type Output = Node;

    fn div(self, rhs: Log) -> (r: Node)
        ensures
            r@ == product(view_node(Node::Variable(self)), view_node(Node::Log(rhs)), true),
    {
        Node::Variable(self) / Node::Log(rhs)
    }
}

impl DivSpecImpl<Log> for Variable {
    open spec fn obeys_div_spec() -> bool {
        false
    }

    open spec fn div_req(self, rhs: Log) -> bool {
        true
    }

    open spec fn div_spec(self, rhs: Log) -> Node {
        Node::Constant(Constant::Int(0))
    }
}

impl std::ops::Div<Node> for Variable {
    type Output = Node;

    fn div(self, rhs: Node) -> (r: Node)
        ensures
            r@ == product(view_node(Node::Variable(self)), rhs@, true),
    {
        Node::Variable(self) / rhs
    }
}

impl DivSpecImpl<Node> for Variable {
    open spec fn obeys_div_spec() -> bool {
        false
    }

    open spec fn div_req(self, rhs: Node) -> bool {
        true
    }

    open spec fn div_spec(self, rhs: Node) -> Node {
        Node::Constant(Constant::Int(0))
    }
}

impl std::ops::Div<Addition> for Constant {
    type Output = Node;

    fn div(self, rhs: Addition) -> (r: Node)
        ensures
            r@ == product(view_node(Node::Constant(self)), view_node(Node::Addition(rhs)), true),
    {
        Node::Constant(self) / Node::Addition(rhs)
    }
}

impl DivSpecImpl<Addition> for Constant {
    open spec fn obeys_div_spec() -> bool {
        false
    }

    open spec fn div_req(self, rhs: Addition) -> bool {
        true
    }

    open spec fn div_spec(self, rhs: Addition) -> Node {
        Node::Constant(Constant::Int(0))
    }
}

impl std::ops::Div<Power> for Constant {
    type Output = Node;

    fn div(self, rhs: Power) -> (r: Node)
        ensures
            r@ == product(view_node(Node::Constant(self)), view_node(Node::Power(rhs)), true),
    {
        Node::Constant(self) / Node::Power(rhs)
    }
}

impl DivSpecImpl<Power> for Constant {
    open spec fn obeys_div_spec() -> bool {
        false
    }

    open spec fn div_req(self, rhs: Power) -> bool {
        true
    }

    open spec fn div_spec(self, rhs: Power) -> Node {
        Node::Constant(Constant::Int(0))
    }
}

impl std::ops::Div<Variable> for Constant {
    type Output = Node;

    fn div(self, rhs: Variable) -> (r: Node)
        ensures
            r@ == product(view_node(Node::Constant(self)), view_node(Node::Variable(rhs)), true),
    {
        Node::Constant(self) / Node::Variable(rhs)
    }
}

impl DivSpecImpl<Variable> for Constant {
    open spec fn obeys_div_spec() -> bool {
        false
    }

    open spec fn div_req(self, rhs: Variable) -> bool {
        true
    }

    open spec fn div_spec(self, rhs: Variable) -> Node {
        Node::Constant(Constant::Int(0))
    }
}

impl std::ops::Div<Constant> for Constant {
    type Output = Node;

    fn div(self, rhs: Constant) -> (r: Node)
        ensures
            r@ == product(view_node(Node::Constant(self)), view_node(Node::Constant(rhs)), true),
    {
        Node::Constant(self) / Node::Constant(rhs)
    }
}

impl DivSpecImpl<Constant> for Constant {
    open spec fn obeys_div_spec() -> bool {
        false
    }

    open spec fn div_req(self, rhs: Constant) -> bool {
        true
    }

    open spec fn div_spec(self, rhs: Constant) -> Node {
        Node::Constant(Constant::Int(0))
    }
}

impl std::ops::Div<Negation> for Constant {
    type Output = Node;

    fn div(self, rhs: Negation) -> (r: Node)
        ensures
            r@ == product(view_node(Node::Constant(self)), view_node(Node::Negation(rhs)), true),
    {
        Node::Constant(self) / Node::Negation(rhs)
    }
}

impl DivSpecImpl<Negation> for Constant {
    open spec fn obeys_div_spec() -> bool {
        false
    }

    open spec fn div_req(self, rhs: Negation) -> bool {
        true
    }

    open spec fn div_spec(self, rhs: Negation) -> Node {
        Node::Constant(Constant::Int(0))
    }
}

impl std::ops::Div<Log> for Constant {
    type Output = Node;

    fn div(self, rhs: Log) -> (r: Node)
        ensures
            r@ == product(view_node(Node::Constant(self)), view_node(Node::Log(rhs)), true),
    {
        Node::Constant(self) / Node::Log(rhs)
    }
}

impl DivSpecImpl<Log> for Constant {
    open spec fn obeys_div_spec() -> bool {
        false
    }

    open spec fn div_req(self, rhs: Log) -> bool {
        true
    }

    open spec fn div_spec(self, rhs: Log) -> Node {
        Node::Constant(Constant::Int(0))
    }
}

impl std::ops::Div<Node> for Constant {
    type Output = Node;

    fn div(self, rhs: Node) -> (r: Node)
        ensures
            r@ == product(view_node(Node::Constant(self)), rhs@, true),
    {
        Node::Constant(self) / rhs
    }
}

impl DivSpecImpl<Node> for Constant {
    open spec fn obeys_div_spec() -> bool {
        false
    }

    open spec fn div_req(self, rhs: Node) -> bool {
        true
    }

    open spec fn div_spec(self, rhs: Node) -> Node {
        Node::Constant(Constant::Int(0))
    }
}

impl std::ops::Div<Addition> for Negation {
    type Output = Node;

    fn div(self, rhs: Addition) -> (r: Node)
        ensures
            r@ == product(view_node(Node::Negation(self)), view_node(Node::Addition(rhs)), true),
    {
        Node::Negation(self) / Node::Addition(rhs)
    }
}

impl DivSpecImpl<Addition> for Negation {
    open spec fn obeys_div_spec() -> bool {
        false
    }

    open spec fn div_req(self, rhs: Addition) -> bool {
        true
    }

    open spec fn div_spec(self, rhs: Addition) -> Node {
        Node::Constant(Constant::Int(0))
    }
}

impl std::ops::Div<Power> for Negation {
    type Output = Node;

    fn div(self, rhs: Power) -> (r: Node)
        ensures
            r@ == product(view_node(Node::Negation(self)), view_node(Node::Power(rhs)), true),
    {
        Node::Negation(self) / Node::Power(rhs)
    }
}

impl DivSpecImpl<Power> for Negation {
    open spec fn obeys_div_spec() -> bool {
        false
    }

    open spec fn div_req(self, rhs: Power) -> bool {
        true
    }

    open spec fn div_spec(self, rhs: Power) -> Node {
        Node::Constant(Constant::Int(0))
    }
}

impl std::ops::Div<Variable> for Negation {
    type Output = Node;

    fn div(self, rhs: Variable) -> (r: Node)
        ensures
            r@ == product(view_node(Node::Negation(self)), view_node(Node::Variable(rhs)), true),
    {
        Node::Negation(self) / Node::Variable(rhs)
    }
}

impl DivSpecImpl<Variable> for Negation {
    open spec fn obeys_div_spec() -> bool {
        false
    }

    open spec fn div_req(self, rhs: Variable) -> bool {
        true
    }

    open spec fn div_spec(self, rhs: Variable) -> Node {
        Node::Constant(Constant::Int(0))
    }
}

impl std::ops::Div<Constant> for Negation {
    type Output = Node;

    fn div(self, rhs: Constant) -> (r: Node)
        ensures
            r@ == product(view_node(Node::Negation(self)), view_node(Node::Constant(rhs)), true),
    {
        Node::Negation(self) / Node::Constant(rhs)
    }
}

impl DivSpecImpl<Constant> for Negation {
    open spec fn obeys_div_spec() -> bool {
        false
    }

    open spec fn div_req(self, rhs: Constant) -> bool {
        true
    }

    open spec fn div_spec(self, rhs: Constant) -> Node {
        Node::Constant(Constant::Int(0))
    }
}

impl std::ops::Div<Negation> for Negation {
    type Output = Node;

    fn div(self, rhs: Negation) -> (r: Node)
        ensures
            r@ == product(view_node(Node::Negation(self)), view_node(Node::Negation(rhs)), true),
    {
        Node::Negation(self) / Node::Negation(rhs)
    }
}

impl DivSpecImpl<Negation> for Negation {
    open spec fn obeys_div_spec() -> bool {
        false
    }

    open spec fn div_req(self, rhs: Negation) -> bool {
        true
    }

    open spec fn div_spec(self, rhs: Negation) -> Node {
        Node::Constant(Constant::Int(0))
    }
}

impl std::ops::Div<Log> for Negation {
    type Output = Node;

    fn div(self, rhs: Log) -> (r: Node)
        ensures
            r@ == product(view_node(Node::Negation(self)), view_node(Node::Log(rhs)), true),
    {
        Node::Negation(self) / Node::Log(rhs)
    }
}

impl DivSpecImpl<Log> for Negation {
    open spec fn obeys_div_spec() -> bool {
        false
    }

    open spec fn div_req(self, rhs: Log) -> bool {
        true
    }

    open spec fn div_spec(self, rhs: Log) -> Node {
        Node::Constant(Constant::Int(0))
    }
}

impl std::ops::Div<Node> for Negation {
    type Output = Node;

    fn div(self, rhs: Node) -> (r: Node)
        ensures
            r@ == product(view_node(Node::Negation(self)), rhs@, true),
    {
        Node::Negation(self) / rhs
    }
}

impl DivSpecImpl<Node> for Negation {
    open spec fn obeys_div_spec() -> bool {
        false
    }

    open spec fn div_req(self, rhs: Node) -> bool {
        true
    }

    open spec fn div_spec(self, rhs: Node) -> Node {
        Node::Constant(Constant::Int(0))
    }
}

impl std::ops::Div<Addition> for Log {
    type Output = Node;

    fn div(self, rhs: Addition) -> (r: Node)
        ensures
            r@ == product(view_node(Node::Log(self)), view_node(Node::Addition(rhs)), true),
    {
        Node::Log(self) / Node::Addition(rhs)
    }
}

impl DivSpecImpl<Addition> for Log {
    open spec fn obeys_div_spec() -> bool {
        false
    }

    open spec fn div_req(self, rhs: Addition) -> bool {
        true
    }

    open spec fn div_spec(self, rhs: Addition) -> Node {
        Node::Constant(Constant::Int(0))
    }
}

impl std::ops::Div<Power> for Log {
    type Output = Node;

    fn div(self, rhs: Power) -> (r: Node)
        ensures
            r@ == product(view_node(Node::Log(self)), view_node(Node::Power(rhs)), true),
    {
        Node::Log(self) / Node::Power(rhs)
    }
}

impl DivSpecImpl<Power> for Log {
    open spec fn obeys_div_spec() -> bool {
        false
    }

    open spec fn div_req(self, rhs: Power) -> bool {
        true
    }

    open spec fn div_spec(self, rhs: Power) -> Node {
        Node::Constant(Constant::Int(0))
    }
}

impl std::ops::Div<Variable> for Log {
    type Output = Node;

    fn div(self, rhs: Variable) -> (r: Node)
        ensures
            r@ == product(view_node(Node::Log(self)), view_node(Node::Variable(rhs)), true),
    {
        Node::Log(self) / Node::Variable(rhs)
    }
}

impl DivSpecImpl<Variable> for Log {
    open spec fn obeys_div_spec() -> bool {
        false
    }

    open spec fn div_req(self, rhs: Variable) -> bool {
        true
    }

    open spec fn div_spec(self, rhs: Variable) -> Node {
        Node::Constant(Constant::Int(0))
    }
}

impl std::ops::Div<Constant> for Log {
    type Output = Node;

    fn div(self, rhs: Constant) -> (r: Node)
        ensures
            r@ == product(view_node(Node::Log(self)), view_node(Node::Constant(rhs)), true),
    {
        Node::Log(self) / Node::Constant(rhs)
    }
}

impl DivSpecImpl<Constant> for Log {
    open spec fn obeys_div_spec() -> bool {
        false
    }

    open spec fn div_req(self, rhs: Constant) -> bool {
        true
    }

    open spec fn div_spec(self, rhs: Constant) -> Node {
        Node::Constant(Constant::Int(0))
    }
}

impl std::ops::Div<Negation> for Log {
    type Output = Node;

    fn div(self, rhs: Negation) -> (r: Node)
        ensures
            r@ == product(view_node(Node::Log(self)), view_node(Node::Negation(rhs)), true),
    {
        Node::Log(self) / Node::Negation(rhs)
    }
}

impl DivSpecImpl<Negation> for Log {
    open spec fn obeys_div_spec() -> bool {
        false
    }

    open spec fn div_req(self, rhs: Negation) -> bool {
        true
    }

    open spec fn div_spec(self, rhs: Negation) -> Node {
        Node::Constant(Constant::Int(0))
    }
}

impl std::ops::Div<Log> for Log {
    type Output = Node;

    fn div(self, rhs: Log) -> (r: Node)
        ensures
            r@ == product(view_node(Node::Log(self)), view_node(Node::Log(rhs)), true),
    {
        Node::Log(self) / Node::Log(rhs)
    }
}

impl DivSpecImpl<Log> for Log {
    open spec fn obeys_div_spec() -> bool {
        false
    }

    open spec fn div_req(self, rhs: Log) -> bool {
        true
    }

    open spec fn div_spec(self, rhs: Log) -> Node {
        Node::Constant(Constant::Int(0))
    }
}

impl std::ops::Div<Node> for Log {
    type Output = Node;

    fn div(self, rhs: Node) -> (r: Node)
        ensures
            r@ == product(view_node(Node::Log(self)), rhs@, true),
    {
        Node::Log(self) / rhs
    }
}

impl DivSpecImpl<Node> for Log {
    open spec fn obeys_div_spec() -> bool {
        false
    }

    open spec fn div_req(self, rhs: Node) -> bool {
        true
    }

    open spec fn div_spec(self, rhs: Node) -> Node {
        Node::Constant(Constant::Int(0))
    }
}

impl std::ops::Div<Addition> for Node {
    type Output = Node;

    fn div(self, rhs: Addition) -> (r: Node)
        ensures
            r@ == product(self@, view_node(Node::Addition(rhs)), true),
    {
        self / Node::Addition(rhs)
    }
}

impl DivSpecImpl<Addition> for Node {
    open spec fn obeys_div_spec() -> bool {
        false
    }

    open spec fn div_req(self, rhs: Addition) -> bool {
        true
    }

    open spec fn div_spec(self, rhs: Addition) -> Node {
        Node::Constant(Constant::Int(0))
    }
}

impl std::ops::Div<Power> for Node {
    type Output = Node;

    fn div(self, rhs: Power) -> (r: Node)
        ensures
            r@ == product(self@, view_node(Node::Power(rhs)), true),
    {
        self / Node::Power(rhs)
    }
}

impl DivSpecImpl<Power> for Node {
    open spec fn obeys_div_spec() -> bool {
        false
    }

    open spec fn div_req(self, rhs: Power) -> bool {
        true
    }

    open spec fn div_spec(self, rhs: Power) -> Node {
        Node::Constant(Constant::Int(0))
    }
}

impl std::ops::Div<Variable> for Node {
    type Output = Node;

    fn div(self, rhs: Variable) -> (r: Node)
        ensures
            r@ == product(self@, view_node(Node::Variable(rhs)), true),
    {
        self / Node::Variable(rhs)
    }
}

impl DivSpecImpl<Variable> for Node {
    open spec fn obeys_div_spec() -> bool {
        false
    }

    open spec fn div_req(self, rhs: Variable) -> bool {
        true
    }

    open spec fn div_spec(self, rhs: Variable) -> Node {
        Node::Constant(Constant::Int(0))
    }
}

impl std::ops::Div<Constant> for Node {
    type Output = Node;

    fn div(self, rhs: Constant) -> (r: Node)
        ensures
            r@ == product(self@, view_node(Node::Constant(rhs)), true),
    {
        self / Node::Constant(rhs)
    }
}

impl DivSpecImpl<Constant> for Node {
    open spec fn obeys_div_spec() -> bool {
        false
    }

    open spec fn div_req(self, rhs: Constant) -> bool {
        true
    }

    open spec fn div_spec(self, rhs: Constant) -> Node {
        Node::Constant(Constant::Int(0))
    }
}

impl std::ops::Div<Negation> for Node {
    type Output = Node;

    fn div(self, rhs: Negation) -> (r: Node)
        ensures
            r@ == product(self@, view_node(Node::Negation(rhs)), true),
    {
        self / Node::Negation(rhs)
    }
}

impl DivSpecImpl<Negation> for Node {
    open spec fn obeys_div_spec() -> bool {
        false
    }

    open spec fn div_req(self, rhs: Negation) -> bool {
        true
    }

    open spec fn div_spec(self, rhs: Negation) -> Node {
        Node::Constant(Constant::Int(0))
    }
}

impl std::ops::Div<Log> for Node {
    type Output = Node;

    fn div(self, rhs: Log) -> (r: Node)
        ensures
            r@ == product(self@, view_node(Node::Log(rhs)), true),
    {
        self / Node::Log(rhs)
    }
}

impl DivSpecImpl<Log> for Node {
    open spec fn obeys_div_spec() -> bool {
        false
    }

    open spec fn div_req(self, rhs: Log) -> bool {
        true
    }

    open spec fn div_spec(self, rhs: Log) -> Node {
        Node::Constant(Constant::Int(0))
    }
}

impl std::ops::Div<i64> for Addition {
    type Output = Node;

    fn div(self, rhs: i64) -> (r: Node)
        ensures
            r@ == product(view_node(Node::Addition(self)), int_const(rhs), true),
    {
        Node::Addition(self) / Node::Constant(Constant::Int(rhs))
    }
}

impl DivSpecImpl<i64> for Addition {
    open spec fn obeys_div_spec() -> bool {
        false
    }

    open spec fn div_req(self, rhs: i64) -> bool {
        true
    }

    open spec fn div_spec(self, rhs: i64) -> Node {
        Node::Constant(Constant::Int(0))
    }
}

impl std::ops::Div<i64> for Power {
    type Output = Node;

    fn div(self, rhs: i64) -> (r: Node)
        ensures
            r@ == product(view_node(Node::Power(self)), int_const(rhs), true),
    {
        Node::Power(self) / Node::Constant(Constant::Int(rhs))
    }
}

impl DivSpecImpl<i64> for Power {
    open spec fn obeys_div_spec() -> bool {
        false
    }

    open spec fn div_req(self, rhs: i64) -> bool {
        true
    }

    open spec fn div_spec(self, rhs: i64) -> Node {
        Node::Constant(Constant::Int(0))
    }
}

impl std::ops::Div<i64> for Variable {
    type Output = Node;

    fn div(self, rhs: i64) -> (r: Node)
        ensures
            r@ == product(view_node(Node::Variable(self)), int_const(rhs), true),
    {
        Node::Variable(self) / Node::Constant(Constant::Int(rhs))
    }
}

impl DivSpecImpl<i64> for Variable {
    open spec fn obeys_div_spec() -> bool {
        false
    }

    open spec fn div_req(self, rhs: i64) -> bool {
        true
    }

    open spec fn div_spec(self, rhs: i64) -> Node {
        Node::Constant(Constant::Int(0))
    }
}

impl std::ops::Div<i64> for Constant {
    type Output = Node;

    fn div(self, rhs: i64) -> (r: Node)
        ensures
            r@ == product(view_node(Node::Constant(self)), int_const(rhs), true),
    {
        Node::Constant(self) / Node::Constant(Constant::Int(rhs))
    }
}

impl DivSpecImpl<i64> for Constant {
    open spec fn obeys_div_spec() -> bool {
        false
    }

    open spec fn div_req(self, rhs: i64) -> bool {
        true
    }

    open spec fn div_spec(self, rhs: i64) -> Node {
        Node::Constant(Constant::Int(0))
    }
}

impl std::ops::Div<i64> for Negation {
    type Output = Node;

    fn div(self, rhs: i64) -> (r: Node)
        ensures
            r@ == product(view_node(Node::Negation(self)), int_const(rhs), true),
    {
        Node::Negation(self) / Node::Constant(Constant::Int(rhs))
    }
}

impl DivSpecImpl<i64> for Negation {
    open spec fn obeys_div_spec() -> bool {
        false
    }

    open spec fn div_req(self, rhs: i64) -> bool {
        true
    }

    open spec fn div_spec(self, rhs: i64) -> Node {
        Node::Constant(Constant::Int(0))
    }
}

impl std::ops::Div<i64> for Log {
    type Output = Node;

    fn div(self, rhs: i64) -> (r: Node)
        ensures
            r@ == product(view_node(Node::Log(self)), int_const(rhs), true),
    {
        Node::Log(self) / Node::Constant(Constant::Int(rhs))
    }
}

impl DivSpecImpl<i64> for Log {
    open spec fn obeys_div_spec() -> bool {
        false
    }

    open spec fn div_req(self, rhs: i64) -> bool {
        true
    }

    open spec fn div_spec(self, rhs: i64) -> Node {
        Node::Constant(Constant::Int(0))
    }
}

impl std::ops::BitXor<Addition> for i64 {
    type Output = Node;

    fn bitxor(self, rhs: Addition) -> (r: Node)
        ensures
            r@ == pow(int_const(self), view_node(Node::Addition(rhs))),
    {
        Node::Constant(Constant::Int(self)) ^ Node::Addition(rhs)
    }
}

impl BitXorSpecImpl<Addition> for i64 {
    open spec fn obeys_bitxor_spec() -> bool {
        false
    }

    open spec fn bitxor_req(self, rhs: Addition) -> bool {
        true
    }

    open spec fn bitxor_spec(self, rhs: Addition) -> Node {
        Node::Constant(Constant::Int(0))
    }
}

impl std::ops::BitXor<Multiplication> for i64 {
    type Output = Node;

    fn bitxor(self, rhs: Multiplication) -> (r: Node)
        ensures
            r@ == pow(int_const(self), view_node(Node::Multiplication(rhs))),
    {
        Node::Constant(Constant::Int(self)) ^ Node::Multiplication(rhs)
    }
}

impl BitXorSpecImpl<Multiplication> for i64 {
    open spec fn obeys_bitxor_spec() -> bool {
        false
    }

    open spec fn bitxor_req(self, rhs: Multiplication) -> bool {
        true
    }

    open spec fn bitxor_spec(self, rhs: Multiplication) -> Node {
        Node::Constant(Constant::Int(0))
    }
}

impl std::ops::BitXor<Variable> for i64 {
    type Output = Node;

    fn bitxor(self, rhs: Variable) -> (r: Node)
        ensures
            r@ == pow(int_const(self), view_node(Node::Variable(rhs))),
    {
        Node::Constant(Constant::Int(self)) ^ Node::Variable(rhs)
    }
}

impl BitXorSpecImpl<Variable> for i64 {
    open spec fn obeys_bitxor_spec() -> bool {
        false
    }

    open spec fn bitxor_req(self, rhs: Variable) -> bool {
        true
    }

    open spec fn bitxor_spec(self, rhs: Variable) -> Node {
        Node::Constant(Constant::Int(0))
    }
}

impl std::ops::BitXor<Constant> for i64 {
    type Output = Node;

    fn bitxor(self, rhs: Constant) -> (r: Node)
        ensures
            r@ == pow(int_const(self), view_node(Node::Constant(rhs))),
    {
        Node::Constant(Constant::Int(self)) ^ Node::Constant(rhs)
    }
}

impl BitXorSpecImpl<Constant> for i64 {
    open spec fn obeys_bitxor_spec() -> bool {
        false
    }

    open spec fn bitxor_req(self, rhs: Constant) -> bool {
        true
    }

    open spec fn bitxor_spec(self, rhs: Constant) -> Node {
        Node::Constant(Constant::Int(0))
    }
}

impl std::ops::BitXor<Negation> for i64 {
    type Output = Node;

    fn bitxor(self, rhs: Negation) -> (r: Node)
        ensures
            r@ == pow(int_const(self), view_node(Node::Negation(rhs))),
    {
        Node::Constant(Constant::Int(self)) ^ Node::Negation(rhs)
    }
}

impl BitXorSpecImpl<Negation> for i64 {
    open spec fn obeys_bitxor_spec() -> bool {
        false
    }

    open spec fn bitxor_req(self, rhs: Negation) -> bool {
        true
    }

    open spec fn bitxor_spec(self, rhs: Negation) -> Node {
        Node::Constant(Constant::Int(0))
    }
}

impl std::ops::BitXor<Log> for i64 {
    type Output = Node;

    fn bitxor(self, rhs: Log) -> (r: Node)
        ensures
            r@ == pow(int_const(self), view_node(Node::Log(rhs))),
    {
        Node::Constant(Constant::Int(self)) ^ Node::Log(rhs)
    }
}

impl BitXorSpecImpl<Log> for i64 {
    open spec fn obeys_bitxor_spec() -> bool {
        false
    }

    open spec fn bitxor_req(self, rhs: Log) -> bool {
        true
    }

    open spec fn bitxor_spec(self, rhs: Log) -> Node {
        Node::Constant(Constant::Int(0))
    }
}

impl std::ops::BitXor<Addition> for Addition {
    type Output = Node;

    fn bitxor(self, rhs: Addition) -> (r: Node)
        ensures
            r@ == pow(view_node(Node::Addition(self)), view_node(Node::Addition(rhs))),
    {
        Node::Addition(self) ^ Node::Addition(rhs)
    }
}

impl BitXorSpecImpl<Addition> for Addition {
    open spec fn obeys_bitxor_spec() -> bool {
        false
    }

    open spec fn bitxor_req(self, rhs: Addition) -> bool {
        true
    }

    open spec fn bitxor_spec(self, rhs: Addition) -> Node {
        Node::Constant(Constant::Int(0))
    }
}

impl std::ops::BitXor<Multiplication> for Addition {
    type Output = Node;

    fn bitxor(self, rhs: Multiplication) -> (r: Node)
        ensures
            r@ == pow(view_node(Node::Addition(self)), view_node(Node::Multiplication(rhs))),
    {
        Node::Addition(self) ^ Node::Multiplication(rhs)
    }
}

impl BitXorSpecImpl<Multiplication> for Addition {
    open spec fn obeys_bitxor_spec() -> bool {
        false
    }

    open spec fn bitxor_req(self, rhs: Multiplication) -> bool {
        true
    }

    open spec fn bitxor_spec(self, rhs: Multiplication) -> Node {
        Node::Constant(Constant::Int(0))
    }
}

impl std::ops::BitXor<Variable> for Addition {
    type Output = Node;

    fn bitxor(self, rhs: Variable) -> (r: Node)
        ensures
            r@ == pow(view_node(Node::Addition(self)), view_node(Node::Variable(rhs))),
    {
        Node::Addition(self) ^ Node::Variable(rhs)
    }
}

impl BitXorSpecImpl<Variable> for Addition {
    open spec fn obeys_bitxor_spec() -> bool {
        false
    }

    open spec fn bitxor_req(self, rhs: Variable) -> bool {
        true
    }

    open spec fn bitxor_spec(self, rhs: Variable) -> Node {
        Node::Constant(Constant::Int(0))
    }
}

impl std::ops::BitXor<Constant> for Addition {
    type Output = Node;

    fn bitxor(self, rhs: Constant) -> (r: Node)
        ensures
            r@ == pow(view_node(Node::Addition(self)), view_node(Node::Constant(rhs))),
    {
        Node::Addition(self) ^ Node::Constant(rhs)
    }
}

impl BitXorSpecImpl<Constant> for Addition {
    open spec fn obeys_bitxor_spec() -> bool {
        false
    }

    open spec fn bitxor_req(self, rhs: Constant) -> bool {
        true
    }

    open spec fn bitxor_spec(self, rhs: Constant) -> Node {
        Node::Constant(Constant::Int(0))
    }
}

impl std::ops::BitXor<Negation> for Addition {
    type Output = Node;

    fn bitxor(self, rhs: Negation) -> (r: Node)
        ensures
            r@ == pow(view_node(Node::Addition(self)), view_node(Node::Negation(rhs))),
    {
        Node::Addition(self) ^ Node::Negation(rhs)
    }
}

impl BitXorSpecImpl<Negation> for Addition {
    open spec fn obeys_bitxor_spec() -> bool {
        false
    }

    open spec fn bitxor_req(self, rhs: Negation) -> bool {
        true
    }

    open spec fn bitxor_spec(self, rhs: Negation) -> Node {
        Node::Constant(Constant::Int(0))
    }
}

impl std::ops::BitXor<Log> for Addition {
    type Output = Node;

    fn bitxor(self, rhs: Log) -> (r: Node)
        ensures
            r@ == pow(view_node(Node::Addition(self)), view_node(Node::Log(rhs))),
    {
        Node::Addition(self) ^ Node::Log(rhs)
    }
}

impl BitXorSpecImpl<Log> for Addition {
    open spec fn obeys_bitxor_spec() -> bool {
        false
    }

    open spec fn bitxor_req(self, rhs: Log) -> bool {
        true
    }

    open spec fn bitxor_spec(self, rhs: Log) -> Node {
        Node::Constant(Constant::Int(0))
    }
}

impl std::ops::BitXor<Node> for Addition {
    type Output = Node;

    fn bitxor(self, rhs: Node) -> (r: Node)
        ensures
            r@ == pow(view_node(Node::Addition(self)), rhs@),
    {
        Node::Addition(self) ^ rhs
    }
}

impl BitXorSpecImpl<Node> for Addition {
    open spec fn obeys_bitxor_spec() -> bool {
        false
    }

    open spec fn bitxor_req(self, rhs: Node) -> bool {
        true
    }

    open spec fn bitxor_spec(self, rhs: Node) -> Node {
        Node::Constant(Constant::Int(0))
    }
}

impl std::ops::BitXor<Addition> for Multiplication {
    type Output = Node;

    fn bitxor(self, rhs: Addition) -> (r: Node)
        ensures
            r@ == pow(view_node(Node::Multiplication(self)), view_node(Node::Addition(rhs))),
    {
        Node::Multiplication(self) ^ Node::Addition(rhs)
    }
}

impl BitXorSpecImpl<Addition> for Multiplication {
    open spec fn obeys_bitxor_spec() -> bool {
        false
    }

    open spec fn bitxor_req(self, rhs: Addition) -> bool {
        true
    }

    open spec fn bitxor_spec(self, rhs: Addition) -> Node {
        Node::Constant(Constant::Int(0))
    }
}

impl std::ops::BitXor<Multiplication> for Multiplication {
    type Output = Node;

    fn bitxor(self, rhs: Multiplication) -> (r: Node)
        ensures
            r@ == pow(view_node(Node::Multiplication(self)), view_node(Node::Multiplication(rhs))),
    {
        Node::Multiplication(self) ^ Node::Multiplication(rhs)
    }
}

impl BitXorSpecImpl<Multiplication> for Multiplication {
    open spec fn obeys_bitxor_spec() -> bool {
        false
    }

    open spec fn bitxor_req(self, rhs: Multiplication) -> bool {
        true
    }

    open spec fn bitxor_spec(self, rhs: Multiplication) -> Node {
        Node::Constant(Constant::Int(0))
    }
}

impl std::ops::BitXor<Variable> for Multiplication {
    type Output = Node;

    fn bitxor(self, rhs: Variable) -> (r: Node)
        ensures
            r@ == pow(view_node(Node::Multiplication(self)), view_node(Node::Variable(rhs))),
    {
        Node::Multiplication(self) ^ Node::Variable(rhs)
    }
}

impl BitXorSpecImpl<Variable> for Multiplication {
    open spec fn obeys_bitxor_spec() -> bool {
        false
    }

    open spec fn bitxor_req(self, rhs: Variable) -> bool {
        true
    }

    open spec fn bitxor_spec(self, rhs: Variable) -> Node {
        Node::Constant(Constant::Int(0))
    }
}

impl std::ops::BitXor<Constant> for Multiplication {
    type Output = Node;

    fn bitxor(self, rhs: Constant) -> (r: Node)
        ensures
            r@ == pow(view_node(Node::Multiplication(self)), view_node(Node::Constant(rhs))),
    {
        Node::Multiplication(self) ^ Node::Constant(rhs)
    }
}

impl BitXorSpecImpl<Constant> for Multiplication {
    open spec fn obeys_bitxor_spec() -> bool {
        false
    }

    open spec fn bitxor_req(self, rhs: Constant) -> bool {
        true
    }

    open spec fn bitxor_spec(self, rhs: Constant) -> Node {
        Node::Constant(Constant::Int(0))
    }
}

impl std::ops::BitXor<Negation> for Multiplication {
    type Output = Node;

    fn bitxor(self, rhs: Negation) -> (r: Node)
        ensures
            r@ == pow(view_node(Node::Multiplication(self)), view_node(Node::Negation(rhs))),
    {
        Node::Multiplication(self) ^ Node::Negation(rhs)
    }
}

impl BitXorSpecImpl<Negation> for Multiplication {
    open spec fn obeys_bitxor_spec() -> bool {
        false
    }

    open spec fn bitxor_req(self, rhs: Negation) -> bool {
        true
    }

    open spec fn bitxor_spec(self, rhs: Negation) -> Node {
        Node::Constant(Constant::Int(0))
    }
}

impl std::ops::BitXor<Log> for Multiplication {
    type Output = Node;

    fn bitxor(self, rhs: Log) -> (r: Node)
        ensures
            r@ == pow(view_node(Node::Multiplication(self)), view_node(Node::Log(rhs))),
    {
        Node::Multiplication(self) ^ Node::Log(rhs)
    }
}

impl BitXorSpecImpl<Log> for Multiplication {
    open spec fn obeys_bitxor_spec() -> bool {
        false
    }

    open spec fn bitxor_req(self, rhs: Log) -> bool {
        true
    }

    open spec fn bitxor_spec(self, rhs: Log) -> Node {
        Node::Constant(Constant::Int(0))
    }
}

impl std::ops::BitXor<Node> for Multiplication {
    type Output = Node;

    fn bitxor(self, rhs: Node) -> (r: Node)
        ensures
            r@ == pow(view_node(Node::Multiplication(self)), rhs@),
    {
        Node::Multiplication(self) ^ rhs
    }
}

impl BitXorSpecImpl<Node> for Multiplication {
    open spec fn obeys_bitxor_spec() -> bool {
        false
    }

    open spec fn bitxor_req(self, rhs: Node) -> bool {
        true
    }

    open spec fn bitxor_spec(self, rhs: Node) -> Node {
        Node::Constant(Constant::Int(0))
    }
}

impl std::ops::BitXor<Addition> for Variable {
    type Output = Node;

    fn bitxor(self, rhs: Addition) -> (r: Node)
        ensures
            r@ == pow(view_node(Node::Variable(self)), view_node(Node::Addition(rhs))),
    {
        Node::Variable(self) ^ Node::Addition(rhs)
    }
}

impl BitXorSpecImpl<Addition> for Variable {
    open spec fn obeys_bitxor_spec() -> bool {
        false
    }

    open spec fn bitxor_req(self, rhs: Addition) -> bool {
        true
    }

    open spec fn bitxor_spec(self, rhs: Addition) -> Node {
        Node::Constant(Constant::Int(0))
    }
}

impl std::ops::BitXor<Multiplication> for Variable {
    type Output = Node;

    fn bitxor(self, rhs: Multiplication) -> (r: Node)
        ensures
            r@ == pow(view_node(Node::Variable(self)), view_node(Node::Multiplication(rhs))),
    {
        Node::Variable(self) ^ Node::Multiplication(rhs)
    }
}

impl BitXorSpecImpl<Multiplication> for Variable {
    open spec fn obeys_bitxor_spec() -> bool {
        false
    }

    open spec fn bitxor_req(self, rhs: Multiplication) -> bool {
        true
    }

    open spec fn bitxor_spec(self, rhs: Multiplication) -> Node {
        Node::Constant(Constant::Int(0))
    }
}

impl std::ops::BitXor<Variable> for Variable {
    type Output = Node;

    fn bitxor(self, rhs: Variable) -> (r: Node)
        ensures
            r@ == pow(view_node(Node::Variable(self)), view_node(Node::Variable(rhs))),
    {
        Node::Variable(self) ^ Node::Variable(rhs)
    }
}

impl BitXorSpecImpl<Variable> for Variable {
    open spec fn obeys_bitxor_spec() -> bool {
        false
    }

    open spec fn bitxor_req(self, rhs: Variable) -> bool {
        true
    }

    open spec fn bitxor_spec(self, rhs: Variable) -> Node {
        Node::Constant(Constant::Int(0))
    }
}

impl std::ops::BitXor<Constant> for Variable {
    type Output = Node;

    fn bitxor(self, rhs: Constant) -> (r: Node)
        ensures
            r@ == pow(view_node(Node::Variable(self)), view_node(Node::Constant(rhs))),
    {
        Node::Variable(self) ^ Node::Constant(rhs)
    }
}

impl BitXorSpecImpl<Constant> for Variable {
    open spec fn obeys_bitxor_spec() -> bool {
        false
    }

    open spec fn bitxor_req(self, rhs: Constant) -> bool {
        true
    }

    open spec fn bitxor_spec(self, rhs: Constant) -> Node {
        Node::Constant(Constant::Int(0))
    }
}

impl std::ops::BitXor<Negation> for Variable {
    type Output = Node;

    fn bitxor(self, rhs: Negation) -> (r: Node)
        ensures
            r@ == pow(view_node(Node::Variable(self)), view_node(Node::Negation(rhs))),
    {
        Node::Variable(self) ^ Node::Negation(rhs)
    }
}

impl BitXorSpecImpl<Negation> for Variable {
    open spec fn obeys_bitxor_spec() -> bool {
        false
    }

    open spec fn bitxor_req(self, rhs: Negation) -> bool {
        true
    }

    open spec fn bitxor_spec(self, rhs: Negation) -> Node {
        Node::Constant(Constant::Int(0))
    }
}

impl std::ops::BitXor<Log> for Variable {
    type Output = Node;

    fn bitxor(self, rhs: Log) -> (r: Node)
        ensures
            r@ == pow(view_node(Node::Variable(self)), view_node(Node::Log(rhs))),
    {
        Node::Variable(self) ^ Node::Log(rhs)
    }
}

impl BitXorSpecImpl<Log> for Variable {
    open spec fn obeys_bitxor_spec() -> bool {
        false
    }

    open spec fn bitxor_req(self, rhs: Log) -> bool {
        true
    }

    open spec fn bitxor_spec(self, rhs: Log) -> Node {
        Node::Constant(Constant::Int(0))
    }
}

impl std::ops::BitXor<Node> for Variable {
    type Output = Node;

    fn bitxor(self, rhs: Node) -> (r: Node)
        ensures
            r@ == pow(view_node(Node::Variable(self)), rhs@),
    {
        Node::Variable(self) ^ rhs
    }
}

impl BitXorSpecImpl<Node> for Variable {
    open spec fn obeys_bitxor_spec() -> bool {
        false
    }

    open spec fn bitxor_req(self, rhs: Node) -> bool {
        true
    }

    open spec fn bitxor_spec(self, rhs: Node) -> Node {
        Node::Constant(Constant::Int(0))
    }
}

impl std::ops::BitXor<Addition> for Constant {
    type Output = Node;

    fn bitxor(self, rhs: Addition) -> (r: Node)
        ensures
            r@ == pow(view_node(Node::Constant(self)), view_node(Node::Addition(rhs))),
    {
        Node::Constant(self) ^ Node::Addition(rhs)
    }
}

impl BitXorSpecImpl<Addition> for Constant {
    open spec fn obeys_bitxor_spec() -> bool {
        false
    }

    open spec fn bitxor_req(self, rhs: Addition) -> bool {
        true
    }

    open spec fn bitxor_spec(self, rhs: Addition) -> Node {
        Node::Constant(Constant::Int(0))
    }
}

impl std::ops::BitXor<Multiplication> for Constant {
    type Output = Node;

    fn bitxor(self, rhs: Multiplication) -> (r: Node)
        ensures
            r@ == pow(view_node(Node::Constant(self)), view_node(Node::Multiplication(rhs))),
    {
        Node::Constant(self) ^ Node::Multiplication(rhs)
    }
}

impl BitXorSpecImpl<Multiplication> for Constant {
    open spec fn obeys_bitxor_spec() -> bool {
        false
    }

    open spec fn bitxor_req(self, rhs: Multiplication) -> bool {
        true
    }

    open spec fn bitxor_spec(self, rhs: Multiplication) -> Node {
        Node::Constant(Constant::Int(0))
    }
}

impl std::ops::BitXor<Variable> for Constant {
    type Output = Node;

    fn bitxor(self, rhs: Variable) -> (r: Node)
        ensures
            r@ == pow(view_node(Node::Constant(self)), view_node(Node::Variable(rhs))),
    {
        Node::Constant(self) ^ Node::Variable(rhs)
    }
}

impl BitXorSpecImpl<Variable> for Constant {
    open spec fn obeys_bitxor_spec() -> bool {
        false
    }

    open spec fn bitxor_req(self, rhs: Variable) -> bool {
        true
    }

    open spec fn bitxor_spec(self, rhs: Variable) -> Node {
        Node::Constant(Constant::Int(0))
    }
}

impl std::ops::BitXor<Constant> for Constant {
    type Output = Node;

    fn bitxor(self, rhs: Constant) -> (r: Node)
        ensures
            r@ == pow(view_node(Node::Constant(self)), view_node(Node::Constant(rhs))),
    {
        Node::Constant(self) ^ Node::Constant(rhs)
    }
}

impl BitXorSpecImpl<Constant> for Constant {
    open spec fn obeys_bitxor_spec() -> bool {
        false
    }

    open spec fn bitxor_req(self, rhs: Constant) -> bool {
        true
    }

    open spec fn bitxor_spec(self, rhs: Constant) -> Node {
        Node::Constant(Constant::Int(0))
    }
}

impl std::ops::BitXor<Negation> for Constant {
    type Output = Node;

    fn bitxor(self, rhs: Negation) -> (r: Node)
        ensures
            r@ == pow(view_node(Node::Constant(self)), view_node(Node::Negation(rhs))),
    {
        Node::Constant(self) ^ Node::Negation(rhs)
    }
}

impl BitXorSpecImpl<Negation> for Constant {
    open spec fn obeys_bitxor_spec() -> bool {
        false
    }

    open spec fn bitxor_req(self, rhs: Negation) -> bool {
        true
    }

    open spec fn bitxor_spec(self, rhs: Negation) -> Node {
        Node::Constant(Constant::Int(0))
    }
}

impl std::ops::BitXor<Log> for Constant {
    type Output = Node;

    fn bitxor(self, rhs: Log) -> (r: Node)
        ensures
            r@ == pow(view_node(Node::Constant(self)), view_node(Node::Log(rhs))),
    {
        Node::Constant(self) ^ Node::Log(rhs)
    }
}

impl BitXorSpecImpl<Log> for Constant {
    open spec fn obeys_bitxor_spec() -> bool {
        false
    }

    open spec fn bitxor_req(self, rhs: Log) -> bool {
        true
    }

    open spec fn bitxor_spec(self, rhs: Log) -> Node {
        Node::Constant(Constant::Int(0))
    }
}

impl std::ops::BitXor<Node> for Constant {
    type Output = Node;

    fn bitxor(self, rhs: Node) -> (r: Node)
        ensures
            r@ == pow(view_node(Node::Constant(self)), rhs@),
    {
        Node::Constant(self) ^ rhs
    }
}

impl BitXorSpecImpl<Node> for Constant {
    open spec fn obeys_bitxor_spec() -> bool {
        false
    }

    open spec fn bitxor_req(self, rhs: Node) -> bool {
        true
    }

    open spec fn bitxor_spec(self, rhs: Node) -> Node {
        Node::Constant(Constant::Int(0))
    }
}

impl std::ops::BitXor<Addition> for Negation {
    type Output = Node;

    fn bitxor(self, rhs: Addition) -> (r: Node)
        ensures
            r@ == pow(view_node(Node::Negation(self)), view_node(Node::Addition(rhs))),
    {
        Node::Negation(self) ^ Node::Addition(rhs)
    }
}

impl BitXorSpecImpl<Addition> for Negation {
    open spec fn obeys_bitxor_spec() -> bool {
        false
    }

    open spec fn bitxor_req(self, rhs: Addition) -> bool {
        true
    }

    open spec fn bitxor_spec(self, rhs: Addition) -> Node {
        Node::Constant(Constant::Int(0))
    }
}

impl std::ops::BitXor<Multiplication> for Negation {
    type Output = Node;

    fn bitxor(self, rhs: Multiplication) -> (r: Node)
        ensures
            r@ == pow(view_node(Node::Negation(self)), view_node(Node::Multiplication(rhs))),
    {
        Node::Negation(self) ^ Node::Multiplication(rhs)
    }
}

impl BitXorSpecImpl<Multiplication> for Negation {
    open spec fn obeys_bitxor_spec() -> bool {
        false
    }

    open spec fn bitxor_req(self, rhs: Multiplication) -> bool {
        true
    }

    open spec fn bitxor_spec(self, rhs: Multiplication) -> Node {
        Node::Constant(Constant::Int(0))
    }
}

impl std::ops::BitXor<Variable> for Negation {
    type Output = Node;

    fn bitxor(self, rhs: Variable) -> (r: Node)
        ensures
            r@ == pow(view_node(Node::Negation(self)), view_node(Node::Variable(rhs))),
    {
        Node::Negation(self) ^ Node::Variable(rhs)
    }
}

impl BitXorSpecImpl<Variable> for Negation {
    open spec fn obeys_bitxor_spec() -> bool {
        false
    }

    open spec fn bitxor_req(self, rhs: Variable) -> bool {
        true
    }

    open spec fn bitxor_spec(self, rhs: Variable) -> Node {
        Node::Constant(Constant::Int(0))
    }
}

impl std::ops::BitXor<Constant> for Negation {
    type Output = Node;

    fn bitxor(self, rhs: Constant) -> (r: Node)
        ensures
            r@ == pow(view_node(Node::Negation(self)), view_node(Node::Constant(rhs))),
    {
        Node::Negation(self) ^ Node::Constant(rhs)
    }
}

impl BitXorSpecImpl<Constant> for Negation {
    open spec fn obeys_bitxor_spec() -> bool {
        false
    }

    open spec fn bitxor_req(self, rhs: Constant) -> bool {
        true
    }

    open spec fn bitxor_spec(self, rhs: Constant) -> Node {
        Node::Constant(Constant::Int(0))
    }
}

impl std::ops::BitXor<Negation> for Negation {
    type Output = Node;

    fn bitxor(self, rhs: Negation) -> (r: Node)
        ensures
            r@ == pow(view_node(Node::Negation(self)), view_node(Node::Negation(rhs))),
    {
        Node::Negation(self) ^ Node::Negation(rhs)
    }
}

impl BitXorSpecImpl<Negation> for Negation {
    open spec fn obeys_bitxor_spec() -> bool {
        false
    }

    open spec fn bitxor_req(self, rhs: Negation) -> bool {
        true
    }

    open spec fn bitxor_spec(self, rhs: Negation) -> Node {
        Node::Constant(Constant::Int(0))
    }
}

impl std::ops::BitXor<Log> for Negation {
    type Output = Node;

    fn bitxor(self, rhs: Log) -> (r: Node)
        ensures
            r@ == pow(view_node(Node::Negation(self)), view_node(Node::Log(rhs))),
    {
        Node::Negation(self) ^ Node::Log(rhs)
    }
}

impl BitXorSpecImpl<Log> for Negation {
    open spec fn obeys_bitxor_spec() -> bool {
        false
    }

    open spec fn bitxor_req(self, rhs: Log) -> bool {
        true
    }

    open spec fn bitxor_spec(self, rhs: Log) -> Node {
        Node::Constant(Constant::Int(0))
    }
}

impl std::ops::BitXor<Node> for Negation {
    type Output = Node;

    fn bitxor(self, rhs: Node) -> (r: Node)
        ensures
            r@ == pow(view_node(Node::Negation(self)), rhs@),
    {
        Node::Negation(self) ^ rhs
    }
}

impl BitXorSpecImpl<Node> for Negation {
    open spec fn obeys_bitxor_spec() -> bool {
        false
    }

    open spec fn bitxor_req(self, rhs: Node) -> bool {
        true
    }

    open spec fn bitxor_spec(self, rhs: Node) -> Node {
        Node::Constant(Constant::Int(0))
    }
}

impl std::ops::BitXor<Addition> for Log {
    type Output = Node;

    fn bitxor(self, rhs: Addition) -> (r: Node)
        ensures
            r@ == pow(view_node(Node::Log(self)), view_node(Node::Addition(rhs))),
    {
        Node::Log(self) ^ Node::Addition(rhs)
    }
}

impl BitXorSpecImpl<Addition> for Log {
    open spec fn obeys_bitxor_spec() -> bool {
        false
    }

    open spec fn bitxor_req(self, rhs: Addition) -> bool {
        true
    }

    open spec fn bitxor_spec(self, rhs: Addition) -> Node {
        Node::Constant(Constant::Int(0))
    }
}

impl std::ops::BitXor<Multiplication> for Log {
    type Output = Node;

    fn bitxor(self, rhs: Multiplication) -> (r: Node)
        ensures
            r@ == pow(view_node(Node::Log(self)), view_node(Node::Multiplication(rhs))),
    {
        Node::Log(self) ^ Node::Multiplication(rhs)
    }
}

impl BitXorSpecImpl<Multiplication> for Log {
    open spec fn obeys_bitxor_spec() -> bool {
        false
    }

    open spec fn bitxor_req(self, rhs: Multiplication) -> bool {
        true
    }

    open spec fn bitxor_spec(self, rhs: Multiplication) -> Node {
        Node::Constant(Constant::Int(0))
    }
}

impl std::ops::BitXor<Variable> for Log {
    type Output = Node;

    fn bitxor(self, rhs: Variable) -> (r: Node)
        ensures
            r@ == pow(view_node(Node::Log(self)), view_node(Node::Variable(rhs))),
    {
        Node::Log(self) ^ Node::Variable(rhs)
    }
}

impl BitXorSpecImpl<Variable> for Log {
    open spec fn obeys_bitxor_spec() -> bool {
        false
    }

    open spec fn bitxor_req(self, rhs: Variable) -> bool {
        true
    }

    open spec fn bitxor_spec(self, rhs: Variable) -> Node {
        Node::Constant(Constant::Int(0))
    }
}

impl std::ops::BitXor<Constant> for Log {
    type Output = Node;

    fn bitxor(self, rhs: Constant) -> (r: Node)
        ensures
            r@ == pow(view_node(Node::Log(self)), view_node(Node::Constant(rhs))),
    {
        Node::Log(self) ^ Node::Constant(rhs)
    }
}

impl BitXorSpecImpl<Constant> for Log {
    open spec fn obeys_bitxor_spec() -> bool {
        false
    }

    open spec fn bitxor_req(self, rhs: Constant) -> bool {
        true
    }

    open spec fn bitxor_spec(self, rhs: Constant) -> Node {
        Node::Constant(Constant::Int(0))
    }
}

impl std::ops::BitXor<Negation> for Log {
    type Output = Node;

    fn bitxor(self, rhs: Negation) -> (r: Node)
        ensures
            r@ == pow(view_node(Node::Log(self)), view_node(Node::Negation(rhs))),
    {
        Node::Log(self) ^ Node::Negation(rhs)
    }
}

impl BitXorSpecImpl<Negation> for Log {
    open spec fn obeys_bitxor_spec() -> bool {
        false
    }

    open spec fn bitxor_req(self, rhs: Negation) -> bool {
        true
    }

    open spec fn bitxor_spec(self, rhs: Negation) -> Node {
        Node::Constant(Constant::Int(0))
    }
}

impl std::ops::BitXor<Log> for Log {
    type Output = Node;

    fn bitxor(self, rhs: Log) -> (r: Node)
        ensures
            r@ == pow(view_node(Node::Log(self)), view_node(Node::Log(rhs))),
    {
        Node::Log(self) ^ Node::Log(rhs)
    }
}

impl BitXorSpecImpl<Log> for Log {
    open spec fn obeys_bitxor_spec() -> bool {
        false
    }

    open spec fn bitxor_req(self, rhs: Log) -> bool {
        true
    }

    open spec fn bitxor_spec(self, rhs: Log) -> Node {
        Node::Constant(Constant::Int(0))
    }
}

impl std::ops::BitXor<Node> for Log {
    type Output = Node;

    fn bitxor(self, rhs: Node) -> (r: Node)
        ensures
            r@ == pow(view_node(Node::Log(self)), rhs@),
    {
        Node::Log(self) ^ rhs
    }
}

impl BitXorSpecImpl<Node> for Log {
    open spec fn obeys_bitxor_spec() -> bool {
        false
    }

    open spec fn bitxor_req(self, rhs: Node) -> bool {
        true
    }

    open spec fn bitxor_spec(self, rhs: Node) -> Node {
        Node::Constant(Constant::Int(0))
    }
}

impl std::ops::BitXor<Addition> for Node {
    type Output = Node;

    fn bitxor(self, rhs: Addition) -> (r: Node)
        ensures
            r@ == pow(self@, view_node(Node::Addition(rhs))),
    {
        self ^ Node::Addition(rhs)
    }
}

impl BitXorSpecImpl<Addition> for Node {
    open spec fn obeys_bitxor_spec() -> bool {
        false
    }

    open spec fn bitxor_req(self, rhs: Addition) -> bool {
        true
    }

    open spec fn bitxor_spec(self, rhs: Addition) -> Node {
        Node::Constant(Constant::Int(0))
    }
}

impl std::ops::BitXor<Multiplication> for Node {
    type Output = Node;

    fn bitxor(self, rhs: Multiplication) -> (r: Node)
        ensures
            r@ == pow(self@, view_node(Node::Multiplication(rhs))),
    {
        self ^ Node::Multiplication(rhs)
    }
}

impl BitXorSpecImpl<Multiplication> for Node {
    open spec fn obeys_bitxor_spec() -> bool {
        false
    }

    open spec fn bitxor_req(self, rhs: Multiplication) -> bool {
        true
    }

    open spec fn bitxor_spec(self, rhs: Multiplication) -> Node {
        Node::Constant(Constant::Int(0))
    }
}

impl std::ops::BitXor<Variable> for Node {
    type Output = Node;

    fn bitxor(self, rhs: Variable) -> (r: Node)
        ensures
            r@ == pow(self@, view_node(Node::Variable(rhs))),
    {
        self ^ Node::Variable(rhs)
    }
}

impl BitXorSpecImpl<Variable> for Node {
    open spec fn obeys_bitxor_spec() -> bool {
        false
    }

    open spec fn bitxor_req(self, rhs: Variable) -> bool {
        true
    }

    open spec fn bitxor_spec(self, rhs: Variable) -> Node {
        Node::Constant(Constant::Int(0))
    }
}

impl std::ops::BitXor<Constant> for Node {
    type Output = Node;

    fn bitxor(self, rhs: Constant) -> (r: Node)
        ensures
            r@ == pow(self@, view_node(Node::Constant(rhs))),
    {
        self ^ Node::Constant(rhs)
    }
}

impl BitXorSpecImpl<Constant> for Node {
    open spec fn obeys_bitxor_spec() -> bool {
        false
    }

    open spec fn bitxor_req(self, rhs: Constant) -> bool {
        true
    }

    open spec fn bitxor_spec(self, rhs: Constant) -> Node {
        Node::Constant(Constant::Int(0))
    }
}

impl std::ops::BitXor<Negation> for Node {
    type Output = Node;

    fn bitxor(self, rhs: Negation) -> (r: Node)
        ensures
            r@ == pow(self@, view_node(Node::Negation(rhs))),
    {
        self ^ Node::Negation(rhs)
    }
}

impl BitXorSpecImpl<Negation> for Node {
    open spec fn obeys_bitxor_spec() -> bool {
        false
    }

    open spec fn bitxor_req(self, rhs: Negation) -> bool {
        true
    }

    open spec fn bitxor_spec(self, rhs: Negation) -> Node {
        Node::Constant(Constant::Int(0))
    }
}

impl std::ops::BitXor<Log> for Node {
    type Output = Node;

    fn bitxor(self, rhs: Log) -> (r: Node)
        ensures
            r@ == pow(self@, view_node(Node::Log(rhs))),
    {
        self ^ Node::Log(rhs)
    }
}

impl BitXorSpecImpl<Log> for Node {
    open spec fn obeys_bitxor_spec() -> bool {
        false
    }

    open spec fn bitxor_req(self, rhs: Log) -> bool {
        true
    }

    open spec fn bitxor_spec(self, rhs: Log) -> Node {
        Node::Constant(Constant::Int(0))
    }
}

impl std::ops::BitXor<i64> for Addition {
    type Output = Node;

    fn bitxor(self, rhs: i64) -> (r: Node)
        ensures
            r@ == pow(view_node(Node::Addition(self)), int_const(rhs)),
    {
        Node::Addition(self) ^ Node::Constant(Constant::Int(rhs))
    }
}

impl BitXorSpecImpl<i64> for Addition {
    open spec fn obeys_bitxor_spec() -> bool {
        false
    }

    open spec fn bitxor_req(self, rhs: i64) -> bool {
        true
    }

    open spec fn bitxor_spec(self, rhs: i64) -> Node {
        Node::Constant(Constant::Int(0))
    }
}

impl std::ops::BitXor<i64> for Multiplication {
    type Output = Node;

    fn bitxor(self, rhs: i64) -> (r: Node)
        ensures
            r@ == pow(view_node(Node::Multiplication(self)), int_const(rhs)),
    {
        Node::Multiplication(self) ^ Node::Constant(Constant::Int(rhs))
    }
}

impl BitXorSpecImpl<i64> for Multiplication {
    open spec fn obeys_bitxor_spec() -> bool {
        false
    }

    open spec fn bitxor_req(self, rhs: i64) -> bool {
        true
    }

    open spec fn bitxor_spec(self, rhs: i64) -> Node {
        Node::Constant(Constant::Int(0))
    }
}

impl std::ops::BitXor<i64> for Variable {
    type Output = Node;

    fn bitxor(self, rhs: i64) -> (r: Node)
        ensures
            r@ == pow(view_node(Node::Variable(self)), int_const(rhs)),
    {
        Node::Variable(self) ^ Node::Constant(Constant::Int(rhs))
    }
}

impl BitXorSpecImpl<i64> for Variable {
    open spec fn obeys_bitxor_spec() -> bool {
        false
    }

    open spec fn bitxor_req(self, rhs: i64) -> bool {
        true
    }

    open spec fn bitxor_spec(self, rhs: i64) -> Node {
        Node::Constant(Constant::Int(0))
    }
}

impl std::ops::BitXor<i64> for Constant {
    type Output = Node;

    fn bitxor(self, rhs: i64) -> (r: Node)
        ensures
            r@ == pow(view_node(Node::Constant(self)), int_const(rhs)),
    {
        Node::Constant(self) ^ Node::Constant(Constant::Int(rhs))
    }
}

impl BitXorSpecImpl<i64> for Constant {
    open spec fn obeys_bitxor_spec() -> bool {
        false
    }

    open spec fn bitxor_req(self, rhs: i64) -> bool {
        true
    }

    open spec fn bitxor_spec(self, rhs: i64) -> Node {
        Node::Constant(Constant::Int(0))
    }
}

impl std::ops::BitXor<i64> for Negation {
    type Output = Node;

    fn bitxor(self, rhs: i64) -> (r: Node)
        ensures
            r@ == pow(view_node(Node::Negation(self)), int_const(rhs)),
    {
        Node::Negation(self) ^ Node::Constant(Constant::Int(rhs))
    }
}

impl BitXorSpecImpl<i64> for Negation {
    open spec fn obeys_bitxor_spec() -> bool {
        false
    }

    open spec fn bitxor_req(self, rhs: i64) -> bool {
        true
    }

    open spec fn bitxor_spec(self, rhs: i64) -> Node {
        Node::Constant(Constant::Int(0))
    }
}

impl std::ops::BitXor<i64> for Log {
    type Output = Node;

    fn bitxor(self, rhs: i64) -> (r: Node)
        ensures
            r@ == pow(view_node(Node::Log(self)), int_const(rhs)),
    {
        Node::Log(self) ^ Node::Constant(Constant::Int(rhs))
    }
}

impl BitXorSpecImpl<i64> for Log {
    open spec fn obeys_bitxor_spec() -> bool {
        false
    }

    open spec fn bitxor_req(self, rhs: i64) -> bool {
        true
    }

    open spec fn bitxor_spec(self, rhs: i64) -> Node {
        Node::Constant(Constant::Int(0))
    }
}

// A sum, product or power on the left takes the right operand in as its last
// member (as its exponent, for a power).

impl std::ops::Add<Multiplication> for Addition {
    type Output = Node;

    fn add(self, rhs: Multiplication) -> (r: Node)
        ensures
            r@ == Expr::Add(view_seq(self.members@).push(if false { neg(view_node(Node::Multiplication(rhs))) } else { view_node(Node::Multiplication(rhs)) })),
    {
        Node::Addition(self.append::<false>(Node::Multiplication(rhs)))
    }
}

impl AddSpecImpl<Multiplication> for Addition {
    open spec fn obeys_add_spec() -> bool {
        false
    }

    open spec fn add_req(self, rhs: Multiplication) -> bool {
        true
    }

    open spec fn add_spec(self, rhs: Multiplication) -> Node {
        Node::Constant(Constant::Int(0))
    }
}

impl std::ops::Add<Power> for Addition {
    type Output = Node;

    fn add(self, rhs: Power) -> (r: Node)
        ensures
            r@ == Expr::Add(view_seq(self.members@).push(if false { neg(view_node(Node::Power(rhs))) } else { view_node(Node::Power(rhs)) })),
    {
        Node::Addition(self.append::<false>(Node::Power(rhs)))
    }
}

impl AddSpecImpl<Power> for Addition {
    open spec fn obeys_add_spec() -> bool {
        false
    }

    open spec fn add_req(self, rhs: Power) -> bool {
        true
    }

    open spec fn add_spec(self, rhs: Power) -> Node {
        Node::Constant(Constant::Int(0))
    }
}

impl std::ops::Add<Variable> for Addition {
    type Output = Node;

    fn add(self, rhs: Variable) -> (r: Node)
        ensures
            r@ == Expr::Add(view_seq(self.members@).push(if false { neg(view_node(Node::Variable(rhs))) } else { view_node(Node::Variable(rhs)) })),
    {
        Node::Addition(self.append::<false>(Node::Variable(rhs)))
    }
}

impl AddSpecImpl<Variable> for Addition {
    open spec fn obeys_add_spec() -> bool {
        false
    }

    open spec fn add_req(self, rhs: Variable) -> bool {
        true
    }

    open spec fn add_spec(self, rhs: Variable) -> Node {
        Node::Constant(Constant::Int(0))
    }
}

impl std::ops::Add<Constant> for Addition {
    type Output = Node;

    fn add(self, rhs: Constant) -> (r: Node)
        ensures
            r@ == Expr::Add(view_seq(self.members@).push(if false { neg(view_node(Node::Constant(rhs))) } else { view_node(Node::Constant(rhs)) })),
    {
        Node::Addition(self.append::<false>(Node::Constant(rhs)))
    }
}

impl AddSpecImpl<Constant> for Addition {
    open spec fn obeys_add_spec() -> bool {
        false
    }

    open spec fn add_req(self, rhs: Constant) -> bool {
        true
    }

    open spec fn add_spec(self, rhs: Constant) -> Node {
        Node::Constant(Constant::Int(0))
    }
}

impl std::ops::Add<Negation> for Addition {
    type Output = Node;

    fn add(self, rhs: Negation) -> (r: Node)
        ensures
            r@ == Expr::Add(view_seq(self.members@).push(if false { neg(view_node(Node::Negation(rhs))) } else { view_node(Node::Negation(rhs)) })),
    {
        Node::Addition(self.append::<false>(Node::Negation(rhs)))
    }
}

impl AddSpecImpl<Negation> for Addition {
    open spec fn obeys_add_spec() -> bool {
        false
    }

    open spec fn add_req(self, rhs: Negation) -> bool {
        true
    }

    open spec fn add_spec(self, rhs: Negation) -> Node {
        Node::Constant(Constant::Int(0))
    }
}

impl std::ops::Add<Log> for Addition {
    type Output = Node;

    fn add(self, rhs: Log) -> (r: Node)
        ensures
            r@ == Expr::Add(view_seq(self.members@).push(if false { neg(view_node(Node::Log(rhs))) } else { view_node(Node::Log(rhs)) })),
    {
        Node::Addition(self.append::<false>(Node::Log(rhs)))
    }
}

impl AddSpecImpl<Log> for Addition {
    open spec fn obeys_add_spec() -> bool {
        false
    }

    open spec fn add_req(self, rhs: Log) -> bool {
        true
    }

    open spec fn add_spec(self, rhs: Log) -> Node {
        Node::Constant(Constant::Int(0))
    }
}

impl std::ops::Add<i64> for Addition {
    type Output = Node;

    fn add(self, rhs: i64) -> (r: Node)
        ensures
            r@ == Expr::Add(view_seq(self.members@).push(if false { neg(int_const(rhs)) } else { int_const(rhs) })),
    {
        Node::Addition(self.append::<false>(Node::Constant(Constant::Int(rhs))))
    }
}

impl AddSpecImpl<i64> for Addition {
    open spec fn obeys_add_spec() -> bool {
        false
    }

    open spec fn add_req(self, rhs: i64) -> bool {
        true
    }

    open spec fn add_spec(self, rhs: i64) -> Node {
        Node::Constant(Constant::Int(0))
    }
}

impl std::ops::Sub<Multiplication> for Addition {
    type Output = Node;

    fn sub(self, rhs: Multiplication) -> (r: Node)
        ensures
            r@ == Expr::Add(view_seq(self.members@).push(if true { neg(view_node(Node::Multiplication(rhs))) } else { view_node(Node::Multiplication(rhs)) })),
    {
        Node::Addition(self.append::<true>(Node::Multiplication(rhs)))
    }
}

impl SubSpecImpl<Multiplication> for Addition {
    open spec fn obeys_sub_spec() -> bool {
        false
    }

    open spec fn sub_req(self, rhs: Multiplication) -> bool {
        true
    }

    open spec fn sub_spec(self, rhs: Multiplication) -> Node {
        Node::Constant(Constant::Int(0))
    }
}

impl std::ops::Sub<Power> for Addition {
    type Output = Node;

    fn sub(self, rhs: Power) -> (r: Node)
        ensures
            r@ == Expr::Add(view_seq(self.members@).push(if true { neg(view_node(Node::Power(rhs))) } else { view_node(Node::Power(rhs)) })),
    {
        Node::Addition(self.append::<true>(Node::Power(rhs)))
    }
}

impl SubSpecImpl<Power> for Addition {
    open spec fn obeys_sub_spec() -> bool {
        false
    }

    open spec fn sub_req(self, rhs: Power) -> bool {
        true
    }

    open spec fn sub_spec(self, rhs: Power) -> Node {
        Node::Constant(Constant::Int(0))
    }
}

impl std::ops::Sub<Variable> for Addition {
    type Output = Node;

    fn sub(self, rhs: Variable) -> (r: Node)
        ensures
            r@ == Expr::Add(view_seq(self.members@).push(if true { neg(view_node(Node::Variable(rhs))) } else { view_node(Node::Variable(rhs)) })),
    {
        Node::Addition(self.append::<true>(Node::Variable(rhs)))
    }
}

impl SubSpecImpl<Variable> for Addition {
    open spec fn obeys_sub_spec() -> bool {
        false
    }

    open spec fn sub_req(self, rhs: Variable) -> bool {
        true
    }

    open spec fn sub_spec(self, rhs: Variable) -> Node {
        Node::Constant(Constant::Int(0))
    }
}

impl std::ops::Sub<Constant> for Addition {
    type Output = Node;

    fn sub(self, rhs: Constant) -> (r: Node)
        ensures
            r@ == Expr::Add(view_seq(self.members@).push(if true { neg(view_node(Node::Constant(rhs))) } else { view_node(Node::Constant(rhs)) })),
    {
        Node::Addition(self.append::<true>(Node::Constant(rhs)))
    }
}

impl SubSpecImpl<Constant> for Addition {
    open spec fn obeys_sub_spec() -> bool {
        false
    }

    open spec fn sub_req(self, rhs: Constant) -> bool {
        true
    }

    open spec fn sub_spec(self, rhs: Constant) -> Node {
        Node::Constant(Constant::Int(0))
    }
}

impl std::ops::Sub<Negation> for Addition {
    type Output = Node;

    fn sub(self, rhs: Negation) -> (r: Node)
        ensures
            r@ == Expr::Add(view_seq(self.members@).push(if true { neg(view_node(Node::Negation(rhs))) } else { view_node(Node::Negation(rhs)) })),
    {
        Node::Addition(self.append::<true>(Node::Negation(rhs)))
    }
}

impl SubSpecImpl<Negation> for Addition {
    open spec fn obeys_sub_spec() -> bool {
        false
    }

    open spec fn sub_req(self, rhs: Negation) -> bool {
        true
    }

    open spec fn sub_spec(self, rhs: Negation) -> Node {
        Node::Constant(Constant::Int(0))
    }
}

impl std::ops::Sub<Log> for Addition {
    type Output = Node;

    fn sub(self, rhs: Log) -> (r: Node)
        ensures
            r@ == Expr::Add(view_seq(self.members@).push(if true { neg(view_node(Node::Log(rhs))) } else { view_node(Node::Log(rhs)) })),
    {
        Node::Addition(self.append::<true>(Node::Log(rhs)))
    }
}

impl SubSpecImpl<Log> for Addition {
    open spec fn obeys_sub_spec() -> bool {
        false
    }

    open spec fn sub_req(self, rhs: Log) -> bool {
        true
    }

    open spec fn sub_spec(self, rhs: Log) -> Node {
        Node::Constant(Constant::Int(0))
    }
}

impl std::ops::Sub<i64> for Addition {
    type Output = Node;

    fn sub(self, rhs: i64) -> (r: Node)
        ensures
            r@ == Expr::Add(view_seq(self.members@).push(if true { neg(int_const(rhs)) } else { int_const(rhs) })),
    {
        Node::Addition(self.append::<true>(Node::Constant(Constant::Int(rhs))))
    }
}

impl SubSpecImpl<i64> for Addition {
    open spec fn obeys_sub_spec() -> bool {
        false
    }

    open spec fn sub_req(self, rhs: i64) -> bool {
        true
    }

    open spec fn sub_spec(self, rhs: i64) -> Node {
        Node::Constant(Constant::Int(0))
    }
}

impl std::ops::Mul<Addition> for Multiplication {
    type Output = Node;

    fn mul(self, rhs: Addition) -> (r: Node)
        ensures
            r@ == Expr::Mul(view_seq(self.members@).push(if false { recip(view_node(Node::Addition(rhs))) } else { view_node(Node::Addition(rhs)) })),
    {
        Node::Multiplication(self.append::<false>(Node::Addition(rhs)))
    }
}

impl MulSpecImpl<Addition> for Multiplication {
    open spec fn obeys_mul_spec() -> bool {
        false
    }

    open spec fn mul_req(self, rhs: Addition) -> bool {
        true
    }

    open spec fn mul_spec(self, rhs: Addition) -> Node {
        Node::Constant(Constant::Int(0))
    }
}

impl std::ops::Mul<Power> for Multiplication {
    type Output = Node;

    fn mul(self, rhs: Power) -> (r: Node)
        ensures
            r@ == Expr::Mul(view_seq(self.members@).push(if false { recip(view_node(Node::Power(rhs))) } else { view_node(Node::Power(rhs)) })),
    {
        Node::Multiplication(self.append::<false>(Node::Power(rhs)))
    }
}

impl MulSpecImpl<Power> for Multiplication {
    open spec fn obeys_mul_spec() -> bool {
        false
    }

    open spec fn mul_req(self, rhs: Power) -> bool {
        true
    }

    open spec fn mul_spec(self, rhs: Power) -> Node {
        Node::Constant(Constant::Int(0))
    }
}

impl std::ops::Mul<Variable> for Multiplication {
    type Output = Node;

    fn mul(self, rhs: Variable) -> (r: Node)
        ensures
            r@ == Expr::Mul(view_seq(self.members@).push(if false { recip(view_node(Node::Variable(rhs))) } else { view_node(Node::Variable(rhs)) })),
    {
        Node::Multiplication(self.append::<false>(Node::Variable(rhs)))
    }
}

impl MulSpecImpl<Variable> for Multiplication {
    open spec fn obeys_mul_spec() -> bool {
        false
    }

    open spec fn mul_req(self, rhs: Variable) -> bool {
        true
    }

    open spec fn mul_spec(self, rhs: Variable) -> Node {
        Node::Constant(Constant::Int(0))
    }
}

impl std::ops::Mul<Constant> for Multiplication {
    type Output = Node;

    fn mul(self, rhs: Constant) -> (r: Node)
        ensures
            r@ == Expr::Mul(view_seq(self.members@).push(if false { recip(view_node(Node::Constant(rhs))) } else { view_node(Node::Constant(rhs)) })),
    {
        Node::Multiplication(self.append::<false>(Node::Constant(rhs)))
    }
}

impl MulSpecImpl<Constant> for Multiplication {
    open spec fn obeys_mul_spec() -> bool {
        false
    }

    open spec fn mul_req(self, rhs: Constant) -> bool {
        true
    }

    open spec fn mul_spec(self, rhs: Constant) -> Node {
        Node::Constant(Constant::Int(0))
    }
}

impl std::ops::Mul<Negation> for Multiplication {
    type Output = Node;

    fn mul(self, rhs: Negation) -> (r: Node)
        ensures
            r@ == Expr::Mul(view_seq(self.members@).push(if false { recip(view_node(Node::Negation(rhs))) } else { view_node(Node::Negation(rhs)) })),
    {
        Node::Multiplication(self.append::<false>(Node::Negation(rhs)))
    }
}

impl MulSpecImpl<Negation> for Multiplication {
    open spec fn obeys_mul_spec() -> bool {
        false
    }

    open spec fn mul_req(self, rhs: Negation) -> bool {
        true
    }

    open spec fn mul_spec(self, rhs: Negation) -> Node {
        Node::Constant(Constant::Int(0))
    }
}

impl std::ops::Mul<Log> for Multiplication {
    type Output = Node;

    fn mul(self, rhs: Log) -> (r: Node)
        ensures
            r@ == Expr::Mul(view_seq(self.members@).push(if false { recip(view_node(Node::Log(rhs))) } else { view_node(Node::Log(rhs)) })),
    {
        Node::Multiplication(self.append::<false>(Node::Log(rhs)))
    }
}

impl MulSpecImpl<Log> for Multiplication {
    open spec fn obeys_mul_spec() -> bool {
        false
    }

    open spec fn mul_req(self, rhs: Log) -> bool {
        true
    }

    open spec fn mul_spec(self, rhs: Log) -> Node {
        Node::Constant(Constant::Int(0))
    }
}

impl std::ops::Mul<i64> for Multiplication {
    type Output = Node;

    fn mul(self, rhs: i64) -> (r: Node)
        ensures
            r@ == Expr::Mul(view_seq(self.members@).push(if false { recip(int_const(rhs)) } else { int_const(rhs) })),
    {
        Node::Multiplication(self.append::<false>(Node::Constant(Constant::Int(rhs))))
    }
}

impl MulSpecImpl<i64> for Multiplication {
    open spec fn obeys_mul_spec() -> bool {
        false
    }

    open spec fn mul_req(self, rhs: i64) -> bool {
        true
    }

    open spec fn mul_spec(self, rhs: i64) -> Node {
        Node::Constant(Constant::Int(0))
    }
}

impl std::ops::Div<Addition> for Multiplication {
    type Output = Node;

    fn div(self, rhs: Addition) -> (r: Node)
        ensures
            r@ == Expr::Mul(view_seq(self.members@).push(if true { recip(view_node(Node::Addition(rhs))) } else { view_node(Node::Addition(rhs)) })),
    {
        Node::Multiplication(self.append::<true>(Node::Addition(rhs)))
    }
}

impl DivSpecImpl<Addition> for Multiplication {
    open spec fn obeys_div_spec() -> bool {
        false
    }

    open spec fn div_req(self, rhs: Addition) -> bool {
        true
    }

    open spec fn div_spec(self, rhs: Addition) -> Node {
        Node::Constant(Constant::Int(0))
    }
}

impl std::ops::Div<Power> for Multiplication {
    type Output = Node;

    fn div(self, rhs: Power) -> (r: Node)
        ensures
            r@ == Expr::Mul(view_seq(self.members@).push(if true { recip(view_node(Node::Power(rhs))) } else { view_node(Node::Power(rhs)) })),
    {
        Node::Multiplication(self.append::<true>(Node::Power(rhs)))
    }
}

impl DivSpecImpl<Power> for Multiplication {
    open spec fn obeys_div_spec() -> bool {
        false
    }

    open spec fn div_req(self, rhs: Power) -> bool {
        true
    }

    open spec fn div_spec(self, rhs: Power) -> Node {
        Node::Constant(Constant::Int(0))
    }
}

impl std::ops::Div<Variable> for Multiplication {
    type Output = Node;

    fn div(self, rhs: Variable) -> (r: Node)
        ensures
            r@ == Expr::Mul(view_seq(self.members@).push(if true { recip(view_node(Node::Variable(rhs))) } else { view_node(Node::Variable(rhs)) })),
    {
        Node::Multiplication(self.append::<true>(Node::Variable(rhs)))
    }
}

impl DivSpecImpl<Variable> for Multiplication {
    open spec fn obeys_div_spec() -> bool {
        false
    }

    open spec fn div_req(self, rhs: Variable) -> bool {
        true
    }

    open spec fn div_spec(self, rhs: Variable) -> Node {
        Node::Constant(Constant::Int(0))
    }
}

impl std::ops::Div<Constant> for Multiplication {
    type Output = Node;

    fn div(self, rhs: Constant) -> (r: Node)
        ensures
            r@ == Expr::Mul(view_seq(self.members@).push(if true { recip(view_node(Node::Constant(rhs))) } else { view_node(Node::Constant(rhs)) })),
    {
        Node::Multiplication(self.append::<true>(Node::Constant(rhs)))
    }
}

impl DivSpecImpl<Constant> for Multiplication {
    open spec fn obeys_div_spec() -> bool {
        false
    }

    open spec fn div_req(self, rhs: Constant) -> bool {
        true
    }

    open spec fn div_spec(self, rhs: Constant) -> Node {
        Node::Constant(Constant::Int(0))
    }
}

impl std::ops::Div<Negation> for Multiplication {
    type Output = Node;

    fn div(self, rhs: Negation) -> (r: Node)
        ensures
            r@ == Expr::Mul(view_seq(self.members@).push(if true { recip(view_node(Node::Negation(rhs))) } else { view_node(Node::Negation(rhs)) })),
    {
        Node::Multiplication(self.append::<true>(Node::Negation(rhs)))
    }
}

impl DivSpecImpl<Negation> for Multiplication {
    open spec fn obeys_div_spec() -> bool {
        false
    }

    open spec fn div_req(self, rhs: Negation) -> bool {
        true
    }

    open spec fn div_spec(self, rhs: Negation) -> Node {
        Node::Constant(Constant::Int(0))
    }
}

impl std::ops::Div<Log> for Multiplication {
    type Output = Node;

    fn div(self, rhs: Log) -> (r: Node)
        ensures
            r@ == Expr::Mul(view_seq(self.members@).push(if true { recip(view_node(Node::Log(rhs))) } else { view_node(Node::Log(rhs)) })),
    {
        Node::Multiplication(self.append::<true>(Node::Log(rhs)))
    }
}

impl DivSpecImpl<Log> for Multiplication {
    open spec fn obeys_div_spec() -> bool {
        false
    }

    open spec fn div_req(self, rhs: Log) -> bool {
        true
    }

    open spec fn div_spec(self, rhs: Log) -> Node {
        Node::Constant(Constant::Int(0))
    }
}

impl std::ops::Div<i64> for Multiplication {
    type Output = Node;

    fn div(self, rhs: i64) -> (r: Node)
        ensures
            r@ == Expr::Mul(view_seq(self.members@).push(if true { recip(int_const(rhs)) } else { int_const(rhs) })),
    {
        Node::Multiplication(self.append::<true>(Node::Constant(Constant::Int(rhs))))
    }
}

impl DivSpecImpl<i64> for Multiplication {
    open spec fn obeys_div_spec() -> bool {
        false
    }

    open spec fn div_req(self, rhs: i64) -> bool {
        true
    }

    open spec fn div_spec(self, rhs: i64) -> Node {
        Node::Constant(Constant::Int(0))
    }
}

impl std::ops::BitXor<Addition> for Power {
    type Output = Node;

    fn bitxor(self, rhs: Addition) -> (r: Node)
        ensures
            r@ == pow(view_node(Node::Power(self)), view_node(Node::Addition(rhs))),
    {
        Node::Power(self.append::<false>(Node::Addition(rhs)))
    }
}

impl BitXorSpecImpl<Addition> for Power {
    open spec fn obeys_bitxor_spec() -> bool {
        false
    }

    open spec fn bitxor_req(self, rhs: Addition) -> bool {
        true
    }

    open spec fn bitxor_spec(self, rhs: Addition) -> Node {
        Node::Constant(Constant::Int(0))
    }
}

impl std::ops::BitXor<Multiplication> for Power {
    type Output = Node;

    fn bitxor(self, rhs: Multiplication) -> (r: Node)
        ensures
            r@ == pow(view_node(Node::Power(self)), view_node(Node::Multiplication(rhs))),
    {
        Node::Power(self.append::<false>(Node::Multiplication(rhs)))
    }
}

impl BitXorSpecImpl<Multiplication> for Power {
    open spec fn obeys_bitxor_spec() -> bool {
        false
    }

    open spec fn bitxor_req(self, rhs: Multiplication) -> bool {
        true
    }

    open spec fn bitxor_spec(self, rhs: Multiplication) -> Node {
        Node::Constant(Constant::Int(0))
    }
}

impl std::ops::BitXor<Variable> for Power {
    type Output = Node;

    fn bitxor(self, rhs: Variable) -> (r: Node)
        ensures
            r@ == pow(view_node(Node::Power(self)), view_node(Node::Variable(rhs))),
    {
        Node::Power(self.append::<false>(Node::Variable(rhs)))
    }
}

impl BitXorSpecImpl<Variable> for Power {
    open spec fn obeys_bitxor_spec() -> bool {
        false
    }

    open spec fn bitxor_req(self, rhs: Variable) -> bool {
        true
    }

    open spec fn bitxor_spec(self, rhs: Variable) -> Node {
        Node::Constant(Constant::Int(0))
    }
}

impl std::ops::BitXor<Constant> for Power {
    type Output = Node;

    fn bitxor(self, rhs: Constant) -> (r: Node)
        ensures
            r@ == pow(view_node(Node::Power(self)), view_node(Node::Constant(rhs))),
    {
        Node::Power(self.append::<false>(Node::Constant(rhs)))
    }
}

impl BitXorSpecImpl<Constant> for Power {
    open spec fn obeys_bitxor_spec() -> bool {
        false
    }

    open spec fn bitxor_req(self, rhs: Constant) -> bool {
        true
    }

    open spec fn bitxor_spec(self, rhs: Constant) -> Node {
        Node::Constant(Constant::Int(0))
    }
}

impl std::ops::BitXor<Negation> for Power {
    type Output = Node;

    fn bitxor(self, rhs: Negation) -> (r: Node)
        ensures
            r@ == pow(view_node(Node::Power(self)), view_node(Node::Negation(rhs))),
    {
        Node::Power(self.append::<false>(Node::Negation(rhs)))
    }
}

impl BitXorSpecImpl<Negation> for Power {
    open spec fn obeys_bitxor_spec() -> bool {
        false
    }

    open spec fn bitxor_req(self, rhs: Negation) -> bool {
        true
    }

    open spec fn bitxor_spec(self, rhs: Negation) -> Node {
        Node::Constant(Constant::Int(0))
    }
}

impl std::ops::BitXor<Log> for Power {
    type Output = Node;

    fn bitxor(self, rhs: Log) -> (r: Node)
        ensures
            r@ == pow(view_node(Node::Power(self)), view_node(Node::Log(rhs))),
    {
        Node::Power(self.append::<false>(Node::Log(rhs)))
    }
}

impl BitXorSpecImpl<Log> for Power {
    open spec fn obeys_bitxor_spec() -> bool {
        false
    }

    open spec fn bitxor_req(self, rhs: Log) -> bool {
        true
    }

    open spec fn bitxor_spec(self, rhs: Log) -> Node {
        Node::Constant(Constant::Int(0))
    }
}

impl std::ops::BitXor<i64> for Power {
    type Output = Node;

    fn bitxor(self, rhs: i64) -> (r: Node)
        ensures
            r@ == pow(view_node(Node::Power(self)), int_const(rhs)),
    {
        Node::Power(self.append::<false>(Node::Constant(Constant::Int(rhs))))
    }
}

impl BitXorSpecImpl<i64> for Power {
    open spec fn obeys_bitxor_spec() -> bool {
        false
    }

    open spec fn bitxor_req(self, rhs: i64) -> bool {
        true
    }

    open spec fn bitxor_spec(self, rhs: i64) -> Node {
        Node::Constant(Constant::Int(0))
    }
}

} // verus!
