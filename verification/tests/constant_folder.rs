use symbolrust::prelude::{Constant, ConstantFolder, FloatOp, Node, Variable};

/// Binary64 arithmetic on bit patterns, as the folder asks for it.
fn arith(op: FloatOp) -> u64 {
    match op {
        FloatOp::FromInt(i) => (i as f64).to_bits(),
        FloatOp::Add(a, b) => (f64::from_bits(a) + f64::from_bits(b)).to_bits(),
        FloatOp::Mul(a, b) => (f64::from_bits(a) * f64::from_bits(b)).to_bits(),
        FloatOp::Recip(a) => (1.0 / f64::from_bits(a)).to_bits(),
        FloatOp::Log2(a) => f64::from_bits(a).log2().to_bits(),
        FloatOp::Powi(a, n) => f64::from_bits(a).powi(n).to_bits(),
        FloatOp::Powf(a, b) => f64::from_bits(a).powf(f64::from_bits(b)).to_bits(),
    }
}

fn fp(x: f64) -> Constant {
    Constant::from_bits(x.to_bits())
}

fn fold(n: &Node) -> Node {
    ConstantFolder::fold(n, &arith)
}

fn fold_f64(n: &Node) -> Option<f64> {
    ConstantFolder::fold_f64(n, &arith).map(f64::from_bits)
}

fn close(a: f64, b: f64) -> bool {
    (a - b).abs() <= 1e-4
}

#[test]
fn constant_folder_fi_add() {
    let lhs = fp(123.0354);
    let rhs: i64 = -12;
    let expr_fi = Node::from(lhs) + Node::from(rhs);
    let expr_if = Node::from(rhs) + Node::from(lhs);

    let folded_fi = fold(&expr_fi);
    let folded_if = fold(&expr_if);
    let expected = fp(123.0354 - 12_f64);
    assert_eq!(folded_fi, Node::Constant(expected));
    assert_eq!(folded_fi, folded_if);
}

#[test]
fn constant_folder_fi_sub() {
    let lhs = fp(123.0354);
    let rhs: i64 = 12;
    let expr_fi = Node::from(lhs) - Node::from(rhs);
    let expr_if = Node::from(-rhs) + Node::from(lhs);

    let folded_fi = fold(&expr_fi);
    let folded_if = fold(&expr_if);
    let expected = fp(123.0354 - 12_f64);
    assert_eq!(folded_fi, Node::Constant(expected));
    assert_eq!(folded_fi, folded_if);
}

#[test]
fn constant_folder_fi_mul() {
    let lhs = fp(123.0354);
    let rhs: i64 = -12;
    let expr_fi = Node::from(lhs) * Node::from(rhs);
    let expr_if = Node::from(rhs) * Node::from(lhs);

    let folded_fi = fold(&expr_fi);
    let folded_if = fold(&expr_if);
    let expected = fp(123.0354 * -12.0);
    assert_eq!(folded_fi, Node::Constant(expected));
    assert_eq!(folded_fi, folded_if);
}

#[test]
fn constant_folder_fi_div() {
    let lhs = fp(123.0354);
    let rhs: i64 = -12;

    {
        let expr_fi = Node::from(lhs) / Node::from(rhs);
        let folded_fi = fold_f64(&expr_fi).unwrap();
        let expected_fi = 123.0354 / -12.0;
        assert!(close(folded_fi, expected_fi));
    }

    {
        let expr_if = Node::from(rhs) / Node::from(lhs);
        let folded_if = fold_f64(&expr_if).unwrap();
        let expected_if = -12.0 / 123.0354;
        assert!(close(folded_if, expected_if));
    }
}

#[test]
fn constant_folder_ii_add() {
    let lhs = Constant::new(234);
    let rhs: i64 = -12;
    let expr = Node::from(lhs) + Node::from(rhs);

    let folded = fold(&expr);
    let expected = Constant::new(222);
    assert_eq!(folded, Node::Constant(expected));
}

#[test]
fn constant_folder_ii_sub() {
    let lhs = Constant::new(234);
    let rhs: i64 = 12;
    let expr = Node::from(lhs) - Node::from(rhs);

    let folded = fold(&expr);
    let expected = Constant::new(222);
    assert_eq!(folded, Node::Constant(expected));
}

#[test]
fn constant_folder_ii_mul() {
    let lhs = Constant::new(234);
    let rhs: i64 = -12;
    let expr = Node::from(lhs) * Node::from(rhs);

    let folded = fold(&expr);
    let expected = Constant::new(-12 * 234);
    assert_eq!(folded, Node::Constant(expected));
}

#[test]
fn constant_folder_ii_div() {
    let lhs = Constant::new(234);
    let rhs: i64 = -12;
    let expr = Node::from(lhs) / Node::from(rhs);

    let folded = fold_f64(&expr).unwrap();
    let expected = 234.0 / -12.0;
    assert!(close(folded, expected));
}

#[test]
fn constant_folder_with_variable_add() {
    let lhs = Variable::new(0);
    let rhs: i64 = -12;
    let expr = Node::from(lhs) + Node::from(rhs);

    let folded = fold(&expr);
    assert_eq!(folded, expr);
}

#[test]
fn constant_folder_with_variable_sub() {
    let lhs = Variable::new(0);
    let rhs: i64 = -12;
    let expr = Node::from(lhs) - Node::from(rhs);

    let folded = fold(&expr);
    let expected = Node::from(lhs) + Node::from(12);
    assert_eq!(folded, expected);
}

#[test]
fn constant_folder_with_variable_mul() {
    let lhs = Variable::new(0);
    let rhs: i64 = -12;
    let expr = Node::from(lhs) * Node::from(rhs);

    let folded = fold(&expr);
    assert_eq!(folded, expr);
}

#[test]
fn constant_folder_with_variable_div() {
    let lhs = Variable::new(0);
    let rhs: i64 = -12;
    let expr = Node::from(lhs) / Node::from(rhs);

    let folded = fold(&expr);
    let expected = Node::from(lhs) * Node::from(fp(-1.0 / 12.0));
    assert_eq!(folded, expected);
}

#[test]
fn constant_folder_add_mul() {
    let x = Constant::new(1);
    let expr = (Node::from(x) + Node::from(2)) * Node::from(10);

    let folded = fold(&expr);
    assert_eq!(folded, Node::Constant(Constant::new(30)));
}

#[test]
fn constant_folder_sub_mul() {
    let x = Constant::new(1);
    let expr = (Node::from(x) - Node::from(2)) * Node::from(10);

    let folded = fold(&expr);
    assert_eq!(folded, Node::Constant(Constant::new(-10)));
}

#[test]
fn constant_folder_add_div() {
    let x = Constant::new(1);
    let expr = (Node::from(x) + Node::from(2)) / Node::from(10);

    let folded = fold_f64(&expr).unwrap();
    assert!(close(folded, 0.3));
}

#[test]
fn constant_folder_sub_div() {
    let x = Constant::new(1);
    let expr = (Node::from(x) - Node::from(2)) / Node::from(10);

    let folded = fold(&expr);
    assert_eq!(folded, Node::Constant(fp(-0.1)));
}
