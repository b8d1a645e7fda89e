use symbolrust::prelude::{ConstantFolder, Context, Derivator, Evaluator, FloatOp, Node, Variable};

fn arith(op: FloatOp) -> u64 {
    match op {
        FloatOp::FromInt(i) => (i as f64).to_bits(),
        FloatOp::Add(a, b) => (f64::from_bits(a) + f64::from_bits(b)).to_bits(),
        FloatOp::Mul(a, b) => (f64::from_bits(a) * f64::from_bits(b)).to_bits(),
        FloatOp::Recip(a) => (1.0 / f64::from_bits(a)).to_bits(),
        FloatOp::Log2(a) => f64::from_bits(a).log2().to_bits(),
        FloatOp::Powi(a, n) => f64::from_bits(a).powi(n).to_bits(),
        FloatOp::Powf(a, b) => f64::from_bits(a).powf(f64::from_bits(b)).to_bits(),
    }
}

#[test]
fn derive_complete() {
    let mut variables = Context::new();
    let x = variables.new_var("x".to_string());
    let y = variables.new_var("y".to_string());
    let rhs = Node::from(-12) * Node::from(y);

    // g(x, y) = x - 12y
    let expr = Node::from(x) + rhs;

    let fx = Node::from(x) + Node::from(3);
    variables.assign(y, fx);

    // h(x) = g(x, f(x)) = x - 12 * (3 + x) = -(11x + 36)
    // dh/dx = -11
    let evaluator = Evaluator::new(&variables);
    let derivator = Derivator::new(x);
    let expr = evaluator.eval(&expr);
    let expr = derivator.derive(&expr);
    let expr = ConstantFolder::fold(&expr, &arith);

    assert_eq!(expr, Node::from(-11));
}

#[test]
fn derive_incomplete() {
    let x = Variable::new(0);
    let y = Variable::new(1);

    // g(x, y) = x - 12y
    let expr = Node::from(x) + Node::from(y) * Node::from(-12);

    // dg/dx = 1
    let derivator = Derivator::new(x);
    let expr = derivator.derive(&expr);
    let expr = ConstantFolder::fold(&expr, &arith);

    assert_eq!(expr, Node::from(1));
}

#[test]
fn evaluate_complete() {
    let mut variables = Context::new();
    let x = variables.new_var("x".to_string());
    let y = variables.new_var("y".to_string());
    let rhs = Node::from(-12) * Node::from(y);

    let fx = Node::from(x) + Node::from(3);
    variables.assign(y, fx);

    variables.assign(x, Node::from(23));

    // g(x, y) = x - 12y
    let expr = Node::from(x) + rhs;

    let evaluator = Evaluator::new(&variables);
    let evaluate = evaluator.eval(&expr);
    let evaluate_folded = ConstantFolder::fold(&evaluate, &arith);

    // h(x) = g(x, f(x)) = x - 12 * (3 + x) = -(11x + 36)
    // h(23) = -289
    assert_eq!(evaluate_folded, Node::from(-289));
}

#[test]
fn evaluate_incomplete() {
    let mut variables = Context::new();
    let x = variables.new_var("x".to_string());
    let y = variables.new_var("y".to_string());
    let rhs = Node::from(-12) * Node::from(y);

    // g(x, y) = x - 12y
    let expr = Node::from(x) + rhs;
    assert_eq!(expr, Node::from(x) + Node::from(-12) * Node::from(y));

    variables.assign(x, Node::from(23));

    let evaluator = Evaluator::new(&variables);
    let evaluate = evaluator.eval(&expr);

    let expected = Node::from(23) + Node::from(-12) * Node::from(y);
    assert_eq!(evaluate, expected);
}
