use symbolrust::precedence::Precedence;
use symbolrust::constant::{E_BITS, PI_BITS};
use symbolrust::prelude::{
    Addition, Constant, ConstantFolder, Context, Derivator, Evaluator, Exponential, FloatOp,
    Function, FunctionError, Inverse, Log, Multiplication, Negation, Node, Power, PrettyPrinter,
    PrettyPrinterContext, Variable,
};

fn arith(op: FloatOp) -> u64 {
    match op {
        FloatOp::FromInt(i) => (i as f64).to_bits(),
        FloatOp::Add(a, b) => (f64::from_bits(a) + f64::from_bits(b)).to_bits(),
        FloatOp::Mul(a, b) => (f64::from_bits(a) * f64::from_bits(b)).to_bits(),
        FloatOp::Recip(a) => (1.0 / f64::from_bits(a)).to_bits(),
        FloatOp::Log2(a) => f64::from_bits(a).log2().to_bits(),
        FloatOp::Powi(a, n) => f64::from_bits(a).powi(n).to_bits(),
        FloatOp::Powf(a, b) => f64::from_bits(a).powf(f64::from_bits(b)).to_bits(),
    }
}

fn show(bits: u64) -> String {
    f64::from_bits(bits).to_string()
}

fn var(i: usize) -> Node {
    Node::from(Variable::new(i))
}

fn num(i: i64) -> Node {
    Node::from(i)
}

fn fp(x: f64) -> Node {
    Node::from(Constant::from_bits(x.to_bits()))
}

fn names() -> PrettyPrinterContext {
    let mut c = PrettyPrinterContext::new();
    c.name_var(Variable::new(0), "x".to_string());
    c.name_var(Variable::new(1), "y".to_string());
    c.name_var(Variable::new(2), "z".to_string());
    c
}

fn text(n: &Node) -> String {
    PrettyPrinter::print_with_context(n, &names(), &show)
}

#[test]
fn sums_take_two_operands() {
    let n = var(0) + var(1);
    assert_eq!(n, Node::Addition(Addition::new(vec![var(0), var(1)])));
    let n = var(0) + num(4);
    assert_eq!(text(&n), "x + 4");
}

#[test]
fn difference_negates_the_right_operand() {
    let n = var(0) - (var(1) + var(2));
    assert_eq!(n, Node::Addition(Addition::new(vec![var(0), -(var(1) + var(2))])));
    assert_eq!(text(&n), "x + -y + z");
}

#[test]
fn compound_assignment_merges_sums() {
    let mut n = var(0) + var(1);
    n += var(2) + num(4);
    match &n {
        Node::Addition(a) => assert_eq!(a.members.len(), 4),
        _ => panic!("expected a sum"),
    }
    assert_eq!(text(&n), "x + y + z + 4");
    let mut d = var(0);
    d -= var(1) + var(2);
    assert_eq!(d, Node::Addition(Addition::new(vec![var(0), -var(1), -var(2)])));
    let mut p = var(0);
    p *= var(1);
    p /= var(2);
    assert_eq!(text(&p), "x * y * z^-1");
    let mut q = var(0);
    q ^= num(2);
    assert_eq!(text(&q), "x^2");
}

#[test]
fn operators_with_integers() {
    assert_eq!(var(0) + 3, var(0) + num(3));
    assert_eq!(3 - var(0), num(3) - var(0));
    assert_eq!(-12 * var(1), num(-12) * var(1));
    assert_eq!(var(1) / 2, var(1) / num(2));
    assert_eq!(2 ^ var(1), num(2) ^ var(1));
}

#[test]
fn quotient_inverts_each_factor() {
    let n = var(0) / (var(1) * var(2));
    let expected = Node::Multiplication(Multiplication::new(vec![
        var(0),
        Node::Power(Power::inverse(var(1))),
        Node::Power(Power::inverse(var(2))),
    ]));
    assert_eq!(n, expected);
    assert_eq!(text(&n), "x * y^-1 * z^-1");
}

#[test]
fn powers_are_not_flattened() {
    let n = (var(0) ^ num(2)) ^ num(3);
    assert_eq!(text(&n), "x^2^3");
    let p = Power::from_binary::<false>(var(0), num(2));
    assert_eq!(Node::Power(p), var(0) ^ num(2));
}

#[test]
fn append_prepend_fuse() {
    let a = Addition::from_binary::<false>(var(0), var(1));
    let a = a.append::<true>(var(2));
    assert_eq!(text(&Node::Addition(a)), "x + y + -z");

    let m = Multiplication::from_binary::<false>(var(1), var(2));
    let m = m.prepend::<true>(var(0));
    assert_eq!(text(&Node::Multiplication(m)), "x * y^-1 * z^-1");

    let l = Addition::new(vec![var(0), num(1)]);
    let r = Addition::new(vec![var(1), num(2)]);
    assert_eq!(text(&Node::Addition(Addition::fuse::<true>(l, r))), "x + 1 + -y + -2");
}

#[test]
fn power_helpers() {
    assert_eq!(
        Node::Power(Power::exp(var(0))),
        Node::Power(Power::new(Node::Constant(Constant::Fp(E_BITS)), var(0)))
    );
    assert_eq!(text(&Node::Power(Power::exp(var(0)))), "exp(x)");
    assert_eq!(text(&Node::Power(Power::inverse(var(0)))), "x^-1");
    let p = Power::new(var(0), num(2));
    assert_eq!(text(&Node::Power(p.append::<false>(var(1)))), "x^2^y");
    let p = Power::new(var(0), num(2));
    assert_eq!(text(&Node::Power(p.prepend::<false>(var(1)))), "y^x^2");
    let f = Power::fuse::<false>(Power::new(var(0), num(2)), Power::new(var(1), num(3)));
    assert_eq!(text(&Node::Power(f)), "x^2^y^3");
}

#[test]
fn printer_writes_each_kind() {
    assert_eq!(text(&-var(0)), "-x");
    assert_eq!(text(&Node::Log(Log::new(var(1)))), "ln(y)");
    assert_eq!(text(&num(0)), "0");
    assert_eq!(text(&num(i64::MIN)), "-9223372036854775808");
    assert_eq!(text(&num(i64::MAX)), "9223372036854775807");
    assert_eq!(text(&fp(2.5)), "2.5");
    assert_eq!(text(&Node::Constant(Constant::Pi)), std::f64::consts::PI.to_string());
    assert_eq!(text(&Node::Constant(Constant::E)), std::f64::consts::E.to_string());
    assert_eq!(PrettyPrinter::print(&var(0), &show), "{undefined}");
    assert_eq!(text(&var(7)), "{undefined}");
    // a product inside a product keeps its parentheses, a power inside a product does not
    let inner = Node::Multiplication(Multiplication::new(vec![var(1), var(2)]));
    let n = Node::Multiplication(Multiplication::new(vec![var(0), inner, var(0) ^ num(2)]));
    assert_eq!(text(&n), "x * (y * z) * x^2");
    let pp_names = names();
    let pp = PrettyPrinter::new(&pp_names);
    assert_eq!(pp.format(&(var(0) + var(1)), &show), "x + y");
}

#[test]
fn printer_context_maps() {
    let mut c = PrettyPrinterContext::new();
    c.name_var(Variable::new(3), "a".to_string());
    c.name_var(Variable::new(3), "b".to_string());
    assert_eq!(c.as_map().get(&3), Some(&"b".to_string()));
    c.as_mut_map().insert(4, "q".to_string());
    assert_eq!(c.as_map().len(), 2);
}

#[test]
fn constant_text() {
    assert_eq!(Constant::new(0).to_string(&show), "0");
    assert_eq!(Constant::new(-7).to_string(&show), "-7");
    assert_eq!(Constant::new(1234567890).to_string(&show), "1234567890");
    assert_eq!(Constant::new(i64::MIN).to_string(&show), i64::MIN.to_string());
    assert_eq!(Constant::from_bits(2.5f64.to_bits()).to_string(&show), "2.5");
    assert_eq!(Constant::Pi.to_string(&show), std::f64::consts::PI.to_string());
}

#[test]
fn fold_product_with_zero_is_zero() {
    let n = var(0) * num(0) * Node::Log(Log::new(var(1)));
    assert_eq!(ConstantFolder::fold(&n, &arith), num(0));
}

#[test]
fn fold_sum_to_zero() {
    let n = num(3) + num(-3);
    assert_eq!(ConstantFolder::fold(&n, &arith), num(0));
    let mut n = var(0) + num(2);
    n += num(-2);
    assert_eq!(ConstantFolder::fold(&n, &arith), var(0));
}

#[test]
fn fold_product_by_one() {
    let n = var(0) * num(1);
    assert_eq!(ConstantFolder::fold(&n, &arith), var(0));
    let n = num(2) * var(0) * num(3);
    assert_eq!(ConstantFolder::fold(&n, &arith), var(0) * num(6));
}

#[test]
fn fold_mixed_constants() {
    let mut n = num(2) + fp(0.5);
    n += var(0);
    assert_eq!(ConstantFolder::fold(&n, &arith), var(0) + fp(2.5));
    let n = num(2) * fp(0.25) * var(0);
    assert_eq!(ConstantFolder::fold(&n, &arith), var(0) * fp(0.5));
}

#[test]
fn fold_powers() {
    assert_eq!(ConstantFolder::fold(&(num(2) ^ num(10)), &arith), num(1024));
    assert_eq!(ConstantFolder::fold(&(num(2) ^ num(-2)), &arith), fp(0.25));
    assert_eq!(ConstantFolder::fold(&(fp(1.5) ^ num(2)), &arith), fp(2.25));
    assert_eq!(ConstantFolder::fold(&(fp(4.0) ^ fp(0.5)), &arith), fp(2.0));
    assert_eq!(ConstantFolder::fold(&(num(4) ^ fp(0.5)), &arith), fp(2.0));
    assert_eq!(ConstantFolder::fold(&(var(0) ^ num(0)), &arith), num(1));
    assert_eq!(ConstantFolder::fold(&(var(0) ^ (num(0) + num(1))), &arith), var(0));
    // other exponents leave the power as it was, children unfolded
    let mut base = var(0) + num(1);
    base += num(1);
    let n = base ^ num(3);
    assert_eq!(ConstantFolder::fold(&n, &arith), n);
}

#[test]
fn fold_negations() {
    assert_eq!(ConstantFolder::fold(&-num(5), &arith), num(-5));
    assert_eq!(ConstantFolder::fold(&-fp(2.0), &arith), fp(-2.0));
    // of a double negation the inner negation is kept
    assert_eq!(ConstantFolder::fold(&-(-var(0)), &arith), -var(0));
    // the operand of a negation is not folded
    let n = -(num(1) + num(2));
    assert_eq!(ConstantFolder::fold(&n, &arith), n);
}

#[test]
fn fold_logs() {
    assert_eq!(ConstantFolder::fold(&Node::Log(Log::new(num(8))), &arith), fp(3.0));
    assert_eq!(ConstantFolder::fold(&Node::Log(Log::new(fp(0.5))), &arith), fp(-1.0));
    let n = Node::Log(Log::new(var(0) * num(1)));
    assert_eq!(ConstantFolder::fold(&n, &arith), Node::Log(Log::new(var(0))));
}

#[test]
fn fold_to_numbers() {
    let to_int = |b: u64| f64::from_bits(b) as i64;
    assert_eq!(ConstantFolder::fold_i64(&(num(7) * num(6)), &arith, &to_int), Some(42));
    assert_eq!(ConstantFolder::fold_i64(&(fp(2.75) * num(2)), &arith, &to_int), Some(5));
    assert_eq!(ConstantFolder::fold_i64(&var(0), &arith, &to_int), None);
    assert_eq!(ConstantFolder::fold_f64(&num(3), &arith), Some(3.0f64.to_bits()));
    assert_eq!(ConstantFolder::fold_f64(&var(0), &arith), None);
}

#[test]
fn fold_keeps_integer_value() {
    // (x + 2 + 3) * 1 * (4 - 4 + x) at x = 5 is 50 before and after folding
    let mut first = var(0) + num(2);
    first += num(3);
    let mut second = num(4) - num(4);
    second += var(0);
    let n = first * num(1) * second;
    let folded = ConstantFolder::fold(&n, &arith);
    assert_eq!(folded, (var(0) + num(5)) * var(0));
    let mut ctx = Context::new();
    let x = ctx.new_var("x".to_string());
    ctx.assign(x, num(5));
    let value = ConstantFolder::fold(&Evaluator::evaluate(&folded, &ctx), &arith);
    let before = ConstantFolder::fold(&Evaluator::evaluate(&n, &ctx), &arith);
    assert_eq!(value, num(50));
    assert_eq!(before, num(50));
}

#[test]
fn derivative_of_polynomial() {
    // d/dx (x * x * y + -3 * x) at x = 4, y = 5 is 2 * 4 * 5 - 3 = 37
    let n = var(0) * var(0) * var(1) + num(-3) * var(0);
    let d = Derivator::new(Variable::new(0)).derive(&n);
    let mut ctx = Context::new();
    let x = ctx.new_var("x".to_string());
    let y = ctx.new_var("y".to_string());
    ctx.assign(x, num(4));
    ctx.assign(y, num(5));
    let value = ConstantFolder::fold(&Evaluator::evaluate(&d, &ctx), &arith);
    assert_eq!(value, num(37));
}

#[test]
fn derivative_shapes() {
    let d = Derivator::new(Variable::new(0));
    assert_eq!(d.derive(&num(7)), num(0));
    assert_eq!(d.derive(&var(0)), num(1));
    assert_eq!(d.derive(&var(1)), num(0));
    assert_eq!(d.derive(&-var(0)), -num(1));
    let ln = Node::Log(Log::new(var(0)));
    assert_eq!(d.derive(&ln), num(1) / Node::Log(Log::new(var(0))));
    // (x^2)' = x^2 * (0 * ln(x) + 1 * 2 / x)
    let p = var(0) ^ num(2);
    let expected = (var(0) ^ num(2))
        * ((num(0) * Node::Log(Log::new(var(0)))) + ((num(1) * num(2)) / var(0)));
    assert_eq!(d.derive(&p), expected);
    // the folder leaves the operand of a negation alone
    let n = -(num(3) * var(0));
    let folded = ConstantFolder::fold(&d.derive(&n), &arith);
    assert_eq!(text(&folded), "-0 * x + 3 * 1");
    let value = ConstantFolder::fold(&d.derive(&p), &arith);
    assert_eq!(text(&value), "x^2 * (x^-1 * 2)");
}

#[test]
fn context_names() {
    let mut c = Context::new();
    let x = c.new_var("x".to_string());
    let y = c.new_var("y".to_string());
    let x2 = c.new_var("x".to_string());
    assert_eq!(x, x2);
    assert_ne!(x, y);
    assert_eq!(x.as_raw(), 0);
    assert_eq!(y.as_raw(), 1);
    assert_eq!(c.get_name(y), Some(&"y".to_string()));
    assert_eq!(c.get_name(Variable::new(9)), None);
    assert_eq!(c.as_printer().as_map().len(), 2);
    assert_eq!(c.value(&x), None);
    c.assign(x, num(3));
    assert_eq!(c.value(&x), Some(&num(3)));
    assert_eq!(c.values().len(), 1);
    assert_eq!(c.print(&(Node::from(x) + Node::from(y)), &show), "x + y");
}

#[test]
fn evaluate_without_values_is_identity() {
    let c = Context::new();
    let n = (var(0) + num(1)) * Node::Log(Log::new(var(1) ^ num(2)));
    assert_eq!(Evaluator::evaluate(&n, &c), n);
}

#[test]
fn functions_from_args() {
    assert_eq!(
        Exponential::from_args(vec![var(0)]),
        Ok(Node::Power(Power::exp(var(0))))
    );
    assert_eq!(
        Exponential::from_args(vec![var(0), var(1)]),
        Err(FunctionError::WrongNumberArguments)
    );
    assert_eq!(Exponential::from_args(vec![]), Err(FunctionError::WrongNumberArguments));
    assert_eq!(
        Exponential::description(),
        "Natural exponential function - takes only one scalar as arg"
    );
    assert_eq!(Log::from_args(vec![var(0)]), Ok(Node::Log(Log::new(var(0)))));
    assert_eq!(Log::from_args(vec![]), Err(FunctionError::WrongNumberArguments));
}

#[test]
fn constants_and_nodes() {
    assert_eq!(Constant::new(4), Constant::Int(4));
    assert_eq!(Constant::Int(4).float_bits(), None);
    assert_eq!(Constant::E.float_bits(), Some(std::f64::consts::E.to_bits()));
    assert_eq!(Constant::Pi.float_bits(), Some(PI_BITS));
    assert_eq!(PI_BITS, std::f64::consts::PI.to_bits());
    assert_eq!(E_BITS, std::f64::consts::E.to_bits());
    assert!(Node::zero().is_zero());
    assert!(Node::one().is_one());
    assert!(!Node::one().is_zero());
    assert_eq!((var(0) + var(1)).precedence(), Some(50));
    assert_eq!((var(0) * var(1)).precedence(), Some(100));
    assert_eq!((var(0) ^ var(1)).precedence(), Some(150));
    assert_eq!(var(0).precedence(), None);
    let n = (var(0) + num(1)) * -Node::Log(Log::new(var(1)));
    assert_eq!(n.duplicate(), n);
    let g = Negation::new(var(2));
    assert_eq!(Node::from(g), -var(2));
    assert_eq!(-Negation::new(var(2)), var(2));
}

#[test]
fn operators_on_references_and_kinds() {
    let x = var(0);
    let y = var(1);
    assert_eq!(&x + &y, var(0) + var(1));
    assert_eq!(&x - y.duplicate(), var(0) - var(1));
    assert_eq!(x.duplicate() * &y, var(0) * var(1));
    assert_eq!(&x / &y, var(0) / var(1));
    assert_eq!(&x ^ &y, var(0) ^ var(1));
    assert_eq!(-&x, -var(0));
    let s = Addition::new(vec![var(0), var(1)]);
    assert_eq!(s + var(2), Node::Addition(Addition::new(vec![var(0), var(1), var(2)])));
    let s = Addition::new(vec![var(0), var(1)]);
    let t = Addition::new(vec![var(2), num(3)]);
    assert_eq!(s - t, Node::Addition(Addition::new(vec![var(0), var(1), -var(2), -num(3)])));
    let p = Multiplication::new(vec![var(0), var(1)]);
    assert_eq!(text(&(p / var(2))), "x * y * z^-1");
    let p = Power::new(var(0), num(2));
    assert_eq!(text(&(p ^ var(1))), "x^2^y");
    assert_eq!(-Variable::new(0), -var(0));
    assert_eq!(-Constant::new(4), -num(4));
    assert_eq!(-Log::new(var(0)), -Node::Log(Log::new(var(0))));
    let mut n = var(0) + var(1);
    n += 3;
    assert_eq!(text(&n), "x + y + 3");
    n -= 1;
    assert_eq!(text(&n), "x + y + 3 + -1");
    let mut m = var(0);
    m *= 2;
    m /= 4;
    m ^= 2;
    assert_eq!(text(&m), "x * 2 * 4^-1^2");
}

#[test]
fn inverse_and_visitor() {
    let inv = Inverse::new(var(0));
    assert_eq!(*inv.val, var(0));
    let mut ctx = Context::new();
    let x = ctx.new_var("x".to_string());
    ctx.assign(x, num(7));
    let ev = Evaluator::new(&ctx);
    let n = var(0) + num(1);
    assert_eq!(n.accept_visitor(&ev), Some(num(7) + num(1)));
    assert_eq!(var(0).accept_visitor(&ev), Some(num(7)));
}

#[test]
fn operators_between_kinds_and_integers() {
    let x = Variable::new(0);
    let y = Variable::new(1);
    assert_eq!(x + 3, var(0) + num(3));
    assert_eq!(2 * y, num(2) * var(1));
    assert_eq!(x - y, var(0) - var(1));
    assert_eq!(Constant::new(2) ^ x, num(2) ^ var(0));
    assert_eq!(Log::new(var(0)) / 2, Node::Log(Log::new(var(0))) / num(2));
    let s = Addition::new(vec![var(0), var(1)]);
    assert_eq!(text(&(s + 3)), "x + y + 3");
    let p = Multiplication::new(vec![var(0), var(1)]);
    assert_eq!(text(&(p * y)), "x * y * y");
    let q = Power::new(var(0), num(2));
    assert_eq!(text(&(q ^ 3)), "x^2^3");
}

#[test]
fn precedence_and_clone() {
    assert_eq!(Addition::new(vec![var(0), var(1)]).precedence(), Some(50));
    assert_eq!(Multiplication::new(vec![var(0), var(1)]).precedence(), Some(100));
    assert_eq!(Power::new(var(0), var(1)).precedence(), Some(150));
    assert_eq!(Variable::new(0).precedence(), None);
    assert_eq!(Log::new(var(0)).precedence(), None);
    let n = (var(0) + num(1)) * var(1);
    assert_eq!(n.clone(), n);
}
