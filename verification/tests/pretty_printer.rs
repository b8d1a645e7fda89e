use symbolrust::prelude::{Constant, Node, PrettyPrinter, PrettyPrinterContext, Variable};

/// Floats written as Rust's `Display` writes an `f64`.
fn show(bits: u64) -> String {
    f64::from_bits(bits).to_string()
}

#[test]
fn pretty_printer_add_const() {
    let lhs = Constant::from_bits(123.0354f64.to_bits());
    let expr = Node::from(lhs) + Node::from(-12);

    let out = PrettyPrinter::print(&expr, &show);

    assert_eq!(out, "123.0354 + -12");
}

#[test]
fn pretty_printer_mul_const() {
    let lhs = Constant::from_bits(123.0354f64.to_bits());
    let expr = Node::from(lhs) * Node::from(-12);

    let out = PrettyPrinter::print(&expr, &show);

    assert_eq!(out, "123.0354 * -12");
}

#[test]
fn pretty_printer_add_var() {
    let lhs = Variable::new(0);
    let expr = Node::from(lhs) + Node::from(-12);

    let mut pp_context = PrettyPrinterContext::new();
    pp_context.name_var(lhs, "mymatrix".to_string());
    let out = PrettyPrinter::print_with_context(&expr, &pp_context, &show);
    assert_eq!(out, "mymatrix + -12");
}

#[test]
fn pretty_printer_mul_var() {
    let lhs = Variable::new(0);
    let expr = Node::from(lhs) * Node::from(-12);

    let mut pp_context = PrettyPrinterContext::new();
    pp_context.name_var(lhs, "mymatrix".to_string());
    let out = PrettyPrinter::print_with_context(&expr, &pp_context, &show);
    assert_eq!(out, "mymatrix * -12");
}

#[test]
fn pretty_printer_add_mul() {
    let x = Variable::new(0);
    let y = Variable::new(1);

    let expr = Node::from(x) + Node::from(3) * Node::from(y);

    let mut pp_context = PrettyPrinterContext::new();
    pp_context.name_var(x, "x".to_string());
    pp_context.name_var(y, "y".to_string());
    let out = PrettyPrinter::print_with_context(&expr, &pp_context, &show);
    assert_eq!(out, "x + 3 * y");
}

#[test]
fn pretty_printer_mul_add() {
    let x = Variable::new(0);
    let y = Variable::new(1);

    let expr = (Node::from(2) + Node::from(x)) * (Node::from(3) + Node::from(y));

    let mut pp_context = PrettyPrinterContext::new();
    pp_context.name_var(x, "x".to_string());
    pp_context.name_var(y, "y".to_string());
    let out = PrettyPrinter::print_with_context(&expr, &pp_context, &show);
    assert_eq!(out, "(2 + x) * (3 + y)");
}
