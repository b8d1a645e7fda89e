use symbolrust::constant::E_BITS;
use symbolrust::context::Context;
use symbolrust::node::Node;
use symbolrust::ops::{Power, Variable};
use symbolrust::parser::grammar::ParseError;
use symbolrust::parser::reader::{parse, parse_line, try_parse, try_parse_line, UserInput};

fn number(text: &str) -> u64 {
    text.parse::<f64>().unwrap().to_bits()
}

fn show(bits: u64) -> String {
    f64::from_bits(bits).to_string()
}

fn fp(x: f64) -> Node {
    Node::Constant(symbolrust::constant::Constant::Fp(x.to_bits()))
}

fn read(text: &str, ctx: &mut Context) -> Result<Node, ParseError> {
    let chars: Vec<char> = text.chars().collect();
    parse(&chars, ctx, &number)
}

fn try_read(text: &str, ctx: &mut Context) -> Result<Node, ParseError> {
    let chars: Vec<char> = text.chars().collect();
    try_parse(&chars, ctx, &number)
}

#[test]
fn parse_cli_example() {
    let mut ctx = Context::new();
    // `x - 3*y` is a sum, which `+` does not take as its left operand.
    assert_eq!(try_read(" x- 3*y + exp(5*z / -2.0e2)", &mut ctx), Err(ParseError::NestedSum(8)));
    let n = read(" x- 3*y * exp(5*z / -2.0e2)", &mut ctx).unwrap();
    assert_eq!(ctx.print(&n, &show), "x + -3 * y * exp(5 * z * -200^-1)");
    assert_eq!(ctx.num_variables(), 3);
}

#[test]
fn parse_precedence_and_grouping() {
    let mut ctx = Context::new();
    let x = Node::from(Variable::new(0));
    let n = read("x + 2 * x ^ 3 ^ 2", &mut ctx).unwrap();
    let x2 = Node::from(Variable::new(0));
    let x3 = Node::from(Variable::new(0));
    let expected = x + fp(2.0) * (x2 ^ (fp(3.0) ^ fp(2.0)));
    assert_eq!(n, expected);
    drop(x3);
    let n = read("(x + 1) * 2", &mut ctx).unwrap();
    assert_eq!(ctx.print(&n, &show), "(x + 1) * 2");
    let n = read("8 - (2 - 1)", &mut ctx).unwrap();
    assert_eq!(ctx.print(&n, &show), "8 + -2 + -1");
    assert_eq!(try_read("8 - 2 - 1", &mut ctx), Err(ParseError::NestedSum(6)));
    assert_eq!(try_read("1 + (2 + 3)", &mut ctx), Err(ParseError::NestedSum(2)));
}

#[test]
fn parse_exp_call() {
    let mut ctx = Context::new();
    let n = read("exp(x)", &mut ctx).unwrap();
    assert_eq!(n, Node::Power(Power::exp(Node::from(Variable::new(0)))));
    let n = read("exp (1)", &mut ctx).unwrap();
    assert_eq!(n, Node::Power(Power::new(Node::Constant(symbolrust::constant::Constant::Fp(E_BITS)), fp(1.0))));
}

#[test]
fn parse_errors() {
    let mut ctx = Context::new();
    assert_eq!(try_read("sin(x)", &mut ctx), Err(ParseError::UnknownFunction));
    assert_eq!(try_read("exp(x, y)", &mut ctx), Err(ParseError::WrongNumberArguments));
    assert_eq!(try_read("exp()", &mut ctx), Err(ParseError::WrongNumberArguments));
    // a syntax error is reported before a failure to build
    assert_eq!(try_read("sin(x) )", &mut ctx), Err(ParseError::Syntax(7)));
    assert_eq!(try_read("1 + (2 + 3) +", &mut ctx), Err(ParseError::Syntax(13)));
    // a syntax error leaves the names as they were
    let before = ctx.num_variables();
    assert_eq!(try_read("newname +", &mut ctx), Err(ParseError::Syntax(9)));
    assert_eq!(ctx.num_variables(), before);
    assert_eq!(read("x +", &mut ctx), Err(ParseError::Syntax(3)));
    assert_eq!(read("x y", &mut ctx), Err(ParseError::Syntax(2)));
    assert_eq!(read("(x", &mut ctx), Err(ParseError::Syntax(2)));
    assert_eq!(read("", &mut ctx), Err(ParseError::Syntax(0)));
    assert_eq!(read("-x", &mut ctx), Err(ParseError::Syntax(0)));
}

#[test]
fn parse_numbers() {
    let mut ctx = Context::new();
    assert_eq!(read("1.5e3", &mut ctx), Ok(fp(1500.0)));
    assert_eq!(read("-2.", &mut ctx), Ok(fp(-2.0)));
    assert_eq!(read("7E-1", &mut ctx), Ok(fp(0.7)));
}

#[test]
fn parse_names_are_shared() {
    let mut ctx = Context::new();
    let a = ctx.new_var("a".to_string());
    let n = read("b * a + b", &mut ctx).unwrap();
    assert_eq!(ctx.num_variables(), 2);
    let b = Variable::new(1);
    assert_eq!(n, Node::from(b) * Node::from(a) + Node::from(b));
}

#[test]
fn parse_lines() {
    let mut ctx = Context::new();
    let line: Vec<char> = "y = x + 3".chars().collect();
    match parse_line(&line, &mut ctx, &number).unwrap() {
        UserInput::Assignment(v, e) => {
            assert_eq!(v, Variable::new(0));
            assert_eq!(ctx.print(&e, &show), "x + 3");
        }
        UserInput::Expr(_) => panic!("expected an assignment"),
    }
    let line: Vec<char> = "y * 2".chars().collect();
    match parse_line(&line, &mut ctx, &number).unwrap() {
        UserInput::Expr(e) => assert_eq!(ctx.print(&e, &show), "y * 2"),
        UserInput::Assignment(_, _) => panic!("expected an expression"),
    }
    let line: Vec<char> = "y = ".chars().collect();
    assert_eq!(parse_line(&line, &mut ctx, &number), Err(ParseError::Syntax(4)));
    let line: Vec<char> = "z = sin(y)".chars().collect();
    assert_eq!(try_parse_line(&line, &mut ctx, &number), Err(ParseError::UnknownFunction));
}
