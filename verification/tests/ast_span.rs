use lang_ast::ast::{
    Binary, BinaryKind, Block, Break, Call, Continue, Expression, Grouping, Literal, LiteralKind,
    Statement, Unary, UnaryKind, VariableDeclaration, While,
};
use lang_ast::utils::Span;

fn sp(line: usize, start: usize, end: usize) -> Span {
    Span { line, start, end }
}

fn int_literal(value: i64, span: Span) -> Expression {
    Expression::Literal(Literal { kind: LiteralKind::Integer(value), span })
}

#[test]
fn literal_expression_span_round_trip() {
    let span = sp(3, 1, 4);
    assert_eq!(int_literal(7, span).span(), span);
    let span = sp(0, 2, 9);
    let e = Expression::Literal(Literal {
        kind: LiteralKind::Identifier(String::from("name")),
        span,
    });
    assert_eq!(e.span(), span);
}

#[test]
fn binary_expression_span_round_trip() {
    // A `1 == 2` node: the stored span comes back exactly, not one computed
    // from the operands.
    let e = Expression::Binary(Binary {
        left: Box::new(int_literal(1, sp(0, 0, 1))),
        right: Box::new(int_literal(2, sp(0, 5, 6))),
        kind: BinaryKind::DoubleEqual,
        span: sp(0, 0, 6),
    });
    assert_eq!(e.span(), sp(0, 0, 6));
}

#[test]
fn unary_expression_span_round_trip() {
    let e = Expression::Unary(Unary {
        expr: Box::new(int_literal(5, sp(2, 1, 2))),
        kind: UnaryKind::Minus,
        span: sp(2, 0, 2),
    });
    assert_eq!(e.span(), sp(2, 0, 2));
}

#[test]
fn call_expression_span_round_trip() {
    let e = Expression::Call(Call {
        name: String::from("f"),
        arguments: vec![int_literal(1, sp(1, 2, 3)), int_literal(2, sp(1, 4, 5))],
        span: sp(1, 0, 6),
    });
    assert_eq!(e.span(), sp(1, 0, 6));
}

#[test]
fn grouping_expression_span_round_trip() {
    let e = Expression::Grouping(Grouping {
        expr: Box::new(int_literal(8, sp(4, 1, 2))),
        span: sp(4, 0, 3),
    });
    assert_eq!(e.span(), sp(4, 0, 3));
}

#[test]
fn statement_spans_come_from_the_stored_span() {
    let s = Statement::Expression(int_literal(1, sp(6, 2, 3)));
    assert_eq!(s.span(), sp(6, 2, 3));
    let s = Statement::VariableDeclaration(VariableDeclaration {
        name: String::from("x"),
        value: int_literal(1, sp(7, 8, 9)),
        mutable: true,
        span: sp(7, 0, 9),
    });
    assert_eq!(s.span(), sp(7, 0, 9));
    let s = Statement::Break(Break { span: sp(8, 0, 5) });
    assert_eq!(s.span(), sp(8, 0, 5));
    let s = Statement::Continue(Continue { span: sp(9, 0, 8) });
    assert_eq!(s.span(), sp(9, 0, 8));
}

#[test]
fn block_loop_and_while_fall_back_to_the_zeroed_span() {
    // These three statement shapes store no span of their own; their span()
    // deliberately reports the zeroed default rather than a computed
    // position, and this test pins that choice down.
    let zero = sp(0, 0, 0);
    let inner = Statement::Break(Break { span: sp(5, 1, 6) });
    let s = Statement::Block(Block { statements: vec![inner] });
    assert_eq!(s.span(), zero);
    let s = Statement::Loop(Block { statements: vec![] });
    assert_eq!(s.span(), zero);
    let s = Statement::While(While {
        expression: int_literal(1, sp(3, 6, 7)),
        block: vec![],
    });
    assert_eq!(s.span(), zero);
}
