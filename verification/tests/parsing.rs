use complox::expr::BinaryExpr;
use complox::expr::BinaryOp;
use complox::expr::Expression;
use complox::expr::LiteralExpr;
use complox::expr::UnaryExpr;
use complox::expr::UnaryOp;
use complox::parser::Parser;

fn parse_text(source: &str) -> String {
    let mut p = Parser::new(source).unwrap();
    p.expression().unwrap().to_text()
}

fn parse_error(source: &str) -> String {
    let mut p = Parser::new(source).unwrap();
    p.expression().unwrap_err().render()
}

#[test]
fn prefix_form_matches_reference() {
    assert_eq!(parse_text("-123 * (45.67)"), "(* (- 123) (group 45.67))");
}

#[test]
fn subtraction_is_left_associative() {
    assert_eq!(parse_text("8 - 4 - 2"), "(- (- 8 4) 2)");
}

#[test]
fn multiplication_binds_tighter_than_addition() {
    assert_eq!(parse_text("1 + 2 * 3"), "(+ 1 (* 2 3))");
}

#[test]
fn bang_is_right_associative() {
    assert_eq!(parse_text("!!true"), "(! (! true))");
}

#[test]
fn missing_closing_parenthesis() {
    assert_eq!(
        parse_error("(1 + 2"),
        "[line 1] Error  at end: Expect ')' after expression."
    );
}

#[test]
fn mismatched_token_after_grouping() {
    assert_eq!(
        parse_error("(1 + 2 3"),
        "[line 1] Error 3: Expect ')' after expression."
    );
}

#[test]
fn keyword_literals_parse() {
    assert_eq!(parse_text("true"), "true");
    assert_eq!(parse_text("false"), "false");
    assert_eq!(parse_text("nil"), "nil");
}

#[test]
fn string_literal_quotes_are_stripped() {
    assert_eq!(parse_text("\"hello\""), "hello");
}

#[test]
fn comparison_and_equality_levels() {
    assert_eq!(parse_text("1 < 2 == true"), "(== (< 1 2) true)");
    assert_eq!(parse_text("3 >= 4 != nil"), "(!= (>= 3 4) nil)");
}

#[test]
fn division_and_grouping() {
    assert_eq!(parse_text("(8 / 4) / 2"), "(/ (group (/ 8 4)) 2)");
}

#[test]
fn double_negation_parses() {
    assert_eq!(parse_text("--5"), "(- (- 5))");
}

#[test]
fn empty_input_is_an_error_at_end() {
    assert_eq!(parse_error(""), "[line 1] Error  at end: Expect expression.");
}

#[test]
fn operator_cannot_start_an_expression() {
    assert_eq!(parse_error("+ 1"), "[line 1] Error +: Expect expression.");
}

#[test]
fn scan_error_surfaces_through_the_parser() {
    assert_eq!(parse_error("1 + @"), "[line 1] Error : Unexpected token: @ ");
}

#[test]
fn scan_error_in_lookahead_surfaces() {
    // the error stands where an infix operator could follow, so only the
    // lookahead sees it
    assert_eq!(parse_error("1 @"), "[line 1] Error : Unexpected token: @ ");
}

#[test]
fn error_cites_the_line_it_stands_on() {
    assert_eq!(
        parse_error("(1 +\n2"),
        "[line 2] Error  at end: Expect ')' after expression."
    );
}

#[test]
fn consume_returns_the_matching_token() {
    let mut p = Parser::new("( )").unwrap();
    let open = p
        .consume(complox::scanner::TokenType::LeftParen, "Expect '('.")
        .unwrap();
    assert_eq!(open.lexeme, "(");
    let close = p
        .consume(complox::scanner::TokenType::RightParen, "Expect ')'.")
        .unwrap();
    assert_eq!(close.lexeme, ")");
}

#[test]
fn consume_rejects_a_mismatch_without_consuming() {
    let mut p = Parser::new("7").unwrap();
    let err = p
        .consume(complox::scanner::TokenType::RightParen, "Expect ')'.")
        .unwrap_err();
    assert_eq!(err.render(), "[line 1] Error 7: Expect ')'.");
    // the mismatched token is still there
    assert_eq!(p.expression().unwrap().to_text(), "7");
}

#[test]
fn expression_constructors_build_the_expected_tree() {
    let neg = UnaryExpr::new(
        UnaryOp::Minus,
        Expression::Literal(LiteralExpr::Number(String::from("123"))),
    );
    let grp = Expression::Grouping(Box::new(Expression::Literal(LiteralExpr::Number(
        String::from("45.67"),
    ))));
    let tree = BinaryExpr::new(Expression::Unary(neg), BinaryOp::Star, grp);
    assert_eq!(
        Expression::Binary(tree).to_text(),
        "(* (- 123) (group 45.67))"
    );
}

#[test]
fn printing_is_deterministic() {
    let mut p1 = Parser::new("1 + 2 * 3").unwrap();
    let e1 = p1.expression().unwrap();
    assert_eq!(e1.to_text(), e1.to_text());
}
