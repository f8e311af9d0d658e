//! The parser: a precedence-climbing cascade over the scanner's token
//! stream that builds one expression tree, or fails with the first
//! error.
//!
//! Each binary level is pinned down by a spec function pair: the level
//! itself parses one operand at the next-higher level, and its `rest`
//! function folds further operands into a left-associative tree while
//! the lookahead stays in the level's operator set. The executable
//! parser is proved to follow these spec functions exactly.

use vstd::prelude::*;
use vstd::string::StringExecFns;
use crate::error::Error;
use crate::error::ErrorModel;
use crate::expr::BinaryExpr;
use crate::expr::BinaryOp;
use crate::expr::ExprModel;
use crate::expr::Expression;
use crate::expr::expr_text;
use crate::expr::LitModel;
use crate::expr::LiteralExpr;
use crate::expr::UnaryExpr;
use crate::expr::UnaryOp;
use crate::scanner::Scanner;
use crate::scanner::Token;
use crate::scanner::TokenModel;
use crate::scanner::TokenType;
use crate::scanner::lemma_next_token_progress;
use crate::scanner::next_token_spec;

verus! {

/// What one parsing level does from a given scanner state: a tree and
/// the state after it, or the first error. Parsing is not resumable: on
/// failure no partial tree is produced and the state is not meaningful.
pub enum ParseOutcome {
    Parsed { expr: ExprModel, pos: int, line: int },
    Failed { err: ErrorModel },
}

/// The equality-level operator a token kind spells, if any.
pub open spec fn equality_op(id: TokenType) -> Option<BinaryOp> {
    match id {
        TokenType::EqualEqual => Some(BinaryOp::EqualEqual),
        TokenType::BangEqual => Some(BinaryOp::BangEqual),
        _ => None,
    }
}

/// The comparison-level operator a token kind spells, if any.
pub open spec fn comparison_op(id: TokenType) -> Option<BinaryOp> {
    match id {
        TokenType::Greater => Some(BinaryOp::Greater),
        TokenType::GreaterEqual => Some(BinaryOp::GreaterEqual),
        TokenType::Less => Some(BinaryOp::Less),
        TokenType::LessEqual => Some(BinaryOp::LessEqual),
        _ => None,
    }
}

/// The term-level operator a token kind spells, if any.
pub open spec fn term_op(id: TokenType) -> Option<BinaryOp> {
    match id {
        TokenType::Minus => Some(BinaryOp::Minus),
        TokenType::Plus => Some(BinaryOp::Plus),
        _ => None,
    }
}

/// The factor-level operator a token kind spells, if any.
pub open spec fn factor_op(id: TokenType) -> Option<BinaryOp> {
    match id {
        TokenType::Slash => Some(BinaryOp::Slash),
        TokenType::Star => Some(BinaryOp::Star),
        _ => None,
    }
}

/// The unary operator a token kind spells, if any.
pub open spec fn unary_op(id: TokenType) -> Option<UnaryOp> {
    match id {
        TokenType::Bang => Some(UnaryOp::Bang),
        TokenType::Minus => Some(UnaryOp::Minus),
        _ => None,
    }
}

/// A full expression: the lowest-precedence level.
pub open spec fn expression_spec(src: Seq<char>, pos: int, line: int) -> ParseOutcome
    decreases src.len() - pos, 13int
        when 0 <= pos <= src.len()
{
    equality_spec(src, pos, line)
}

/// The equality level: one comparison, then `== !=` folds.
pub open spec fn equality_spec(src: Seq<char>, pos: int, line: int) -> ParseOutcome
    decreases src.len() - pos, 12int
        when 0 <= pos <= src.len()
{
    match comparison_spec(src, pos, line) {
        ParseOutcome::Failed { err } => ParseOutcome::Failed { err },
        ParseOutcome::Parsed { expr, pos: p2, line: l2 } => {
            if pos < p2 <= src.len() {
                equality_rest_spec(src, p2, l2, expr)
            } else {
                // a level below never stands still; guard for termination
                ParseOutcome::Parsed { expr, pos: p2, line: l2 }
            }
        },
    }
}

/// Folds `lhs == rhs` / `lhs != rhs` left-associatively while the
/// lookahead is an equality operator; a scan error in the lookahead
/// surfaces, any other lookahead ends the level.
pub open spec fn equality_rest_spec(src: Seq<char>, pos: int, line: int, lhs: ExprModel) -> ParseOutcome
    decreases src.len() - pos, 11int
        when 0 <= pos <= src.len()
{
    let step = next_token_spec(src, pos, line);
    match step.res {
        None => ParseOutcome::Parsed { expr: lhs, pos, line },
        Some(Err(err)) => ParseOutcome::Failed { err },
        Some(Ok(t)) => match equality_op(t.id) {
            None => ParseOutcome::Parsed { expr: lhs, pos, line },
            Some(op) => {
                proof {
                    lemma_next_token_progress(src, pos, line);
                }
                match comparison_spec(src, step.pos, step.line) {
                    ParseOutcome::Failed { err } => ParseOutcome::Failed { err },
                    ParseOutcome::Parsed { expr: rhs, pos: p3, line: l3 } => {
                        let folded = ExprModel::Binary {
                            lhs: Box::new(lhs),
                            op,
                            rhs: Box::new(rhs),
                        };
                        if pos < p3 <= src.len() {
                            equality_rest_spec(src, p3, l3, folded)
                        } else {
                            // a level below never stands still; guard for termination
                            ParseOutcome::Parsed { expr: folded, pos: p3, line: l3 }
                        }
                    },
                }
            },
        },
    }
}

/// The comparison level: one term, then `> >= < <=` folds.
pub open spec fn comparison_spec(src: Seq<char>, pos: int, line: int) -> ParseOutcome
    decreases src.len() - pos, 10int
        when 0 <= pos <= src.len()
{
    match term_spec(src, pos, line) {
        ParseOutcome::Failed { err } => ParseOutcome::Failed { err },
        ParseOutcome::Parsed { expr, pos: p2, line: l2 } => {
            if pos < p2 <= src.len() {
                comparison_rest_spec(src, p2, l2, expr)
            } else {
                // a level below never stands still; guard for termination
                ParseOutcome::Parsed { expr, pos: p2, line: l2 }
            }
        },
    }
}

/// Folds comparison operators left-associatively, as
/// [`equality_rest_spec`] does for the equality level.
pub open spec fn comparison_rest_spec(src: Seq<char>, pos: int, line: int, lhs: ExprModel) -> ParseOutcome
    decreases src.len() - pos, 9int
        when 0 <= pos <= src.len()
{
    let step = next_token_spec(src, pos, line);
    match step.res {
        None => ParseOutcome::Parsed { expr: lhs, pos, line },
        Some(Err(err)) => ParseOutcome::Failed { err },
        Some(Ok(t)) => match comparison_op(t.id) {
            None => ParseOutcome::Parsed { expr: lhs, pos, line },
            Some(op) => {
                proof {
                    lemma_next_token_progress(src, pos, line);
                }
                match term_spec(src, step.pos, step.line) {
                    ParseOutcome::Failed { err } => ParseOutcome::Failed { err },
                    ParseOutcome::Parsed { expr: rhs, pos: p3, line: l3 } => {
                        let folded = ExprModel::Binary {
                            lhs: Box::new(lhs),
                            op,
                            rhs: Box::new(rhs),
                        };
                        if pos < p3 <= src.len() {
                            comparison_rest_spec(src, p3, l3, folded)
                        } else {
                            // a level below never stands still; guard for termination
                            ParseOutcome::Parsed { expr: folded, pos: p3, line: l3 }
                        }
                    },
                }
            },
        },
    }
}

/// The term level: one factor, then `+ -` folds.
pub open spec fn term_spec(src: Seq<char>, pos: int, line: int) -> ParseOutcome
    decreases src.len() - pos, 8int
        when 0 <= pos <= src.len()
{
    match factor_spec(src, pos, line) {
        ParseOutcome::Failed { err } => ParseOutcome::Failed { err },
        ParseOutcome::Parsed { expr, pos: p2, line: l2 } => {
            if pos < p2 <= src.len() {
                term_rest_spec(src, p2, l2, expr)
            } else {
                // a level below never stands still; guard for termination
                ParseOutcome::Parsed { expr, pos: p2, line: l2 }
            }
        },
    }
}

/// Folds `+ -` left-associatively, as [`equality_rest_spec`] does for
/// the equality level.
pub open spec fn term_rest_spec(src: Seq<char>, pos: int, line: int, lhs: ExprModel) -> ParseOutcome
    decreases src.len() - pos, 7int
        when 0 <= pos <= src.len()
{
    let step = next_token_spec(src, pos, line);
    match step.res {
        None => ParseOutcome::Parsed { expr: lhs, pos, line },
        Some(Err(err)) => ParseOutcome::Failed { err },
        Some(Ok(t)) => match term_op(t.id) {
            None => ParseOutcome::Parsed { expr: lhs, pos, line },
            Some(op) => {
                proof {
                    lemma_next_token_progress(src, pos, line);
                }
                match factor_spec(src, step.pos, step.line) {
                    ParseOutcome::Failed { err } => ParseOutcome::Failed { err },
                    ParseOutcome::Parsed { expr: rhs, pos: p3, line: l3 } => {
                        let folded = ExprModel::Binary {
                            lhs: Box::new(lhs),
                            op,
                            rhs: Box::new(rhs),
                        };
                        if pos < p3 <= src.len() {
                            term_rest_spec(src, p3, l3, folded)
                        } else {
                            // a level below never stands still; guard for termination
                            ParseOutcome::Parsed { expr: folded, pos: p3, line: l3 }
                        }
                    },
                }
            },
        },
    }
}

/// The factor level: one unary, then `* /` folds.
pub open spec fn factor_spec(src: Seq<char>, pos: int, line: int) -> ParseOutcome
    decreases src.len() - pos, 6int
        when 0 <= pos <= src.len()
{
    match unary_spec(src, pos, line) {
        ParseOutcome::Failed { err } => ParseOutcome::Failed { err },
        ParseOutcome::Parsed { expr, pos: p2, line: l2 } => {
            if pos < p2 <= src.len() {
                factor_rest_spec(src, p2, l2, expr)
            } else {
                // a level below never stands still; guard for termination
                ParseOutcome::Parsed { expr, pos: p2, line: l2 }
            }
        },
    }
}

/// Folds `* /` left-associatively, as [`equality_rest_spec`] does for
/// the equality level.
pub open spec fn factor_rest_spec(src: Seq<char>, pos: int, line: int, lhs: ExprModel) -> ParseOutcome
    decreases src.len() - pos, 5int
        when 0 <= pos <= src.len()
{
    let step = next_token_spec(src, pos, line);
    match step.res {
        None => ParseOutcome::Parsed { expr: lhs, pos, line },
        Some(Err(err)) => ParseOutcome::Failed { err },
        Some(Ok(t)) => match factor_op(t.id) {
            None => ParseOutcome::Parsed { expr: lhs, pos, line },
            Some(op) => {
                proof {
                    lemma_next_token_progress(src, pos, line);
                }
                match unary_spec(src, step.pos, step.line) {
                    ParseOutcome::Failed { err } => ParseOutcome::Failed { err },
                    ParseOutcome::Parsed { expr: rhs, pos: p3, line: l3 } => {
                        let folded = ExprModel::Binary {
                            lhs: Box::new(lhs),
                            op,
                            rhs: Box::new(rhs),
                        };
                        if pos < p3 <= src.len() {
                            factor_rest_spec(src, p3, l3, folded)
                        } else {
                            // a level below never stands still; guard for termination
                            ParseOutcome::Parsed { expr: folded, pos: p3, line: l3 }
                        }
                    },
                }
            },
        },
    }
}

/// The unary level: `!` and `-` apply right-associatively to a unary
/// operand, so `!!x` and `--x` parse; anything else is a primary.
pub open spec fn unary_spec(src: Seq<char>, pos: int, line: int) -> ParseOutcome
    decreases src.len() - pos, 4int
        when 0 <= pos <= src.len()
{
    let step = next_token_spec(src, pos, line);
    match step.res {
        None => primary_spec(src, pos, line),
        Some(Err(err)) => ParseOutcome::Failed { err },
        Some(Ok(t)) => match unary_op(t.id) {
            None => primary_spec(src, pos, line),
            Some(op) => {
                proof {
                    lemma_next_token_progress(src, pos, line);
                }
                match unary_spec(src, step.pos, step.line) {
                    ParseOutcome::Failed { err } => ParseOutcome::Failed { err },
                    ParseOutcome::Parsed { expr, pos: p3, line: l3 } => ParseOutcome::Parsed {
                        expr: ExprModel::Unary { op, expr: Box::new(expr) },
                        pos: p3,
                        line: l3,
                    },
                }
            },
        },
    }
}

/// The primary level consumes exactly one token: a literal, or `(` with
/// a full expression and a required `)`. A token that cannot start an
/// expression fails; it never panics.
pub open spec fn primary_spec(src: Seq<char>, pos: int, line: int) -> ParseOutcome
    decreases src.len() - pos, 2int
        when 0 <= pos <= src.len()
{
    let step = next_token_spec(src, pos, line);
    match step.res {
        None => ParseOutcome::Failed {
            err: ErrorModel {
                line: step.line as nat,
                location: " at end"@,
                message: "Expect expression."@,
            },
        },
        Some(Err(err)) => ParseOutcome::Failed { err },
        Some(Ok(t)) => match t.id {
            TokenType::False => ParseOutcome::Parsed {
                expr: ExprModel::Literal(LitModel::False),
                pos: step.pos,
                line: step.line,
            },
            TokenType::True => ParseOutcome::Parsed {
                expr: ExprModel::Literal(LitModel::True),
                pos: step.pos,
                line: step.line,
            },
            TokenType::Nil => ParseOutcome::Parsed {
                expr: ExprModel::Literal(LitModel::Nil),
                pos: step.pos,
                line: step.line,
            },
            TokenType::Number => ParseOutcome::Parsed {
                expr: ExprModel::Literal(LitModel::Number(t.lexeme)),
                pos: step.pos,
                line: step.line,
            },
            TokenType::Str => ParseOutcome::Parsed {
                // the consumer strips the surrounding quotes
                expr: ExprModel::Literal(
                    LitModel::Str(t.lexeme.subrange(1, t.lexeme.len() - 1)),
                ),
                pos: step.pos,
                line: step.line,
            },
            TokenType::LeftParen => {
                proof {
                    lemma_next_token_progress(src, pos, line);
                }
                match expression_spec(src, step.pos, step.line) {
                    ParseOutcome::Failed { err } => ParseOutcome::Failed { err },
                    ParseOutcome::Parsed { expr, pos: p3, line: l3 } => close_paren_spec(
                        src,
                        p3,
                        l3,
                        expr,
                    ),
                }
            },
            _ => ParseOutcome::Failed {
                err: ErrorModel {
                    line: t.line as nat,
                    location: t.lexeme,
                    message: "Expect expression."@,
                },
            },
        },
    }
}

/// Requires the closing `)` of a grouping: the next token must be a
/// right parenthesis, else the parse fails with
/// `Expect ')' after expression.` at the offending token, or at end of
/// input with the line the scanner last stood on.
pub open spec fn close_paren_spec(src: Seq<char>, pos: int, line: int, inner: ExprModel) -> ParseOutcome {
    let step = next_token_spec(src, pos, line);
    match step.res {
        None => ParseOutcome::Failed {
            err: ErrorModel {
                line: line as nat,
                location: " at end"@,
                message: "Expect ')' after expression."@,
            },
        },
        Some(Err(err)) => ParseOutcome::Failed { err },
        Some(Ok(t)) => if t.id == TokenType::RightParen {
            ParseOutcome::Parsed { expr: ExprModel::Grouping(Box::new(inner)), pos: step.pos, line: step.line }
        } else {
            ParseOutcome::Failed {
                err: ErrorModel {
                    line: t.line as nat,
                    location: t.lexeme,
                    message: "Expect ')' after expression."@,
                },
            }
        },
    }
}

} // verus!

verus! {

/// Relates a parsing level's outcome to an executable result and the
/// parser state after the call: a tree with the state the spec names on
/// success, the spec's error value on failure.
pub open spec fn outcome_matches(out: ParseOutcome, r: Result<Expression, Error>, pos: int, line: int) -> bool {
    match r {
        Ok(e) => out == (ParseOutcome::Parsed { expr: e@, pos, line }),
        Err(err) => out == (ParseOutcome::Failed { err: err@ }),
    }
}

/// What [`Parser::consume`] does, given the lookahead `step`: the token
/// when its kind matches, else the expected-token diagnostic, with the
/// cursor advanced only over a matching token.
pub open spec fn consume_post(
    step: crate::scanner::ScanStep,
    id: TokenType,
    msg: Seq<char>,
    r: Result<Token, Error>,
    old_pos: int,
    old_line: int,
    new_pos: int,
    new_line: int,
) -> bool {
    match step.res {
        None => {
            &&& r matches Err(err) && err@ == (ErrorModel {
                line: old_line as nat,
                location: " at end"@,
                message: msg,
            })
            &&& new_pos == old_pos
            &&& new_line == old_line
        },
        Some(Err(em)) => {
            &&& r matches Err(err) && err@ == em
            &&& new_pos == old_pos
            &&& new_line == old_line
        },
        Some(Ok(t)) => {
            if t.id == id {
                &&& r matches Ok(tk) && tk@ == t
                &&& new_pos == step.pos
                &&& new_line == step.line
            } else {
                &&& r matches Err(err) && err@ == (ErrorModel {
                    line: t.line as nat,
                    location: t.lexeme,
                    message: msg,
                })
                &&& new_pos == old_pos
                &&& new_line == old_line
            }
        },
    }
}

/// The parser: it owns the scanner and pulls tokens on demand, with
/// one-token lookahead. The first error aborts the parse of the whole
/// expression; no partial tree is produced.
#[derive(Debug)]
pub struct Parser {
    scanner: Scanner,
}

impl Parser {
    /// The source text being parsed.
    pub closed spec fn src(&self) -> Seq<char> {
        self.scanner.src()
    }

    /// The position of the next unconsumed character.
    pub closed spec fn pos(&self) -> int {
        self.scanner.pos()
    }

    /// The current 1-based line number.
    pub closed spec fn line_no(&self) -> int {
        self.scanner.line_no()
    }

    /// Internal consistency, inherited from the scanner.
    pub closed spec fn wf(&self) -> bool {
        self.scanner.wf()
    }

    /// A parser over `source`, at its beginning. The length bound is a
    /// machine limit inherited from the scanner.
    pub fn new(source: &str) -> (r: Result<Parser, Error>)
        requires
            source@.len() < usize::MAX as int,
        ensures
            match r {
                Ok(p) => {
                    &&& p.wf()
                    &&& p.src() == source@
                    &&& p.pos() == 0
                    &&& p.line_no() == 1
                },
                Err(_) => false,
            },
    {
        Ok(Parser { scanner: Scanner::new(source) })
    }

    /// Parses one full expression, the lowest-precedence level.
    #[verifier::rlimit(100)]
    pub fn expression(&mut self) -> (r: Result<Expression, Error>)
        requires
            old(self).wf(),
        ensures
            final(self).wf(),
            final(self).src() == old(self).src(),
            r is Ok ==> old(self).pos() < final(self).pos(),
            outcome_matches(
                expression_spec(old(self).src(), old(self).pos(), old(self).line_no()),
                r,
                final(self).pos(),
                final(self).line_no(),
            ),
        decreases old(self).src().len() - old(self).pos(), 13int,
    {
        self.equality()
    }

    /// The equality level: one comparison, then left-associative
    /// `== !=` folds.
    #[verifier::rlimit(100)]
    pub fn equality(&mut self) -> (r: Result<Expression, Error>)
        requires
            old(self).wf(),
        ensures
            final(self).wf(),
            final(self).src() == old(self).src(),
            r is Ok ==> old(self).pos() < final(self).pos(),
            outcome_matches(
                equality_spec(old(self).src(), old(self).pos(), old(self).line_no()),
                r,
                final(self).pos(),
                final(self).line_no(),
            ),
        decreases old(self).src().len() - old(self).pos(), 12int,
    {
        let ghost src = self.src();
        let ghost p0 = self.pos();
        let ghost l0 = self.line_no();
        let mut expr = match self.comparison() {
            Ok(e) => e,
            Err(err) => {
                return Err(err);
            },
        };
        loop
            invariant
                self.wf(),
                self.src() == src,
                src == old(self).src(),
                p0 == old(self).pos(),
                l0 == old(self).line_no(),
                p0 < self.pos() <= src.len(),
                equality_rest_spec(src, self.pos(), self.line_no(), expr@) == equality_spec(
                    src,
                    p0,
                    l0,
                ),
            decreases src.len() - self.pos(),
        {
            let ghost hp = self.pos();
            let ghost hl = self.line_no();
            let peeked = self.scanner.peek_token();
            match peeked {
                None => {
                    return Ok(expr);
                },
                Some(Err(err)) => {
                    return Err(err);
                },
                Some(Ok(t)) => {
                    let op = match t.id {
                        TokenType::EqualEqual => BinaryOp::EqualEqual,
                        TokenType::BangEqual => BinaryOp::BangEqual,
                        _ => {
                            return Ok(expr);
                        },
                    };
                    let _ = self.scanner.next_token();
                    proof {
                        lemma_next_token_progress(src, hp, hl);
                    }
                    let right = match self.comparison() {
                        Ok(e) => e,
                        Err(err) => {
                            return Err(err);
                        },
                    };
                    expr = Expression::Binary(BinaryExpr::new(expr, op, right));
                },
            }
        }
    }

    /// The comparison level: one term, then left-associative
    /// `> >= < <=` folds.
    #[verifier::rlimit(100)]
    pub fn comparison(&mut self) -> (r: Result<Expression, Error>)
        requires
            old(self).wf(),
        ensures
            final(self).wf(),
            final(self).src() == old(self).src(),
            r is Ok ==> old(self).pos() < final(self).pos(),
            outcome_matches(
                comparison_spec(old(self).src(), old(self).pos(), old(self).line_no()),
                r,
                final(self).pos(),
                final(self).line_no(),
            ),
        decreases old(self).src().len() - old(self).pos(), 10int,
    {
        let ghost src = self.src();
        let ghost p0 = self.pos();
        let ghost l0 = self.line_no();
        let mut expr = match self.term() {
            Ok(e) => e,
            Err(err) => {
                return Err(err);
            },
        };
        loop
            invariant
                self.wf(),
                self.src() == src,
                src == old(self).src(),
                p0 == old(self).pos(),
                l0 == old(self).line_no(),
                p0 < self.pos() <= src.len(),
                comparison_rest_spec(src, self.pos(), self.line_no(), expr@) == comparison_spec(
                    src,
                    p0,
                    l0,
                ),
            decreases src.len() - self.pos(),
        {
            let ghost hp = self.pos();
            let ghost hl = self.line_no();
            let peeked = self.scanner.peek_token();
            match peeked {
                None => {
                    return Ok(expr);
                },
                Some(Err(err)) => {
                    return Err(err);
                },
                Some(Ok(t)) => {
                    let op = match t.id {
                        TokenType::Greater => BinaryOp::Greater,
                        TokenType::GreaterEqual => BinaryOp::GreaterEqual,
                        TokenType::Less => BinaryOp::Less,
                        TokenType::LessEqual => BinaryOp::LessEqual,
                        _ => {
                            return Ok(expr);
                        },
                    };
                    let _ = self.scanner.next_token();
                    proof {
                        lemma_next_token_progress(src, hp, hl);
                    }
                    let right = match self.term() {
                        Ok(e) => e,
                        Err(err) => {
                            return Err(err);
                        },
                    };
                    expr = Expression::Binary(BinaryExpr::new(expr, op, right));
                },
            }
        }
    }

    /// The term level: one factor, then left-associative `+ -` folds.
    #[verifier::rlimit(100)]
    pub fn term(&mut self) -> (r: Result<Expression, Error>)
        requires
            old(self).wf(),
        ensures
            final(self).wf(),
            final(self).src() == old(self).src(),
            r is Ok ==> old(self).pos() < final(self).pos(),
            outcome_matches(
                term_spec(old(self).src(), old(self).pos(), old(self).line_no()),
                r,
                final(self).pos(),
                final(self).line_no(),
            ),
        decreases old(self).src().len() - old(self).pos(), 8int,
    {
        let ghost src = self.src();
        let ghost p0 = self.pos();
        let ghost l0 = self.line_no();
        let mut expr = match self.factor() {
            Ok(e) => e,
            Err(err) => {
                return Err(err);
            },
        };
        loop
            invariant
                self.wf(),
                self.src() == src,
                src == old(self).src(),
                p0 == old(self).pos(),
                l0 == old(self).line_no(),
                p0 < self.pos() <= src.len(),
                term_rest_spec(src, self.pos(), self.line_no(), expr@) == term_spec(src, p0, l0),
            decreases src.len() - self.pos(),
        {
            let ghost hp = self.pos();
            let ghost hl = self.line_no();
            let peeked = self.scanner.peek_token();
            match peeked {
                None => {
                    return Ok(expr);
                },
                Some(Err(err)) => {
                    return Err(err);
                },
                Some(Ok(t)) => {
                    let op = match t.id {
                        TokenType::Minus => BinaryOp::Minus,
                        TokenType::Plus => BinaryOp::Plus,
                        _ => {
                            return Ok(expr);
                        },
                    };
                    let _ = self.scanner.next_token();
                    proof {
                        lemma_next_token_progress(src, hp, hl);
                    }
                    let right = match self.factor() {
                        Ok(e) => e,
                        Err(err) => {
                            return Err(err);
                        },
                    };
                    expr = Expression::Binary(BinaryExpr::new(expr, op, right));
                },
            }
        }
    }

    /// The factor level: one unary, then left-associative `* /` folds.
    #[verifier::rlimit(100)]
    pub fn factor(&mut self) -> (r: Result<Expression, Error>)
        requires
            old(self).wf(),
        ensures
            final(self).wf(),
            final(self).src() == old(self).src(),
            r is Ok ==> old(self).pos() < final(self).pos(),
            outcome_matches(
                factor_spec(old(self).src(), old(self).pos(), old(self).line_no()),
                r,
                final(self).pos(),
                final(self).line_no(),
            ),
        decreases old(self).src().len() - old(self).pos(), 6int,
    {
        let ghost src = self.src();
        let ghost p0 = self.pos();
        let ghost l0 = self.line_no();
        let mut expr = match self.unary() {
            Ok(e) => e,
            Err(err) => {
                return Err(err);
            },
        };
        loop
            invariant
                self.wf(),
                self.src() == src,
                src == old(self).src(),
                p0 == old(self).pos(),
                l0 == old(self).line_no(),
                p0 < self.pos() <= src.len(),
                factor_rest_spec(src, self.pos(), self.line_no(), expr@) == factor_spec(
                    src,
                    p0,
                    l0,
                ),
            decreases src.len() - self.pos(),
        {
            let ghost hp = self.pos();
            let ghost hl = self.line_no();
            let peeked = self.scanner.peek_token();
            match peeked {
                None => {
                    return Ok(expr);
                },
                Some(Err(err)) => {
                    return Err(err);
                },
                Some(Ok(t)) => {
                    let op = match t.id {
                        TokenType::Slash => BinaryOp::Slash,
                        TokenType::Star => BinaryOp::Star,
                        _ => {
                            return Ok(expr);
                        },
                    };
                    let _ = self.scanner.next_token();
                    proof {
                        lemma_next_token_progress(src, hp, hl);
                    }
                    let right = match self.unary() {
                        Ok(e) => e,
                        Err(err) => {
                            return Err(err);
                        },
                    };
                    expr = Expression::Binary(BinaryExpr::new(expr, op, right));
                },
            }
        }
    }

    /// The unary level: `!` and `-` apply right-associatively, so `!!x`
    /// and `--x` parse; anything else is a primary.
    #[verifier::rlimit(100)]
    pub fn unary(&mut self) -> (r: Result<Expression, Error>)
        requires
            old(self).wf(),
        ensures
            final(self).wf(),
            final(self).src() == old(self).src(),
            r is Ok ==> old(self).pos() < final(self).pos(),
            outcome_matches(
                unary_spec(old(self).src(), old(self).pos(), old(self).line_no()),
                r,
                final(self).pos(),
                final(self).line_no(),
            ),
        decreases old(self).src().len() - old(self).pos(), 4int,
    {
        let ghost src = self.src();
        let ghost p0 = self.pos();
        let ghost l0 = self.line_no();
        let peeked = self.scanner.peek_token();
        match peeked {
            Some(Err(err)) => {
                return Err(err);
            },
            Some(Ok(t)) => {
                let op = match t.id {
                    TokenType::Bang => Some(UnaryOp::Bang),
                    TokenType::Minus => Some(UnaryOp::Minus),
                    _ => None,
                };
                if let Some(op) = op {
                    let _ = self.scanner.next_token();
                    proof {
                        lemma_next_token_progress(src, p0, l0);
                    }
                    let right = match self.unary() {
                        Ok(e) => e,
                        Err(err) => {
                            return Err(err);
                        },
                    };
                    return Ok(Expression::Unary(UnaryExpr::new(op, right)));
                }
            },
            None => {},
        }
        self.primary()
    }

    /// The primary level: consumes exactly one token, a literal or a
    /// parenthesized expression with its required `)`. A token that
    /// cannot start an expression fails; end of input fails at the line
    /// scanning ended on.
    #[verifier::rlimit(100)]
    pub fn primary(&mut self) -> (r: Result<Expression, Error>)
        requires
            old(self).wf(),
        ensures
            final(self).wf(),
            final(self).src() == old(self).src(),
            r is Ok ==> old(self).pos() < final(self).pos(),
            outcome_matches(
                primary_spec(old(self).src(), old(self).pos(), old(self).line_no()),
                r,
                final(self).pos(),
                final(self).line_no(),
            ),
        decreases old(self).src().len() - old(self).pos(), 2int,
    {
        let ghost src = self.src();
        let ghost p0 = self.pos();
        let ghost l0 = self.line_no();
        let t_opt = self.scanner.next_token();
        proof {
            lemma_next_token_progress(src, p0, l0);
            crate::scanner::lemma_str_token_lexeme(src, p0, l0);
        }
        let t = match t_opt {
            None => {
                let e = Error::new("Expect expression.", " at end", self.scanner.current_line());
                return Err(e);
            },
            Some(Err(err)) => {
                return Err(err);
            },
            Some(Ok(tok)) => tok,
        };
        match t.id {
            TokenType::False => Ok(Expression::Literal(LiteralExpr::False)),
            TokenType::True => Ok(Expression::Literal(LiteralExpr::True)),
            TokenType::Nil => Ok(Expression::Literal(LiteralExpr::Nil)),
            TokenType::Number => Ok(Expression::Literal(LiteralExpr::Number(t.lexeme))),
            TokenType::Str => {
                // the lexeme keeps both quotes; the consumer strips them
                let n = t.lexeme.as_str().unicode_len();
                let inner = t.lexeme.as_str().substring_char(1, n - 1);
                Ok(Expression::Literal(LiteralExpr::Str(String::from_str(inner))))
            },
            TokenType::LeftParen => {
                let inner = match self.expression() {
                    Ok(e) => e,
                    Err(err) => {
                        return Err(err);
                    },
                };
                let ghost p_in = self.pos();
                let ghost l_in = self.line_no();
                match self.consume(TokenType::RightParen, "Expect ')' after expression.") {
                    Ok(_) => {
                        proof {
                            lemma_next_token_progress(src, p_in, l_in);
                        }
                        Ok(Expression::Grouping(Box::new(inner)))
                    },
                    Err(err) => Err(err),
                }
            },
            _ => {
                let e = Error::new("Expect expression.", t.lexeme.as_str(), t.line);
                Err(e)
            },
        }
    }

    /// Demands that the next token have kind `id`: consumes and returns
    /// it when it does, else fails with `err_message` at the offending
    /// token, or at `" at end"` when the input is exhausted, leaving the
    /// cursor in place.
    #[verifier::rlimit(100)]
    pub fn consume(&mut self, id: TokenType, err_message: &str) -> (r: Result<Token, Error>)
        requires
            old(self).wf(),
        ensures
            final(self).wf(),
            final(self).src() == old(self).src(),
            consume_post(
                next_token_spec(old(self).src(), old(self).pos(), old(self).line_no()),
                id,
                err_message@,
                r,
                old(self).pos(),
                old(self).line_no(),
                final(self).pos(),
                final(self).line_no(),
            ),
    {
        let peeked = self.scanner.peek_token();
        match peeked {
            None => Err(Error::new(err_message, " at end", self.scanner.current_line())),
            Some(Err(err)) => Err(err),
            Some(Ok(t)) => {
                if t.id == id {
                    match self.scanner.next_token() {
                        Some(Ok(tok)) => Ok(tok),
                        _ => Err(Error::new(err_message, " at end", self.scanner.current_line())),
                    }
                } else {
                    Err(Error::new(err_message, t.lexeme.as_str(), t.line))
                }
            },
        }
    }
}

} // verus!

verus! {

/// Left-associativity of the binary levels: when the input scans as
/// exactly three number literals separated by two `-` tokens, the parse
/// folds leftwards, `(- (- a b) c)`, never `(- a (- b c))`.
#[verifier::rlimit(100)]
pub proof fn lemma_left_associativity(
    src: Seq<char>,
    p0: int,
    l0: int,
    a: TokenModel,
    p1: int,
    l1: int,
    m1: TokenModel,
    p2: int,
    l2: int,
    b: TokenModel,
    p3: int,
    l3: int,
    m2: TokenModel,
    p4: int,
    l4: int,
    c: TokenModel,
    p5: int,
    l5: int,
)
    requires
        0 <= p0 <= src.len(),
        next_token_spec(src, p0, l0) == (crate::scanner::ScanStep {
            res: Some(Ok::<TokenModel, ErrorModel>(a)),
            pos: p1,
            line: l1,
        }),
        a.id == TokenType::Number,
        next_token_spec(src, p1, l1) == (crate::scanner::ScanStep {
            res: Some(Ok::<TokenModel, ErrorModel>(m1)),
            pos: p2,
            line: l2,
        }),
        m1.id == TokenType::Minus,
        next_token_spec(src, p2, l2) == (crate::scanner::ScanStep {
            res: Some(Ok::<TokenModel, ErrorModel>(b)),
            pos: p3,
            line: l3,
        }),
        b.id == TokenType::Number,
        next_token_spec(src, p3, l3) == (crate::scanner::ScanStep {
            res: Some(Ok::<TokenModel, ErrorModel>(m2)),
            pos: p4,
            line: l4,
        }),
        m2.id == TokenType::Minus,
        next_token_spec(src, p4, l4) == (crate::scanner::ScanStep {
            res: Some(Ok::<TokenModel, ErrorModel>(c)),
            pos: p5,
            line: l5,
        }),
        c.id == TokenType::Number,
        next_token_spec(src, p5, l5).res is None,
    ensures
        expression_spec(src, p0, l0) == (ParseOutcome::Parsed {
            expr: ExprModel::Binary {
                lhs: Box::new(
                    ExprModel::Binary {
                        lhs: Box::new(ExprModel::Literal(LitModel::Number(a.lexeme))),
                        op: BinaryOp::Minus,
                        rhs: Box::new(ExprModel::Literal(LitModel::Number(b.lexeme))),
                    },
                ),
                op: BinaryOp::Minus,
                rhs: Box::new(ExprModel::Literal(LitModel::Number(c.lexeme))),
            },
            pos: p5,
            line: l5,
        }),
{
    lemma_next_token_progress(src, p0, l0);
    lemma_next_token_progress(src, p1, l1);
    lemma_next_token_progress(src, p2, l2);
    lemma_next_token_progress(src, p3, l3);
    lemma_next_token_progress(src, p4, l4);
    let lit_a = ExprModel::Literal(LitModel::Number(a.lexeme));
    let lit_b = ExprModel::Literal(LitModel::Number(b.lexeme));
    let lit_c = ExprModel::Literal(LitModel::Number(c.lexeme));
    assert(primary_spec(src, p0, l0) == (ParseOutcome::Parsed { expr: lit_a, pos: p1, line: l1 }));
    assert(unary_spec(src, p0, l0) == (ParseOutcome::Parsed { expr: lit_a, pos: p1, line: l1 }));
    assert(factor_rest_spec(src, p1, l1, lit_a) == (ParseOutcome::Parsed {
        expr: lit_a,
        pos: p1,
        line: l1,
    }));
    assert(factor_spec(src, p0, l0) == (ParseOutcome::Parsed { expr: lit_a, pos: p1, line: l1 }));
    assert(unary_spec(src, p2, l2) == (ParseOutcome::Parsed { expr: lit_b, pos: p3, line: l3 }));
    assert(factor_spec(src, p2, l2) == (ParseOutcome::Parsed { expr: lit_b, pos: p3, line: l3 }));
    assert(unary_spec(src, p4, l4) == (ParseOutcome::Parsed { expr: lit_c, pos: p5, line: l5 }));
    assert(factor_rest_spec(src, p5, l5, lit_c) == (ParseOutcome::Parsed {
        expr: lit_c,
        pos: p5,
        line: l5,
    }));
    assert(factor_spec(src, p4, l4) == (ParseOutcome::Parsed { expr: lit_c, pos: p5, line: l5 }));
    let ab = ExprModel::Binary {
        lhs: Box::new(lit_a),
        op: BinaryOp::Minus,
        rhs: Box::new(lit_b),
    };
    let abc = ExprModel::Binary {
        lhs: Box::new(ab),
        op: BinaryOp::Minus,
        rhs: Box::new(lit_c),
    };
    assert(term_rest_spec(src, p5, l5, abc) == (ParseOutcome::Parsed {
        expr: abc,
        pos: p5,
        line: l5,
    }));
    assert(term_rest_spec(src, p3, l3, ab) == (ParseOutcome::Parsed {
        expr: abc,
        pos: p5,
        line: l5,
    }));
    assert(term_rest_spec(src, p1, l1, lit_a) == (ParseOutcome::Parsed {
        expr: abc,
        pos: p5,
        line: l5,
    }));
    assert(term_spec(src, p0, l0) == (ParseOutcome::Parsed { expr: abc, pos: p5, line: l5 }));
    assert(comparison_rest_spec(src, p5, l5, abc) == (ParseOutcome::Parsed {
        expr: abc,
        pos: p5,
        line: l5,
    }));
    assert(comparison_spec(src, p0, l0) == (ParseOutcome::Parsed { expr: abc, pos: p5, line: l5 }));
    assert(equality_rest_spec(src, p5, l5, abc) == (ParseOutcome::Parsed {
        expr: abc,
        pos: p5,
        line: l5,
    }));
    assert(equality_spec(src, p0, l0) == (ParseOutcome::Parsed { expr: abc, pos: p5, line: l5 }));
}

} // verus!

verus! {

/// Operator precedence: when the input scans as `a + b * c`, the factor
/// level binds tighter than the term level, so the parse is
/// `(+ a (* b c))`, never `(* (+ a b) c)`.
#[verifier::rlimit(100)]
pub proof fn lemma_precedence(
    src: Seq<char>,
    p0: int,
    l0: int,
    a: TokenModel,
    p1: int,
    l1: int,
    plus: TokenModel,
    p2: int,
    l2: int,
    b: TokenModel,
    p3: int,
    l3: int,
    star: TokenModel,
    p4: int,
    l4: int,
    c: TokenModel,
    p5: int,
    l5: int,
)
    requires
        0 <= p0 <= src.len(),
        next_token_spec(src, p0, l0) == (crate::scanner::ScanStep {
            res: Some(Ok::<TokenModel, ErrorModel>(a)),
            pos: p1,
            line: l1,
        }),
        a.id == TokenType::Number,
        next_token_spec(src, p1, l1) == (crate::scanner::ScanStep {
            res: Some(Ok::<TokenModel, ErrorModel>(plus)),
            pos: p2,
            line: l2,
        }),
        plus.id == TokenType::Plus,
        next_token_spec(src, p2, l2) == (crate::scanner::ScanStep {
            res: Some(Ok::<TokenModel, ErrorModel>(b)),
            pos: p3,
            line: l3,
        }),
        b.id == TokenType::Number,
        next_token_spec(src, p3, l3) == (crate::scanner::ScanStep {
            res: Some(Ok::<TokenModel, ErrorModel>(star)),
            pos: p4,
            line: l4,
        }),
        star.id == TokenType::Star,
        next_token_spec(src, p4, l4) == (crate::scanner::ScanStep {
            res: Some(Ok::<TokenModel, ErrorModel>(c)),
            pos: p5,
            line: l5,
        }),
        c.id == TokenType::Number,
        next_token_spec(src, p5, l5).res is None,
    ensures
        expression_spec(src, p0, l0) == (ParseOutcome::Parsed {
            expr: ExprModel::Binary {
                lhs: Box::new(ExprModel::Literal(LitModel::Number(a.lexeme))),
                op: BinaryOp::Plus,
                rhs: Box::new(
                    ExprModel::Binary {
                        lhs: Box::new(ExprModel::Literal(LitModel::Number(b.lexeme))),
                        op: BinaryOp::Star,
                        rhs: Box::new(ExprModel::Literal(LitModel::Number(c.lexeme))),
                    },
                ),
            },
            pos: p5,
            line: l5,
        }),
{
    lemma_next_token_progress(src, p0, l0);
    lemma_next_token_progress(src, p1, l1);
    lemma_next_token_progress(src, p2, l2);
    lemma_next_token_progress(src, p3, l3);
    lemma_next_token_progress(src, p4, l4);
    let lit_a = ExprModel::Literal(LitModel::Number(a.lexeme));
    let lit_b = ExprModel::Literal(LitModel::Number(b.lexeme));
    let lit_c = ExprModel::Literal(LitModel::Number(c.lexeme));
    assert(unary_spec(src, p0, l0) == (ParseOutcome::Parsed { expr: lit_a, pos: p1, line: l1 }));
    assert(factor_rest_spec(src, p1, l1, lit_a) == (ParseOutcome::Parsed {
        expr: lit_a,
        pos: p1,
        line: l1,
    }));
    assert(factor_spec(src, p0, l0) == (ParseOutcome::Parsed { expr: lit_a, pos: p1, line: l1 }));
    assert(unary_spec(src, p2, l2) == (ParseOutcome::Parsed { expr: lit_b, pos: p3, line: l3 }));
    assert(unary_spec(src, p4, l4) == (ParseOutcome::Parsed { expr: lit_c, pos: p5, line: l5 }));
    let bc = ExprModel::Binary {
        lhs: Box::new(lit_b),
        op: BinaryOp::Star,
        rhs: Box::new(lit_c),
    };
    assert(factor_rest_spec(src, p5, l5, bc) == (ParseOutcome::Parsed {
        expr: bc,
        pos: p5,
        line: l5,
    }));
    assert(factor_rest_spec(src, p3, l3, lit_b) == (ParseOutcome::Parsed {
        expr: bc,
        pos: p5,
        line: l5,
    }));
    assert(factor_spec(src, p2, l2) == (ParseOutcome::Parsed { expr: bc, pos: p5, line: l5 }));
    let abc = ExprModel::Binary {
        lhs: Box::new(lit_a),
        op: BinaryOp::Plus,
        rhs: Box::new(bc),
    };
    assert(term_rest_spec(src, p5, l5, abc) == (ParseOutcome::Parsed {
        expr: abc,
        pos: p5,
        line: l5,
    }));
    assert(term_rest_spec(src, p1, l1, lit_a) == (ParseOutcome::Parsed {
        expr: abc,
        pos: p5,
        line: l5,
    }));
    assert(term_spec(src, p0, l0) == (ParseOutcome::Parsed { expr: abc, pos: p5, line: l5 }));
    assert(comparison_spec(src, p0, l0) == (ParseOutcome::Parsed { expr: abc, pos: p5, line: l5 }));
    assert(equality_spec(src, p0, l0) == (ParseOutcome::Parsed { expr: abc, pos: p5, line: l5 }));
}

/// Right-associativity of the unary level: when the input scans as two
/// `!` tokens before a `true` literal, each `!` applies to the whole
/// expression to its right: `(! (! true))`.
#[verifier::rlimit(100)]
pub proof fn lemma_unary_right_associativity(
    src: Seq<char>,
    p0: int,
    l0: int,
    bang1: TokenModel,
    p1: int,
    l1: int,
    bang2: TokenModel,
    p2: int,
    l2: int,
    tr: TokenModel,
    p3: int,
    l3: int,
)
    requires
        0 <= p0 <= src.len(),
        next_token_spec(src, p0, l0) == (crate::scanner::ScanStep {
            res: Some(Ok::<TokenModel, ErrorModel>(bang1)),
            pos: p1,
            line: l1,
        }),
        bang1.id == TokenType::Bang,
        next_token_spec(src, p1, l1) == (crate::scanner::ScanStep {
            res: Some(Ok::<TokenModel, ErrorModel>(bang2)),
            pos: p2,
            line: l2,
        }),
        bang2.id == TokenType::Bang,
        next_token_spec(src, p2, l2) == (crate::scanner::ScanStep {
            res: Some(Ok::<TokenModel, ErrorModel>(tr)),
            pos: p3,
            line: l3,
        }),
        tr.id == TokenType::True,
        next_token_spec(src, p3, l3).res is None,
    ensures
        expression_spec(src, p0, l0) == (ParseOutcome::Parsed {
            expr: ExprModel::Unary {
                op: UnaryOp::Bang,
                expr: Box::new(
                    ExprModel::Unary {
                        op: UnaryOp::Bang,
                        expr: Box::new(ExprModel::Literal(LitModel::True)),
                    },
                ),
            },
            pos: p3,
            line: l3,
        }),
{
    lemma_next_token_progress(src, p0, l0);
    lemma_next_token_progress(src, p1, l1);
    lemma_next_token_progress(src, p2, l2);
    let lit_t = ExprModel::Literal(LitModel::True);
    assert(primary_spec(src, p2, l2) == (ParseOutcome::Parsed { expr: lit_t, pos: p3, line: l3 }));
    assert(unary_spec(src, p2, l2) == (ParseOutcome::Parsed { expr: lit_t, pos: p3, line: l3 }));
    let u1 = ExprModel::Unary { op: UnaryOp::Bang, expr: Box::new(lit_t) };
    assert(unary_spec(src, p1, l1) == (ParseOutcome::Parsed { expr: u1, pos: p3, line: l3 }));
    let u2 = ExprModel::Unary { op: UnaryOp::Bang, expr: Box::new(u1) };
    assert(unary_spec(src, p0, l0) == (ParseOutcome::Parsed { expr: u2, pos: p3, line: l3 }));
    assert(factor_rest_spec(src, p3, l3, u2) == (ParseOutcome::Parsed {
        expr: u2,
        pos: p3,
        line: l3,
    }));
    assert(factor_spec(src, p0, l0) == (ParseOutcome::Parsed { expr: u2, pos: p3, line: l3 }));
    assert(term_spec(src, p0, l0) == (ParseOutcome::Parsed { expr: u2, pos: p3, line: l3 }));
    assert(comparison_spec(src, p0, l0) == (ParseOutcome::Parsed { expr: u2, pos: p3, line: l3 }));
    assert(equality_spec(src, p0, l0) == (ParseOutcome::Parsed { expr: u2, pos: p3, line: l3 }));
}

} // verus!

verus! {

/// One source text, one tree: the outcome of parsing is a function of
/// the source alone, so any two parses of the same text agree, and when
/// they succeed their trees re-serialize to byte-identical fully
/// parenthesized prefix forms.
pub proof fn lemma_parse_deterministic(src1: Seq<char>, src2: Seq<char>, pos: int, line: int)
    requires
        src1 == src2,
        0 <= pos <= src1.len(),
    ensures
        expression_spec(src1, pos, line) == expression_spec(src2, pos, line),
        (match (expression_spec(src1, pos, line), expression_spec(src2, pos, line)) {
            (
                ParseOutcome::Parsed { expr: e1, pos: q1, line: m1 },
                ParseOutcome::Parsed { expr: e2, pos: q2, line: m2 },
            ) => expr_text(e1) == expr_text(e2),
            _ => true,
        }),
{
}

} // verus!
