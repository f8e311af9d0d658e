//! The expression tree shared between the parser and its consumers, and
//! its fully parenthesized prefix-form rendering.

use vstd::prelude::*;
use vstd::string::StringExecFns;

verus! {

/// A unary operator.
#[derive(Debug, Clone, Copy, PartialEq, Eq, Structural)]
pub enum UnaryOp {
    /// Logical negation, `!`.
    Bang,
    /// Arithmetic negation, `-`.
    Minus,
}

/// A binary operator.
#[derive(Debug, Clone, Copy, PartialEq, Eq, Structural)]
pub enum BinaryOp {
    EqualEqual,
    BangEqual,
    Greater,
    GreaterEqual,
    Less,
    LessEqual,
    Plus,
    Minus,
    Star,
    Slash,
}

/// The source spelling of a unary operator.
pub open spec fn unary_op_text(op: UnaryOp) -> Seq<char> {
    match op {
        UnaryOp::Bang => "!"@,
        UnaryOp::Minus => "-"@,
    }
}

/// The source spelling of a binary operator.
pub open spec fn binary_op_text(op: BinaryOp) -> Seq<char> {
    match op {
        BinaryOp::EqualEqual => "=="@,
        BinaryOp::BangEqual => "!="@,
        BinaryOp::Greater => ">"@,
        BinaryOp::GreaterEqual => ">="@,
        BinaryOp::Less => "<"@,
        BinaryOp::LessEqual => "<="@,
        BinaryOp::Plus => "+"@,
        BinaryOp::Minus => "-"@,
        BinaryOp::Star => "*"@,
        BinaryOp::Slash => "/"@,
    }
}

impl UnaryOp {
    /// The source spelling of this operator.
    pub fn name(&self) -> (r: &'static str)
        ensures
            r@ == unary_op_text(*self),
    {
        match self {
            UnaryOp::Bang => "!",
            UnaryOp::Minus => "-",
        }
    }
}

impl BinaryOp {
    /// The source spelling of this operator.
    pub fn name(&self) -> (r: &'static str)
        ensures
            r@ == binary_op_text(*self),
    {
        match self {
            BinaryOp::EqualEqual => "==",
            BinaryOp::BangEqual => "!=",
            BinaryOp::Greater => ">",
            BinaryOp::GreaterEqual => ">=",
            BinaryOp::Less => "<",
            BinaryOp::LessEqual => "<=",
            BinaryOp::Plus => "+",
            BinaryOp::Minus => "-",
            BinaryOp::Star => "*",
            BinaryOp::Slash => "/",
        }
    }
}

/// Mathematical image of a [`LiteralExpr`].
pub enum LitModel {
    Number(Seq<char>),
    Str(Seq<char>),
    True,
    False,
    Nil,
}

/// A literal: a number or string with its raw text, or one of the fixed
/// keyword literals.
#[derive(Debug, Clone)]
pub enum LiteralExpr {
    /// A numeric literal, carrying its exact source text.
    Number(String),
    /// A string literal, carrying its text with the quotes stripped.
    Str(String),
    True,
    False,
    Nil,
}

/// Mathematical image of an [`Expression`] tree.
pub enum ExprModel {
    Literal(LitModel),
    Unary { op: UnaryOp, expr: Box<ExprModel> },
    Binary { lhs: Box<ExprModel>, op: BinaryOp, rhs: Box<ExprModel> },
    Grouping(Box<ExprModel>),
}

/// A unary operation over an operand it exclusively owns.
#[derive(Debug)]
pub struct UnaryExpr {
    pub operator: UnaryOp,
    pub expression: Box<Expression>,
}

/// A binary operation over operands it exclusively owns.
#[derive(Debug)]
pub struct BinaryExpr {
    pub lhs: Box<Expression>,
    pub operator: BinaryOp,
    pub rhs: Box<Expression>,
}

/// An expression tree node: each variant exclusively owns its
/// sub-expressions; there is no sharing and there are no cycles.
#[derive(Debug)]
pub enum Expression {
    Literal(LiteralExpr),
    Unary(UnaryExpr),
    Binary(BinaryExpr),
    Grouping(Box<Expression>),
}

/// Mathematical image of a literal.
pub open spec fn literal_model(l: LiteralExpr) -> LitModel {
    match l {
        LiteralExpr::Number(s) => LitModel::Number(s@),
        LiteralExpr::Str(s) => LitModel::Str(s@),
        LiteralExpr::True => LitModel::True,
        LiteralExpr::False => LitModel::False,
        LiteralExpr::Nil => LitModel::Nil,
    }
}

/// Mathematical image of an expression tree.
pub open spec fn expr_model(e: Expression) -> ExprModel
    decreases e,
{
    match e {
        Expression::Literal(l) => ExprModel::Literal(literal_model(l)),
        Expression::Unary(u) => ExprModel::Unary {
            op: u.operator,
            expr: Box::new(expr_model(*u.expression)),
        },
        Expression::Binary(b) => ExprModel::Binary {
            lhs: Box::new(expr_model(*b.lhs)),
            op: b.operator,
            rhs: Box::new(expr_model(*b.rhs)),
        },
        Expression::Grouping(inner) => ExprModel::Grouping(Box::new(expr_model(*inner))),
    }
}

impl View for Expression {
    type V = ExprModel;

    open spec fn view(&self) -> ExprModel {
        expr_model(*self)
    }
}

impl UnaryExpr {
    pub fn new(operator: UnaryOp, expression: Expression) -> (u: UnaryExpr)
        ensures
            u.operator == operator,
            *u.expression == expression,
    {
        UnaryExpr { operator, expression: Box::new(expression) }
    }
}

impl BinaryExpr {
    pub fn new(lhs: Expression, operator: BinaryOp, rhs: Expression) -> (b: BinaryExpr)
        ensures
            *b.lhs == lhs,
            b.operator == operator,
            *b.rhs == rhs,
    {
        BinaryExpr { lhs: Box::new(lhs), operator, rhs: Box::new(rhs) }
    }
}

/// The printed text of a literal: numbers and strings print their raw
/// text, the keyword literals print their keyword.
pub open spec fn literal_text(l: LitModel) -> Seq<char> {
    match l {
        LitModel::Number(s) => s,
        LitModel::Str(s) => s,
        LitModel::True => "true"@,
        LitModel::False => "false"@,
        LitModel::Nil => "nil"@,
    }
}

/// The fully parenthesized prefix form of an expression tree:
/// `(operator operand...)` for operators, `(group inner)` for grouping,
/// and the raw text for literals.
pub open spec fn expr_text(e: ExprModel) -> Seq<char>
    decreases e,
{
    match e {
        ExprModel::Literal(l) => literal_text(l),
        ExprModel::Unary { op, expr } => "("@ + unary_op_text(op) + " "@ + expr_text(*expr)
            + ")"@,
        ExprModel::Binary { lhs, op, rhs } => "("@ + binary_op_text(op) + " "@ + expr_text(*lhs)
            + " "@ + expr_text(*rhs) + ")"@,
        ExprModel::Grouping(inner) => "(group "@ + expr_text(*inner) + ")"@,
    }
}

impl LiteralExpr {
    /// The printed text of this literal.
    pub fn to_text(&self) -> (r: String)
        ensures
            r@ == literal_text(literal_model(*self)),
    {
        match self {
            LiteralExpr::Number(s) => s.clone(),
            LiteralExpr::Str(s) => s.clone(),
            LiteralExpr::True => String::from_str("true"),
            LiteralExpr::False => String::from_str("false"),
            LiteralExpr::Nil => String::from_str("nil"),
        }
    }
}

impl Expression {
    /// Re-serializes this tree in its fully parenthesized prefix form.
    pub fn to_text(&self) -> (r: String)
        ensures
            r@ == expr_text(self@),
        decreases *self,
    {
        match self {
            Expression::Literal(l) => l.to_text(),
            Expression::Unary(u) => {
                let mut s = String::from_str("(");
                s.append(u.operator.name());
                s.append(" ");
                let inner = u.expression.to_text();
                s.append(inner.as_str());
                s.append(")");
                proof {
                    assert(s@ =~= expr_text(self@));
                }
                s
            },
            Expression::Binary(b) => {
                let mut s = String::from_str("(");
                s.append(b.operator.name());
                s.append(" ");
                let left = b.lhs.to_text();
                s.append(left.as_str());
                s.append(" ");
                let right = b.rhs.to_text();
                s.append(right.as_str());
                s.append(")");
                proof {
                    assert(s@ =~= expr_text(self@));
                }
                s
            },
            Expression::Grouping(inner) => {
                let mut s = String::from_str("(group ");
                let t = inner.to_text();
                s.append(t.as_str());
                s.append(")");
                proof {
                    assert(s@ =~= expr_text(self@));
                }
                s
            },
        }
    }
}

/// Re-serialization is deterministic: the prefix form is a function of
/// the tree alone, so equal trees print to the same reference text.
pub proof fn lemma_print_deterministic(e1: ExprModel, e2: ExprModel)
    requires
        e1 == e2,
    ensures
        expr_text(e1) == expr_text(e2),
{
}

} // verus!
