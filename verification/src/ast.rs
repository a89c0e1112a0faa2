//! The abstract syntax tree: expression and statement shapes, the span each
//! carries, and the fallible classification of lexical tokens into semantic
//! binary and unary operator kinds.

use vstd::prelude::*;

use crate::tokens::TokenKind;
use crate::utils::Span;

verus! {

/// A literal-shaped leaf value. Bare identifiers are modelled as a literal
/// kind rather than a distinct expression variant.
#[derive(Debug)]
pub enum LiteralKind {
    Boolean(bool),
    Char(String),
    String(String),
    Identifier(String),
    Integer(i64),
}

#[derive(Debug)]
pub struct Literal {
    pub kind: LiteralKind,
    pub span: Span,
}

/// The closed set of semantic binary operator kinds, including the
/// assignment and compound-assignment forms and the type-cast marker `As`.
#[derive(Clone, Copy, Debug, PartialEq, Eq, Structural)]
pub enum BinaryKind {
    As,
    Plus,
    Minus,
    Asterisk,
    Slash,
    Equal,
    DoubleEqual,
    BangEqual,
    Great,
    GreatEqual,
    Less,
    LessEqual,
    RightShift,
    LeftShift,
    PlusEqual,
    MinusEqual,
    AsteriskEqual,
    SlashEqual,
    RightShiftEqual,
    LeftShiftEqual,
}

/// The binary operator kind a token classifies as, if any.
pub open spec fn binary_kind_of(t: TokenKind) -> Option<BinaryKind> {
    match t {
        TokenKind::As => Some(BinaryKind::As),
        TokenKind::Plus => Some(BinaryKind::Plus),
        TokenKind::Minus => Some(BinaryKind::Minus),
        TokenKind::Asterisk => Some(BinaryKind::Asterisk),
        TokenKind::Slash => Some(BinaryKind::Slash),
        TokenKind::Equal => Some(BinaryKind::Equal),
        TokenKind::DoubleEqual => Some(BinaryKind::DoubleEqual),
        TokenKind::BangEqual => Some(BinaryKind::BangEqual),
        TokenKind::Great => Some(BinaryKind::Great),
        TokenKind::GreatEqual => Some(BinaryKind::GreatEqual),
        TokenKind::Less => Some(BinaryKind::Less),
        TokenKind::LessEqual => Some(BinaryKind::LessEqual),
        TokenKind::RightShift => Some(BinaryKind::RightShift),
        TokenKind::LeftShift => Some(BinaryKind::LeftShift),
        TokenKind::PlusEqual => Some(BinaryKind::PlusEqual),
        TokenKind::MinusEqual => Some(BinaryKind::MinusEqual),
        TokenKind::AsteriskEqual => Some(BinaryKind::AsteriskEqual),
        TokenKind::SlashEqual => Some(BinaryKind::SlashEqual),
        TokenKind::RightShiftEqual => Some(BinaryKind::RightShiftEqual),
        TokenKind::LeftShiftEqual => Some(BinaryKind::LeftShiftEqual),
        _ => None,
    }
}

/// The one token kind a binary operator kind is classified from.
pub open spec fn binary_token_of(k: BinaryKind) -> TokenKind {
    match k {
        BinaryKind::As => TokenKind::As,
        BinaryKind::Plus => TokenKind::Plus,
        BinaryKind::Minus => TokenKind::Minus,
        BinaryKind::Asterisk => TokenKind::Asterisk,
        BinaryKind::Slash => TokenKind::Slash,
        BinaryKind::Equal => TokenKind::Equal,
        BinaryKind::DoubleEqual => TokenKind::DoubleEqual,
        BinaryKind::BangEqual => TokenKind::BangEqual,
        BinaryKind::Great => TokenKind::Great,
        BinaryKind::GreatEqual => TokenKind::GreatEqual,
        BinaryKind::Less => TokenKind::Less,
        BinaryKind::LessEqual => TokenKind::LessEqual,
        BinaryKind::RightShift => TokenKind::RightShift,
        BinaryKind::LeftShift => TokenKind::LeftShift,
        BinaryKind::PlusEqual => TokenKind::PlusEqual,
        BinaryKind::MinusEqual => TokenKind::MinusEqual,
        BinaryKind::AsteriskEqual => TokenKind::AsteriskEqual,
        BinaryKind::SlashEqual => TokenKind::SlashEqual,
        BinaryKind::RightShiftEqual => TokenKind::RightShiftEqual,
        BinaryKind::LeftShiftEqual => TokenKind::LeftShiftEqual,
    }
}

impl BinaryKind {
    /// Classifies a lexical token as a binary operator kind, or signals that
    /// the token is no binary operator so the caller can try the unary
    /// classifier instead.
    pub fn try_from(value: TokenKind) -> (r: Result<BinaryKind, ()>)
        ensures
            match r {
                Ok(k) => binary_kind_of(value) == Some(k),
                Err(_) => binary_kind_of(value) is None,
            },
    {
        match value {
            TokenKind::As => Ok(BinaryKind::As),
            TokenKind::Plus => Ok(BinaryKind::Plus),
            TokenKind::Minus => Ok(BinaryKind::Minus),
            TokenKind::Asterisk => Ok(BinaryKind::Asterisk),
            TokenKind::Slash => Ok(BinaryKind::Slash),
            TokenKind::Equal => Ok(BinaryKind::Equal),
            TokenKind::DoubleEqual => Ok(BinaryKind::DoubleEqual),
            TokenKind::BangEqual => Ok(BinaryKind::BangEqual),
            TokenKind::Great => Ok(BinaryKind::Great),
            TokenKind::GreatEqual => Ok(BinaryKind::GreatEqual),
            TokenKind::Less => Ok(BinaryKind::Less),
            TokenKind::LessEqual => Ok(BinaryKind::LessEqual),
            TokenKind::RightShift => Ok(BinaryKind::RightShift),
            TokenKind::LeftShift => Ok(BinaryKind::LeftShift),
            TokenKind::PlusEqual => Ok(BinaryKind::PlusEqual),
            TokenKind::MinusEqual => Ok(BinaryKind::MinusEqual),
            TokenKind::AsteriskEqual => Ok(BinaryKind::AsteriskEqual),
            TokenKind::SlashEqual => Ok(BinaryKind::SlashEqual),
            TokenKind::RightShiftEqual => Ok(BinaryKind::RightShiftEqual),
            TokenKind::LeftShiftEqual => Ok(BinaryKind::LeftShiftEqual),
            _ => Err(()),
        }
    }
}

/// Law: each binary operator kind is produced by exactly one token kind —
/// that token classifies to it, and no other token kind does.
pub proof fn lemma_binary_classification_exact(k: BinaryKind)
    ensures
        binary_kind_of(binary_token_of(k)) == Some(k),
        forall|t: TokenKind| binary_kind_of(t) == Some(k) ==> t == binary_token_of(k),
{
}

/// The closed set of semantic unary operator kinds.
#[derive(Clone, Copy, Debug, PartialEq, Eq, Structural)]
pub enum UnaryKind {
    Not,
    Plus,
    Minus,
}

/// The unary operator kind a token classifies as, if any.
pub open spec fn unary_kind_of(t: TokenKind) -> Option<UnaryKind> {
    match t {
        TokenKind::Not => Some(UnaryKind::Not),
        TokenKind::Plus => Some(UnaryKind::Plus),
        TokenKind::Minus => Some(UnaryKind::Minus),
        _ => None,
    }
}

/// The one token kind a unary operator kind is classified from.
pub open spec fn unary_token_of(k: UnaryKind) -> TokenKind {
    match k {
        UnaryKind::Not => TokenKind::Not,
        UnaryKind::Plus => TokenKind::Plus,
        UnaryKind::Minus => TokenKind::Minus,
    }
}

impl UnaryKind {
    /// Classifies a lexical token as a unary operator kind, or signals that
    /// the token is no unary operator.
    pub fn try_from(value: TokenKind) -> (r: Result<UnaryKind, ()>)
        ensures
            match r {
                Ok(k) => unary_kind_of(value) == Some(k),
                Err(_) => unary_kind_of(value) is None,
            },
    {
        match value {
            TokenKind::Not => Ok(UnaryKind::Not),
            TokenKind::Plus => Ok(UnaryKind::Plus),
            TokenKind::Minus => Ok(UnaryKind::Minus),
            _ => Err(()),
        }
    }
}

/// Law: each unary operator kind is produced by exactly one token kind —
/// that token classifies to it, and no other token kind does.
pub proof fn lemma_unary_classification_exact(k: UnaryKind)
    ensures
        unary_kind_of(unary_token_of(k)) == Some(k),
        forall|t: TokenKind| unary_kind_of(t) == Some(k) ==> t == unary_token_of(k),
{
}

/// A unary operator applied to one owned sub-expression.
#[derive(Debug)]
pub struct Unary {
    pub expr: Box<Expression>,
    pub kind: UnaryKind,
    pub span: Span,
}

/// A binary operator applied to two owned sub-expressions; the order of
/// `left` and `right` is significant.
#[derive(Debug)]
pub struct Binary {
    pub left: Box<Expression>,
    pub right: Box<Expression>,
    pub kind: BinaryKind,
    pub span: Span,
}

/// A call of a named callee with an ordered sequence of argument
/// expressions; the name is not resolved here.
#[derive(Debug)]
pub struct Call {
    pub name: String,
    pub arguments: Vec<Expression>,
    pub span: Span,
}

/// A parenthesized sub-expression, kept distinct from its inner expression
/// so the span of the parentheses is retained.
#[derive(Debug)]
pub struct Grouping {
    pub expr: Box<Expression>,
    pub span: Span,
}

/// The closed sum of expression shapes a parser assembles.
#[derive(Debug)]
pub enum Expression {
    Literal(Literal),
    Binary(Binary),
    Unary(Unary),
    Call(Call),
    Grouping(Grouping),
}

#[derive(Debug)]
pub struct VariableDeclaration {
    pub name: String,
    pub value: Expression,
    pub mutable: bool,
    pub span: Span,
}

/// A braces-delimited group of statements; it stores no span of its own.
#[derive(Debug)]
pub struct Block {
    pub statements: Vec<Statement>,
}

/// A conditional loop; its body is a raw statement sequence, not a `Block`.
#[derive(Debug)]
pub struct While {
    pub expression: Expression,
    pub block: Vec<Statement>,
}

#[derive(Debug)]
pub struct Break {
    pub span: Span,
}

#[derive(Debug)]
pub struct Continue {
    pub span: Span,
}

/// The closed sum of statement shapes; `Loop` wraps a [`Block`] as the
/// unconditional loop construct.
#[derive(Debug)]
pub enum Statement {
    Expression(Expression),
    VariableDeclaration(VariableDeclaration),
    Block(Block),
    Loop(Block),
    While(While),
    Break(Break),
    Continue(Continue),
}

impl Expression {
    /// The span stored in the active variant.
    pub open spec fn spec_span(self) -> Span {
        match self {
            Expression::Literal(literal) => literal.span,
            Expression::Binary(binary) => binary.span,
            Expression::Unary(unary) => unary.span,
            Expression::Call(call) => call.span,
            Expression::Grouping(grouping) => grouping.span,
        }
    }

    /// The authoritative source position of this expression: exactly the
    /// span stored at construction, whichever variant is active.
    pub fn span(&self) -> (r: Span)
        ensures
            r == self.spec_span(),
    {
        match self {
            Expression::Literal(literal) => literal.span,
            Expression::Binary(binary) => binary.span,
            Expression::Unary(unary) => unary.span,
            Expression::Call(call) => call.span,
            Expression::Grouping(grouping) => grouping.span,
        }
    }
}

impl Statement {
    /// The span a statement reports: the stored one for the span-bearing
    /// variants, and the zeroed default for `Block`, `Loop` and `While`,
    /// which store none. That those three fall back to the default span is a
    /// deliberate choice, preserved as-is and pinned down here rather than
    /// papered over with a computed position.
    pub open spec fn spec_span(self) -> Span {
        match self {
            Statement::Expression(expr) => expr.spec_span(),
            Statement::VariableDeclaration(decl) => decl.span,
            Statement::Break(stat) => stat.span,
            Statement::Continue(stat) => stat.span,
            _ => Span { line: 0, start: 0, end: 0 },
        }
    }

    /// The source position of this statement, as [`Statement::spec_span`]
    /// gives it.
    pub fn span(&self) -> (r: Span)
        ensures
            r == self.spec_span(),
    {
        match self {
            Statement::Expression(expr) => expr.span(),
            Statement::VariableDeclaration(decl) => decl.span,
            Statement::Break(stat) => stat.span,
            Statement::Continue(stat) => stat.span,
            _ => Span::default(),
        }
    }
}

} // verus!
