//! The lexical vocabulary a scanner produces. The rest of the crate depends
//! on it only through the operator classifiers in [`crate::ast`].

use vstd::prelude::*;

verus! {

/// The category of a lexical token. Operator tokens are resolved into
/// semantic operator kinds by [`crate::ast::BinaryKind::try_from`] and
/// [`crate::ast::UnaryKind::try_from`]; the remaining members are the
/// punctuation, keyword and literal categories a parser consumes directly.
#[derive(Clone, Copy, Debug, PartialEq, Eq, Structural)]
pub enum TokenKind {
    As,
    Plus,
    Minus,
    Asterisk,
    Slash,
    Equal,
    DoubleEqual,
    BangEqual,
    Great,
    GreatEqual,
    Less,
    LessEqual,
    RightShift,
    LeftShift,
    PlusEqual,
    MinusEqual,
    AsteriskEqual,
    SlashEqual,
    RightShiftEqual,
    LeftShiftEqual,
    Not,
    Colon,
    Semicolon,
    Comma,
    OpenParen,
    CloseParen,
    OpenBrace,
    CloseBrace,
    Identifier,
    Integer,
    Char,
    String,
    Eof,
}

} // verus!
