//! The lexical interface: tokens as the scanner hands them over, and the
//! interned-identifier handles produced by the external interning service.

use vstd::prelude::*;

verus! {

/// Handle for an interned identifier. The interning service guarantees that
/// two handles are equal exactly when the interned texts are equal, so the
/// grammar model compares and copies handles and never touches raw text.
#[derive(Clone, Copy, Debug, PartialEq, Eq, Structural)]
pub struct Ident {
    pub id: u64,
}

/// A literal value, already decoded by the scanner.
#[derive(Clone, Copy, Debug, PartialEq, Eq, Structural)]
pub enum Literal {
    Integer(u64),
    Character(u8),
}

/// Keywords of the supported C subset.
#[derive(Clone, Copy, Debug, PartialEq, Eq, Structural)]
pub enum Keyword {
    Void,
    Char,
    Int,
    Long,
    Double,
    Signed,
    Unsigned,
    Static,
    Const,
    Struct,
    Sizeof,
    If,
    Else,
    While,
    For,
    Break,
    Continue,
    Return,
}

/// Punctuation and operator symbols of the supported C subset.
#[derive(Clone, Copy, Debug, PartialEq, Eq, Structural)]
pub enum Symbol {
    Plus,
    Minus,
    Star,
    Slash,
    Modulo,
    Increment,
    Decrement,
    Bang,
    Tilde,
    Ampersand,
    Pipe,
    Caret,
    DoubleAmpersand,
    DoublePipe,
    LeftShift,
    RightShift,
    EqualEqual,
    BangEqual,
    GreaterThan,
    GreaterThanEqual,
    LessThan,
    LessThanEqual,
    Equal,
    PlusEqual,
    MinusEqual,
    StarEqual,
    SlashEqual,
    ModuloEqual,
    AmpersandEqual,
    PipeEqual,
    CaretEqual,
    LeftShiftEqual,
    RightShiftEqual,
    LeftParen,
    RightParen,
    LeftBrace,
    RightBrace,
    LeftBracket,
    RightBracket,
    Semicolon,
    Comma,
    Dot,
    Arrow,
}

/// One lexical token. The grammar model consumes tokens by reference and
/// takes ownership only of identifier handles and decoded literal values.
#[derive(Clone, Copy, Debug, PartialEq, Eq, Structural)]
pub enum Token {
    Keyword(Keyword),
    Symbol(Symbol),
    Literal(Literal),
    Identifier(Ident),
}

} // verus!
