//! Token-to-operator classification: each family recognizes exactly its own
//! tokens and reports "not this family" for everything else.

use c_grammar::ops::{AssignOp, BinaryOp, PostfixOp, UnaryOp};
use c_grammar::tokens::{Ident, Keyword, Literal, Symbol, Token};

fn sym(s: Symbol) -> Token {
    Token::Symbol(s)
}

#[test]
fn postfix_family_is_increment_and_decrement() {
    assert_eq!(PostfixOp::try_from(&sym(Symbol::Increment)), Ok(PostfixOp::Increment));
    assert_eq!(PostfixOp::try_from(&sym(Symbol::Decrement)), Ok(PostfixOp::Decrement));
    assert_eq!(PostfixOp::try_from(&sym(Symbol::Plus)), Err(()));
    assert_eq!(PostfixOp::try_from(&sym(Symbol::Star)), Err(()));
    assert_eq!(PostfixOp::try_from(&Token::Keyword(Keyword::Int)), Err(()));
    assert_eq!(PostfixOp::try_from(&Token::Identifier(Ident { id: 7 })), Err(()));
}

#[test]
fn unary_family_recognizes_prefix_operators() {
    assert_eq!(UnaryOp::try_from(&sym(Symbol::Plus)), Ok(UnaryOp::Plus));
    assert_eq!(UnaryOp::try_from(&sym(Symbol::Minus)), Ok(UnaryOp::Negate));
    assert_eq!(UnaryOp::try_from(&sym(Symbol::Bang)), Ok(UnaryOp::LogicalNot));
    assert_eq!(UnaryOp::try_from(&sym(Symbol::Tilde)), Ok(UnaryOp::BitwiseNot));
    assert_eq!(UnaryOp::try_from(&sym(Symbol::Increment)), Ok(UnaryOp::Increment));
    assert_eq!(UnaryOp::try_from(&sym(Symbol::Decrement)), Ok(UnaryOp::Decrement));
    assert_eq!(UnaryOp::try_from(&sym(Symbol::Star)), Ok(UnaryOp::Deref));
    assert_eq!(UnaryOp::try_from(&sym(Symbol::Ampersand)), Ok(UnaryOp::AddressOf));
    assert_eq!(UnaryOp::try_from(&sym(Symbol::Slash)), Err(()));
    assert_eq!(UnaryOp::try_from(&sym(Symbol::Equal)), Err(()));
    assert_eq!(UnaryOp::try_from(&Token::Literal(Literal::Integer(1))), Err(()));
}

#[test]
fn binary_family_recognizes_every_arithmetic_and_relational_operator() {
    assert_eq!(BinaryOp::try_from(&sym(Symbol::Plus)), Ok(BinaryOp::Add));
    assert_eq!(BinaryOp::try_from(&sym(Symbol::Minus)), Ok(BinaryOp::Subtract));
    assert_eq!(BinaryOp::try_from(&sym(Symbol::Star)), Ok(BinaryOp::Multiply));
    assert_eq!(BinaryOp::try_from(&sym(Symbol::Slash)), Ok(BinaryOp::Divide));
    assert_eq!(BinaryOp::try_from(&sym(Symbol::Modulo)), Ok(BinaryOp::Modulo));
    assert_eq!(BinaryOp::try_from(&sym(Symbol::EqualEqual)), Ok(BinaryOp::Equal));
    assert_eq!(BinaryOp::try_from(&sym(Symbol::BangEqual)), Ok(BinaryOp::NotEqual));
    assert_eq!(BinaryOp::try_from(&sym(Symbol::GreaterThan)), Ok(BinaryOp::GreaterThan));
    assert_eq!(
        BinaryOp::try_from(&sym(Symbol::GreaterThanEqual)),
        Ok(BinaryOp::GreaterThanEqual)
    );
    assert_eq!(BinaryOp::try_from(&sym(Symbol::LessThan)), Ok(BinaryOp::LessThan));
    assert_eq!(BinaryOp::try_from(&sym(Symbol::LessThanEqual)), Ok(BinaryOp::LessThanEqual));
    assert_eq!(BinaryOp::try_from(&sym(Symbol::Ampersand)), Ok(BinaryOp::BitwiseAnd));
    assert_eq!(BinaryOp::try_from(&sym(Symbol::Pipe)), Ok(BinaryOp::BitwiseOr));
    assert_eq!(BinaryOp::try_from(&sym(Symbol::Caret)), Ok(BinaryOp::BitwiseXor));
    assert_eq!(BinaryOp::try_from(&sym(Symbol::DoubleAmpersand)), Ok(BinaryOp::LogicalAnd));
    assert_eq!(BinaryOp::try_from(&sym(Symbol::DoublePipe)), Ok(BinaryOp::LogicalOr));
    assert_eq!(BinaryOp::try_from(&sym(Symbol::LeftShift)), Ok(BinaryOp::LeftShift));
    assert_eq!(BinaryOp::try_from(&sym(Symbol::RightShift)), Ok(BinaryOp::RightShift));
}

#[test]
fn binary_family_recognizes_all_thirteen_assignment_forms() {
    let cases = [
        (Symbol::Equal, AssignOp::Assign),
        (Symbol::PlusEqual, AssignOp::Plus),
        (Symbol::MinusEqual, AssignOp::Minus),
        (Symbol::StarEqual, AssignOp::Multiply),
        (Symbol::SlashEqual, AssignOp::Divide),
        (Symbol::ModuloEqual, AssignOp::Modulo),
        (Symbol::AmpersandEqual, AssignOp::BitwiseAnd),
        (Symbol::PipeEqual, AssignOp::BitwiseOr),
        (Symbol::CaretEqual, AssignOp::BitwiseXor),
        (Symbol::LeftShiftEqual, AssignOp::LeftShift),
        (Symbol::RightShiftEqual, AssignOp::RightShift),
    ];
    for (s, fused) in cases {
        assert_eq!(BinaryOp::try_from(&sym(s)), Ok(BinaryOp::Assign(fused)));
        assert_eq!(AssignOp::try_from(&sym(s)), Ok(fused));
    }
    assert_eq!(AssignOp::try_from(&sym(Symbol::Plus)), Err(()));
    assert_eq!(AssignOp::try_from(&sym(Symbol::EqualEqual)), Err(()));
}

#[test]
fn increment_matches_postfix_and_unary_but_never_binary() {
    let t = sym(Symbol::Increment);
    assert!(PostfixOp::try_from(&t).is_ok());
    assert!(UnaryOp::try_from(&t).is_ok());
    assert_eq!(BinaryOp::try_from(&t), Err(()));
    let t = sym(Symbol::Decrement);
    assert!(PostfixOp::try_from(&t).is_ok());
    assert!(UnaryOp::try_from(&t).is_ok());
    assert_eq!(BinaryOp::try_from(&t), Err(()));
}

#[test]
fn plus_star_ampersand_match_unary_and_binary_but_not_postfix() {
    for s in [Symbol::Plus, Symbol::Minus, Symbol::Star, Symbol::Ampersand] {
        let t = sym(s);
        assert!(UnaryOp::try_from(&t).is_ok());
        assert!(BinaryOp::try_from(&t).is_ok());
        assert_eq!(PostfixOp::try_from(&t), Err(()));
    }
}

#[test]
fn single_family_tokens_fail_the_other_two_families() {
    // `!` and `~` read only as unary operators.
    for s in [Symbol::Bang, Symbol::Tilde] {
        let t = sym(s);
        assert!(UnaryOp::try_from(&t).is_ok());
        assert_eq!(PostfixOp::try_from(&t), Err(()));
        assert_eq!(BinaryOp::try_from(&t), Err(()));
    }
    // `/`, `<=`, `^=` and `&&` read only as binary/assignment operators.
    for s in [Symbol::Slash, Symbol::LessThanEqual, Symbol::CaretEqual, Symbol::DoubleAmpersand] {
        let t = sym(s);
        assert!(BinaryOp::try_from(&t).is_ok());
        assert_eq!(PostfixOp::try_from(&t), Err(()));
        assert_eq!(UnaryOp::try_from(&t), Err(()));
    }
}

#[test]
fn tokens_outside_every_family_end_the_expression() {
    for t in [
        Token::Symbol(Symbol::Semicolon),
        Token::Symbol(Symbol::RightParen),
        Token::Symbol(Symbol::Comma),
        Token::Keyword(Keyword::While),
        Token::Literal(Literal::Character(b'x')),
    ] {
        assert_eq!(PostfixOp::try_from(&t), Err(()));
        assert_eq!(UnaryOp::try_from(&t), Err(()));
        assert_eq!(BinaryOp::try_from(&t), Err(()));
        assert_eq!(AssignOp::try_from(&t), Err(()));
    }
}
