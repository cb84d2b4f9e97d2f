//! The token-to-operator resolver and the precedence table.
//!
//! Classification into a family is a three-state outcome: `Ok(op)` when the
//! token introduces an operator of that family, `Err(())` when it does not
//! ("not this family" — the caller tries the next family, never a hard error).

use vstd::prelude::*;

use crate::tokens::{Symbol, Token};

verus! {

/// Postfix operators: only increment and decrement.
#[derive(Clone, Copy, Debug, PartialEq, Eq, Structural)]
pub enum PostfixOp {
    Increment,
    Decrement,
}

/// Prefix unary operators. `Deref` and `AddressOf` share their tokens with
/// the binary family; the caller disambiguates by parse position.
#[derive(Clone, Copy, Debug, PartialEq, Eq, Structural)]
pub enum UnaryOp {
    Increment,
    Decrement,
    Plus,
    Negate,
    LogicalNot,
    BitwiseNot,
    Deref,
    AddressOf,
}

/// Binary and assignment operators. Every compound assignment is an
/// `Assign` carrying the arithmetic or bitwise operation it fuses with.
#[derive(Clone, Copy, Debug, PartialEq, Eq, Structural)]
pub enum BinaryOp {
    Add,
    Subtract,
    Multiply,
    Divide,
    Modulo,

    Equal,
    NotEqual,
    GreaterThan,
    GreaterThanEqual,
    LessThan,
    LessThanEqual,

    LogicalAnd,
    LogicalOr,

    BitwiseAnd,
    BitwiseOr,
    BitwiseXor,

    LeftShift,
    RightShift,

    Assign(AssignOp),
}

/// The operation an assignment fuses with; `Assign` is plain `=`.
#[derive(Clone, Copy, Debug, PartialEq, Eq, Structural)]
pub enum AssignOp {
    Assign,
    Plus,
    Minus,
    Multiply,
    Divide,
    Modulo,
    BitwiseAnd,
    BitwiseOr,
    BitwiseXor,
    LeftShift,
    RightShift,
}

/// What the postfix family recognizes in a token.
pub open spec fn postfix_op_of(t: Token) -> Result<PostfixOp, ()> {
    match t {
        Token::Symbol(Symbol::Increment) => Ok(PostfixOp::Increment),
        Token::Symbol(Symbol::Decrement) => Ok(PostfixOp::Decrement),
        _ => Err(()),
    }
}

impl PostfixOp {
    /// Classify a token into the postfix operator family.
    pub fn try_from(token: &Token) -> (r: Result<PostfixOp, ()>)
        ensures
            r == postfix_op_of(*token),
    {
        match token {
            Token::Symbol(Symbol::Increment) => Ok(PostfixOp::Increment),
            Token::Symbol(Symbol::Decrement) => Ok(PostfixOp::Decrement),
            _ => Err(()),
        }
    }
}

/// What the unary family recognizes in a token. `*` and `&` map here as well
/// as in the binary family; the caller must use parse position (prefix
/// position means unary) to choose, never this map alone.
pub open spec fn unary_op_of(t: Token) -> Result<UnaryOp, ()> {
    match t {
        Token::Symbol(Symbol::Plus) => Ok(UnaryOp::Plus),
        Token::Symbol(Symbol::Minus) => Ok(UnaryOp::Negate),
        Token::Symbol(Symbol::Bang) => Ok(UnaryOp::LogicalNot),
        Token::Symbol(Symbol::Tilde) => Ok(UnaryOp::BitwiseNot),
        Token::Symbol(Symbol::Increment) => Ok(UnaryOp::Increment),
        Token::Symbol(Symbol::Decrement) => Ok(UnaryOp::Decrement),
        Token::Symbol(Symbol::Star) => Ok(UnaryOp::Deref),
        Token::Symbol(Symbol::Ampersand) => Ok(UnaryOp::AddressOf),
        _ => Err(()),
    }
}

impl UnaryOp {
    /// Classify a token into the prefix unary operator family.
    pub fn try_from(token: &Token) -> (r: Result<UnaryOp, ()>)
        ensures
            r == unary_op_of(*token),
    {
        match token {
            Token::Symbol(Symbol::Plus) => Ok(UnaryOp::Plus),
            Token::Symbol(Symbol::Minus) => Ok(UnaryOp::Negate),
            Token::Symbol(Symbol::Bang) => Ok(UnaryOp::LogicalNot),
            Token::Symbol(Symbol::Tilde) => Ok(UnaryOp::BitwiseNot),
            Token::Symbol(Symbol::Increment) => Ok(UnaryOp::Increment),
            Token::Symbol(Symbol::Decrement) => Ok(UnaryOp::Decrement),
            Token::Symbol(Symbol::Star) => Ok(UnaryOp::Deref),
            Token::Symbol(Symbol::Ampersand) => Ok(UnaryOp::AddressOf),
            _ => Err(()),
        }
    }
}

/// What the binary/assignment family recognizes in a token.
pub open spec fn binary_op_of(t: Token) -> Result<BinaryOp, ()> {
    match t {
        Token::Symbol(Symbol::Plus) => Ok(BinaryOp::Add),
        Token::Symbol(Symbol::Minus) => Ok(BinaryOp::Subtract),
        Token::Symbol(Symbol::Star) => Ok(BinaryOp::Multiply),
        Token::Symbol(Symbol::Slash) => Ok(BinaryOp::Divide),
        Token::Symbol(Symbol::Modulo) => Ok(BinaryOp::Modulo),
        Token::Symbol(Symbol::EqualEqual) => Ok(BinaryOp::Equal),
        Token::Symbol(Symbol::BangEqual) => Ok(BinaryOp::NotEqual),
        Token::Symbol(Symbol::GreaterThan) => Ok(BinaryOp::GreaterThan),
        Token::Symbol(Symbol::GreaterThanEqual) => Ok(BinaryOp::GreaterThanEqual),
        Token::Symbol(Symbol::LessThan) => Ok(BinaryOp::LessThan),
        Token::Symbol(Symbol::LessThanEqual) => Ok(BinaryOp::LessThanEqual),
        Token::Symbol(Symbol::Ampersand) => Ok(BinaryOp::BitwiseAnd),
        Token::Symbol(Symbol::Pipe) => Ok(BinaryOp::BitwiseOr),
        Token::Symbol(Symbol::Caret) => Ok(BinaryOp::BitwiseXor),
        Token::Symbol(Symbol::DoubleAmpersand) => Ok(BinaryOp::LogicalAnd),
        Token::Symbol(Symbol::DoublePipe) => Ok(BinaryOp::LogicalOr),
        Token::Symbol(Symbol::LeftShift) => Ok(BinaryOp::LeftShift),
        Token::Symbol(Symbol::RightShift) => Ok(BinaryOp::RightShift),
        Token::Symbol(Symbol::Equal) => Ok(BinaryOp::Assign(AssignOp::Assign)),
        Token::Symbol(Symbol::PlusEqual) => Ok(BinaryOp::Assign(AssignOp::Plus)),
        Token::Symbol(Symbol::MinusEqual) => Ok(BinaryOp::Assign(AssignOp::Minus)),
        Token::Symbol(Symbol::StarEqual) => Ok(BinaryOp::Assign(AssignOp::Multiply)),
        Token::Symbol(Symbol::SlashEqual) => Ok(BinaryOp::Assign(AssignOp::Divide)),
        Token::Symbol(Symbol::ModuloEqual) => Ok(BinaryOp::Assign(AssignOp::Modulo)),
        Token::Symbol(Symbol::AmpersandEqual) => Ok(BinaryOp::Assign(AssignOp::BitwiseAnd)),
        Token::Symbol(Symbol::PipeEqual) => Ok(BinaryOp::Assign(AssignOp::BitwiseOr)),
        Token::Symbol(Symbol::CaretEqual) => Ok(BinaryOp::Assign(AssignOp::BitwiseXor)),
        Token::Symbol(Symbol::LeftShiftEqual) => Ok(BinaryOp::Assign(AssignOp::LeftShift)),
        Token::Symbol(Symbol::RightShiftEqual) => Ok(BinaryOp::Assign(AssignOp::RightShift)),
        _ => Err(()),
    }
}

impl BinaryOp {
    /// Classify a token into the binary/assignment operator family.
    pub fn try_from(token: &Token) -> (r: Result<BinaryOp, ()>)
        ensures
            r == binary_op_of(*token),
    {
        match token {
            Token::Symbol(Symbol::Plus) => Ok(BinaryOp::Add),
            Token::Symbol(Symbol::Minus) => Ok(BinaryOp::Subtract),
            Token::Symbol(Symbol::Star) => Ok(BinaryOp::Multiply),
            Token::Symbol(Symbol::Slash) => Ok(BinaryOp::Divide),
            Token::Symbol(Symbol::Modulo) => Ok(BinaryOp::Modulo),
            Token::Symbol(Symbol::EqualEqual) => Ok(BinaryOp::Equal),
            Token::Symbol(Symbol::BangEqual) => Ok(BinaryOp::NotEqual),
            Token::Symbol(Symbol::GreaterThan) => Ok(BinaryOp::GreaterThan),
            Token::Symbol(Symbol::GreaterThanEqual) => Ok(BinaryOp::GreaterThanEqual),
            Token::Symbol(Symbol::LessThan) => Ok(BinaryOp::LessThan),
            Token::Symbol(Symbol::LessThanEqual) => Ok(BinaryOp::LessThanEqual),
            Token::Symbol(Symbol::Ampersand) => Ok(BinaryOp::BitwiseAnd),
            Token::Symbol(Symbol::Pipe) => Ok(BinaryOp::BitwiseOr),
            Token::Symbol(Symbol::Caret) => Ok(BinaryOp::BitwiseXor),
            Token::Symbol(Symbol::DoubleAmpersand) => Ok(BinaryOp::LogicalAnd),
            Token::Symbol(Symbol::DoublePipe) => Ok(BinaryOp::LogicalOr),
            Token::Symbol(Symbol::LeftShift) => Ok(BinaryOp::LeftShift),
            Token::Symbol(Symbol::RightShift) => Ok(BinaryOp::RightShift),
            Token::Symbol(Symbol::Equal) => Ok(BinaryOp::Assign(AssignOp::Assign)),
            Token::Symbol(Symbol::PlusEqual) => Ok(BinaryOp::Assign(AssignOp::Plus)),
            Token::Symbol(Symbol::MinusEqual) => Ok(BinaryOp::Assign(AssignOp::Minus)),
            Token::Symbol(Symbol::StarEqual) => Ok(BinaryOp::Assign(AssignOp::Multiply)),
            Token::Symbol(Symbol::SlashEqual) => Ok(BinaryOp::Assign(AssignOp::Divide)),
            Token::Symbol(Symbol::ModuloEqual) => Ok(BinaryOp::Assign(AssignOp::Modulo)),
            Token::Symbol(Symbol::AmpersandEqual) => Ok(BinaryOp::Assign(AssignOp::BitwiseAnd)),
            Token::Symbol(Symbol::PipeEqual) => Ok(BinaryOp::Assign(AssignOp::BitwiseOr)),
            Token::Symbol(Symbol::CaretEqual) => Ok(BinaryOp::Assign(AssignOp::BitwiseXor)),
            Token::Symbol(Symbol::LeftShiftEqual) => Ok(BinaryOp::Assign(AssignOp::LeftShift)),
            Token::Symbol(Symbol::RightShiftEqual) => Ok(BinaryOp::Assign(AssignOp::RightShift)),
            _ => Err(()),
        }
    }
}

/// What the assignment family recognizes in a token.
pub open spec fn assign_op_of(t: Token) -> Result<AssignOp, ()> {
    match t {
        Token::Symbol(Symbol::Equal) => Ok(AssignOp::Assign),
        Token::Symbol(Symbol::PlusEqual) => Ok(AssignOp::Plus),
        Token::Symbol(Symbol::MinusEqual) => Ok(AssignOp::Minus),
        Token::Symbol(Symbol::StarEqual) => Ok(AssignOp::Multiply),
        Token::Symbol(Symbol::SlashEqual) => Ok(AssignOp::Divide),
        Token::Symbol(Symbol::ModuloEqual) => Ok(AssignOp::Modulo),
        Token::Symbol(Symbol::AmpersandEqual) => Ok(AssignOp::BitwiseAnd),
        Token::Symbol(Symbol::PipeEqual) => Ok(AssignOp::BitwiseOr),
        Token::Symbol(Symbol::CaretEqual) => Ok(AssignOp::BitwiseXor),
        Token::Symbol(Symbol::LeftShiftEqual) => Ok(AssignOp::LeftShift),
        Token::Symbol(Symbol::RightShiftEqual) => Ok(AssignOp::RightShift),
        _ => Err(()),
    }
}

impl AssignOp {
    /// Classify a token into the assignment operator family.
    pub fn try_from(token: &Token) -> (r: Result<AssignOp, ()>)
        ensures
            r == assign_op_of(*token),
    {
        match token {
            Token::Symbol(Symbol::Equal) => Ok(AssignOp::Assign),
            Token::Symbol(Symbol::PlusEqual) => Ok(AssignOp::Plus),
            Token::Symbol(Symbol::MinusEqual) => Ok(AssignOp::Minus),
            Token::Symbol(Symbol::StarEqual) => Ok(AssignOp::Multiply),
            Token::Symbol(Symbol::SlashEqual) => Ok(AssignOp::Divide),
            Token::Symbol(Symbol::ModuloEqual) => Ok(AssignOp::Modulo),
            Token::Symbol(Symbol::AmpersandEqual) => Ok(AssignOp::BitwiseAnd),
            Token::Symbol(Symbol::PipeEqual) => Ok(AssignOp::BitwiseOr),
            Token::Symbol(Symbol::CaretEqual) => Ok(AssignOp::BitwiseXor),
            Token::Symbol(Symbol::LeftShiftEqual) => Ok(AssignOp::LeftShift),
            Token::Symbol(Symbol::RightShiftEqual) => Ok(AssignOp::RightShift),
            _ => Err(()),
        }
    }
}

/// Binding strength of a binary/assignment operator; higher binds tighter.
pub open spec fn precedence_of(op: BinaryOp) -> u8 {
    match op {
        BinaryOp::Multiply | BinaryOp::Divide | BinaryOp::Modulo => 11,
        BinaryOp::Add | BinaryOp::Subtract => 10,
        BinaryOp::LeftShift | BinaryOp::RightShift => 9,
        BinaryOp::GreaterThan
        | BinaryOp::GreaterThanEqual
        | BinaryOp::LessThan
        | BinaryOp::LessThanEqual => 8,
        BinaryOp::Equal | BinaryOp::NotEqual => 7,
        BinaryOp::BitwiseAnd => 6,
        BinaryOp::BitwiseXor => 5,
        BinaryOp::BitwiseOr => 4,
        BinaryOp::LogicalAnd => 3,
        BinaryOp::LogicalOr => 2,
        BinaryOp::Assign(_) => 1,
    }
}

/// Position of an operator's level in the documented precedence ordering,
/// written down tightest first: multiplicative, additive, shift, relational,
/// equality, bitwise-AND, bitwise-XOR, bitwise-OR, logical-AND, logical-OR,
/// assignment. Position 0 is the tightest level.
pub open spec fn binding_tier(op: BinaryOp) -> int {
    match op {
        BinaryOp::Multiply | BinaryOp::Divide | BinaryOp::Modulo => 0,
        BinaryOp::Add | BinaryOp::Subtract => 1,
        BinaryOp::LeftShift | BinaryOp::RightShift => 2,
        BinaryOp::GreaterThan
        | BinaryOp::GreaterThanEqual
        | BinaryOp::LessThan
        | BinaryOp::LessThanEqual => 3,
        BinaryOp::Equal | BinaryOp::NotEqual => 4,
        BinaryOp::BitwiseAnd => 5,
        BinaryOp::BitwiseXor => 6,
        BinaryOp::BitwiseOr => 7,
        BinaryOp::LogicalAnd => 8,
        BinaryOp::LogicalOr => 9,
        BinaryOp::Assign(_) => 10,
    }
}

/// Whether an operator associates to the right. Only the assignment family
/// does; every other binary operator is left-associative.
pub open spec fn right_associative(op: BinaryOp) -> bool {
    op is Assign
}

impl BinaryOp {
    /// Binding strength for precedence climbing; higher binds tighter.
    /// This table is the sole authority on operator precedence: the parser
    /// driver queries it and must never hard-code binding strengths.
    pub fn precedence(&self) -> (r: u8)
        ensures
            r == precedence_of(*self),
    {
        match self {
            BinaryOp::Multiply | BinaryOp::Divide | BinaryOp::Modulo => 11,
            BinaryOp::Add | BinaryOp::Subtract => 10,
            BinaryOp::LeftShift | BinaryOp::RightShift => 9,
            BinaryOp::GreaterThan
            | BinaryOp::GreaterThanEqual
            | BinaryOp::LessThan
            | BinaryOp::LessThanEqual => 8,
            BinaryOp::Equal | BinaryOp::NotEqual => 7,
            BinaryOp::BitwiseAnd => 6,
            BinaryOp::BitwiseXor => 5,
            BinaryOp::BitwiseOr => 4,
            BinaryOp::LogicalAnd => 3,
            BinaryOp::LogicalOr => 2,
            BinaryOp::Assign(_) => 1,
        }
    }

    /// Whether this operator associates to the right: true exactly for the
    /// assignment family, so `a = b = c` groups as `a = (b = c)` while
    /// `a - b - c` groups as `(a - b) - c`.
    pub fn is_right_associative(&self) -> (r: bool)
        ensures
            r == right_associative(*self),
    {
        match self {
            BinaryOp::Assign(_) => true,
            _ => false,
        }
    }
}

/// Whether the postfix family recognizes the token.
pub open spec fn postfix_matches(t: Token) -> bool {
    postfix_op_of(t) is Ok
}

/// Whether the unary family recognizes the token.
pub open spec fn unary_matches(t: Token) -> bool {
    unary_op_of(t) is Ok
}

/// Whether the binary/assignment family recognizes the token.
pub open spec fn binary_matches(t: Token) -> bool {
    binary_op_of(t) is Ok
}

/// The complete overlap structure of the three operator families. `++` and
/// `--` are the whole postfix family; they also read as unary operators but
/// never as binary ones. `+`, `-`, `*` and `&` are exactly the tokens shared
/// by the unary and binary families, disambiguated by parse position. Every
/// other token belongs to at most one family, so classification into the
/// remaining families reports "not this family".
pub proof fn lemma_operator_family_overlap(t: Token)
    ensures
        postfix_matches(t) <==> (t == Token::Symbol(Symbol::Increment) || t == Token::Symbol(
            Symbol::Decrement,
        )),
        postfix_matches(t) ==> unary_matches(t),
        postfix_matches(t) ==> !binary_matches(t),
        (unary_matches(t) && binary_matches(t)) <==> (t == Token::Symbol(Symbol::Plus) || t
            == Token::Symbol(Symbol::Minus) || t == Token::Symbol(Symbol::Star) || t
            == Token::Symbol(Symbol::Ampersand)),
{
}

/// The binary family classifies a token as an assignment exactly when the
/// assignment family recognizes it, and both report the same fused operation.
pub proof fn lemma_assign_binary_agree(t: Token)
    ensures
        (binary_op_of(t) matches Ok(op) && op is Assign) <==> assign_op_of(t) is Ok,
        binary_op_of(t) matches Ok(BinaryOp::Assign(op)) ==> assign_op_of(t) == Ok::<
            AssignOp,
            (),
        >(op),
        assign_op_of(t) matches Ok(op) ==> binary_op_of(t) == Ok::<BinaryOp, ()>(
            BinaryOp::Assign(op),
        ),
{
}

/// Precedence is strictly decreasing along the documented ordering of levels,
/// and operators on the same level share one binding strength: whenever A
/// stands on a tighter level than B, the table binds A strictly tighter, so a
/// precedence-climbing parser groups `x A y B z` as `(x A y) B z`.
pub proof fn lemma_precedence_follows_tiers(a: BinaryOp, b: BinaryOp)
    ensures
        binding_tier(a) < binding_tier(b) ==> precedence_of(a) > precedence_of(b),
        binding_tier(a) == binding_tier(b) ==> precedence_of(a) == precedence_of(b),
{
}

/// The assignment family is the loosest-binding and the only right-associative
/// level: `a = b = c` must group as `a = (b = c)`.
pub proof fn lemma_assignment_binds_loosest(a: BinaryOp, b: BinaryOp)
    ensures
        right_associative(a) <==> a is Assign,
        (!(a is Assign) && b is Assign) ==> precedence_of(a) > precedence_of(b),
{
}

} // verus!
