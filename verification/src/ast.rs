//! The abstract-syntax tree: declarations, statements, expressions and types.
//!
//! Ownership is tree-structured: every child node is exclusively owned by its
//! parent, so there is no sharing and no cycle. Every node is built once by
//! the parser driver and read, never mutated, by later phases.

use vstd::prelude::*;

use crate::ops::{BinaryOp, PostfixOp, UnaryOp};
use crate::tokens::{Ident, Keyword, Literal, Token};

verus! {

/// A whole translation unit: its top-level units in source order.
pub type ASTRoot = Vec<InitDeclaration>;

/// Construction-time failures of the grammar model. A classification miss is
/// not one of these: it is the `Err(())` of the resolver maps, which the
/// driver answers by trying another production.
#[derive(Clone, Copy, Debug, PartialEq, Eq, Structural)]
pub enum GrammarError {
    /// The pieces handed over cannot form the requested node, and the
    /// enclosing node must not be built from them.
    MalformedComposition,
    /// The construct is outside the supported C subset.
    Unsupported,
}

/// An ordered sequence of statements; order is execution order.
#[derive(Debug)]
pub struct Block(pub Vec<Statement>);

/// A top-level program unit.
#[derive(Debug)]
pub enum InitDeclaration {
    Declaration(VariableDeclaration),
    Function(FunctionDeclaration),
    Struct(StructDeclaration),
}

/// A struct layout: member order is significant for later phases.
#[derive(Debug)]
pub struct StructDeclaration {
    pub ident: Ident,
    pub members: Vec<Declaration>,
}

/// A function: its return declaration, parameters in order, and an optional
/// body. A `None` body denotes a prototype, which downstream phases are free
/// to reject. Varargs are outside the subset, so `varargs` is always false
/// in a composed node.
#[derive(Debug)]
pub struct FunctionDeclaration {
    pub declaration: Declaration,
    pub parameters: Vec<Declaration>,
    pub varargs: bool,
    pub body: Option<Block>,
}

/// A variable declaration with an optional initializing expression.
#[derive(Debug)]
pub struct VariableDeclaration {
    pub declaration: Declaration,
    pub initializer: Option<Expression>,
}

/// One declared name: its specifiers, its declarator shape, and the name
/// itself. The identifier is absent only in type-only contexts such as the
/// operand of `sizeof`.
#[derive(Debug)]
pub struct Declaration {
    pub specifier: DeclarationSpecifier,
    pub declarator: DeclaratorType,
    pub ident: Option<Ident>,
}

/// The declarator shape wrapped around a base type: pointer-to, array-of, or
/// no further shape. Nesting order matters: pointer-to-array-of-T and
/// array-of-pointer-to-T are distinct shapes. The subset has no function
/// declarator, so a pointer-to-function cannot be expressed at all.
#[derive(Debug)]
pub enum DeclaratorType {
    Pointer { to: Box<DeclaratorType> },
    Array { of: Box<DeclaratorType>, size: Option<usize> },
    Base,
}

impl DeclaratorType {
    /// Compose one more level of shape: a pointer to `inner`. Pointer
    /// composition nests to unbounded depth, and the composed node takes
    /// apart into exactly the shape it was built from.
    pub fn pointer_to(inner: DeclaratorType) -> (r: DeclaratorType)
        ensures
            r matches DeclaratorType::Pointer { to } && *to == inner,
    {
        DeclaratorType::Pointer { to: Box::new(inner) }
    }

    /// Compose one more level of shape: an array of `inner`, of fixed or
    /// unspecified size. Whether an unsized array is legal where it stands is
    /// judged by semantic analysis; the model only represents the option.
    pub fn array_of(inner: DeclaratorType, array_size: Option<usize>) -> (r: DeclaratorType)
        ensures
            r matches DeclaratorType::Array { of, size } && *of == inner && size == array_size,
    {
        DeclaratorType::Array { of: Box::new(inner), size: array_size }
    }

    /// Structural equality of two declarator shapes, level by level, so that
    /// pointer-to-array-of-T and array-of-pointer-to-T never compare equal.
    pub fn same_shape(&self, other: &DeclaratorType) -> (r: bool)
        ensures
            r <==> *self == *other,
        decreases *self,
    {
        match (self, other) {
            (DeclaratorType::Pointer { to: a }, DeclaratorType::Pointer { to: b }) => a.same_shape(
                b,
            ),
            (
                DeclaratorType::Array { of: a, size: sa },
                DeclaratorType::Array { of: b, size: sb },
            ) => {
                let sizes_equal = match (sa, sb) {
                    (Some(x), Some(y)) => x == y,
                    (None, None) => true,
                    _ => false,
                };
                sizes_equal && a.same_shape(b)
            },
            (DeclaratorType::Base, DeclaratorType::Base) => true,
            _ => false,
        }
    }
}

/// The specifiers in front of a declarator: storage specifiers and type
/// qualifiers in no significant order, and the base-type specifier tokens in
/// source order, resolved into one concrete type by a later phase.
#[derive(Debug)]
pub struct DeclarationSpecifier {
    pub specifiers: Vec<StorageSpecifier>,
    pub qualifiers: Vec<TypeQualifier>,
    pub ty: Vec<TypeSpecifier>,
}

impl DeclarationSpecifier {
    /// A well-formed declaration names at least one base-type specifier.
    pub open spec fn is_well_formed(&self) -> bool {
        self.ty@.len() > 0
    }
}

impl Declaration {
    /// Well-formedness of the whole declaration.
    pub open spec fn is_well_formed(&self) -> bool {
        self.specifier.is_well_formed()
    }

    /// Compose a specifier with a declarator shape into the declared type for
    /// a name; the identifier is absent in type-only contexts. Fails with
    /// `MalformedComposition` exactly when the specifier names no base type,
    /// so a composed declaration is always well-formed.
    pub fn compose(
        specifier: DeclarationSpecifier,
        declarator: DeclaratorType,
        ident: Option<Ident>,
    ) -> (r: Result<Declaration, GrammarError>)
        ensures
            specifier.is_well_formed() ==> r == Ok::<Declaration, GrammarError>(
                (Declaration { specifier, declarator, ident }),
            ),
            !specifier.is_well_formed() ==> r == Err::<Declaration, GrammarError>(
                GrammarError::MalformedComposition,
            ),
            r matches Ok(d) ==> d.is_well_formed(),
    {
        if specifier.ty.len() > 0 {
            Ok(Declaration { specifier, declarator, ident })
        } else {
            Err(GrammarError::MalformedComposition)
        }
    }
}

/// A base-type specifier token.
#[derive(Clone, Copy, Debug, PartialEq, Eq, Structural)]
pub enum TypeSpecifier {
    Void,
    Char,
    Int,
    Long,
    Double,
    Signed,
    Unsigned,
    Struct(Ident),
}

/// What the type-specifier classification recognizes in a token. Struct type
/// specifiers are not introduced by a single token, so they never map here.
pub open spec fn type_specifier_of(t: Token) -> Result<TypeSpecifier, ()> {
    match t {
        Token::Keyword(Keyword::Int) => Ok(TypeSpecifier::Int),
        Token::Keyword(Keyword::Double) => Ok(TypeSpecifier::Double),
        Token::Keyword(Keyword::Void) => Ok(TypeSpecifier::Void),
        Token::Keyword(Keyword::Char) => Ok(TypeSpecifier::Char),
        Token::Keyword(Keyword::Long) => Ok(TypeSpecifier::Long),
        Token::Keyword(Keyword::Signed) => Ok(TypeSpecifier::Signed),
        Token::Keyword(Keyword::Unsigned) => Ok(TypeSpecifier::Unsigned),
        _ => Err(()),
    }
}

impl TypeSpecifier {
    /// Classify a token as a base-type specifier.
    pub fn try_from(token: &Token) -> (r: Result<TypeSpecifier, ()>)
        ensures
            r == type_specifier_of(*token),
    {
        match token {
            Token::Keyword(Keyword::Int) => Ok(TypeSpecifier::Int),
            Token::Keyword(Keyword::Double) => Ok(TypeSpecifier::Double),
            Token::Keyword(Keyword::Void) => Ok(TypeSpecifier::Void),
            Token::Keyword(Keyword::Char) => Ok(TypeSpecifier::Char),
            Token::Keyword(Keyword::Long) => Ok(TypeSpecifier::Long),
            Token::Keyword(Keyword::Signed) => Ok(TypeSpecifier::Signed),
            Token::Keyword(Keyword::Unsigned) => Ok(TypeSpecifier::Unsigned),
            _ => Err(()),
        }
    }
}

/// A storage specifier; the subset has only `static`.
#[derive(Clone, Copy, Debug, PartialEq, Eq, Structural)]
pub enum StorageSpecifier {
    Static,
}

/// What the storage-specifier classification recognizes in a token.
pub open spec fn storage_specifier_of(t: Token) -> Result<StorageSpecifier, ()> {
    match t {
        Token::Keyword(Keyword::Static) => Ok(StorageSpecifier::Static),
        _ => Err(()),
    }
}

impl StorageSpecifier {
    /// Classify a token as a storage specifier.
    pub fn try_from(token: &Token) -> (r: Result<StorageSpecifier, ()>)
        ensures
            r == storage_specifier_of(*token),
    {
        match token {
            Token::Keyword(Keyword::Static) => Ok(StorageSpecifier::Static),
            _ => Err(()),
        }
    }
}

/// A type qualifier; the subset has only `const`.
#[derive(Clone, Copy, Debug, PartialEq, Eq, Structural)]
pub enum TypeQualifier {
    Const,
}

/// What the type-qualifier classification recognizes in a token.
pub open spec fn type_qualifier_of(t: Token) -> Result<TypeQualifier, ()> {
    match t {
        Token::Keyword(Keyword::Const) => Ok(TypeQualifier::Const),
        _ => Err(()),
    }
}

impl TypeQualifier {
    /// Classify a token as a type qualifier.
    pub fn try_from(token: &Token) -> (r: Result<TypeQualifier, ()>)
        ensures
            r == type_qualifier_of(*token),
    {
        match token {
            Token::Keyword(Keyword::Const) => Ok(TypeQualifier::Const),
            _ => Err(()),
        }
    }
}

/// A statement. `If` stores `None` for a missing else arm; `For` stores its
/// three clauses independently optional, so `for (;;)` is representable.
#[derive(Debug)]
pub enum Statement {
    Expression(Expression),
    Declaration(VariableDeclaration),
    If(Expression, Box<Statement>, Option<Box<Statement>>),
    While(Expression, Box<Statement>),
    For(
        Option<VariableDeclaration>,
        Option<Expression>,
        Option<Expression>,
        Box<Statement>,
    ),
    Break,
    Continue,
    Return(Option<Expression>),
    Block(Block),
}

/// An expression node. Assignment is a `Binary` node whose operator is
/// `Assign(..)`, so compound assignment takes part in precedence climbing
/// like any other binary operator. `Member` and `PointerMember` stay distinct
/// variants so the type checker sees `.` against `->` structurally. A call
/// names its callee directly: the subset has no pointers to functions.
#[derive(Debug)]
pub enum Expression {
    Literal(Literal),
    Variable(Ident),
    Sizeof(TypeOrExpression),
    Parenthesized(Box<Expression>),
    PostFix(PostfixOp, Box<Expression>),
    Unary(UnaryOp, Box<Expression>),
    Binary(BinaryOp, Box<Expression>, Box<Expression>),
    FunctionCall(Ident, Vec<Expression>),
    Index(Box<Expression>, Box<Expression>),
    Member(Box<Expression>, Ident),
    PointerMember(Box<Expression>, Ident),
    Cast(TypeSpecifier, Box<Expression>),
}

/// The operand of `sizeof`: either a type-only declaration or an expression,
/// mutually exclusive by construction.
#[derive(Debug)]
pub enum TypeOrExpression {
    Type(Declaration),
    Expr(Box<Expression>),
}

impl TypeOrExpression {
    /// Compose the operand of `sizeof` from what the driver parsed: exactly
    /// one of a type declaration or an expression must be present. Handing
    /// over neither, or both, fails with `MalformedComposition` and the
    /// enclosing `sizeof` node must not be built.
    pub fn compose(ty: Option<Declaration>, expr: Option<Expression>) -> (r: Result<
        TypeOrExpression,
        GrammarError,
    >)
        ensures
            ty matches Some(d) ==> (expr is None ==> r == Ok::<TypeOrExpression, GrammarError>(
                TypeOrExpression::Type(d),
            )),
            (ty is Some && expr is Some) ==> r == Err::<TypeOrExpression, GrammarError>(
                GrammarError::MalformedComposition,
            ),
            ty is None ==> (expr matches Some(e) ==> (r matches Ok(TypeOrExpression::Expr(b))
                && *b == e)),
            (ty is None && expr is None) ==> r == Err::<TypeOrExpression, GrammarError>(
                GrammarError::MalformedComposition,
            ),
    {
        match (ty, expr) {
            (Some(d), None) => Ok(TypeOrExpression::Type(d)),
            (None, Some(e)) => Ok(TypeOrExpression::Expr(Box::new(e))),
            _ => Err(GrammarError::MalformedComposition),
        }
    }
}

impl FunctionDeclaration {
    /// Compose a function unit from its return declaration, parameters and
    /// optional body (a missing body denotes a prototype). Varargs are
    /// outside the subset: asking for them fails with `Unsupported` rather
    /// than degrading silently, so a composed function never carries them.
    pub fn compose(
        declaration: Declaration,
        parameters: Vec<Declaration>,
        varargs: bool,
        body: Option<Block>,
    ) -> (r: Result<FunctionDeclaration, GrammarError>)
        ensures
            varargs ==> r == Err::<FunctionDeclaration, GrammarError>(GrammarError::Unsupported),
            !varargs ==> r == Ok::<FunctionDeclaration, GrammarError>(
                (FunctionDeclaration { declaration, parameters, varargs: false, body }),
            ),
    {
        if varargs {
            Err(GrammarError::Unsupported)
        } else {
            Ok(FunctionDeclaration { declaration, parameters, varargs: false, body })
        }
    }
}

} // verus!
