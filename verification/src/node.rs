//! The reduced-node data model.
//!
//! Every reduction step produces either a `Node_` or a descriptive failure
//! message; `Node` is that failable value.  Leaf nodes come from single
//! tokens, structural nodes group already-reduced children, and declaration
//! nodes carry the aggregate of one recognised top-level construct.

use vstd::prelude::*;
use crate::pos::Pos;

verus! {

/// The lexical token classes the reducer distinguishes; every other token
/// kind is handed over as `Other`.
#[derive(Clone, Copy, Debug, PartialEq, Eq, Structural)]
pub enum TokenKind {
    Name,
    DecimalLiteral,
    SingleQuotedStringLiteral,
    DoubleQuotedStringLiteral,
    XhpClassName,
    StringKeyword,
    IntKeyword,
    FloatKeyword,
    DoubleKeyword,
    NumKeyword,
    BoolKeyword,
    BooleanKeyword,
    Backslash,
    Class,
    Trait,
    Interface,
    Extends,
    Implements,
    Abstract,
    Final,
    Static,
    Other,
}

/// A lexical token as the reducer sees it: its kind, its raw text, and the
/// span it covers.  The driving parser resolves offsets into these plain
/// values before handing the token over.
#[derive(Debug)]
pub struct Token {
    pub kind: TokenKind,
    pub text: String,
    pub pos: Pos,
}

/// What a type hint names: a primitive type, or a reference to a class-like
/// type by its source text.
#[derive(Debug, PartialEq)]
pub enum HintValue {
    Str,
    Int,
    Float,
    Num,
    Bool,
    Apply(String),
}

/// A partially- or fully-reduced fragment of the syntax tree.
#[derive(Debug, PartialEq)]
pub enum Node_ {
    List(Vec<Node_>),
    Ignored,
    // tokens
    Name(String),
    StringLiteral(String),
    XhpName(String),
    Hint(HintValue, Pos),
    Backslash,
    ListItem(Box<(Node_, Node_)>),
    Class,
    Interface,
    Trait,
    Extends,
    Implements,
    Abstract,
    Final,
    Static,
    QualifiedName(Vec<Node_>),
    ScopeResolutionExpression(Box<(Node_, Node_)>),
    // declarations
    ClassDecl(Box<ClassDeclChildren>),
    FunctionDecl(Box<Node_>),
    MethodDecl(Box<Node_>),
    EnumDecl(Box<EnumDeclChildren>),
    TraitUseClause(Box<Node_>),
    RequireExtendsClause(Box<Node_>),
    RequireImplementsClause(Box<Node_>),
    Define(Box<Node_>),
    TypeAliasDecl(Box<TypeAliasDeclChildren>),
    NamespaceDecl(Box<Node_>, Box<Node_>),
    EmptyBody,
}

/// A failable reduction result.
pub type Node = Result<Node_, String>;

/// The aggregated children of a class-like declaration.
#[derive(Debug, PartialEq)]
pub struct ClassDeclChildren {
    pub modifiers: Node_,
    pub kind: Node_,
    pub name: Node_,
    pub attributes: Node_,
    pub extends: Node_,
    pub implements: Node_,
    pub constrs: Node_,
    pub body: Node_,
}

/// The aggregated children of an enum declaration.
#[derive(Debug, PartialEq)]
pub struct EnumDeclChildren {
    pub name: Node_,
    pub attributes: Node_,
}

/// The aggregated children of a type-alias declaration.
#[derive(Debug, PartialEq)]
pub struct TypeAliasDeclChildren {
    pub name: Node_,
    pub attributes: Node_,
}

} // verus!
