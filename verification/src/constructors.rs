//! The per-production reduction rules.
//!
//! The external parser drives these bottom-up, one call per recognised
//! production, each receiving the already-reduced children.  Most rules fail
//! open: a construct whose required child reduced to `Ignored` reduces to
//! `Ignored` itself, silently.  A small set fails closed with a descriptive
//! message where a shape mismatch signals genuine inconsistency: name
//! resolution and constant type-hint resolution.
//!
//! Constant registration mutates the declaration table the moment its rule
//! runs; a later failure in the same file does not roll it back.

use vstd::prelude::*;
use vstd::string::StringExecFns;
use crate::decls::{empty_decls, Decls, Tprim, Ty, Ty_};
use crate::escapes::{
    double_quoted_value, single_quoted_value, strip_quotes, unescape_double, unescape_single,
};
use crate::flatten::{all_ok, first_err, try_collect};
use crate::names::{get_name, get_name_ok, get_name_spec};
use crate::node::{HintValue, Node, Node_, Token, TokenKind};
use crate::pos::Pos;

verus! {

/// The declarator shape a constant declaration requires: a sequence holding
/// exactly one sequence of exactly a (name, initializer) pair.
pub open spec fn const_shape(d: Node_) -> bool {
    match d {
        Node_::List(ns) => ns@.len() == 1 && match ns@[0] {
            Node_::List(inner) => inner@.len() == 2,
            _ => false,
        },
        _ => false,
    }
}

/// The name node of a well-shaped constant declarator list.
pub open spec fn const_name_node(d: Node_) -> Node_ {
    match d {
        Node_::List(ns) => match ns@[0] {
            Node_::List(inner) => inner@[0],
            _ => arbitrary(),
        },
        _ => arbitrary(),
    }
}

/// The type a constant hint registers: the primitive it names, tagged with
/// the hint's position, or for a class reference the applied type under the
/// globally-qualified (backslash-prefixed) class name.
pub open spec fn hint_matches_ty(hv: HintValue, pos: Pos, t: Ty) -> bool {
    t.reason == pos && match hv {
        HintValue::Str => t.node == Ty_::Tprim(Tprim::Tstring),
        HintValue::Int => t.node == Ty_::Tprim(Tprim::Tint),
        HintValue::Float => t.node == Ty_::Tprim(Tprim::Tfloat),
        HintValue::Num => t.node == Ty_::Tprim(Tprim::Tnum),
        HintValue::Bool => t.node == Ty_::Tprim(Tprim::Tbool),
        HintValue::Apply(name) => match t.node {
            Ty_::Tapply(p, cls) => p == pos && cls@ == seq!['\\'] + name@,
            _ => false,
        },
    }
}

/// The mutable reduction context of one source file.
pub struct State {
    pub decls: Decls,
}

/// The reducer: one rule per grammar production of interest, sharing one
/// mutable `State`.
pub struct DirectDeclSmartConstructors {
    pub state: State,
}

impl DirectDeclSmartConstructors {
    /// The declaration table is well formed.
    pub open spec fn wf(self) -> bool {
        self.state.decls.wf()
    }

    /// A reducer over an empty declaration table.
    pub fn new() -> (r: Self)
        ensures
            r.wf(),
            r.state.decls.consts@ == Map::<Seq<char>, Ty>::empty(),
            r.state.decls.classes@ == Map::<Seq<char>, Node_>::empty(),
            r.state.decls.funs@ == Map::<Seq<char>, Node_>::empty(),
            r.state.decls.typedefs@ == Map::<Seq<char>, Node_>::empty(),
    {
        DirectDeclSmartConstructors { state: State { decls: empty_decls() } }
    }

    /// Reduces one lexical token to its leaf node.
    pub fn make_token(&mut self, token: Token) -> (r: Node)
        ensures
            *final(self) == *old(self),
            match token.kind {
                TokenKind::Name => r == Ok::<Node_, String>(Node_::Name(token.text)),
                TokenKind::DecimalLiteral => r == Ok::<Node_, String>(
                    Node_::StringLiteral(token.text),
                ),
                TokenKind::SingleQuotedStringLiteral => r matches Ok(n) && n matches
                    Node_::StringLiteral(s) && s@ == single_quoted_value(token.text@),
                TokenKind::DoubleQuotedStringLiteral => r matches Ok(n) && n matches
                    Node_::StringLiteral(s) && s@ == double_quoted_value(token.text@),
                TokenKind::XhpClassName => r == Ok::<Node_, String>(Node_::XhpName(token.text)),
                TokenKind::StringKeyword => r == Ok::<Node_, String>(
                    Node_::Hint(HintValue::Str, token.pos),
                ),
                TokenKind::IntKeyword => r == Ok::<Node_, String>(
                    Node_::Hint(HintValue::Int, token.pos),
                ),
                TokenKind::FloatKeyword => r == Ok::<Node_, String>(
                    Node_::Hint(HintValue::Float, token.pos),
                ),
                TokenKind::DoubleKeyword => r == Ok::<Node_, String>(
                    Node_::Hint(HintValue::Apply(token.text), token.pos),
                ),
                TokenKind::NumKeyword => r == Ok::<Node_, String>(
                    Node_::Hint(HintValue::Num, token.pos),
                ),
                TokenKind::BoolKeyword => r == Ok::<Node_, String>(
                    Node_::Hint(HintValue::Bool, token.pos),
                ),
                TokenKind::BooleanKeyword => r == Ok::<Node_, String>(
                    Node_::Hint(HintValue::Apply(token.text), token.pos),
                ),
                TokenKind::Backslash => r == Ok::<Node_, String>(Node_::Backslash),
                TokenKind::Class => r == Ok::<Node_, String>(Node_::Class),
                TokenKind::Trait => r == Ok::<Node_, String>(Node_::Trait),
                TokenKind::Interface => r == Ok::<Node_, String>(Node_::Interface),
                TokenKind::Extends => r == Ok::<Node_, String>(Node_::Extends),
                TokenKind::Implements => r == Ok::<Node_, String>(Node_::Implements),
                TokenKind::Abstract => r == Ok::<Node_, String>(Node_::Abstract),
                TokenKind::Final => r == Ok::<Node_, String>(Node_::Final),
                TokenKind::Static => r == Ok::<Node_, String>(Node_::Static),
                TokenKind::Other => r == Ok::<Node_, String>(Node_::Ignored),
            },
    {
        let Token { kind, text, pos } = token;
        Ok(
            match kind {
                TokenKind::Name => Node_::Name(text),
                TokenKind::DecimalLiteral => Node_::StringLiteral(text),
                TokenKind::SingleQuotedStringLiteral => {
                    let unescaped = unescape_single(text.as_str());
                    Node_::StringLiteral(strip_quotes(unescaped.as_str()))
                },
                TokenKind::DoubleQuotedStringLiteral => {
                    let unescaped = unescape_double(text.as_str());
                    Node_::StringLiteral(strip_quotes(unescaped.as_str()))
                },
                TokenKind::XhpClassName => Node_::XhpName(text),
                TokenKind::StringKeyword => Node_::Hint(HintValue::Str, pos),
                TokenKind::IntKeyword => Node_::Hint(HintValue::Int, pos),
                TokenKind::FloatKeyword => Node_::Hint(HintValue::Float, pos),
                TokenKind::DoubleKeyword => Node_::Hint(HintValue::Apply(text), pos),
                TokenKind::NumKeyword => Node_::Hint(HintValue::Num, pos),
                TokenKind::BoolKeyword => Node_::Hint(HintValue::Bool, pos),
                TokenKind::BooleanKeyword => Node_::Hint(HintValue::Apply(text), pos),
                TokenKind::Backslash => Node_::Backslash,
                TokenKind::Class => Node_::Class,
                TokenKind::Trait => Node_::Trait,
                TokenKind::Interface => Node_::Interface,
                TokenKind::Extends => Node_::Extends,
                TokenKind::Implements => Node_::Implements,
                TokenKind::Abstract => Node_::Abstract,
                TokenKind::Final => Node_::Final,
                TokenKind::Static => Node_::Static,
                TokenKind::Other => Node_::Ignored,
            },
        )
    }

    /// A missing child reduces to the neutral node.
    pub fn make_missing(&mut self, _offset: usize) -> (r: Node)
        ensures
            *final(self) == *old(self),
            r == Ok::<Node_, String>(Node_::Ignored),
    {
        Ok(Node_::Ignored)
    }

    /// A genuine list production: empty or all-`Ignored` input collapses to
    /// `Ignored`; otherwise every element is kept.  The first failing child
    /// fails the list.
    pub fn make_list(&mut self, items: Vec<Node>, _offset: usize) -> (r: Node)
        ensures
            *final(self) == *old(self),
            (items@.len() == 0 || (forall|i: int|
                0 <= i < items@.len() ==> items@[i] == Ok::<Node_, String>(Node_::Ignored)))
                ==> r == Ok::<Node_, String>(Node_::Ignored),
            (items@.len() > 0 && (exists|i: int|
                0 <= i < items@.len() && items@[i] != Ok::<Node_, String>(Node_::Ignored))
                && !all_ok(items@)) ==> r == Err::<Node_, String>(first_err(items@)),
            (items@.len() > 0 && (exists|i: int|
                0 <= i < items@.len() && items@[i] != Ok::<Node_, String>(Node_::Ignored))
                && all_ok(items@)) ==> (r matches Ok(n) && n matches Node_::List(v)
                && v@.len() == items@.len() && forall|i: int|
                0 <= i < items@.len() ==> items@[i] == Ok::<Node_, String>(#[trigger] v@[i])),
    {
        let n = items.len();
        let mut all_ignored = true;
        let mut i: usize = 0;
        while i < n
            invariant
                i <= n,
                n == items@.len(),
                all_ignored == (forall|k: int|
                    0 <= k < i ==> items@[k] == Ok::<Node_, String>(Node_::Ignored)),
            decreases n - i,
        {
            let keep: bool = match &items[i] {
                Ok(Node_::Ignored) => true,
                _ => false,
            };
            proof {
                if !keep {
                    assert(items@[i as int] != Ok::<Node_, String>(Node_::Ignored));
                }
            }
            all_ignored = all_ignored && keep;
            i = i + 1;
        }
        if n > 0 && !all_ignored {
            match try_collect(items) {
                Ok(v) => Ok(Node_::List(v)),
                Err(e) => Err(e),
            }
        } else {
            Ok(Node_::Ignored)
        }
    }

    /// Wraps the fragments of a qualified name.
    pub fn make_qualified_name(&mut self, arg0: Node) -> (r: Node)
        ensures
            *final(self) == *old(self),
            match arg0 {
                Err(e) => r == Err::<Node_, String>(e),
                Ok(n) => match n {
                    Node_::Ignored => r == Ok::<Node_, String>(Node_::Ignored),
                    Node_::List(ns) => r == Ok::<Node_, String>(Node_::QualifiedName(ns)),
                    other => r matches Ok(q) && q matches Node_::QualifiedName(ps) && ps@ == seq![
                        other,
                    ],
                },
            },
    {
        match arg0 {
            Err(e) => Err(e),
            Ok(Node_::Ignored) => Ok(Node_::Ignored),
            Ok(Node_::List(ns)) => Ok(Node_::QualifiedName(ns)),
            Ok(node) => {
                let mut ps: Vec<Node_> = Vec::new();
                ps.push(node);
                proof {
                    assert(ps@ =~= seq![arg0->Ok_0]);
                }
                Ok(Node_::QualifiedName(ps))
            },
        }
    }

    /// A simple type specifier passes its child through.
    pub fn make_simple_type_specifier(&mut self, arg0: Node) -> (r: Node)
        ensures
            *final(self) == *old(self),
            r == arg0,
    {
        arg0
    }

    /// A simple initializer passes its value through, dropping the equals
    /// sign unexamined.
    pub fn make_simple_initializer(&mut self, _arg0: Node, arg1: Node) -> (r: Node)
        ensures
            *final(self) == *old(self),
            r == arg1,
    {
        arg1
    }

    /// A literal expression passes its child through.
    pub fn make_literal_expression(&mut self, arg0: Node) -> (r: Node)
        ensures
            *final(self) == *old(self),
            r == arg0,
    {
        arg0
    }

    /// Pairs a list element with its separator; either alone passes through,
    /// and two nothings stay nothing.
    pub fn make_list_item(&mut self, item: Node, sep: Node) -> (r: Node)
        ensures
            *final(self) == *old(self),
            match item {
                Err(e) => r == Err::<Node_, String>(e),
                Ok(i) => match sep {
                    Err(e) => r == Err::<Node_, String>(e),
                    Ok(s) => {
                        if i is Ignored && s is Ignored {
                            r == Ok::<Node_, String>(Node_::Ignored)
                        } else if s is Ignored {
                            r == Ok::<Node_, String>(i)
                        } else if i is Ignored {
                            r == Ok::<Node_, String>(s)
                        } else {
                            r matches Ok(n) && n matches Node_::ListItem(b) && (*b).0 == i && (
                            *b).1 == s
                        }
                    },
                },
            },
    {
        let item = match item {
            Ok(i) => i,
            Err(e) => {
                return Err(e);
            },
        };
        let sep = match sep {
            Ok(s) => s,
            Err(e) => {
                return Err(e);
            },
        };
        let item_ignored = matches!(item, Node_::Ignored);
        let sep_ignored = matches!(sep, Node_::Ignored);
        if item_ignored && sep_ignored {
            Ok(Node_::Ignored)
        } else if sep_ignored {
            Ok(item)
        } else if item_ignored {
            Ok(sep)
        } else {
            Ok(Node_::ListItem(Box::new((item, sep))))
        }
    }

    /// A generic type specifier reduces to its class type, dropping the
    /// argument list.
    pub fn make_generic_type_specifier(&mut self, class_type: Node, _argument_list: Node) -> (r:
        Node)
        ensures
            *final(self) == *old(self),
            r == class_type,
    {
        class_type
    }

    /// A class-body production passes the reduced members through.
    pub fn make_classish_body(&mut self, _left_brace: Node, elements: Node, _right_brace: Node) -> (
        r: Node)
        ensures
            *final(self) == *old(self),
            r == elements,
    {
        elements
    }

    /// The old attribute syntax passes the attribute list through.
    pub fn make_old_attribute_specification(
        &mut self,
        _left_double_angle: Node,
        attributes: Node,
        _right_double_angle: Node,
    ) -> (r: Node)
        ensures
            *final(self) == *old(self),
            r == attributes,
    {
        attributes
    }

    /// An attribute specification passes its attributes through.
    pub fn make_attribute_specification(&mut self, attributes: Node) -> (r: Node)
        ensures
            *final(self) == *old(self),
            r == attributes,
    {
        attributes
    }

    /// An attribute passes its body through, dropping the `@` sign.
    pub fn make_attribute(&mut self, _at: Node, attribute: Node) -> (r: Node)
        ensures
            *final(self) == *old(self),
            r == attribute,
    {
        attribute
    }

    /// A decorated expression passes the expression through.
    pub fn make_decorated_expression(&mut self, _decorator: Node, expression: Node) -> (r: Node)
        ensures
            *final(self) == *old(self),
            r == expression,
    {
        expression
    }

    /// A namespace body between braces passes its declarations through.
    pub fn make_namespace_body(&mut self, _left_brace: Node, decls: Node, _right_brace: Node) -> (
        r: Node)
        ensures
            *final(self) == *old(self),
            r == decls,
    {
        decls
    }

    /// A semicolon-terminated namespace gets the distinct empty-body marker,
    /// which is not `Ignored` and is therefore kept.
    pub fn make_namespace_empty_body(&mut self, _semicolon: Node) -> (r: Node)
        ensures
            *final(self) == *old(self),
            r == Ok::<Node_, String>(Node_::EmptyBody),
    {
        Ok(Node_::EmptyBody)
    }

    /// Pairs a constructor call's class type with its argument list, with no
    /// further validation.
    pub fn make_constructor_call(
        &mut self,
        class_type: Node,
        _left_paren: Node,
        argument_list: Node,
        _right_paren: Node,
    ) -> (r: Node)
        ensures
            *final(self) == *old(self),
            match class_type {
                Err(e) => r == Err::<Node_, String>(e),
                Ok(c) => match argument_list {
                    Err(e) => r == Err::<Node_, String>(e),
                    Ok(a) => r matches Ok(n) && n matches Node_::ListItem(b) && (*b).0 == c && (
                    *b).1 == a,
                },
            },
    {
        let c = match class_type {
            Ok(c) => c,
            Err(e) => {
                return Err(e);
            },
        };
        let a = match argument_list {
            Ok(a) => a,
            Err(e) => {
                return Err(e);
            },
        };
        Ok(Node_::ListItem(Box::new((c, a))))
    }

    /// Pairs a scope-resolution expression's qualifier with its member name,
    /// with no further validation.
    pub fn make_scope_resolution_expression(
        &mut self,
        qualifier: Node,
        _operator: Node,
        name: Node,
    ) -> (r: Node)
        ensures
            *final(self) == *old(self),
            match qualifier {
                Err(e) => r == Err::<Node_, String>(e),
                Ok(q) => match name {
                    Err(e) => r == Err::<Node_, String>(e),
                    Ok(n) => r matches Ok(x) && x matches Node_::ScopeResolutionExpression(b) && (
                    *b).0 == q && (*b).1 == n,
                },
            },
    {
        let q = match qualifier {
            Ok(q) => q,
            Err(e) => {
                return Err(e);
            },
        };
        let n = match name {
            Ok(n) => n,
            Err(e) => {
                return Err(e);
            },
        };
        Ok(Node_::ScopeResolutionExpression(Box::new((q, n))))
    }

    /// An enum declaration with a name becomes an `EnumDecl`; without one it
    /// is silently dropped.
    pub fn make_enum_declaration(
        &mut self,
        attributes: Node,
        _keyword: Node,
        name: Node,
        _colon: Node,
        _base: Node,
        _type: Node,
        _left_brace: Node,
        _enumerators: Node,
        _right_brace: Node,
    ) -> (r: Node)
        ensures
            *final(self) == *old(self),
            match name {
                Err(e) => r == Err::<Node_, String>(e),
                Ok(n) => match attributes {
                    Err(e) => r == Err::<Node_, String>(e),
                    Ok(a) => {
                        if n is Ignored {
                            r == Ok::<Node_, String>(Node_::Ignored)
                        } else {
                            r matches Ok(d) && d matches Node_::EnumDecl(b) && (*b).name == n && (
                            *b).attributes == a
                        }
                    },
                },
            },
    {
        let n = match name {
            Ok(n) => n,
            Err(e) => {
                return Err(e);
            },
        };
        let a = match attributes {
            Ok(a) => a,
            Err(e) => {
                return Err(e);
            },
        };
        match n {
            Node_::Ignored => Ok(Node_::Ignored),
            n => Ok(
                Node_::EnumDecl(
                    Box::new(crate::node::EnumDeclChildren { name: n, attributes: a }),
                ),
            ),
        }
    }

    /// A type-alias declaration with a name becomes a `TypeAliasDecl`;
    /// without one it is silently dropped.
    pub fn make_alias_declaration(
        &mut self,
        attributes: Node,
        _keyword: Node,
        name: Node,
        _generic_params: Node,
        _constraint: Node,
        _equal: Node,
        _type: Node,
        _semicolon: Node,
    ) -> (r: Node)
        ensures
            *final(self) == *old(self),
            match name {
                Err(e) => r == Err::<Node_, String>(e),
                Ok(n) => match attributes {
                    Err(e) => r == Err::<Node_, String>(e),
                    Ok(a) => {
                        if n is Ignored {
                            r == Ok::<Node_, String>(Node_::Ignored)
                        } else {
                            r matches Ok(d) && d matches Node_::TypeAliasDecl(b) && (*b).name == n
                                && (*b).attributes == a
                        }
                    },
                },
            },
    {
        let n = match name {
            Ok(n) => n,
            Err(e) => {
                return Err(e);
            },
        };
        let a = match attributes {
            Ok(a) => a,
            Err(e) => {
                return Err(e);
            },
        };
        match n {
            Node_::Ignored => Ok(Node_::Ignored),
            n => Ok(
                Node_::TypeAliasDecl(
                    Box::new(crate::node::TypeAliasDeclChildren { name: n, attributes: a }),
                ),
            ),
        }
    }

    /// A `define(...)` call is recognised only when its argument list is a
    /// sequence of exactly two elements whose first is a string literal;
    /// every other shape is silently dropped.
    pub fn make_define_expression(
        &mut self,
        _keyword: Node,
        _left_paren: Node,
        args: Node,
        _right_paren: Node,
    ) -> (r: Node)
        ensures
            *final(self) == *old(self),
            match args {
                Err(e) => r == Err::<Node_, String>(e),
                Ok(a) => match a {
                    Node_::List(ns) => {
                        if ns@.len() == 2 && ns@[0] is StringLiteral {
                            r matches Ok(d) && d matches Node_::Define(b) && *b == ns@[0]
                        } else {
                            r == Ok::<Node_, String>(Node_::Ignored)
                        }
                    },
                    _ => r == Ok::<Node_, String>(Node_::Ignored),
                },
            },
    {
        let a = match args {
            Ok(a) => a,
            Err(e) => {
                return Err(e);
            },
        };
        match a {
            Node_::List(mut nodes) => {
                if nodes.len() == 2 {
                    let fst = nodes.remove(0);
                    if matches!(&fst, Node_::StringLiteral(_)) {
                        Ok(Node_::Define(Box::new(fst)))
                    } else {
                        Ok(Node_::Ignored)
                    }
                } else {
                    Ok(Node_::Ignored)
                }
            },
            _ => Ok(Node_::Ignored),
        }
    }

    /// A function declaration joins its header's and body's reductions;
    /// either alone passes through, and two nothings stay nothing.  The
    /// attribute child is never examined.
    pub fn make_function_declaration(
        &mut self,
        _attributes: Node,
        header: Node,
        body: Node,
    ) -> (r: Node)
        ensures
            *final(self) == *old(self),
            match header {
                Err(e) => r == Err::<Node_, String>(e),
                Ok(h) => match body {
                    Err(e) => r == Err::<Node_, String>(e),
                    Ok(b) => {
                        if h is Ignored && b is Ignored {
                            r == Ok::<Node_, String>(Node_::Ignored)
                        } else if b is Ignored {
                            r == Ok::<Node_, String>(h)
                        } else if h is Ignored {
                            r == Ok::<Node_, String>(b)
                        } else {
                            r matches Ok(n) && n matches Node_::List(v) && v@ == seq![h, b]
                        }
                    },
                },
            },
    {
        let h = match header {
            Ok(h) => h,
            Err(e) => {
                return Err(e);
            },
        };
        let b = match body {
            Ok(b) => b,
            Err(e) => {
                return Err(e);
            },
        };
        let h_ignored = matches!(h, Node_::Ignored);
        let b_ignored = matches!(b, Node_::Ignored);
        if h_ignored && b_ignored {
            Ok(Node_::Ignored)
        } else if b_ignored {
            Ok(h)
        } else if h_ignored {
            Ok(b)
        } else {
            let mut v: Vec<Node_> = Vec::new();
            v.push(h);
            v.push(b);
            proof {
                assert(v@ =~= seq![header->Ok_0, body->Ok_0]);
            }
            Ok(Node_::List(v))
        }
    }

    /// A function header with a name becomes a `FunctionDecl`; without one
    /// it is silently dropped.  Only the name child is examined.
    pub fn make_function_declaration_header(
        &mut self,
        _modifiers: Node,
        _keyword: Node,
        name: Node,
        _type_params: Node,
        _left_parens: Node,
        _param_list: Node,
        _right_parens: Node,
        _colon: Node,
        _type: Node,
        _where: Node,
    ) -> (r: Node)
        ensures
            *final(self) == *old(self),
            match name {
                Err(e) => r == Err::<Node_, String>(e),
                Ok(n) => {
                    if n is Ignored {
                        r == Ok::<Node_, String>(Node_::Ignored)
                    } else {
                        r matches Ok(d) && d matches Node_::FunctionDecl(b) && *b == n
                    }
                },
            },
    {
        match name {
            Err(e) => Err(e),
            Ok(Node_::Ignored) => Ok(Node_::Ignored),
            Ok(n) => Ok(Node_::FunctionDecl(Box::new(n))),
        }
    }

    /// A trait-use clause with names becomes a `TraitUseClause`; without any
    /// it is silently dropped.
    pub fn make_trait_use(&mut self, _keyword: Node, names: Node, _semicolon: Node) -> (r: Node)
        ensures
            *final(self) == *old(self),
            match names {
                Err(e) => r == Err::<Node_, String>(e),
                Ok(n) => {
                    if n is Ignored {
                        r == Ok::<Node_, String>(Node_::Ignored)
                    } else {
                        r matches Ok(d) && d matches Node_::TraitUseClause(b) && *b == n
                    }
                },
            },
    {
        match names {
            Err(e) => Err(e),
            Ok(Node_::Ignored) => Ok(Node_::Ignored),
            Ok(n) => Ok(Node_::TraitUseClause(Box::new(n))),
        }
    }

    /// A require clause keeps its name under the marker the kind child
    /// carries: extends or implements.  A missing name drops the clause
    /// without looking at the kind; any other kind drops it too.
    pub fn make_require_clause(
        &mut self,
        _keyword: Node,
        kind: Node,
        name: Node,
        _semicolon: Node,
    ) -> (r: Node)
        ensures
            *final(self) == *old(self),
            match name {
                Err(e) => r == Err::<Node_, String>(e),
                Ok(n) => {
                    if n is Ignored {
                        r == Ok::<Node_, String>(Node_::Ignored)
                    } else {
                        match kind {
                            Err(e) => r == Err::<Node_, String>(e),
                            Ok(k) => match k {
                                Node_::Extends => r matches Ok(d) && d matches
                                    Node_::RequireExtendsClause(b) && *b == n,
                                Node_::Implements => r matches Ok(d) && d matches
                                    Node_::RequireImplementsClause(b) && *b == n,
                                _ => r == Ok::<Node_, String>(Node_::Ignored),
                            },
                        }
                    }
                },
            },
    {
        let n = match name {
            Ok(n) => n,
            Err(e) => {
                return Err(e);
            },
        };
        if matches!(n, Node_::Ignored) {
            return Ok(Node_::Ignored);
        }
        let k = match kind {
            Ok(k) => k,
            Err(e) => {
                return Err(e);
            },
        };
        match k {
            Node_::Extends => Ok(Node_::RequireExtendsClause(Box::new(n))),
            Node_::Implements => Ok(Node_::RequireImplementsClause(Box::new(n))),
            _ => Ok(Node_::Ignored),
        }
    }

    /// A constant declarator pairs the name with its initializer; a missing
    /// name drops the declarator.
    pub fn make_constant_declarator(&mut self, name: Node, initializer: Node) -> (r: Node)
        ensures
            *final(self) == *old(self),
            match name {
                Err(e) => r == Err::<Node_, String>(e),
                Ok(n) => match initializer {
                    Err(e) => r == Err::<Node_, String>(e),
                    Ok(init) => {
                        if n is Ignored {
                            r == Ok::<Node_, String>(Node_::Ignored)
                        } else {
                            r matches Ok(l) && l matches Node_::List(v) && v@ == seq![n, init]
                        }
                    },
                },
            },
    {
        let n = match name {
            Ok(n) => n,
            Err(e) => {
                return Err(e);
            },
        };
        let init = match initializer {
            Ok(i) => i,
            Err(e) => {
                return Err(e);
            },
        };
        if matches!(n, Node_::Ignored) {
            Ok(Node_::Ignored)
        } else {
            let mut v: Vec<Node_> = Vec::new();
            v.push(n);
            v.push(init);
            proof {
                assert(v@ =~= seq![name->Ok_0, initializer->Ok_0]);
            }
            Ok(Node_::List(v))
        }
    }

    /// A namespace whose body reduced to `Ignored` is dropped; the explicit
    /// empty-body marker is a body like any other and is kept.
    pub fn make_namespace_declaration(&mut self, _keyword: Node, name: Node, body: Node) -> (r:
        Node)
        ensures
            *final(self) == *old(self),
            match name {
                Err(e) => r == Err::<Node_, String>(e),
                Ok(n) => match body {
                    Err(e) => r == Err::<Node_, String>(e),
                    Ok(b) => {
                        if b is Ignored {
                            r == Ok::<Node_, String>(Node_::Ignored)
                        } else {
                            r matches Ok(d) && d matches Node_::NamespaceDecl(bn, bb) && *bn == n
                                && *bb == b
                        }
                    },
                },
            },
    {
        let n = match name {
            Ok(n) => n,
            Err(e) => {
                return Err(e);
            },
        };
        let b = match body {
            Ok(b) => b,
            Err(e) => {
                return Err(e);
            },
        };
        if matches!(b, Node_::Ignored) {
            Ok(Node_::Ignored)
        } else {
            Ok(Node_::NamespaceDecl(Box::new(n), Box::new(b)))
        }
    }

    /// A method declaration keeps its body; a body reduced to `Ignored`
    /// drops the method.
    pub fn make_methodish_declaration(
        &mut self,
        _attributes: Node,
        _function_decl_header: Node,
        body: Node,
        _semicolon: Node,
    ) -> (r: Node)
        ensures
            *final(self) == *old(self),
            match body {
                Err(e) => r == Err::<Node_, String>(e),
                Ok(b) => {
                    if b is Ignored {
                        r == Ok::<Node_, String>(Node_::Ignored)
                    } else {
                        r matches Ok(d) && d matches Node_::MethodDecl(bb) && *bb == b
                    }
                },
            },
    {
        match body {
            Err(e) => Err(e),
            Ok(Node_::Ignored) => Ok(Node_::Ignored),
            Ok(b) => Ok(Node_::MethodDecl(Box::new(b))),
        }
    }

    /// A global constant declaration registers (name, type) into the
    /// constants map the moment this rule runs, overwriting any previous
    /// entry for that name; the result node is `Ignored` either way.
    ///
    /// The declarator child must have the required shape or the construct is
    /// silently dropped.  The name is resolved under the empty namespace,
    /// whatever namespace surrounds the declaration.  The hint child must
    /// have reduced to a hint node, or the whole construct fails closed.
    pub fn make_const_declaration(
        &mut self,
        _arg0: Node,
        _arg1: Node,
        hint: Node,
        decls: Node,
        _arg4: Node,
    ) -> (r: Node)
        requires
            old(self).wf(),
        ensures
            final(self).wf(),
            final(self).state.decls.classes == old(self).state.decls.classes,
            final(self).state.decls.funs == old(self).state.decls.funs,
            final(self).state.decls.typedefs == old(self).state.decls.typedefs,
            match hint {
                Err(e) => r == Err::<Node_, String>(e) && *final(self) == *old(self),
                Ok(h) => match decls {
                    Err(e) => r == Err::<Node_, String>(e) && *final(self) == *old(self),
                    Ok(d) => {
                        if const_shape(d) {
                            if !get_name_ok(const_name_node(d)) {
                                r is Err && *final(self) == *old(self)
                            } else {
                                match h {
                                    Node_::Hint(hv, pos) => ({
                                        let key = get_name_spec(
                                            Seq::empty(),
                                            const_name_node(d),
                                        );
                                        &&& r == Ok::<Node_, String>(Node_::Ignored)
                                        &&& final(self).state.decls.consts@.contains_key(key)
                                        &&& hint_matches_ty(
                                            hv,
                                            pos,
                                            final(self).state.decls.consts@[key],
                                        )
                                        &&& final(self).state.decls.consts@ == old(
                                            self,
                                        ).state.decls.consts@.insert(
                                            key,
                                            final(self).state.decls.consts@[key],
                                        )
                                    }),
                                    _ => r is Err && *final(self) == *old(self),
                                }
                            }
                        } else {
                            r == Ok::<Node_, String>(Node_::Ignored) && *final(self) == *old(self)
                        }
                    },
                },
            },
    {
        let h = match hint {
            Ok(h) => h,
            Err(e) => {
                return Err(e);
            },
        };
        let d = match decls {
            Ok(d) => d,
            Err(e) => {
                return Err(e);
            },
        };
        let ghost d0 = d;
        match d {
            Node_::List(mut nodes) => {
                let ghost ns0 = nodes@;
                if nodes.len() == 1 {
                    let first = nodes.remove(0);
                    proof {
                        assert(first == ns0[0]);
                    }
                    match first {
                        Node_::List(mut inner) => {
                            let ghost inner0 = inner@;
                            if inner.len() == 2 {
                                let name_node = inner.remove(0);
                                proof {
                                    assert(name_node == inner0[0]);
                                    assert(name_node == const_name_node(d0));
                                }
                                let name = match get_name("", &name_node) {
                                    Ok(nm) => nm,
                                    Err(e) => {
                                        return Err(e);
                                    },
                                };
                                proof {
                                    reveal_strlit("");
                                    assert(""@ =~= Seq::<char>::empty());
                                    assert(name@ == get_name_spec(
                                        Seq::empty(),
                                        const_name_node(d0),
                                    ));
                                }
                                match h {
                                    Node_::Hint(hv, pos) => {
                                        let ty = match hv {
                                            HintValue::Str => Ty {
                                                reason: pos,
                                                node: Ty_::Tprim(Tprim::Tstring),
                                            },
                                            HintValue::Int => Ty {
                                                reason: pos,
                                                node: Ty_::Tprim(Tprim::Tint),
                                            },
                                            HintValue::Float => Ty {
                                                reason: pos,
                                                node: Ty_::Tprim(Tprim::Tfloat),
                                            },
                                            HintValue::Num => Ty {
                                                reason: pos,
                                                node: Ty_::Tprim(Tprim::Tnum),
                                            },
                                            HintValue::Bool => Ty {
                                                reason: pos,
                                                node: Ty_::Tprim(Tprim::Tbool),
                                            },
                                            HintValue::Apply(gn) => {
                                                let mut cls = String::from_str("\\");
                                                cls.append(gn.as_str());
                                                proof {
                                                    reveal_strlit("\\");
                                                    assert(cls@ =~= seq!['\\'] + gn@);
                                                }
                                                let reason = pos.clone();
                                                Ty { reason, node: Ty_::Tapply(pos, cls) }
                                            },
                                        };
                                        self.state.decls.consts.insert(name, ty);
                                        Ok(Node_::Ignored)
                                    },
                                    _ => {
                                        let mut m = String::from_str(
                                            "Expected primitive value for constant ",
                                        );
                                        m.append(name.as_str());
                                        Err(m)
                                    },
                                }
                            } else {
                                Ok(Node_::Ignored)
                            }
                        },
                        _ => Ok(Node_::Ignored),
                    }
                } else {
                    Ok(Node_::Ignored)
                }
            },
            _ => Ok(Node_::Ignored),
        }
    }

    /// A class-like declaration with a name aggregates its children into a
    /// `ClassDecl`; without one it is silently dropped, its other children
    /// unexamined.
    pub fn make_classish_declaration(
        &mut self,
        attributes: Node,
        modifiers: Node,
        keyword: Node,
        name: Node,
        _type_params: Node,
        _extends_keyword: Node,
        extends: Node,
        _implements_keyword: Node,
        implements: Node,
        constrs: Node,
        body: Node,
    ) -> (r: Node)
        ensures
            *final(self) == *old(self),
            match name {
                Err(e) => r == Err::<Node_, String>(e),
                Ok(n) => {
                    if n is Ignored {
                        r == Ok::<Node_, String>(Node_::Ignored)
                    } else if modifiers is Err {
                        r == Err::<Node_, String>(modifiers->Err_0)
                    } else if keyword is Err {
                        r == Err::<Node_, String>(keyword->Err_0)
                    } else if attributes is Err {
                        r == Err::<Node_, String>(attributes->Err_0)
                    } else if extends is Err {
                        r == Err::<Node_, String>(extends->Err_0)
                    } else if implements is Err {
                        r == Err::<Node_, String>(implements->Err_0)
                    } else if constrs is Err {
                        r == Err::<Node_, String>(constrs->Err_0)
                    } else if body is Err {
                        r == Err::<Node_, String>(body->Err_0)
                    } else {
                        r matches Ok(d) && d matches Node_::ClassDecl(c) && (*c).modifiers
                            == modifiers->Ok_0 && (*c).kind == keyword->Ok_0 && (*c).name == n && (
                        *c).attributes == attributes->Ok_0 && (*c).extends == extends->Ok_0 && (
                        *c).implements == implements->Ok_0 && (*c).constrs == constrs->Ok_0 && (
                        *c).body == body->Ok_0
                    }
                },
            },
    {
        let n = match name {
            Ok(n) => n,
            Err(e) => {
                return Err(e);
            },
        };
        if matches!(n, Node_::Ignored) {
            return Ok(Node_::Ignored);
        }
        let modifiers = match modifiers {
            Ok(m) => m,
            Err(e) => {
                return Err(e);
            },
        };
        let kind = match keyword {
            Ok(k) => k,
            Err(e) => {
                return Err(e);
            },
        };
        let attributes = match attributes {
            Ok(a) => a,
            Err(e) => {
                return Err(e);
            },
        };
        let extends = match extends {
            Ok(x) => x,
            Err(e) => {
                return Err(e);
            },
        };
        let implements = match implements {
            Ok(x) => x,
            Err(e) => {
                return Err(e);
            },
        };
        let constrs = match constrs {
            Ok(x) => x,
            Err(e) => {
                return Err(e);
            },
        };
        let body = match body {
            Ok(b) => b,
            Err(e) => {
                return Err(e);
            },
        };
        Ok(
            Node_::ClassDecl(
                Box::new(
                    crate::node::ClassDeclChildren {
                        modifiers,
                        kind,
                        name: n,
                        attributes,
                        extends,
                        implements,
                        constrs,
                        body,
                    },
                ),
            ),
        )
    }
}

} // verus!
