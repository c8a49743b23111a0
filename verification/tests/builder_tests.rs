use direct_decl::constructors::DirectDeclSmartConstructors;
use direct_decl::decls::{Tprim, Ty_};
use direct_decl::node::{HintValue, Node, Node_, Token, TokenKind};
use direct_decl::pos::{Pos, Prefix, RelativePath};

fn reducer() -> DirectDeclSmartConstructors {
    DirectDeclSmartConstructors::new()
}

fn name(s: &str) -> Node_ {
    Node_::Name(String::from(s))
}

fn lit(s: &str) -> Node_ {
    Node_::StringLiteral(String::from(s))
}

fn pos() -> Pos {
    Pos::from_lnum_bol_cnum(
        RelativePath::make(Prefix::Root, String::from("a.php")),
        (1, 0, 0),
        (1, 0, 3),
    )
}

fn tok(kind: TokenKind, text: &str) -> Token {
    Token { kind, text: String::from(text), pos: pos() }
}

#[test]
fn token_identifiers_and_literals() {
    let mut r = reducer();
    assert_eq!(r.make_token(tok(TokenKind::Name, "foo")), Ok(name("foo")));
    assert_eq!(
        r.make_token(tok(TokenKind::DecimalLiteral, "0123")),
        Ok(lit("0123"))
    );
    assert_eq!(
        r.make_token(tok(TokenKind::XhpClassName, ":x:frag")),
        Ok(Node_::XhpName(String::from(":x:frag")))
    );
    assert_eq!(r.make_token(tok(TokenKind::Other, "whatever")), Ok(Node_::Ignored));
}

#[test]
fn token_quoted_strings_unescape() {
    let mut r = reducer();
    assert_eq!(
        r.make_token(tok(TokenKind::SingleQuotedStringLiteral, "'a\\'b'")),
        Ok(lit("a'b"))
    );
    // Single-quote rules leave other escapes as written.
    assert_eq!(
        r.make_token(tok(TokenKind::SingleQuotedStringLiteral, "'a\\nb'")),
        Ok(lit("a\\nb"))
    );
    assert_eq!(
        r.make_token(tok(TokenKind::DoubleQuotedStringLiteral, "\"a\\nb\\$c\"")),
        Ok(lit("a\nb$c"))
    );
}

#[test]
fn token_primitive_hints_carry_position() {
    let mut r = reducer();
    assert_eq!(
        r.make_token(tok(TokenKind::StringKeyword, "string")),
        Ok(Node_::Hint(HintValue::Str, pos()))
    );
    assert_eq!(
        r.make_token(tok(TokenKind::IntKeyword, "int")),
        Ok(Node_::Hint(HintValue::Int, pos()))
    );
    assert_eq!(
        r.make_token(tok(TokenKind::NumKeyword, "num")),
        Ok(Node_::Hint(HintValue::Num, pos()))
    );
    assert_eq!(
        r.make_token(tok(TokenKind::BoolKeyword, "bool")),
        Ok(Node_::Hint(HintValue::Bool, pos()))
    );
    assert_eq!(
        r.make_token(tok(TokenKind::FloatKeyword, "float")),
        Ok(Node_::Hint(HintValue::Float, pos()))
    );
}

#[test]
fn token_legacy_type_names_become_class_references() {
    // `double` and `boolean` classify as class-reference hints, not
    // primitives; this divergence is intentional.
    let mut r = reducer();
    assert_eq!(
        r.make_token(tok(TokenKind::DoubleKeyword, "double")),
        Ok(Node_::Hint(HintValue::Apply(String::from("double")), pos()))
    );
    assert_eq!(
        r.make_token(tok(TokenKind::BooleanKeyword, "boolean")),
        Ok(Node_::Hint(HintValue::Apply(String::from("boolean")), pos()))
    );
}

#[test]
fn token_structural_keywords() {
    let mut r = reducer();
    assert_eq!(r.make_token(tok(TokenKind::Backslash, "\\")), Ok(Node_::Backslash));
    assert_eq!(r.make_token(tok(TokenKind::Class, "class")), Ok(Node_::Class));
    assert_eq!(r.make_token(tok(TokenKind::Static, "static")), Ok(Node_::Static));
}

#[test]
fn list_of_nothing_is_ignored_but_a_lone_leaf_survives() {
    let mut r = reducer();
    assert_eq!(
        r.make_list(vec![Ok(Node_::Ignored), Ok(Node_::Ignored)], 0),
        Ok(Node_::Ignored)
    );
    // Diverges from flattening, which drops a lone name.
    assert_eq!(
        r.make_list(vec![Ok(name("x"))], 0),
        Ok(Node_::List(vec![name("x")]))
    );
    assert_eq!(r.make_list(vec![], 0), Ok(Node_::Ignored));
    assert_eq!(
        r.make_list(vec![Ok(name("x")), Err(String::from("bad"))], 0),
        Err(String::from("bad"))
    );
}

#[test]
fn qualified_name_wraps_fragments() {
    let mut r = reducer();
    assert_eq!(r.make_qualified_name(Ok(Node_::Ignored)), Ok(Node_::Ignored));
    assert_eq!(
        r.make_qualified_name(Ok(Node_::List(vec![name("A"), name("B")]))),
        Ok(Node_::QualifiedName(vec![name("A"), name("B")]))
    );
    assert_eq!(
        r.make_qualified_name(Ok(name("A"))),
        Ok(Node_::QualifiedName(vec![name("A")]))
    );
}

#[test]
fn list_item_pairs_or_passes_through() {
    let mut r = reducer();
    assert_eq!(
        r.make_list_item(Ok(Node_::Ignored), Ok(Node_::Ignored)),
        Ok(Node_::Ignored)
    );
    assert_eq!(r.make_list_item(Ok(name("a")), Ok(Node_::Ignored)), Ok(name("a")));
    assert_eq!(r.make_list_item(Ok(Node_::Ignored), Ok(Node_::Backslash)), Ok(Node_::Backslash));
    assert_eq!(
        r.make_list_item(Ok(name("a")), Ok(Node_::Backslash)),
        Ok(Node_::ListItem(Box::new((name("a"), Node_::Backslash))))
    );
}

#[test]
fn define_requires_two_arguments_with_a_literal_first() {
    let mut r = reducer();
    assert_eq!(
        r.make_define_expression(
            Ok(Node_::Ignored),
            Ok(Node_::Ignored),
            Ok(Node_::List(vec![lit("X"), lit("1")])),
            Ok(Node_::Ignored),
        ),
        Ok(Node_::Define(Box::new(lit("X"))))
    );
    assert_eq!(
        r.make_define_expression(
            Ok(Node_::Ignored),
            Ok(Node_::Ignored),
            Ok(Node_::List(vec![name("X"), lit("1")])),
            Ok(Node_::Ignored),
        ),
        Ok(Node_::Ignored)
    );
    assert_eq!(
        r.make_define_expression(
            Ok(Node_::Ignored),
            Ok(Node_::Ignored),
            Ok(Node_::List(vec![lit("X")])),
            Ok(Node_::Ignored),
        ),
        Ok(Node_::Ignored)
    );
    assert_eq!(
        r.make_define_expression(
            Ok(Node_::Ignored),
            Ok(Node_::Ignored),
            Ok(Node_::List(vec![lit("X"), lit("1"), lit("2")])),
            Ok(Node_::Ignored),
        ),
        Ok(Node_::Ignored)
    );
}

#[test]
fn function_declarations_keep_header_and_body() {
    let mut r = reducer();
    let header = r
        .make_function_declaration_header(
            Ok(Node_::Ignored),
            Ok(Node_::Ignored),
            Ok(name("f")),
            Ok(Node_::Ignored),
            Ok(Node_::Ignored),
            Ok(Node_::Ignored),
            Ok(Node_::Ignored),
            Ok(Node_::Ignored),
            Ok(Node_::Ignored),
            Ok(Node_::Ignored),
        )
        .unwrap();
    assert_eq!(header, Node_::FunctionDecl(Box::new(name("f"))));
    assert_eq!(
        r.make_function_declaration(Ok(Node_::Ignored), Ok(header), Ok(Node_::Ignored)),
        Ok(Node_::FunctionDecl(Box::new(name("f"))))
    );
    // A header that reduced to nothing drops the function.
    assert_eq!(
        r.make_function_declaration(Ok(Node_::Ignored), Ok(Node_::Ignored), Ok(Node_::Ignored)),
        Ok(Node_::Ignored)
    );
}

#[test]
fn require_clause_kinds() {
    let mut r = reducer();
    assert_eq!(
        r.make_require_clause(Ok(Node_::Ignored), Ok(Node_::Extends), Ok(name("A")), Ok(Node_::Ignored)),
        Ok(Node_::RequireExtendsClause(Box::new(name("A"))))
    );
    assert_eq!(
        r.make_require_clause(Ok(Node_::Ignored), Ok(Node_::Implements), Ok(name("A")), Ok(Node_::Ignored)),
        Ok(Node_::RequireImplementsClause(Box::new(name("A"))))
    );
    assert_eq!(
        r.make_require_clause(Ok(Node_::Ignored), Ok(name("bogus")), Ok(name("A")), Ok(Node_::Ignored)),
        Ok(Node_::Ignored)
    );
    assert_eq!(
        r.make_require_clause(Ok(Node_::Ignored), Ok(Node_::Extends), Ok(Node_::Ignored), Ok(Node_::Ignored)),
        Ok(Node_::Ignored)
    );
}

#[test]
fn namespace_keeps_empty_body_marker_but_drops_ignored() {
    let mut r = reducer();
    let empty = r.make_namespace_empty_body(Ok(Node_::Ignored)).unwrap();
    assert_eq!(empty, Node_::EmptyBody);
    assert_eq!(
        r.make_namespace_declaration(Ok(Node_::Ignored), Ok(name("NS")), Ok(Node_::EmptyBody)),
        Ok(Node_::NamespaceDecl(Box::new(name("NS")), Box::new(Node_::EmptyBody)))
    );
    assert_eq!(
        r.make_namespace_declaration(Ok(Node_::Ignored), Ok(name("NS")), Ok(Node_::Ignored)),
        Ok(Node_::Ignored)
    );
}

#[test]
fn classish_without_a_name_contributes_nothing() {
    let mut r = reducer();
    let out = r.make_classish_declaration(
        Ok(Node_::Ignored),
        Ok(Node_::Abstract),
        Ok(Node_::Class),
        Ok(Node_::Ignored),
        Ok(Node_::Ignored),
        Ok(Node_::Ignored),
        Ok(name("Base")),
        Ok(Node_::Ignored),
        Ok(Node_::Ignored),
        Ok(Node_::Ignored),
        Ok(Node_::Ignored),
    );
    assert_eq!(out, Ok(Node_::Ignored));
    assert_eq!(r.state.decls.consts.len(), 0);
    assert_eq!(r.state.decls.classes.len(), 0);
}

#[test]
fn classish_with_a_name_aggregates_children() {
    let mut r = reducer();
    let out = r
        .make_classish_declaration(
            Ok(Node_::Ignored),
            Ok(Node_::Final),
            Ok(Node_::Class),
            Ok(name("C")),
            Ok(Node_::Ignored),
            Ok(Node_::Ignored),
            Ok(name("Base")),
            Ok(Node_::Ignored),
            Ok(name("Iface")),
            Ok(Node_::Ignored),
            Ok(Node_::EmptyBody),
        )
        .unwrap();
    match out {
        Node_::ClassDecl(children) => {
            assert_eq!(children.modifiers, Node_::Final);
            assert_eq!(children.kind, Node_::Class);
            assert_eq!(children.name, name("C"));
            assert_eq!(children.extends, name("Base"));
            assert_eq!(children.implements, name("Iface"));
            assert_eq!(children.body, Node_::EmptyBody);
        }
        other => panic!("expected a class declaration, got {:?}", other),
    }
}

#[test]
fn methodish_and_trait_use() {
    let mut r = reducer();
    assert_eq!(
        r.make_methodish_declaration(Ok(Node_::Ignored), Ok(Node_::Ignored), Ok(Node_::EmptyBody), Ok(Node_::Ignored)),
        Ok(Node_::MethodDecl(Box::new(Node_::EmptyBody)))
    );
    assert_eq!(
        r.make_methodish_declaration(Ok(Node_::Ignored), Ok(Node_::Ignored), Ok(Node_::Ignored), Ok(Node_::Ignored)),
        Ok(Node_::Ignored)
    );
    assert_eq!(
        r.make_trait_use(Ok(Node_::Ignored), Ok(name("T")), Ok(Node_::Ignored)),
        Ok(Node_::TraitUseClause(Box::new(name("T"))))
    );
    assert_eq!(
        r.make_trait_use(Ok(Node_::Ignored), Ok(Node_::Ignored), Ok(Node_::Ignored)),
        Ok(Node_::Ignored)
    );
}

#[test]
fn enum_and_alias_need_names() {
    let mut r = reducer();
    match r
        .make_enum_declaration(
            Ok(name("Attr")),
            Ok(Node_::Ignored),
            Ok(name("E")),
            Ok(Node_::Ignored),
            Ok(Node_::Ignored),
            Ok(Node_::Ignored),
            Ok(Node_::Ignored),
            Ok(Node_::Ignored),
            Ok(Node_::Ignored),
        )
        .unwrap()
    {
        Node_::EnumDecl(c) => {
            assert_eq!(c.name, name("E"));
            assert_eq!(c.attributes, name("Attr"));
        }
        other => panic!("expected an enum declaration, got {:?}", other),
    }
    assert_eq!(
        r.make_alias_declaration(
            Ok(Node_::Ignored),
            Ok(Node_::Ignored),
            Ok(Node_::Ignored),
            Ok(Node_::Ignored),
            Ok(Node_::Ignored),
            Ok(Node_::Ignored),
            Ok(Node_::Ignored),
            Ok(Node_::Ignored),
        ),
        Ok(Node_::Ignored)
    );
}

#[test]
fn constructor_call_and_scope_resolution_pair_children() {
    let mut r = reducer();
    assert_eq!(
        r.make_constructor_call(Ok(name("C")), Ok(Node_::Ignored), Ok(lit("arg")), Ok(Node_::Ignored)),
        Ok(Node_::ListItem(Box::new((name("C"), lit("arg")))))
    );
    assert_eq!(
        r.make_scope_resolution_expression(Ok(name("C")), Ok(Node_::Ignored), Ok(name("m"))),
        Ok(Node_::ScopeResolutionExpression(Box::new((name("C"), name("m")))))
    );
}

fn const_declarator_list(const_name: &str) -> Node {
    Ok(Node_::List(vec![Node_::List(vec![
        name(const_name),
        lit("1"),
    ])]))
}

#[test]
fn constant_registration_is_last_write_wins() {
    let mut r = reducer();
    let int_hint = Ok(Node_::Hint(HintValue::Int, pos()));
    let out = r.make_const_declaration(
        Ok(Node_::Ignored),
        Ok(Node_::Ignored),
        int_hint,
        const_declarator_list("X"),
        Ok(Node_::Ignored),
    );
    assert_eq!(out, Ok(Node_::Ignored));
    assert_eq!(r.state.decls.consts.len(), 1);
    assert_eq!(
        r.state.decls.consts.get("X").unwrap().node,
        Ty_::Tprim(Tprim::Tint)
    );
    let float_hint = Ok(Node_::Hint(HintValue::Float, pos()));
    let out = r.make_const_declaration(
        Ok(Node_::Ignored),
        Ok(Node_::Ignored),
        float_hint,
        const_declarator_list("X"),
        Ok(Node_::Ignored),
    );
    assert_eq!(out, Ok(Node_::Ignored));
    assert_eq!(r.state.decls.consts.len(), 1);
    let entry = r.state.decls.consts.get("X").unwrap();
    assert_eq!(entry.node, Ty_::Tprim(Tprim::Tfloat));
    assert!(entry.reason == pos());
}

#[test]
fn constant_with_class_reference_hint_is_globally_qualified() {
    let mut r = reducer();
    let hint = Ok(Node_::Hint(HintValue::Apply(String::from("double")), pos()));
    let out = r.make_const_declaration(
        Ok(Node_::Ignored),
        Ok(Node_::Ignored),
        hint,
        const_declarator_list("D"),
        Ok(Node_::Ignored),
    );
    assert_eq!(out, Ok(Node_::Ignored));
    match &r.state.decls.consts.get("D").unwrap().node {
        Ty_::Tapply(p, cls) => {
            assert!(*p == pos());
            assert_eq!(cls, "\\double");
        }
        other => panic!("expected an applied type, got {:?}", other),
    }
}

#[test]
fn constant_with_malformed_declarator_is_silently_dropped() {
    let mut r = reducer();
    let hint = Ok(Node_::Hint(HintValue::Int, pos()));
    // Wrong inner arity: three elements instead of a pair.
    let decls = Ok(Node_::List(vec![Node_::List(vec![
        name("X"),
        lit("1"),
        lit("2"),
    ])]));
    assert_eq!(
        r.make_const_declaration(Ok(Node_::Ignored), Ok(Node_::Ignored), hint, decls, Ok(Node_::Ignored)),
        Ok(Node_::Ignored)
    );
    assert_eq!(r.state.decls.consts.len(), 0);
}

#[test]
fn constant_without_a_hint_node_fails_closed() {
    let mut r = reducer();
    let out = r.make_const_declaration(
        Ok(Node_::Ignored),
        Ok(Node_::Ignored),
        Ok(name("notahint")),
        const_declarator_list("X"),
        Ok(Node_::Ignored),
    );
    assert_eq!(out, Err(String::from("Expected primitive value for constant X")));
    assert_eq!(r.state.decls.consts.len(), 0);
}

#[test]
fn a_later_failure_does_not_roll_back_registered_constants() {
    let mut r = reducer();
    let out = r.make_const_declaration(
        Ok(Node_::Ignored),
        Ok(Node_::Ignored),
        Ok(Node_::Hint(HintValue::Int, pos())),
        const_declarator_list("KEPT"),
        Ok(Node_::Ignored),
    );
    assert_eq!(out, Ok(Node_::Ignored));
    // A second declaration fails closed on its hint; the first entry stays.
    let out = r.make_const_declaration(
        Ok(Node_::Ignored),
        Ok(Node_::Ignored),
        Ok(name("notahint")),
        const_declarator_list("LOST"),
        Ok(Node_::Ignored),
    );
    assert!(out.is_err());
    assert_eq!(r.state.decls.consts.len(), 1);
    assert!(r.state.decls.consts.get("KEPT").is_some());
    assert!(r.state.decls.consts.get("LOST").is_none());
}

#[test]
fn constant_declarator_pairs_name_and_initializer() {
    let mut r = reducer();
    assert_eq!(
        r.make_constant_declarator(Ok(name("X")), Ok(lit("1"))),
        Ok(Node_::List(vec![name("X"), lit("1")]))
    );
    assert_eq!(
        r.make_constant_declarator(Ok(Node_::Ignored), Ok(lit("1"))),
        Ok(Node_::Ignored)
    );
}

#[test]
fn fresh_table_is_empty() {
    let r = reducer();
    assert_eq!(r.state.decls.consts.len(), 0);
    assert_eq!(r.state.decls.funs.len(), 0);
    assert_eq!(r.state.decls.typedefs.len(), 0);
    assert!(r.state.decls.consts.get("anything").is_none());
}

#[test]
fn pass_through_rules() {
    let mut r = reducer();
    assert_eq!(r.make_missing(7), Ok(Node_::Ignored));
    assert_eq!(r.make_simple_type_specifier(Ok(name("t"))), Ok(name("t")));
    assert_eq!(
        r.make_simple_initializer(Ok(Node_::Ignored), Ok(lit("v"))),
        Ok(lit("v"))
    );
    assert_eq!(r.make_literal_expression(Ok(lit("v"))), Ok(lit("v")));
    assert_eq!(
        r.make_generic_type_specifier(Ok(name("C")), Ok(Node_::Ignored)),
        Ok(name("C"))
    );
    assert_eq!(
        r.make_classish_body(Ok(Node_::Ignored), Ok(name("b")), Ok(Node_::Ignored)),
        Ok(name("b"))
    );
    assert_eq!(
        r.make_old_attribute_specification(Ok(Node_::Ignored), Ok(name("a")), Ok(Node_::Ignored)),
        Ok(name("a"))
    );
    assert_eq!(r.make_attribute_specification(Ok(name("a"))), Ok(name("a")));
    assert_eq!(r.make_attribute(Ok(Node_::Ignored), Ok(name("a"))), Ok(name("a")));
    assert_eq!(r.make_decorated_expression(Ok(Node_::Ignored), Ok(name("e"))), Ok(name("e")));
    assert_eq!(
        r.make_namespace_body(Ok(Node_::Ignored), Ok(name("d")), Ok(Node_::Ignored)),
        Ok(name("d"))
    );
}

#[test]
fn failures_propagate_through_builders() {
    let mut r = reducer();
    let boom = || Err::<Node_, String>(String::from("boom"));
    assert_eq!(
        r.make_list_item(boom(), Ok(Node_::Ignored)),
        Err(String::from("boom"))
    );
    assert_eq!(r.make_qualified_name(boom()), Err(String::from("boom")));
    assert_eq!(
        r.make_const_declaration(Ok(Node_::Ignored), Ok(Node_::Ignored), boom(), const_declarator_list("X"), Ok(Node_::Ignored)),
        Err(String::from("boom"))
    );
    // A missing name swallows failures in the children never examined.
    assert_eq!(
        r.make_classish_declaration(
            boom(),
            boom(),
            boom(),
            Ok(Node_::Ignored),
            boom(),
            boom(),
            boom(),
            boom(),
            boom(),
            boom(),
            boom(),
        ),
        Ok(Node_::Ignored)
    );
}
