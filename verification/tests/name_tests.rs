use direct_decl::names::{get_name, mangle_xhp_id};
use direct_decl::node::Node_;

#[test]
fn get_name_qualifies_plain_names() {
    let n = Node_::Name(String::from("x"));
    assert_eq!(get_name("", &n).unwrap(), "x");
    assert_eq!(get_name("NS", &n).unwrap(), "NS\\x");
}

#[test]
fn mangle_xhp_id_rewrites_colons_and_hyphens() {
    assert_eq!(mangle_xhp_id(String::from(":a:b-c")), "xhp_a__b_c");
}

#[test]
fn mangle_xhp_id_keeps_synthesised_names() {
    assert_eq!(
        mangle_xhp_id(String::from("class@anonymous123")),
        "class@anonymous123"
    );
    assert_eq!(mangle_xhp_id(String::from("Closure$foo")), "Closure$foo");
}

#[test]
fn mangle_xhp_id_without_leading_colon() {
    assert_eq!(mangle_xhp_id(String::from("a:b-c")), "a__b_c");
}

#[test]
fn get_name_mangles_xhp_names_and_ignores_namespace() {
    let n = Node_::XhpName(String::from(":x:y"));
    assert_eq!(get_name("NS", &n).unwrap(), "xhp_x__y");
}

fn foo_backslash_bar() -> Vec<Node_> {
    vec![
        Node_::ListItem(Box::new((Node_::Name(String::from("Foo")), Node_::Backslash))),
        Node_::Name(String::from("Bar")),
    ]
}

#[test]
fn qualified_name_with_leading_backslash_wins_over_namespace() {
    let mut parts = vec![Node_::Backslash];
    parts.extend(foo_backslash_bar());
    let n = Node_::QualifiedName(parts);
    assert_eq!(get_name("NS", &n).unwrap(), "Foo\\Bar");
}

#[test]
fn qualified_name_without_leading_backslash_takes_namespace() {
    let n = Node_::QualifiedName(foo_backslash_bar());
    assert_eq!(get_name("NS", &n).unwrap(), "NS\\Foo\\Bar");
    assert_eq!(get_name("", &n).unwrap(), "Foo\\Bar");
}

#[test]
fn get_name_rejects_other_nodes() {
    assert!(get_name("NS", &Node_::Ignored).is_err());
    assert!(get_name("", &Node_::Backslash).is_err());
}

#[test]
fn qualified_name_rejects_misplaced_backslash() {
    let n = Node_::QualifiedName(vec![Node_::Name(String::from("A")), Node_::Backslash]);
    assert!(get_name("", &n).is_err());
}

#[test]
fn qualified_name_rejects_malformed_list_item() {
    let n = Node_::QualifiedName(vec![Node_::ListItem(Box::new((
        Node_::Backslash,
        Node_::Backslash,
    )))]);
    assert!(get_name("", &n).is_err());
}
