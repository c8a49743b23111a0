use direct_decl::flatten::{flatten, is_zero, try_collect, zero};
use direct_decl::node::{Node, Node_};

fn name(s: &str) -> Node_ {
    Node_::Name(String::from(s))
}

fn decl(s: &str) -> Node_ {
    Node_::FunctionDecl(Box::new(name(s)))
}

#[test]
fn flatten_of_nothing_is_ignored() {
    assert_eq!(flatten(vec![]), Ok(Node_::Ignored));
    assert_eq!(flatten(vec![Ok(Node_::Ignored)]), Ok(Node_::Ignored));
}

#[test]
fn flatten_drops_inert_leaves() {
    assert_eq!(flatten(vec![Ok(name("x"))]), Ok(Node_::Ignored));
    assert_eq!(
        flatten(vec![Ok(Node_::Backslash), Ok(Node_::Class), Ok(name("x"))]),
        Ok(Node_::Ignored)
    );
}

#[test]
fn flatten_splices_nested_sequences() {
    let r = flatten(vec![
        Ok(Node_::List(vec![decl("a"), decl("b")])),
        Ok(decl("c")),
    ]);
    assert_eq!(r, Ok(Node_::List(vec![decl("a"), decl("b"), decl("c")])));
}

#[test]
fn flatten_unwraps_a_single_survivor() {
    let r = flatten(vec![Ok(Node_::Ignored), Ok(decl("a")), Ok(name("x"))]);
    assert_eq!(r, Ok(decl("a")));
}

#[test]
fn flatten_fails_with_the_first_failure() {
    let r = flatten(vec![
        Ok(decl("a")),
        Err(String::from("first")),
        Err(String::from("second")),
    ]);
    assert_eq!(r, Err(String::from("first")));
}

#[test]
fn zero_is_ignored_and_inert() {
    let z = zero();
    assert_eq!(z, Ok(Node_::Ignored));
    assert!(is_zero(&z));
    assert!(is_zero(&Ok(name("x"))));
    assert!(!is_zero(&Ok(Node_::List(vec![]))));
    assert!(!is_zero(&Ok(decl("a"))));
    assert!(!is_zero(&Err(String::from("boom"))));
}

#[test]
fn try_collect_keeps_order_or_first_failure() {
    let ok: Vec<Result<i32, String>> = vec![Ok(1), Ok(2), Ok(3)];
    assert_eq!(try_collect(ok), Ok(vec![1, 2, 3]));
    let bad: Vec<Result<i32, String>> = vec![
        Ok(1),
        Err(String::from("one")),
        Err(String::from("two")),
    ];
    assert_eq!(try_collect(bad), Err(String::from("one")));
}
