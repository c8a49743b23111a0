use direct_decl::label::{Error, Gen, Label};

#[test]
fn generator_hands_out_consecutive_ids() {
    let mut g = Gen::default();
    assert_eq!(g.next_regular(), Label::Regular(0));
    assert_eq!(g.next_default_arg(), Label::DefaultArg(1));
    assert_eq!(g.next_regular(), Label::Regular(2));
}

#[test]
fn resume_labels_carry_the_next_id() {
    let mut g = Gen::default();
    assert_eq!(g.next_resume(), Label::Named(String::from("resume0")));
    let _ = g.next_regular();
    assert_eq!(g.next_resume(), Label::Named(String::from("resume2")));
}

#[test]
fn id_of_numbered_labels() {
    assert_eq!(Label::Regular(5).id(), Ok(5));
    assert_eq!(Label::DefaultArg(7).id(), Ok(7));
    assert_eq!(Label::Named(String::from("resume1")).id(), Err(Error::Id));
}

#[test]
fn map_rewrites_numbered_labels_only() {
    assert_eq!(Label::Regular(5).map(|x| x + 1), Ok(Label::Regular(6)));
    assert_eq!(Label::DefaultArg(5).map(|x| x * 2), Ok(Label::DefaultArg(10)));
    assert_eq!(
        Label::Named(String::from("n")).map(|x| x),
        Err(Error::MapOp)
    );
}

#[test]
fn error_messages() {
    assert_eq!(
        Error::Id.message(),
        "Label should be rewritten before this point (id)"
    );
    assert_eq!(
        Error::OptionMap.message(),
        "Label should be rewritten before this point (option_map)"
    );
    assert_eq!(
        Error::MapOp.message(),
        "Label should be rewritten before this point (map)"
    );
}
