use direct_decl::pos::{Pos, Prefix, RelativePath};

fn file(name: &str) -> RelativePath {
    RelativePath::make(Prefix::Root, String::from(name))
}

#[test]
fn test() {
    assert_eq!(Pos::make_none().is_none(), true);
    assert_eq!(
        Pos::from_lnum_bol_cnum(
            RelativePath::make(Prefix::Dummy, String::from("a")),
            (0, 0, 0),
            (0, 0, 0)
        )
        .is_none(),
        false
    );
    assert_eq!(
        Pos::from_lnum_bol_cnum(
            RelativePath::make(Prefix::Dummy, String::from("")),
            (1, 0, 0),
            (0, 0, 0)
        )
        .is_none(),
        false
    );
}

#[test]
fn wide_zero_span_is_not_none() {
    // Only the compact form can be the dummy span; a wide span with the
    // same offsets and an empty file name is not "none".
    let big = 5_000_000_000usize;
    let p = Pos::from_lnum_bol_cnum(
        RelativePath::make(Prefix::Dummy, String::from("")),
        (0, big, big),
        (0, 0, 0),
    );
    assert_eq!(p.is_none(), false);
}

#[test]
fn btw_out_of_order_fails() {
    let p1 = Pos::from_lnum_bol_cnum(file("a.php"), (1, 0, 0), (1, 0, 10));
    let p2 = Pos::from_lnum_bol_cnum(file("a.php"), (1, 0, 2), (1, 0, 5));
    assert!(Pos::btw(&p1, &p2).is_err());
}

#[test]
fn btw_cross_file_fails() {
    let p1 = Pos::from_lnum_bol_cnum(file("a.php"), (1, 0, 0), (1, 0, 5));
    let p2 = Pos::from_lnum_bol_cnum(file("b.php"), (1, 0, 6), (1, 0, 10));
    let r = Pos::btw(&p1, &p2);
    assert!(r.is_err());
    let msg = r.unwrap_err();
    assert_eq!(msg, "Position in separate files root|a.php and root|b.php");
}

#[test]
fn btw_ordered_same_file_spans() {
    let p1 = Pos::from_lnum_bol_cnum(file("a.php"), (1, 0, 2), (1, 0, 5));
    let p2 = Pos::from_lnum_bol_cnum(file("a.php"), (2, 6, 8), (2, 6, 10));
    let joined = Pos::btw(&p1, &p2).unwrap();
    assert_eq!(joined.start_cnum(), 2);
    assert_eq!(joined.end_cnum(), 10);
    assert!(joined.filename() == p1.filename());
}

#[test]
fn btw_nocheck_takes_first_file() {
    let p1 = Pos::from_lnum_bol_cnum(file("a.php"), (1, 0, 3), (1, 0, 4));
    let p2 = Pos::from_lnum_bol_cnum(file("b.php"), (9, 90, 95), (9, 90, 99));
    let joined = Pos::btw_nocheck(p1, p2);
    assert!(joined.filename() == &file("a.php"));
    assert_eq!(joined.start_cnum(), 3);
    assert_eq!(joined.end_cnum(), 99);
}

#[test]
fn wide_encoding_round_trips_offsets() {
    // One component beyond the 32-bit threshold forces the wide form.
    let big = 5_000_000_000usize;
    let p = Pos::from_lnum_bol_cnum(file("big.php"), (1, 0, 7), (2, big, big + 3));
    assert_eq!(p.start_cnum(), 7);
    assert_eq!(p.end_cnum(), big + 3);
    // Joining a compact span with a wide one keeps both offsets.
    let small = Pos::from_lnum_bol_cnum(file("big.php"), (1, 0, 1), (1, 0, 2));
    let joined = Pos::btw(&small, &p).unwrap();
    assert_eq!(joined.start_cnum(), 1);
    assert_eq!(joined.end_cnum(), big + 3);
}

#[test]
fn from_line_cols_offset_spans_one_line() {
    let p = Pos::from_line_cols_offset(file("a.php"), 3, 4..9, 40);
    assert_eq!(p.start_cnum(), 40);
    assert_eq!(p.end_cnum(), 45);
}

#[test]
fn equality_ignores_lines_and_columns() {
    let p1 = Pos::from_lnum_bol_cnum(file("a.php"), (1, 0, 5), (1, 0, 9));
    let p2 = Pos::from_lnum_bol_cnum(file("a.php"), (2, 3, 5), (4, 7, 9));
    assert!(p1 == p2);
    let p3 = Pos::from_lnum_bol_cnum(file("a.php"), (1, 0, 5), (1, 0, 8));
    assert!(p1 != p3);
}

#[test]
fn compare_orders_by_file_then_offsets() {
    let a1 = Pos::from_lnum_bol_cnum(file("a.php"), (1, 0, 0), (1, 0, 5));
    let a2 = Pos::from_lnum_bol_cnum(file("a.php"), (1, 0, 3), (1, 0, 5));
    let b = Pos::from_lnum_bol_cnum(file("b.php"), (1, 0, 0), (1, 0, 0));
    assert_eq!(Pos::compare(&a1, &a2), std::cmp::Ordering::Less);
    assert_eq!(Pos::compare(&a2, &a1), std::cmp::Ordering::Greater);
    assert_eq!(Pos::compare(&a1, &a1), std::cmp::Ordering::Equal);
    assert_eq!(Pos::compare(&a2, &b), std::cmp::Ordering::Less);
    let hhi = Pos::from_lnum_bol_cnum(
        RelativePath::make(Prefix::Hhi, String::from("a.php")),
        (1, 0, 9),
        (1, 0, 9),
    );
    assert_eq!(Pos::compare(&hhi, &a1), std::cmp::Ordering::Greater);
}
