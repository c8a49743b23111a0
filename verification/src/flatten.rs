//! The generic flatten combinator and its helpers.
//!
//! Flattening takes the already-reduced children of a production, splices
//! the elements of nested sequences in, drops structurally inert leaves,
//! and collapses the outcome: nothing left gives the neutral `Ignored`, a
//! single survivor is returned bare, anything more becomes a `List`.  The
//! first failing child aborts the whole operation with its message.

use vstd::prelude::*;
use crate::node::{Node, Node_};

verus! {

/// Whether every element of `l` is a success.
pub open spec fn all_ok<T, E>(l: Seq<Result<T, E>>) -> bool {
    forall|i: int| 0 <= i < l.len() ==> (#[trigger] l[i]) is Ok
}

/// The message of the first failure in `l`.
pub open spec fn first_err<T, E>(l: Seq<Result<T, E>>) -> E
    decreases l.len(),
{
    if l.len() == 0 {
        arbitrary()
    } else if l[0] is Err {
        l[0]->Err_0
    } else {
        first_err(l.drop_first())
    }
}

/// If nothing before position `i` fails and `l[i]` fails, then `l[i]`
/// carries the first failure.
pub proof fn lemma_first_err_at<T, E>(l: Seq<Result<T, E>>, i: int)
    requires
        0 <= i < l.len(),
        l[i] is Err,
        forall|k: int| 0 <= k < i ==> (#[trigger] l[k]) is Ok,
    ensures
        first_err(l) == l[i]->Err_0,
    decreases i,
{
    if i > 0 {
        lemma_first_err_at(l.drop_first(), i - 1);
    }
}

/// Collects the values of `vec` when all succeed, else fails with the first
/// failure.
pub fn try_collect<T, E>(vec: Vec<Result<T, E>>) -> (r: Result<Vec<T>, E>)
    ensures
        all_ok(vec@) ==> (r matches Ok(v) && v@.len() == vec@.len() && forall|i: int|
            0 <= i < vec@.len() ==> vec@[i] == Ok::<T, E>(#[trigger] v@[i])),
        !all_ok(vec@) ==> r == Err::<Vec<T>, E>(first_err(vec@)),
{
    let ghost orig = vec@;
    let mut work = vec;
    let mut acc: Vec<T> = Vec::new();
    let ghost mut i: int = 0;
    proof {
        assert(work@ =~= orig.skip(0));
    }
    while work.len() > 0
        invariant
            orig == vec@,
            0 <= i <= orig.len(),
            work@ == orig.skip(i),
            acc@.len() == i,
            forall|k: int| 0 <= k < i ==> (#[trigger] orig[k]) is Ok,
            forall|k: int| 0 <= k < i ==> orig[k] == Ok::<T, E>(#[trigger] acc@[k]),
        decreases work.len(),
    {
        let ghost work0 = work@;
        let x = work.remove(0);
        proof {
            assert(work@ =~= work0.skip(1));
            assert(work0.skip(1) =~= orig.skip(i + 1));
            assert(x == orig[i]);
        }
        match x {
            Ok(t) => {
                acc.push(t);
            },
            Err(e) => {
                proof {
                    assert(!((orig[i]) is Ok));
                    assert(!all_ok(orig));
                    lemma_first_err_at(orig, i);
                }
                return Err(e);
            },
        }
        proof {
            i = i + 1;
        }
    }
    proof {
        assert(i == orig.len());
        assert(all_ok(orig));
    }
    Ok(acc)
}

/// Whether a reduced node is a structurally inert leaf that flattening
/// drops.
pub open spec fn is_zero_node(n: Node_) -> bool {
    match n {
        Node_::Ignored => true,
        Node_::Name(_) => true,
        Node_::StringLiteral(_) => true,
        Node_::XhpName(_) => true,
        Node_::Hint(_, _) => true,
        Node_::Backslash => true,
        Node_::ListItem(_) => true,
        Node_::Class => true,
        Node_::Interface => true,
        Node_::Trait => true,
        Node_::Extends => true,
        Node_::Implements => true,
        Node_::Abstract => true,
        Node_::Final => true,
        Node_::Static => true,
        Node_::QualifiedName(_) => true,
        _ => false,
    }
}

/// Whether a reduction result is neutral for flattening: a success holding
/// an inert leaf.  Failures are never neutral.
pub open spec fn is_zero_spec(s: Node) -> bool {
    s matches Ok(n) && is_zero_node(n)
}

/// What one successful child contributes to the flattened sequence: a
/// sequence's own elements, nothing for an inert leaf, itself otherwise.
pub open spec fn flatten_expand(r: Node) -> Seq<Node_> {
    match r {
        Ok(n) => match n {
            Node_::List(cs) => cs@,
            other => if is_zero_node(other) {
                Seq::empty()
            } else {
                seq![other]
            },
        },
        Err(_) => Seq::empty(),
    }
}

/// The flattened sequence all children of `l` contribute, in order.
pub open spec fn flatten_nodes(l: Seq<Node>) -> Seq<Node_>
    decreases l.len(),
{
    if l.len() == 0 {
        Seq::empty()
    } else {
        flatten_nodes(l.drop_last()) + flatten_expand(l.last())
    }
}

/// Law: the neutral node is absorbing under flattening.  Children that are
/// all structurally inert successes contribute nothing to the flattened
/// sequence, so `flatten` returns `Ignored` on empty or only-inert input.
pub proof fn lemma_flatten_neutral_absorbing(l: Seq<Node>)
    requires
        forall|i: int| 0 <= i < l.len() ==> is_zero_spec(#[trigger] l[i]),
    ensures
        flatten_nodes(l).len() == 0,
    decreases l.len(),
{
    if l.len() > 0 {
        assert(forall|i: int| 0 <= i < l.drop_last().len() ==> #[trigger] l.drop_last()[i] == l[i]);
        lemma_flatten_neutral_absorbing(l.drop_last());
    }
}

/// Law: the two sequence combinators diverge on a lone inert leaf.  The
/// flatten combinator contributes nothing for it, so `flatten` returns
/// `Ignored`, while the list combinator keeps every element of a list that
/// is not all-`Ignored`, so `make_list` wraps the same lone leaf in a
/// one-element sequence.  Both behaviours are intended and hold together.
pub proof fn lemma_lone_leaf_flattens_away(n: Node_)
    requires
        is_zero_node(n),
    ensures
        flatten_nodes(seq![Ok(n)]).len() == 0,
{
    let l = seq![Ok::<Node_, String>(n)];
    assert(l.drop_last() =~= Seq::<Node>::empty());
    assert(flatten_nodes(Seq::<Node>::empty()) =~= Seq::<Node_>::empty());
    assert(l.last() == Ok::<Node_, String>(n));
    assert(flatten_expand(Ok(n)).len() == 0);
    assert(flatten_nodes(l) =~= flatten_nodes(Seq::<Node>::empty()) + flatten_expand(
        Ok::<Node_, String>(n),
    ));
}

/// The neutral element of flattening.
pub fn zero() -> (r: Node)
    ensures
        r == Ok::<Node_, String>(Node_::Ignored),
{
    Ok(Node_::Ignored)
}

/// Tests whether a reduction result is neutral for flattening.
pub fn is_zero(s: &Node) -> (r: bool)
    ensures
        r == is_zero_spec(*s),
{
    match s {
        Ok(n) => is_zero_node_exec(n),
        Err(_) => false,
    }
}

fn is_zero_node_exec(n: &Node_) -> (r: bool)
    ensures
        r == is_zero_node(*n),
{
    match n {
        Node_::Ignored
        | Node_::Name(_)
        | Node_::StringLiteral(_)
        | Node_::XhpName(_)
        | Node_::Hint(_, _)
        | Node_::Backslash
        | Node_::ListItem(_)
        | Node_::Class
        | Node_::Interface
        | Node_::Trait
        | Node_::Extends
        | Node_::Implements
        | Node_::Abstract
        | Node_::Final
        | Node_::Static
        | Node_::QualifiedName(_) => true,
        _ => false,
    }
}

/// Flattens the children of a production.
///
/// Inert leaves vanish, nested sequences are spliced in, and the outcome
/// collapses: no survivors give `Ignored`, one survivor is returned bare,
/// several become a `List`.  The first failing child fails the whole
/// operation with its message.
pub fn flatten(lst: Vec<Node>) -> (r: Node)
    ensures
        all_ok(lst@) ==> ({
            let ns = flatten_nodes(lst@);
            if ns.len() == 0 {
                r == Ok::<Node_, String>(Node_::Ignored)
            } else if ns.len() == 1 {
                r == Ok::<Node_, String>(ns[0])
            } else {
                r matches Ok(n) && n matches Node_::List(v) && v@ == ns
            }
        }),
        !all_ok(lst@) ==> r == Err::<Node_, String>(first_err(lst@)),
{
    let ghost orig = lst@;
    let mut work = lst;
    let mut acc: Vec<Node_> = Vec::new();
    let ghost mut i: int = 0;
    proof {
        assert(work@ =~= orig.skip(0));
        assert(orig.take(0) =~= Seq::<Node>::empty());
    }
    while work.len() > 0
        invariant
            orig == lst@,
            0 <= i <= orig.len(),
            work@ == orig.skip(i),
            forall|k: int| 0 <= k < i ==> (#[trigger] orig[k]) is Ok,
            acc@ == flatten_nodes(orig.take(i)),
        decreases work.len(),
    {
        let ghost work0 = work@;
        let x = work.remove(0);
        proof {
            assert(work@ =~= work0.skip(1));
            assert(work0.skip(1) =~= orig.skip(i + 1));
            assert(x == orig[i]);
            assert(orig.take(i + 1).drop_last() =~= orig.take(i));
            assert(orig.take(i + 1).last() == orig[i]);
        }
        let ghost acc0 = acc@;
        match x {
            Ok(n) => {
                let is_inert = is_zero_node_exec(&n);
                match n {
                    Node_::List(mut cs) => {
                        acc.append(&mut cs);
                    },
                    other => {
                        if !is_inert {
                            acc.push(other);
                        }
                    },
                }
                proof {
                    assert(acc@ =~= acc0 + flatten_expand(orig[i]));
                    assert(flatten_nodes(orig.take(i + 1)) == flatten_nodes(orig.take(i))
                        + flatten_expand(orig[i]));
                }
            },
            Err(e) => {
                proof {
                    assert(!((orig[i]) is Ok));
                    assert(!all_ok(orig));
                    lemma_first_err_at(orig, i);
                }
                return Err(e);
            },
        }
        proof {
            i = i + 1;
        }
    }
    proof {
        assert(i == orig.len());
        assert(all_ok(orig));
        assert(orig.take(i) =~= orig);
    }
    if acc.len() == 0 {
        Ok(Node_::Ignored)
    } else if acc.len() == 1 {
        let single = acc.remove(0);
        Ok(single)
    } else {
        Ok(Node_::List(acc))
    }
}

} // verus!
