//! The per-file declaration table and the types of registered constants.
//!
//! The table holds four independent sub-maps keyed by fully-qualified name.
//! Mutation is insertion only, and re-declaring a name overwrites the
//! previous entry: last write wins, with no duplicate detection.

use vstd::prelude::*;
use crate::node::Node_;
use crate::pos::Pos;
use crate::text::str_eq;

verus! {

/// A primitive type a constant can be declared with.
#[derive(Clone, Copy, Debug, PartialEq, Eq, Structural)]
pub enum Tprim {
    Tstring,
    Tint,
    Tfloat,
    Tnum,
    Tbool,
}

/// The shape of a registered constant's type: a primitive, or an applied
/// class-like type named by its globally-qualified text.
#[derive(Debug, PartialEq)]
pub enum Ty_ {
    Tprim(Tprim),
    Tapply(Pos, String),
}

/// A registered constant's type, tagged with the source position of the
/// hint it came from.
#[derive(Debug, PartialEq)]
pub struct Ty {
    pub reason: Pos,
    pub node: Ty_,
}

/// A string-keyed map with unique keys and last-write-wins insertion.
#[derive(Debug)]
pub struct SMap<T> {
    entries: Vec<(String, T)>,
}

impl<T> View for SMap<T> {
    type V = Map<Seq<char>, T>;

    closed spec fn view(&self) -> Map<Seq<char>, T> {
        SMap::<T>::entries_map(self.entries@)
    }
}

impl<T> SMap<T> {
    /// The mapping an entry sequence denotes: later entries overwrite
    /// earlier ones.
    pub closed spec fn entries_map(s: Seq<(String, T)>) -> Map<Seq<char>, T>
        decreases s.len(),
    {
        if s.len() == 0 {
            Map::empty()
        } else {
            Self::entries_map(s.drop_last()).insert(s.last().0@, s.last().1)
        }
    }

    /// No two entries share a key.
    pub closed spec fn wf(self) -> bool {
        forall|i: int, j: int|
            0 <= i < j < self.entries@.len() ==> (#[trigger] self.entries@[i]).0@ != (
            #[trigger] self.entries@[j]).0@
    }

    proof fn lemma_contains(s: Seq<(String, T)>, k: Seq<char>)
        ensures
            Self::entries_map(s).contains_key(k) <==> exists|i: int|
                0 <= i < s.len() && (#[trigger] s[i]).0@ == k,
        decreases s.len(),
    {
        if s.len() > 0 {
            Self::lemma_contains(s.drop_last(), k);
            if s.last().0@ == k {
                assert(s[s.len() - 1].0@ == k);
            } else {
                if Self::entries_map(s).contains_key(k) {
                    let i = choose|i: int|
                        0 <= i < s.drop_last().len() && (#[trigger] s.drop_last()[i]).0@ == k;
                    assert(s[i].0@ == k);
                }
                if exists|i: int| 0 <= i < s.len() && (#[trigger] s[i]).0@ == k {
                    let i = choose|i: int| 0 <= i < s.len() && (#[trigger] s[i]).0@ == k;
                    assert(i < s.len() - 1);
                    assert(s.drop_last()[i].0@ == k);
                }
            }
        }
    }

    proof fn lemma_value(s: Seq<(String, T)>, i: int)
        requires
            0 <= i < s.len(),
            forall|j: int| i < j < s.len() ==> (#[trigger] s[j]).0@ != s[i].0@,
        ensures
            Self::entries_map(s).contains_key(s[i].0@),
            Self::entries_map(s)[s[i].0@] == s[i].1,
        decreases s.len(),
    {
        if i == s.len() - 1 {
        } else {
            assert(s.drop_last()[i] == s[i]);
            Self::lemma_value(s.drop_last(), i);
        }
    }

    proof fn lemma_update(s: Seq<(String, T)>, i: int, p: (String, T))
        requires
            0 <= i < s.len(),
            s[i].0@ == p.0@,
            forall|a: int, b: int|
                0 <= a < b < s.len() ==> (#[trigger] s[a]).0@ != (#[trigger] s[b]).0@,
        ensures
            Self::entries_map(s.update(i, p)) == Self::entries_map(s).insert(p.0@, p.1),
        decreases s.len(),
    {
        let t = s.update(i, p);
        if i == s.len() - 1 {
            assert(t.drop_last() =~= s.drop_last());
            assert(t.last() == p);
            assert(Self::entries_map(s.drop_last()).insert(p.0@, p.1) =~= Self::entries_map(
                s.drop_last(),
            ).insert(s.last().0@, s.last().1).insert(p.0@, p.1));
        } else {
            assert(t.drop_last() =~= s.drop_last().update(i, p));
            assert(t.last() == s.last());
            assert(s.drop_last()[i] == s[i]);
            Self::lemma_update(s.drop_last(), i, p);
            assert(s.last().0@ != p.0@);
            assert(Self::entries_map(s.drop_last()).insert(p.0@, p.1).insert(
                s.last().0@,
                s.last().1,
            ) =~= Self::entries_map(s.drop_last()).insert(s.last().0@, s.last().1).insert(
                p.0@,
                p.1,
            ));
        }
    }

    proof fn lemma_len(s: Seq<(String, T)>)
        requires
            forall|a: int, b: int|
                0 <= a < b < s.len() ==> (#[trigger] s[a]).0@ != (#[trigger] s[b]).0@,
        ensures
            Self::entries_map(s).dom().finite(),
            Self::entries_map(s).dom().len() == s.len(),
        decreases s.len(),
    {
        if s.len() > 0 {
            Self::lemma_len(s.drop_last());
            Self::lemma_contains(s.drop_last(), s.last().0@);
            assert(forall|i: int|
                0 <= i < s.drop_last().len() ==> (#[trigger] s.drop_last()[i]) == s[i]);
            assert(!Self::entries_map(s.drop_last()).contains_key(s.last().0@));
        }
    }

    /// An empty map.
    pub fn new() -> (r: Self)
        ensures
            r@ == Map::<Seq<char>, T>::empty(),
            r.wf(),
    {
        SMap { entries: Vec::new() }
    }

    /// Binds `key` to `value`, overwriting any previous binding of `key`.
    pub fn insert(&mut self, key: String, value: T)
        requires
            old(self).wf(),
        ensures
            final(self).wf(),
            final(self)@ == old(self)@.insert(key@, value),
    {
        let n = self.entries.len();
        let mut i: usize = 0;
        while i < n
            invariant
                i <= n,
                n == self.entries@.len(),
                *self == *old(self),
                self.wf(),
                forall|k: int| 0 <= k < i ==> (#[trigger] self.entries@[k]).0@ != key@,
            decreases n - i,
        {
            let found = str_eq(self.entries[i].0.as_str(), key.as_str());
            if found {
                proof {
                    SMap::<T>::lemma_update(self.entries@, i as int, (key, value));
                }
                self.entries[i] = (key, value);
                proof {
                    let s_new = self.entries@;
                    let s_old = old(self).entries@;
                    assert(forall|k: int|
                        0 <= k < s_new.len() ==> (#[trigger] s_new[k]).0@ == s_old[k].0@);
                }
                return;
            }
            i = i + 1;
        }
        self.entries.push((key, value));
        proof {
            let s = self.entries@;
            assert(s.drop_last() =~= old(self).entries@);
            assert(Self::entries_map(s) == old(self)@.insert(key@, value));
        }
    }

    /// The value bound to `key`, if any.
    pub fn get(&self, key: &str) -> (r: Option<&T>)
        requires
            self.wf(),
        ensures
            self@.contains_key(key@) ==> (r matches Some(v) && *v == self@[key@]),
            !self@.contains_key(key@) ==> r is None,
    {
        let n = self.entries.len();
        let mut i: usize = 0;
        while i < n
            invariant
                i <= n,
                n == self.entries@.len(),
                self.wf(),
                forall|k: int| 0 <= k < i ==> (#[trigger] self.entries@[k]).0@ != key@,
            decreases n - i,
        {
            let pair = &self.entries[i];
            if str_eq(pair.0.as_str(), key) {
                proof {
                    SMap::<T>::lemma_value(self.entries@, i as int);
                }
                return Some(&pair.1);
            }
            i = i + 1;
        }
        proof {
            SMap::<T>::lemma_contains(self.entries@, key@);
        }
        None
    }

    /// How many keys are bound.
    pub fn len(&self) -> (n: usize)
        requires
            self.wf(),
        ensures
            n == self@.dom().len(),
    {
        proof {
            SMap::<T>::lemma_len(self.entries@);
        }
        self.entries.len()
    }
}

/// The per-file declaration table: classes, functions, type aliases and
/// constants, each keyed by fully-qualified name.
#[derive(Debug)]
pub struct Decls {
    pub classes: SMap<Node_>,
    pub funs: SMap<Node_>,
    pub typedefs: SMap<Node_>,
    pub consts: SMap<Ty>,
}

impl Decls {
    /// All four sub-maps are well formed.
    pub open spec fn wf(self) -> bool {
        self.classes.wf() && self.funs.wf() && self.typedefs.wf() && self.consts.wf()
    }
}

/// A declaration table with nothing registered.
pub fn empty_decls() -> (d: Decls)
    ensures
        d.wf(),
        d.classes@ == Map::<Seq<char>, Node_>::empty(),
        d.funs@ == Map::<Seq<char>, Node_>::empty(),
        d.typedefs@ == Map::<Seq<char>, Node_>::empty(),
        d.consts@ == Map::<Seq<char>, Ty>::empty(),
{
    Decls { classes: SMap::new(), funs: SMap::new(), typedefs: SMap::new(), consts: SMap::new() }
}

} // verus!
