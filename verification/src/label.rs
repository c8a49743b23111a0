//! Bytecode labels and their generator.
//!
//! A label is either numbered (`Regular` or `DefaultArg`) or carries a name.
//! The generator hands out consecutive identifier numbers.

use vstd::prelude::*;
use vstd::string::StringExecFns;
use crate::text::{dec_digits, usize_to_dec_string};

verus! {

/// Identifier number carried by a numbered label.
pub type Id = usize;

#[derive(Debug, PartialEq)]
pub enum Label {
    Regular(Id),
    DefaultArg(Id),
    Named(String),
}

/// Failure of an operation that only numbered labels support.
#[derive(Debug, PartialEq)]
pub enum Error {
    Id,
    OptionMap,
    MapOp,
}

impl Label {
    /// The identifier number of a numbered label; named labels have none.
    pub fn id(&self) -> (r: Result<Id, Error>)
        ensures
            match *self {
                Label::Regular(id) => r == Ok::<Id, Error>(id),
                Label::DefaultArg(id) => r == Ok::<Id, Error>(id),
                Label::Named(_) => r == Err::<Id, Error>(Error::Id),
            },
    {
        match self {
            Label::Regular(id) => Ok(*id),
            Label::DefaultArg(id) => Ok(*id),
            Label::Named(_) => Err(Error::Id),
        }
    }

    /// Applies `f` to the identifier number, keeping the label's kind; named
    /// labels are rejected.
    pub fn map<F: FnOnce(Id) -> Id>(&self, f: F) -> (r: Result<Label, Error>)
        requires
            match *self {
                Label::Regular(id) => call_requires(f, (id,)),
                Label::DefaultArg(id) => call_requires(f, (id,)),
                Label::Named(_) => true,
            },
        ensures
            match *self {
                Label::Regular(id) => r matches Ok(l) && l matches Label::Regular(j)
                    && call_ensures(f, (id,), j),
                Label::DefaultArg(id) => r matches Ok(l) && l matches Label::DefaultArg(j)
                    && call_ensures(f, (id,), j),
                Label::Named(_) => r == Err::<Label, Error>(Error::MapOp),
            },
    {
        match self {
            Label::Regular(id) => Ok(Label::Regular(f(*id))),
            Label::DefaultArg(id) => Ok(Label::DefaultArg(f(*id))),
            Label::Named(_) => Err(Error::MapOp),
        }
    }
}

impl Error {
    /// A readable description of the failure.
    pub fn message(&self) -> (s: String)
        ensures
            s@ == "Label should be rewritten before this point"@ + match *self {
                Error::Id => " (id)"@,
                Error::OptionMap => " (option_map)"@,
                Error::MapOp => " (map)"@,
            },
    {
        let mut msg = String::from_str("Label should be rewritten before this point");
        match self {
            Error::Id => msg.append(" (id)"),
            Error::OptionMap => msg.append(" (option_map)"),
            Error::MapOp => msg.append(" (map)"),
        }
        msg
    }
}

/// Generator of fresh label identifier numbers.
pub struct Gen {
    next_id: Id,
}

impl Gen {
    /// The identifier number the generator will hand out next.
    pub closed spec fn spec_next_id(self) -> Id {
        self.next_id
    }

    /// The next fresh label, as a regular label.
    pub fn next_regular(&mut self) -> (l: Label)
        requires
            old(self).spec_next_id() < usize::MAX,
        ensures
            final(self).spec_next_id() == old(self).spec_next_id() + 1,
            l == Label::Regular(old(self).spec_next_id()),
    {
        Label::Regular(self.get_next())
    }

    /// The next fresh label, as a default-argument label.
    pub fn next_default_arg(&mut self) -> (l: Label)
        requires
            old(self).spec_next_id() < usize::MAX,
        ensures
            final(self).spec_next_id() == old(self).spec_next_id() + 1,
            l == Label::DefaultArg(old(self).spec_next_id()),
    {
        Label::DefaultArg(self.get_next())
    }

    /// The next fresh label, as a named label `resumeN` where `N` is the
    /// fresh identifier number.
    pub fn next_resume(&mut self) -> (l: Label)
        requires
            old(self).spec_next_id() < usize::MAX,
        ensures
            final(self).spec_next_id() == old(self).spec_next_id() + 1,
            l matches Label::Named(s) && s@ == "resume"@ + dec_digits(
                old(self).spec_next_id() as nat,
            ),
    {
        let id = self.get_next();
        let mut s = String::from_str("resume");
        let digits = usize_to_dec_string(id);
        s.append(digits.as_str());
        Label::Named(s)
    }

    fn get_next(&mut self) -> (id: Id)
        requires
            old(self).spec_next_id() < usize::MAX,
        ensures
            final(self).spec_next_id() == old(self).spec_next_id() + 1,
            id == old(self).spec_next_id(),
    {
        let curr_id = self.next_id;
        self.next_id = curr_id + 1;
        curr_id
    }
}

impl Default for Gen {
    /// A generator whose first label gets identifier number zero.
    fn default() -> (g: Gen)
        ensures
            g.spec_next_id() == 0,
    {
        Gen { next_id: 0 }
    }
}

} // verus!
