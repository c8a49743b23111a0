//! Source spans with two physical encodings.
//!
//! A position records a file and a start and end point, each point being a
//! line number, the byte offset of that line's start ("bol"), and the
//! absolute byte offset ("cnum").  Points whose components all fit in 32 bits
//! are stored in a compact form; anything larger falls back to a boxed, wide
//! form.  Construction always tries the compact form first.
//!
//! Equality and ordering of positions go by file identity and the two
//! absolute offsets only, never by line or column.

use vstd::prelude::*;
use vstd::string::StringExecFns;
use crate::text::{cmp_chars, cmp_nat, dec_digits, str_compare, usize_to_dec_string};

verus! {

/// Root under which a file path is interpreted.
#[derive(Clone, Copy, Debug, PartialEq, Eq, Structural)]
pub enum Prefix {
    Root,
    Hhi,
    Dummy,
    Tmp,
}

/// The rank used to order prefixes, in declaration order.
pub open spec fn prefix_rank(p: Prefix) -> nat {
    match p {
        Prefix::Root => 0,
        Prefix::Hhi => 1,
        Prefix::Dummy => 2,
        Prefix::Tmp => 3,
    }
}

/// The display label of a prefix.
pub open spec fn prefix_label(p: Prefix) -> Seq<char> {
    match p {
        Prefix::Root => "root"@,
        Prefix::Hhi => "hhi"@,
        Prefix::Dummy => "dummy"@,
        Prefix::Tmp => "tmp"@,
    }
}

/// A file identity: a prefix and a path relative to it.
#[derive(Debug)]
pub struct RelativePath {
    prefix: Prefix,
    path: String,
}

/// Two file identities denote the same file: same prefix and the same path
/// text.
pub open spec fn file_eq(a: RelativePath, b: RelativePath) -> bool {
    a.spec_prefix() == b.spec_prefix() && a.spec_path() == b.spec_path()
}

/// The display form of a file identity: the prefix label, a `|` separator,
/// and the path.
pub open spec fn file_text(a: RelativePath) -> Seq<char> {
    prefix_label(a.spec_prefix()) + "|"@ + a.spec_path()
}

impl RelativePath {
    /// The prefix of this file identity.
    pub closed spec fn spec_prefix(self) -> Prefix {
        self.prefix
    }

    /// The path text of this file identity.
    pub closed spec fn spec_path(self) -> Seq<char> {
        self.path@
    }

    pub fn make(prefix: Prefix, path: String) -> (r: RelativePath)
        ensures
            r.spec_prefix() == prefix,
            r.spec_path() == path@,
    {
        RelativePath { prefix, path }
    }

    pub fn prefix(&self) -> (p: Prefix)
        ensures
            p == self.spec_prefix(),
    {
        self.prefix
    }

    pub fn path_str(&self) -> (s: &str)
        ensures
            s@ == self.spec_path(),
    {
        self.path.as_str()
    }

    /// A file identity is empty when its path has no characters.
    pub fn is_empty(&self) -> (r: bool)
        ensures
            r == (self.spec_path().len() == 0),
    {
        self.path.as_str().is_empty()
    }

    /// The display form: prefix label, `|`, path.
    pub fn text(&self) -> (s: String)
        ensures
            s@ == file_text(*self),
    {
        let mut s = match self.prefix {
            Prefix::Root => String::from_str("root"),
            Prefix::Hhi => String::from_str("hhi"),
            Prefix::Dummy => String::from_str("dummy"),
            Prefix::Tmp => String::from_str("tmp"),
        };
        s.append("|");
        s.append(self.path.as_str());
        s
    }
}

impl Clone for RelativePath {
    fn clone(&self) -> (r: Self)
        ensures
            r == *self,
    {
        RelativePath { prefix: self.prefix, path: self.path.clone() }
    }
}

impl PartialEq for RelativePath {
    fn eq(&self, other: &Self) -> (r: bool) {
        let prefix_same = match (self.prefix, other.prefix) {
            (Prefix::Root, Prefix::Root) => true,
            (Prefix::Hhi, Prefix::Hhi) => true,
            (Prefix::Dummy, Prefix::Dummy) => true,
            (Prefix::Tmp, Prefix::Tmp) => true,
            _ => false,
        };
        prefix_same && self.path == other.path
    }
}

impl vstd::std_specs::cmp::PartialEqSpecImpl for RelativePath {
    open spec fn obeys_eq_spec() -> bool {
        true
    }

    open spec fn eq_spec(&self, other: &Self) -> bool {
        file_eq(*self, *other)
    }
}

/// Whether a point's components fit the compact encoding.
pub open spec fn small_fits(lnum: nat, bol: nat, cnum: nat) -> bool {
    lnum <= 0xFFFF_FFFF && bol <= 0xFFFF_FFFF && cnum <= 0xFFFF_FFFF && bol <= cnum
}

/// Compact point: line, beginning-of-line offset and absolute offset, each
/// held in 32 bits.
#[derive(Clone, Copy, Debug)]
struct FilePosSmall {
    lnum: u32,
    bol: u32,
    cnum: u32,
}

impl FilePosSmall {
    #[verifier::type_invariant]
    spec fn inv(self) -> bool {
        self.bol <= self.cnum
    }

    fn make_dummy() -> (p: FilePosSmall)
        ensures
            p.lnum == 0 && p.bol == 0 && p.cnum == 0,
    {
        FilePosSmall { lnum: 0, bol: 0, cnum: 0 }
    }

    fn is_dummy(&self) -> (r: bool)
        ensures
            r == (self.lnum == 0 && self.bol == 0 && self.cnum == 0),
    {
        self.lnum == 0 && self.bol == 0 && self.cnum == 0
    }

    fn from_lnum_bol_cnum(lnum: usize, bol: usize, cnum: usize) -> (r: Option<FilePosSmall>)
        ensures
            r is Some <==> small_fits(lnum as nat, bol as nat, cnum as nat),
            r matches Some(p) ==> p.lnum == lnum && p.bol == bol && p.cnum == cnum,
    {
        if lnum <= 0xFFFF_FFFF && bol <= 0xFFFF_FFFF && cnum <= 0xFFFF_FFFF && bol <= cnum {
            Some(FilePosSmall { lnum: lnum as u32, bol: bol as u32, cnum: cnum as u32 })
        } else {
            None
        }
    }

    fn from_line_column_offset(line: usize, col: usize, offset: usize) -> (r: Option<FilePosSmall>)
        requires
            col <= offset,
        ensures
            r is Some <==> small_fits(line as nat, (offset - col) as nat, offset as nat),
            r matches Some(p) ==> p.lnum == line && p.bol == offset - col && p.cnum == offset,
    {
        Self::from_lnum_bol_cnum(line, offset - col, offset)
    }

    fn offset(&self) -> (r: usize)
        ensures
            r == self.cnum,
    {
        self.cnum as usize
    }
}

/// Wide point: the same three components with no size limit.
#[derive(Clone, Copy, Debug)]
struct FilePosLarge {
    lnum: usize,
    bol: usize,
    cnum: usize,
}

impl FilePosLarge {
    fn from_lnum_bol_cnum(lnum: usize, bol: usize, cnum: usize) -> (p: FilePosLarge)
        ensures
            p.lnum == lnum && p.bol == bol && p.cnum == cnum,
    {
        FilePosLarge { lnum, bol, cnum }
    }

    fn from_line_column_offset(line: usize, col: usize, offset: usize) -> (p: FilePosLarge)
        requires
            col <= offset,
        ensures
            p.lnum == line && p.bol == offset - col && p.cnum == offset,
    {
        FilePosLarge { lnum: line, bol: offset - col, cnum: offset }
    }

    fn offset(&self) -> (r: usize)
        ensures
            r == self.cnum,
    {
        self.cnum
    }
}

#[derive(Debug)]
#[allow(inconsistent_fields)]
enum PosImpl {
    Small { file: RelativePath, start: FilePosSmall, end: FilePosSmall },
    Large { file: RelativePath, start: Box<FilePosLarge>, end: Box<FilePosLarge> },
}

/// A source span: a file and its start and end points.
#[derive(Debug)]
pub struct Pos(PosImpl);

impl Pos {
    /// The file this span lies in.
    pub closed spec fn spec_file(self) -> RelativePath {
        match self.0 {
            PosImpl::Small { file, .. } => file,
            PosImpl::Large { file, .. } => file,
        }
    }

    /// The start point as (line, beginning-of-line offset, absolute offset).
    pub closed spec fn spec_start(self) -> (nat, nat, nat) {
        match self.0 {
            PosImpl::Small { start, .. } => (start.lnum as nat, start.bol as nat, start.cnum as nat),
            PosImpl::Large { start, .. } => (start.lnum as nat, start.bol as nat, start.cnum as nat),
        }
    }

    /// The end point as (line, beginning-of-line offset, absolute offset).
    pub closed spec fn spec_end(self) -> (nat, nat, nat) {
        match self.0 {
            PosImpl::Small { end, .. } => (end.lnum as nat, end.bol as nat, end.cnum as nat),
            PosImpl::Large { end, .. } => (end.lnum as nat, end.bol as nat, end.cnum as nat),
        }
    }

    /// Whether this span is held in the compact encoding.
    pub closed spec fn is_small(self) -> bool {
        self.0 is Small
    }

    /// The absolute start offset.
    pub open spec fn spec_start_cnum(self) -> nat {
        self.spec_start().2
    }

    /// The absolute end offset.
    pub open spec fn spec_end_cnum(self) -> nat {
        self.spec_end().2
    }

    /// The dummy span: compact form, empty file name, both points at zero.
    pub open spec fn spec_is_none(self) -> bool {
        &&& self.is_small()
        &&& self.spec_start() == (0nat, 0nat, 0nat)
        &&& self.spec_end() == (0nat, 0nat, 0nat)
        &&& self.spec_file().spec_path().len() == 0
    }

    pub fn make_none() -> (r: Self)
        ensures
            r.spec_is_none(),
            r.spec_file().spec_prefix() == Prefix::Dummy,
    {
        Pos(
            PosImpl::Small {
                file: RelativePath::make(Prefix::Dummy, String::new()),
                start: FilePosSmall::make_dummy(),
                end: FilePosSmall::make_dummy(),
            },
        )
    }

    pub fn is_none(&self) -> (r: bool)
        ensures
            r == self.spec_is_none(),
    {
        match &self.0 {
            PosImpl::Small { file, start, end } => {
                start.is_dummy() && end.is_dummy() && file.is_empty()
            },
            _ => false,
        }
    }

    pub fn filename(&self) -> (r: &RelativePath)
        ensures
            *r == self.spec_file(),
    {
        match &self.0 {
            PosImpl::Small { file, .. } => file,
            PosImpl::Large { file, .. } => file,
        }
    }

    /// Builds the span from two (line, beginning-of-line offset, absolute
    /// offset) triples, compactly when both fit.
    pub fn from_lnum_bol_cnum(
        file: RelativePath,
        start: (usize, usize, usize),
        end: (usize, usize, usize),
    ) -> (r: Self)
        ensures
            r.spec_file() == file,
            r.spec_start() == (start.0 as nat, start.1 as nat, start.2 as nat),
            r.spec_end() == (end.0 as nat, end.1 as nat, end.2 as nat),
            r.is_small() == (small_fits(start.0 as nat, start.1 as nat, start.2 as nat)
                && small_fits(end.0 as nat, end.1 as nat, end.2 as nat)),
    {
        let (start_line, start_bol, start_cnum) = start;
        let (end_line, end_bol, end_cnum) = end;
        let small_start = FilePosSmall::from_lnum_bol_cnum(start_line, start_bol, start_cnum);
        let small_end = FilePosSmall::from_lnum_bol_cnum(end_line, end_bol, end_cnum);
        match (small_start, small_end) {
            (Some(s), Some(e)) => Pos(PosImpl::Small { file, start: s, end: e }),
            _ => {
                let s = Box::new(
                    FilePosLarge::from_lnum_bol_cnum(start_line, start_bol, start_cnum),
                );
                let e = Box::new(FilePosLarge::from_lnum_bol_cnum(end_line, end_bol, end_cnum));
                Pos(PosImpl::Large { file, start: s, end: e })
            },
        }
    }

    /// Builds a single-line span from a line, a column range, and the
    /// absolute offset of the range's start.
    pub fn from_line_cols_offset(
        file: RelativePath,
        line: usize,
        cols: core::ops::Range<usize>,
        start_offset: usize,
    ) -> (r: Self)
        requires
            cols.start <= cols.end,
            cols.start <= start_offset,
            start_offset + (cols.end - cols.start) <= usize::MAX,
        ensures
            r.spec_file() == file,
            r.spec_start() == (
                line as nat,
                (start_offset - cols.start) as nat,
                start_offset as nat,
            ),
            r.spec_end() == (
                line as nat,
                (start_offset - cols.start) as nat,
                (start_offset + cols.end - cols.start) as nat,
            ),
            r.is_small() == (small_fits(
                line as nat,
                (start_offset - cols.start) as nat,
                start_offset as nat,
            ) && small_fits(
                line as nat,
                (start_offset - cols.start) as nat,
                (start_offset + cols.end - cols.start) as nat,
            )),
    {
        let col_start = cols.start;
        let col_end = cols.end;
        let end_offset = start_offset + (col_end - col_start);
        let small_start = FilePosSmall::from_line_column_offset(line, col_start, start_offset);
        let small_end = FilePosSmall::from_line_column_offset(line, col_end, end_offset);
        match (small_start, small_end) {
            (Some(s), Some(e)) => Pos(PosImpl::Small { file, start: s, end: e }),
            _ => {
                let s = Box::new(
                    FilePosLarge::from_line_column_offset(line, col_start, start_offset),
                );
                let e = Box::new(FilePosLarge::from_line_column_offset(line, col_end, end_offset));
                Pos(PosImpl::Large { file, start: s, end: e })
            },
        }
    }

    fn small_to_large_file_pos(p: &FilePosSmall) -> (r: FilePosLarge)
        ensures
            r.lnum == p.lnum && r.bol == p.bol && r.cnum == p.cnum,
    {
        FilePosLarge { lnum: p.lnum as usize, bol: p.bol as usize, cnum: p.cnum as usize }
    }

    /// The span from the start of `x1` to the end of `x2`, taking `x1`'s
    /// file; no ordering or same-file check is made.
    pub fn btw_nocheck(x1: Self, x2: Self) -> (r: Self)
        ensures
            r.spec_file() == x1.spec_file(),
            r.spec_start() == x1.spec_start(),
            r.spec_end() == x2.spec_end(),
            r.is_small() == (x1.is_small() && x2.is_small()),
    {
        let inner = match (x1.0, x2.0) {
            (PosImpl::Small { file, start, .. }, PosImpl::Small { end, .. }) => {
                PosImpl::Small { file, start, end }
            },
            (PosImpl::Large { file, start, .. }, PosImpl::Large { end, .. }) => {
                PosImpl::Large { file, start, end }
            },
            (PosImpl::Small { file, start, .. }, PosImpl::Large { end, .. }) => {
                PosImpl::Large {
                    file,
                    start: Box::new(Self::small_to_large_file_pos(&start)),
                    end,
                }
            },
            (PosImpl::Large { file, start, .. }, PosImpl::Small { end, .. }) => {
                PosImpl::Large {
                    file,
                    start,
                    end: Box::new(Self::small_to_large_file_pos(&end)),
                }
            },
        };
        Pos(inner)
    }

    /// Joins two ordered spans of the same file into their encompassing
    /// span.  Fails on spans from different files and on spans whose ends
    /// are out of order.
    pub fn btw(x1: &Self, x2: &Self) -> (r: Result<Self, String>)
        ensures
            ({
                if !file_eq(x1.spec_file(), x2.spec_file()) {
                    r matches Err(m) && m@ == "Position in separate files "@ + file_text(
                        x1.spec_file(),
                    ) + " and "@ + file_text(x2.spec_file())
                } else if x1.spec_end_cnum() > x2.spec_end_cnum() {
                    r matches Err(m) && m@ == "btw: invalid positions"@ + dec_digits(
                        x1.spec_end_cnum(),
                    ) + "and"@ + dec_digits(x2.spec_end_cnum())
                } else {
                    r matches Ok(p) && p.spec_file() == x1.spec_file() && p.spec_start()
                        == x1.spec_start() && p.spec_end() == x2.spec_end() && p.is_small() == (
                    x1.is_small() && x2.is_small())
                }
            }),
    {
        if x1.filename() != x2.filename() {
            let mut m = String::from_str("Position in separate files ");
            let t1 = x1.filename().text();
            m.append(t1.as_str());
            m.append(" and ");
            let t2 = x2.filename().text();
            m.append(t2.as_str());
            Err(m)
        } else if x1.end_cnum() > x2.end_cnum() {
            let mut m = String::from_str("btw: invalid positions");
            let d1 = usize_to_dec_string(x1.end_cnum());
            m.append(d1.as_str());
            m.append("and");
            let d2 = usize_to_dec_string(x2.end_cnum());
            m.append(d2.as_str());
            Err(m)
        } else {
            Ok(Self::btw_nocheck(x1.clone(), x2.clone()))
        }
    }

    pub fn end_cnum(&self) -> (r: usize)
        ensures
            r as nat == self.spec_end_cnum(),
    {
        match &self.0 {
            PosImpl::Small { end, .. } => end.offset(),
            PosImpl::Large { end, .. } => end.offset(),
        }
    }

    pub fn start_cnum(&self) -> (r: usize)
        ensures
            r as nat == self.spec_start_cnum(),
    {
        match &self.0 {
            PosImpl::Small { start, .. } => start.offset(),
            PosImpl::Large { start, .. } => start.offset(),
        }
    }

    /// The total order on spans: by file prefix rank, then path text, then
    /// start offset, then end offset.  Line and column never take part.
    pub open spec fn spec_compare(p1: Pos, p2: Pos) -> core::cmp::Ordering {
        let c1 = cmp_nat(
            prefix_rank(p1.spec_file().spec_prefix()),
            prefix_rank(p2.spec_file().spec_prefix()),
        );
        let c2 = cmp_chars(p1.spec_file().spec_path(), p2.spec_file().spec_path());
        let c3 = cmp_nat(p1.spec_start_cnum(), p2.spec_start_cnum());
        let c4 = cmp_nat(p1.spec_end_cnum(), p2.spec_end_cnum());
        if c1 != core::cmp::Ordering::Equal {
            c1
        } else if c2 != core::cmp::Ordering::Equal {
            c2
        } else if c3 != core::cmp::Ordering::Equal {
            c3
        } else {
            c4
        }
    }

    pub fn compare(p1: &Pos, p2: &Pos) -> (o: core::cmp::Ordering)
        ensures
            o == Self::spec_compare(*p1, *p2),
    {
        let r1 = prefix_rank_exec(p1.filename().prefix());
        let r2 = prefix_rank_exec(p2.filename().prefix());
        if r1 < r2 {
            return core::cmp::Ordering::Less;
        }
        if r2 < r1 {
            return core::cmp::Ordering::Greater;
        }
        let c2 = str_compare(p1.filename().path_str(), p2.filename().path_str());
        if !matches!(c2, core::cmp::Ordering::Equal) {
            return c2;
        }
        let s1 = p1.start_cnum();
        let s2 = p2.start_cnum();
        if s1 < s2 {
            return core::cmp::Ordering::Less;
        }
        if s2 < s1 {
            return core::cmp::Ordering::Greater;
        }
        let e1 = p1.end_cnum();
        let e2 = p2.end_cnum();
        if e1 < e2 {
            core::cmp::Ordering::Less
        } else if e2 < e1 {
            core::cmp::Ordering::Greater
        } else {
            core::cmp::Ordering::Equal
        }
    }
}

fn prefix_rank_exec(p: Prefix) -> (r: u32)
    ensures
        r as nat == prefix_rank(p),
{
    match p {
        Prefix::Root => 0,
        Prefix::Hhi => 1,
        Prefix::Dummy => 2,
        Prefix::Tmp => 3,
    }
}

impl Clone for Pos {
    fn clone(&self) -> (r: Self)
        ensures
            r == *self,
    {
        let inner = match &self.0 {
            PosImpl::Small { file, start, end } => {
                PosImpl::Small { file: file.clone(), start: *start, end: *end }
            },
            PosImpl::Large { file, start, end } => {
                PosImpl::Large { file: file.clone(), start: Box::new(**start), end: Box::new(**end) }
            },
        };
        Pos(inner)
    }
}

/// Two spans are equal when they lie in the same file and share both
/// absolute offsets; lines and columns are not compared.
pub open spec fn pos_eq(a: Pos, b: Pos) -> bool {
    file_eq(a.spec_file(), b.spec_file()) && a.spec_start_cnum() == b.spec_start_cnum()
        && a.spec_end_cnum() == b.spec_end_cnum()
}

impl PartialEq for Pos {
    fn eq(&self, other: &Self) -> (r: bool) {
        self.filename() == other.filename() && self.start_cnum() == other.start_cnum()
            && self.end_cnum() == other.end_cnum()
    }
}

impl vstd::std_specs::cmp::PartialEqSpecImpl for Pos {
    open spec fn obeys_eq_spec() -> bool {
        true
    }

    open spec fn eq_spec(&self, other: &Self) -> bool {
        pos_eq(*self, *other)
    }
}

} // verus!
