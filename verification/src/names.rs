//! Name resolution: XHP identifier mangling and fully-qualified name
//! assembly from name fragments and a namespace context.

use vstd::prelude::*;
use vstd::string::{StrSliceExecFns, StringExecFns};
use crate::node::Node_;
use crate::text::{starts_with, str_starts_with};

verus! {

/// Compiler-synthesised identifiers that mangling leaves untouched.
pub open spec fn ignore_id(s: Seq<char>) -> bool {
    starts_with(s, "class@anonymous"@) || starts_with(s, "Closure$"@)
}

/// Character-wise mangling: `:` becomes `__`, `-` becomes `_`, everything
/// else stays.
pub open spec fn mangle_chars(s: Seq<char>) -> Seq<char>
    decreases s.len(),
{
    if s.len() == 0 {
        Seq::empty()
    } else {
        (if s[0] == ':' {
            seq!['_', '_']
        } else if s[0] == '-' {
            seq!['_']
        } else {
            seq![s[0]]
        }) + mangle_chars(s.skip(1))
    }
}

/// The mangled form of an XHP identifier: synthesised identifiers stay as
/// they are; otherwise one leading colon becomes the `xhp_` prefix and the
/// remaining characters are mangled character-wise.
pub open spec fn mangle_xhp_spec(s: Seq<char>) -> Seq<char> {
    if ignore_id(s) {
        s
    } else if s.len() > 0 && s[0] == ':' {
        "xhp_"@ + mangle_chars(s.skip(1))
    } else {
        mangle_chars(s)
    }
}

/// Mangles an XHP identifier into a plain identifier.
pub fn mangle_xhp_id(name: String) -> (r: String)
    ensures
        r@ == mangle_xhp_spec(name@),
{
    if str_starts_with(name.as_str(), "class@anonymous") || str_starts_with(
        name.as_str(),
        "Closure$",
    ) {
        return name;
    }
    let s = name.as_str();
    let len = s.unicode_len();
    let mut out: String;
    let mut i: usize;
    if len > 0 && s.get_char(0) == ':' {
        out = String::from_str("xhp_");
        i = 1;
    } else {
        out = String::new();
        i = 0;
    }
    proof {
        assert(s@.skip(0) =~= s@);
        assert(mangle_xhp_spec(name@) == out@ + mangle_chars(s@.skip(i as int)));
    }
    while i < len
        invariant
            i <= len,
            len == s@.len(),
            s@ == name@,
            mangle_xhp_spec(name@) == out@ + mangle_chars(s@.skip(i as int)),
        decreases len - i,
    {
        let ghost rest = s@.skip(i as int);
        let ghost out0 = out@;
        let c = s.get_char(i);
        if c == ':' {
            out.push('_');
            out.push('_');
            proof {
                assert(rest.skip(1) =~= s@.skip(i + 1));
                assert(mangle_chars(rest) == seq!['_', '_'] + mangle_chars(s@.skip(i + 1)));
                assert(out0 + (seq!['_', '_'] + mangle_chars(s@.skip(i + 1))) =~= out0.push(
                    '_',
                ).push('_') + mangle_chars(s@.skip(i + 1)));
            }
        } else if c == '-' {
            out.push('_');
            proof {
                assert(rest.skip(1) =~= s@.skip(i + 1));
                assert(mangle_chars(rest) == seq!['_'] + mangle_chars(s@.skip(i + 1)));
                assert(out0 + (seq!['_'] + mangle_chars(s@.skip(i + 1))) =~= out0.push('_')
                    + mangle_chars(s@.skip(i + 1)));
            }
        } else {
            out.push(c);
            proof {
                assert(rest.skip(1) =~= s@.skip(i + 1));
                assert(mangle_chars(rest) == seq![c] + mangle_chars(s@.skip(i + 1)));
                assert(out0 + (seq![c] + mangle_chars(s@.skip(i + 1))) =~= out0.push(c)
                    + mangle_chars(s@.skip(i + 1)));
            }
        }
        i = i + 1;
    }
    proof {
        assert(s@.skip(len as int) =~= Seq::<char>::empty());
        assert(out@ + Seq::<char>::empty() =~= out@);
    }
    out
}

/// `name` qualified by `ns`: the name alone under the empty namespace, else
/// the namespace, a backslash, and the name.
pub open spec fn qualify(ns: Seq<char>, name: Seq<char>) -> Seq<char> {
    if ns.len() == 0 {
        name
    } else {
        ns + seq!['\\'] + name
    }
}

/// Whether one fragment of a qualified name is acceptable at position `i`:
/// a name anywhere, a backslash only first, or a (name, backslash) pair.
pub open spec fn qn_part_ok(p: Node_, i: int) -> bool {
    match p {
        Node_::Name(_) => true,
        Node_::Backslash => i == 0,
        Node_::ListItem(b) => (*b).0 is Name && (*b).1 is Backslash,
        _ => false,
    }
}

/// Whether every fragment of a qualified name is acceptable at its position.
pub open spec fn qn_parts_ok(parts: Seq<Node_>) -> bool {
    forall|i: int| 0 <= i < parts.len() ==> qn_part_ok(#[trigger] parts[i], i)
}

/// The text one fragment contributes: a name its text, a pair its text plus
/// a backslash separator, a leading backslash nothing.
pub open spec fn qn_part_text(p: Node_) -> Seq<char> {
    match p {
        Node_::Name(s) => s@,
        Node_::ListItem(b) => match (*b).0 {
            Node_::Name(s) => s@ + seq!['\\'],
            _ => Seq::empty(),
        },
        _ => Seq::empty(),
    }
}

/// The text all fragments contribute, in order.
pub open spec fn qn_text(parts: Seq<Node_>) -> Seq<char>
    decreases parts.len(),
{
    if parts.len() == 0 {
        Seq::empty()
    } else {
        qn_text(parts.drop_last()) + qn_part_text(parts.last())
    }
}

/// Whether a qualified name is globally anchored by a leading backslash.
pub open spec fn has_leading_backslash(parts: Seq<Node_>) -> bool {
    parts.len() > 0 && parts[0] is Backslash
}

/// Whether `get_name` can resolve this node at all.
pub open spec fn get_name_ok(n: Node_) -> bool {
    match n {
        Node_::Name(_) => true,
        Node_::XhpName(_) => true,
        Node_::QualifiedName(parts) => qn_parts_ok(parts@),
        _ => false,
    }
}

/// The fully-qualified name `get_name` resolves `n` to under namespace `ns`,
/// for nodes it can resolve.
pub open spec fn get_name_spec(ns: Seq<char>, n: Node_) -> Seq<char> {
    match n {
        Node_::Name(s) => qualify(ns, s@),
        Node_::XhpName(s) => mangle_xhp_spec(s@),
        Node_::QualifiedName(parts) => if has_leading_backslash(parts@) || ns.len() == 0 {
            qn_text(parts@)
        } else {
            ns + seq!['\\'] + qn_text(parts@)
        },
        _ => Seq::empty(),
    }
}

/// Resolves a name node to a fully-qualified name string.
///
/// A plain name is qualified by the namespace; an XHP name is mangled and
/// never qualified; a qualified name is assembled from its fragments, the
/// namespace being ignored when a leading backslash anchors it.  Any other
/// node, or a malformed fragment, fails.
pub fn get_name(namespace: &str, name: &Node_) -> (r: Result<String, String>)
    ensures
        get_name_ok(*name) ==> (r matches Ok(out) && out@ == get_name_spec(namespace@, *name)),
        !get_name_ok(*name) ==> r is Err,
{
    match name {
        Node_::Name(n) => {
            if namespace.is_empty() {
                Ok(n.clone())
            } else {
                let mut out = String::from_str(namespace);
                out.append("\\");
                out.append(n.as_str());
                proof {
                    reveal_strlit("\\");
                    assert(namespace@ + "\\"@ + n@ =~= (namespace@ + "\\"@) + n@);
                    assert("\\"@ =~= seq!['\\']);
                }
                Ok(out)
            }
        },
        Node_::XhpName(n) => Ok(mangle_xhp_id(n.clone())),
        Node_::QualifiedName(parts) => qualified_name_from_parts(namespace, parts),
        _ => Err(String::from_str("Expected a name, XHP name, or qualified name")),
    }
}

fn qualified_name_from_parts(namespace: &str, parts: &Vec<Node_>) -> (r: Result<String, String>)
    ensures
        qn_parts_ok(parts@) ==> (r matches Ok(out) && out@ == (
            if has_leading_backslash(parts@) || namespace@.len() == 0 {
                qn_text(parts@)
            } else {
                namespace@ + seq!['\\'] + qn_text(parts@)
            }
        )),
        !qn_parts_ok(parts@) ==> r is Err,
{
    let mut qualified_name = String::new();
    let mut leading_backslash = false;
    let len = parts.len();
    let mut index: usize = 0;
    while index < len
        invariant
            index <= len,
            len == parts@.len(),
            qn_parts_ok(parts@.take(index as int)),
            qualified_name@ == qn_text(parts@.take(index as int)),
            leading_backslash == (index > 0 && parts@[0] is Backslash),
        decreases len - index,
    {
        let ghost prefix = parts@.take(index as int);
        let ghost q0 = qualified_name@;
        match &parts[index] {
            Node_::Name(n) => {
                qualified_name.append(n.as_str());
            },
            Node_::Backslash => {
                if index == 0 {
                    leading_backslash = true;
                } else {
                    return Err(
                        String::from_str("Expected a name, backslash, or list item"),
                    );
                }
            },
            Node_::ListItem(item) => {
                let ok = match (&item.0, &item.1) {
                    (Node_::Name(_), Node_::Backslash) => true,
                    _ => false,
                };
                if !ok {
                    return Err(String::from_str("Expected a name or backslash"));
                }
                match &item.0 {
                    Node_::Name(n) => {
                        qualified_name.append(n.as_str());
                        qualified_name.append("\\");
                        proof {
                            reveal_strlit("\\");
                            assert("\\"@ =~= seq!['\\']);
                            assert(q0 + (n@ + seq!['\\']) =~= (q0 + n@) + "\\"@);
                        }
                    },
                    _ => {
                        return Err(String::from_str("Expected a name or backslash"));
                    },
                }
            },
            _ => {
                return Err(String::from_str("Expected a name, backslash, or list item"));
            },
        }
        index = index + 1;
        proof {
            assert(parts@.take(index as int).drop_last() =~= prefix);
            assert(parts@.take(index as int).last() == parts@[index - 1]);
            assert(qn_text(parts@.take(index as int)) == qn_text(prefix) + qn_part_text(
                parts@[index - 1],
            ));
        }
    }
    proof {
        assert(parts@.take(len as int) =~= parts@);
    }
    if leading_backslash || namespace.is_empty() {
        Ok(qualified_name)
    } else {
        let mut out = String::from_str(namespace);
        out.append("\\");
        out.append(qualified_name.as_str());
        proof {
            reveal_strlit("\\");
            assert("\\"@ =~= seq!['\\']);
            assert(namespace@ + seq!['\\'] + qualified_name@ =~= (namespace@ + "\\"@)
                + qualified_name@);
        }
        Ok(out)
    }
}

} // verus!
